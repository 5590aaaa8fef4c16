use nes_emu::cpu::add_offset;
use nes_emu::cpu::decode_opcode;
use nes_emu::cpu::high_byte;
use nes_emu::cpu::kind_of;
use nes_emu::cpu::low_byte;
use nes_emu::cpu::make_word;
use nes_emu::cpu::operand_length;
use nes_emu::cpu::page_crossed;
use nes_emu::cpu::AddrMode;
use nes_emu::cpu::Cpu;
use nes_emu::cpu::Op;
use nes_emu::cpu::OpKind;

const C: u8 = 0x01;
const Z: u8 = 0x02;
const V: u8 = 0x40;
const N: u8 = 0x80;

fn cpu(a: u8, status: u8) -> Cpu {
    let mut c = Cpu::new();
    c.a = a;
    c.status = status;
    c
}

#[test]
fn registers_after_power_on() {
    let c = Cpu::new();
    assert_eq!((c.a, c.x, c.y, c.sp, c.pc, c.status), (0, 0, 0, 0xFD, 0, 0x24));
}

#[test]
fn decode_documented_opcodes() {
    let i = decode_opcode(0xA9);
    assert_eq!((i.op, i.mode, i.cycles, i.page_penalty), (Op::Lda, AddrMode::Immediate, 2, false));
    let i = decode_opcode(0xBD);
    assert_eq!((i.op, i.mode, i.cycles, i.page_penalty), (Op::Lda, AddrMode::AbsoluteX, 4, true));
    let i = decode_opcode(0xB4);
    assert_eq!((i.op, i.mode, i.cycles, i.page_penalty), (Op::Ldy, AddrMode::ZeroPageX, 4, false));
    let i = decode_opcode(0x91);
    assert_eq!((i.op, i.mode, i.cycles, i.page_penalty), (Op::Sta, AddrMode::IndirectY, 6, false));
    let i = decode_opcode(0x6C);
    assert_eq!((i.op, i.mode, i.cycles), (Op::Jmp, AddrMode::Indirect, 5));
    let i = decode_opcode(0x00);
    assert_eq!((i.op, i.mode, i.cycles), (Op::Brk, AddrMode::Implied, 7));
    let i = decode_opcode(0xFE);
    assert_eq!((i.op, i.mode, i.cycles), (Op::Inc, AddrMode::AbsoluteX, 7));
    let i = decode_opcode(0xC9);
    assert_eq!((i.op, i.mode, i.cycles), (Op::Cpa, AddrMode::Immediate, 2));
    let i = decode_opcode(0xD0);
    assert_eq!((i.op, i.mode, i.cycles), (Op::Bne, AddrMode::Relative, 2));
}

#[test]
fn decode_undocumented_opcodes() {
    let i = decode_opcode(0xA7);
    assert_eq!((i.op, i.mode, i.cycles), (Op::Lax, AddrMode::ZeroPage, 3));
    let i = decode_opcode(0x83);
    assert_eq!((i.op, i.mode, i.cycles), (Op::Sax, AddrMode::IndirectX, 6));
    let i = decode_opcode(0xDB);
    assert_eq!((i.op, i.mode, i.cycles), (Op::Dcp, AddrMode::AbsoluteY, 7));
    let i = decode_opcode(0xE3);
    assert_eq!((i.op, i.mode, i.cycles), (Op::Isc, AddrMode::IndirectX, 8));
    let i = decode_opcode(0xEB);
    assert_eq!((i.op, i.mode, i.cycles), (Op::Sbc, AddrMode::Immediate, 2));
    let i = decode_opcode(0x0C);
    assert_eq!((i.op, i.mode, i.cycles), (Op::Nop, AddrMode::Absolute, 4));
    for opcode in [0x02u8, 0x12, 0x22, 0x32, 0x42, 0x52, 0x62, 0x72, 0x92, 0xB2, 0xD2, 0xF2] {
        assert_eq!(decode_opcode(opcode).op, Op::Kil);
    }
}

#[test]
fn decode_covers_every_byte() {
    let mut documented = 0;
    for opcode in 0..=255u8 {
        let i = decode_opcode(opcode);
        assert!(i.cycles >= 2 && i.cycles <= 8);
        let undocumented = matches!(
            i.op,
            Op::Lax | Op::Sax | Op::Dcp | Op::Isc | Op::Slo | Op::Rla | Op::Sre | Op::Rra | Op::Anc
                | Op::Alr | Op::Arr | Op::Axs | Op::Xaa | Op::Ahx | Op::Shy | Op::Shx | Op::Tas
                | Op::Las | Op::Kil
        );
        let extra_nop = i.op == Op::Nop && opcode != 0xEA;
        let extra_sbc = opcode == 0xEB;
        if !undocumented && !extra_nop && !extra_sbc {
            documented += 1;
        }
    }
    assert_eq!(documented, 151);
}

#[test]
fn kinds_and_lengths() {
    assert_eq!(kind_of(Op::Lda), OpKind::Load);
    assert_eq!(kind_of(Op::Sta), OpKind::Store);
    assert_eq!(kind_of(Op::Inc), OpKind::Modify);
    assert_eq!(kind_of(Op::Tax), OpKind::Register);
    assert_eq!(kind_of(Op::Beq), OpKind::Branch);
    assert_eq!(kind_of(Op::Jsr), OpKind::Control);
    assert_eq!(kind_of(Op::Nop), OpKind::Skip);
    assert_eq!(kind_of(Op::Kil), OpKind::Halt);
    assert_eq!(operand_length(AddrMode::Implied), 0);
    assert_eq!(operand_length(AddrMode::Accumulator), 0);
    assert_eq!(operand_length(AddrMode::Immediate), 1);
    assert_eq!(operand_length(AddrMode::IndirectY), 1);
    assert_eq!(operand_length(AddrMode::Absolute), 2);
    assert_eq!(operand_length(AddrMode::Indirect), 2);
}

#[test]
fn adc_sets_carry_and_overflow() {
    // 0x50 + 0x50 = 0xA0: signed overflow, no carry
    let mut c = cpu(0x50, 0x24);
    c.adc(0x50);
    assert_eq!(c.a, 0xA0);
    assert_eq!(c.status & (C | Z | V | N), V | N);
    // 0xFF + 0x01 = 0x00: carry and zero
    let mut c = cpu(0xFF, 0x24);
    c.adc(0x01);
    assert_eq!(c.a, 0x00);
    assert_eq!(c.status & (C | Z | V | N), C | Z);
    // 0x80 + 0x80 = 0x00: carry, zero and overflow
    let mut c = cpu(0x80, 0x24);
    c.adc(0x80);
    assert_eq!(c.status & (C | Z | V | N), C | Z | V);
    // the carry is added
    let mut c = cpu(0x10, 0x24 | C);
    c.adc(0x20);
    assert_eq!(c.a, 0x31);
    assert_eq!(c.status & (C | Z | V | N), 0);
    // the decimal flag changes nothing
    let mut c = cpu(0x09, 0x24 | 0x08);
    c.adc(0x01);
    assert_eq!(c.a, 0x0A);
}

#[test]
fn sbc_borrows() {
    // 0x50 - 0x30 with carry set: 0x20, no borrow
    let mut c = cpu(0x50, 0x24 | C);
    c.sbc(0x30);
    assert_eq!(c.a, 0x20);
    assert_eq!(c.status & (C | Z | V | N), C);
    // without carry one more is taken
    let mut c = cpu(0x50, 0x24);
    c.sbc(0x30);
    assert_eq!(c.a, 0x1F);
    // 0x00 - 0x01: borrow, negative
    let mut c = cpu(0x00, 0x24 | C);
    c.sbc(0x01);
    assert_eq!(c.a, 0xFF);
    assert_eq!(c.status & (C | Z | V | N), N);
    // 0x80 - 0x01 overflows
    let mut c = cpu(0x80, 0x24 | C);
    c.sbc(0x01);
    assert_eq!(c.a, 0x7F);
    assert_eq!(c.status & (C | Z | V | N), C | V);
}

#[test]
fn compare_sets_flags() {
    let mut c = cpu(0, 0x24);
    c.compare(0x40, 0x40);
    assert_eq!(c.status & (C | Z | N), C | Z);
    c.compare(0x40, 0x41);
    assert_eq!(c.status & (C | Z | N), N);
    c.compare(0x41, 0x40);
    assert_eq!(c.status & (C | Z | N), C);
    c.compare(0x00, 0xFF);
    assert_eq!(c.status & (C | Z | N), 0);
}

#[test]
fn nz_and_flag_helpers() {
    let mut c = Cpu::new();
    c.update_nz(0);
    assert_eq!(c.status, 0x24 | Z);
    c.update_nz(0x80);
    assert_eq!(c.status, 0x24 | N);
    c.update_nz(0x7F);
    assert_eq!(c.status, 0x24);
    c.set_flag(C, true);
    assert!(c.has_flag(C));
    c.set_flag(C, false);
    assert!(!c.has_flag(C));
    assert_eq!(c.status, 0x24);
}

#[test]
fn load_operations() {
    let mut c = cpu(0b1100, 0x24);
    c.load(Op::And, 0b1010);
    assert_eq!(c.a, 0b1000);
    c.load(Op::Ora, 0b0011);
    assert_eq!(c.a, 0b1011);
    c.load(Op::Eor, 0b1111);
    assert_eq!(c.a, 0b0100);
    c.load(Op::Ldx, 0x80);
    assert_eq!((c.x, c.status & (Z | N)), (0x80, N));
    c.load(Op::Ldy, 0x00);
    assert_eq!((c.y, c.status & (Z | N)), (0x00, Z));
    c.load(Op::Lax, 0x33);
    assert_eq!((c.a, c.x), (0x33, 0x33));
    // BIT: zero from A AND value, bits 6 and 7 from the value
    let mut c = cpu(0x01, 0x24);
    c.load(Op::Bit, 0xC0);
    assert_eq!(c.status, 0x24 | Z | V | N);
    c.load(Op::Bit, 0x01);
    assert_eq!(c.status, 0x24);
    c.x = 5;
    c.load(Op::Cpx, 5);
    assert_eq!(c.status & (C | Z), C | Z);
    c.y = 4;
    c.load(Op::Cpy, 5);
    assert_eq!(c.status & (C | Z | N), N);
}

#[test]
fn undocumented_load_operations() {
    let mut c = cpu(0xFF, 0x24);
    c.load(Op::Anc, 0x80);
    assert_eq!((c.a, c.status & (C | N)), (0x80, C | N));
    let mut c = cpu(0xFF, 0x24);
    c.load(Op::Alr, 0x03);
    assert_eq!((c.a, c.status & (C | Z | N)), (0x01, C));
    // ARR: (0xFF & 0xC0) >> 1 | carry << 7 = 0xE0
    let mut c = cpu(0xFF, 0x24 | C);
    c.load(Op::Arr, 0xC0);
    assert_eq!(c.a, 0xE0);
    assert_eq!(c.status & (C | V | N), C | N);
    let mut c = cpu(0xF0, 0x24);
    c.x = 0x3C;
    c.load(Op::Axs, 0x10);
    assert_eq!((c.x, c.status & (C | Z | N)), (0x20, C));
    c.load(Op::Xaa, 0x0F);
    assert_eq!(c.a, 0x00);
    c.sp = 0xF0;
    c.load(Op::Las, 0x3C);
    assert_eq!((c.a, c.x, c.sp), (0x30, 0x30, 0x30));
}

#[test]
fn shifts_and_rotates() {
    let mut c = cpu(0, 0x24 | C);
    assert_eq!(c.modified(Op::Asl, 0x81), 0x02);
    assert_eq!(c.modified(Op::Lsr, 0x81), 0x40);
    assert_eq!(c.modified(Op::Rol, 0x81), 0x03);
    assert_eq!(c.modified(Op::Ror, 0x81), 0xC0);
    assert_eq!(c.modified(Op::Inc, 0xFF), 0x00);
    assert_eq!(c.modified(Op::Dec, 0x00), 0xFF);
    c.modify(Op::Lsr, 0x02);
    assert_eq!(c.status & (C | Z | N), 0);
    c.modify(Op::Asl, 0x80);
    assert_eq!(c.status & (C | Z | N), C | Z);
    c.modify(Op::Ror, 0x00);
    assert_eq!(c.status & (C | Z | N), N);
    c.modify(Op::Inc, 0xFF);
    assert_eq!(c.status & (Z | N), Z);
}

#[test]
fn undocumented_modify_operations() {
    // SLO: shift left, then OR into A
    let mut c = cpu(0x01, 0x24);
    c.modify(Op::Slo, 0x81);
    assert_eq!((c.a, c.status & (C | Z | N)), (0x03, C));
    // RLA: rotate left, then AND
    let mut c = cpu(0xFF, 0x24 | C);
    c.modify(Op::Rla, 0x40);
    assert_eq!((c.a, c.status & (C | N)), (0x81, N));
    // SRE: shift right, then XOR
    let mut c = cpu(0xFF, 0x24);
    c.modify(Op::Sre, 0x03);
    assert_eq!((c.a, c.status & C), (0xFE, C));
    // RRA: rotate right, then add with the bit that fell out
    let mut c = cpu(0x10, 0x24);
    c.modify(Op::Rra, 0x03);
    assert_eq!(c.a, 0x10 + 0x01 + 1);
    // DCP: decrement, then compare
    let mut c = cpu(0x10, 0x24);
    c.modify(Op::Dcp, 0x11);
    assert_eq!(c.status & (C | Z), C | Z);
    // ISC: increment, then subtract
    let mut c = cpu(0x10, 0x24 | C);
    c.modify(Op::Isc, 0x0F);
    assert_eq!((c.a, c.status & (C | Z)), (0x00, C | Z));
}

#[test]
fn register_operations() {
    let mut c = cpu(0x80, 0x24);
    c.register(Op::Tax);
    assert_eq!((c.x, c.status & N), (0x80, N));
    c.register(Op::Inx);
    assert_eq!(c.x, 0x81);
    c.register(Op::Txs);
    assert_eq!(c.sp, 0x81);
    c.y = 0;
    c.register(Op::Dey);
    assert_eq!((c.y, c.status & (Z | N)), (0xFF, N));
    c.register(Op::Iny);
    assert_eq!((c.y, c.status & (Z | N)), (0x00, Z));
    c.register(Op::Tya);
    assert_eq!(c.a, 0);
    c.register(Op::Tsx);
    assert_eq!(c.x, 0x81);
    c.register(Op::Dex);
    assert_eq!(c.x, 0x80);
    c.register(Op::Txa);
    assert_eq!(c.a, 0x80);
    c.register(Op::Tay);
    assert_eq!(c.y, 0x80);
    let mut c = Cpu::new();
    c.register(Op::Sec);
    c.register(Op::Sed);
    c.register(Op::Cli);
    assert_eq!(c.status, 0x20 | 0x08 | C);
    c.register(Op::Clc);
    c.register(Op::Cld);
    c.register(Op::Sei);
    assert_eq!(c.status, 0x24);
    c.status |= V;
    c.register(Op::Clv);
    assert_eq!(c.status, 0x24);
}

#[test]
fn branch_conditions() {
    let c = cpu(0, 0x24 | Z | C);
    assert!(c.branch_taken(Op::Beq));
    assert!(!c.branch_taken(Op::Bne));
    assert!(c.branch_taken(Op::Bcs));
    assert!(!c.branch_taken(Op::Bcc));
    assert!(c.branch_taken(Op::Bpl));
    assert!(!c.branch_taken(Op::Bmi));
    assert!(c.branch_taken(Op::Bvc));
    assert!(!c.branch_taken(Op::Bvs));
    assert!(!c.branch_taken(Op::Lda));
}

#[test]
fn stored_values() {
    let mut c = cpu(0xF0, 0x24);
    c.x = 0x3C;
    c.y = 0x55;
    assert_eq!(c.stored(Op::Sta, 0), 0xF0);
    assert_eq!(c.stored(Op::Stx, 0), 0x3C);
    assert_eq!(c.stored(Op::Sty, 0), 0x55);
    assert_eq!(c.stored(Op::Sax, 0), 0x30);
    assert_eq!(c.stored(Op::Ahx, 0x1F00), 0x30 & 0x20);
    assert_eq!(c.stored(Op::Shy, 0x0400), 0x55 & 0x05);
    assert_eq!(c.stored(Op::Shx, 0xFF00), 0x00);
}

#[test]
fn address_helpers() {
    assert_eq!(make_word(0x34, 0x12), 0x1234);
    assert_eq!(high_byte(0x1234), 0x12);
    assert_eq!(low_byte(0x1234), 0x34);
    assert!(page_crossed(0x10FF, 0x1100));
    assert!(!page_crossed(0x1100, 0x11FF));
    assert_eq!(add_offset(0x8010, 0x05), 0x8015);
    assert_eq!(add_offset(0x8010, 0xFB), 0x800B);
    assert_eq!(add_offset(0x8000, 0x80), 0x7F80);
    assert_eq!(add_offset(0xFFFF, 0x01), 0x0000);
    assert_eq!(add_offset(0x0000, 0xFF), 0xFFFF);
}
