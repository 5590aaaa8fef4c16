use nes_emu::cartridge::Cartridge;
use nes_emu::cartridge::Mirroring;
use nes_emu::cpu::AddrMode;
use nes_emu::input::ControllerButton;
use nes_emu::system::System;

/// A 32 KiB NROM image with `program` at `$8000` and the three vectors set.
fn image(program: &[u8], nmi: u16, reset: u16, irq: u16) -> Vec<u8> {
    let mut data = vec![0x4E, 0x45, 0x53, 0x1A, 2, 1, 0, 0];
    data.resize(16 + 0x8000 + 0x2000, 0);
    data[16..16 + program.len()].copy_from_slice(program);
    let vectors = 16 + 0x7FFA;
    data[vectors] = nmi as u8;
    data[vectors + 1] = (nmi >> 8) as u8;
    data[vectors + 2] = reset as u8;
    data[vectors + 3] = (reset >> 8) as u8;
    data[vectors + 4] = irq as u8;
    data[vectors + 5] = (irq >> 8) as u8;
    data
}

fn console_with(data: &[u8]) -> Box<System> {
    let mut system = Box::new(System::new());
    system.load_cartridge(Cartridge::load_from_bytes(data).unwrap());
    system
}

fn console(program: &[u8]) -> Box<System> {
    console_with(&image(program, 0x9000, 0x8000, 0xA000))
}

fn position(system: &System) -> u64 {
    (system.ppu.frame * 262 + system.ppu.scanline as u64) * 341 + system.ppu.cycle as u64
}

const C: u8 = 0x01;
const Z: u8 = 0x02;
const I: u8 = 0x04;
const B: u8 = 0x10;
const N: u8 = 0x80;

#[test]
fn reset_vector() {
    // JMP $8000 at $8000 in a 16 KiB ROM, reset vector at offset $3FFC
    let mut data = vec![0x4E, 0x45, 0x53, 0x1A, 1, 1, 0, 0];
    data.resize(16 + 0x4000 + 0x2000, 0);
    data[16] = 0x4C;
    data[17] = 0x00;
    data[18] = 0x80;
    data[16 + 0x3FFC] = 0x00;
    data[16 + 0x3FFD] = 0x80;
    let mut system = console_with(&data);
    assert_eq!(system.cpu.pc, 0x8000);
    assert_eq!(system.cpu.sp, 0xFD);
    assert_eq!(system.cpu.status, 0x24);
    let cycles = system.step();
    assert_eq!(cycles, 3);
    assert_eq!(system.cpu.pc, 0x8000);
}

#[test]
fn lda_immediate_updates_flags() {
    let mut system = console(&[0xA9, 0x00, 0xA9, 0x80, 0xA9, 0x7F, 0x00]);
    assert_eq!(system.cpu.pc, 0x8000);
    assert_eq!(system.step(), 2);
    assert_eq!(system.cpu.a, 0x00);
    assert_eq!(system.cpu.status & (Z | N), Z);
    system.step();
    assert_eq!(system.cpu.a, 0x80);
    assert_eq!(system.cpu.status & (Z | N), N);
    system.step();
    assert_eq!(system.cpu.a, 0x7F);
    assert_eq!(system.cpu.status & (Z | N), 0);
    assert_eq!(system.cpu.pc, 0x8006);
}

#[test]
fn nmi_delivery() {
    // LDA #$80; STA $2000; loop: JMP loop
    let mut program = vec![0xA9, 0x80, 0x8D, 0x00, 0x20, 0x4C, 0x05, 0x80];
    program.resize(0x1000, 0xEA);
    // handler at $9000: JMP $9000
    program.extend_from_slice(&[0x4C, 0x00, 0x90]);
    let mut system = console(&program);
    let mut guard = 0;
    while system.cpu.pc != 0x9000 {
        assert!(system.ppu.scanline < 241 || (system.ppu.scanline == 241 && system.ppu.cycle < 1));
        system.step();
        guard += 1;
        assert!(guard < 40_000);
    }
    // taken in the tick that reached dot 1 of scanline 241
    assert_eq!(system.ppu.scanline, 241);
    assert!(system.ppu.cycle >= 1 && system.ppu.cycle <= 9);
    assert!(!system.ppu.nmi_interrupt);
    // the return address and the status are on the stack
    assert_eq!(system.cpu.sp, 0xFA);
    assert_eq!(system.cpu_ram[0x1FD], 0x80);
    assert_eq!(system.cpu_ram[0x1FC], 0x05);
    assert_eq!(system.cpu_ram[0x1FB] & (B | 0x20), 0x20);
    assert_eq!(system.cpu.status & I, I);
    // the program counter holds the word at $FFFA
    assert_eq!(system.read_word(0xFFFA), 0x9000);
    assert_eq!(system.cpu.pc, 0x9000);
    // vertical blank reads as set, and the read clears it
    assert_eq!(system.read_byte(0x2002) & 0x80, 0x80);
    assert_eq!(system.read_byte(0x2002) & 0x80, 0x00);
}

#[test]
fn controller_over_the_bus() {
    let mut system = console(&[0xEA]);
    system.controller1.press(ControllerButton::A);
    system.controller2.press(ControllerButton::B);
    system.write_byte(0x4016, 1);
    system.write_byte(0x4016, 0);
    let first: Vec<u8> = (0..8).map(|_| system.read_byte(0x4016)).collect();
    assert_eq!(first, vec![1, 0, 0, 0, 0, 0, 0, 0]);
    assert_eq!(system.read_byte(0x4016), 1);
    let second: Vec<u8> = (0..9).map(|_| system.read_byte(0x4017)).collect();
    assert_eq!(second, vec![0, 1, 0, 0, 0, 0, 0, 0, 1]);
}

#[test]
fn ram_is_mirrored() {
    let mut system = console(&[0xEA]);
    for addr in [0x0000u16, 0x0001, 0x07FF, 0x0800, 0x17FF] {
        let value = (addr as u8) ^ 0x5A;
        system.write_byte(addr, value);
        assert_eq!(system.read_byte(addr), value);
        assert_eq!(system.read_byte(addr + 0x0800), value);
        assert_eq!(system.read_byte(addr % 0x0800), value);
        assert_eq!(system.read_byte(addr % 0x0800 + 0x1800), value);
    }
    system.write_byte(0x1FFF, 0x99);
    assert_eq!(system.cpu_ram[0x7FF], 0x99);
}

#[test]
fn ppu_registers_are_mirrored_on_the_bus() {
    let mut system = console(&[0xEA]);
    system.write_byte(0x3FFB, 0x20); // sprite address through a mirror
    assert_eq!(system.ppu.oam_addr, 0x20);
    system.write_byte(0x2A04, 0x77); // sprite data through a mirror
    assert_eq!(system.ppu.oam_data[0x20], 0x77);
    system.write_byte(0x2003, 0x20);
    assert_eq!(system.read_byte(0x3F04), 0x77);
    system.ppu.status = 0xA0;
    assert_eq!(system.read_byte(0x200A), 0xA0);
    assert_eq!(system.ppu.status, 0x20);
}

#[test]
fn unmapped_and_cartridge_ranges() {
    let mut system = console(&[0xEA, 0x42]);
    assert_eq!(system.read_byte(0x4018), 0);
    assert_eq!(system.read_byte(0x5FFF), 0);
    system.write_byte(0x5000, 0xFF);
    system.write_byte(0x6010, 0xAB);
    assert_eq!(system.read_byte(0x6010), 0xAB);
    assert_eq!(system.read_byte(0x8001), 0x42);
    system.write_byte(0x8001, 0x00);
    assert_eq!(system.read_byte(0x8001), 0x42);
    // without a cartridge its ranges read as zero
    let mut empty = Box::new(System::new());
    empty.write_byte(0x6010, 0xAB);
    assert_eq!(empty.read_byte(0x6010), 0);
    assert_eq!(empty.read_byte(0xFFFC), 0);
    empty.reset();
    assert_eq!(empty.cpu.pc, 0);
}

#[test]
fn clock_ratio() {
    // a mix of instruction lengths: NOP, LDA abs, INC abs,X, JSR, RTS, BNE
    let program = [
        0xEA, 0xAD, 0x00, 0x02, 0xFE, 0x00, 0x03, 0x20, 0x10, 0x80, 0xD0, 0xF4, 0, 0, 0, 0, 0x60,
    ];
    let mut system = console(&program);
    let mut seen = Vec::new();
    for _ in 0..200 {
        let before = position(&system);
        let apu_before = system.apu.cycles;
        let cycles = system.step();
        assert_eq!(position(&system) - before, 3 * cycles as u64);
        assert_eq!(system.apu.cycles - apu_before, cycles as u64);
        seen.push(cycles);
    }
    assert_eq!(&seen[0..6], &[2, 4, 7, 6, 6, 3]);
}

#[test]
fn oam_dma_copies_a_page() {
    let mut system = console(&[0xEA]);
    for i in 0..256u16 {
        system.write_byte(0x0300 + i, (i as u8).wrapping_mul(3));
    }
    system.write_byte(0x2003, 0x10);
    system.cycles = 0;
    system.write_byte(0x4014, 0x03);
    for i in 0..256usize {
        assert_eq!(system.ppu.oam_data[(0x10 + i) & 0xFF], (i as u8).wrapping_mul(3));
    }
    assert_eq!(system.ppu.oam_addr, 0x10);
    assert_eq!(system.oam_dma_cycles, 513);
    // from ROM, started on an odd cycle
    system.cycles = 7;
    system.write_byte(0x2003, 0x00);
    system.write_byte(0x4014, 0x80);
    assert_eq!(system.ppu.oam_data[0], 0xEA);
    assert_eq!(system.ppu.oam_data[1], 0x00);
    assert_eq!(system.oam_dma_cycles, 514);
}

#[test]
fn oam_dma_stalls_the_cpu() {
    // LDA #$02; STA $4014; LDX #$05
    let mut system = console(&[0xA9, 0x02, 0x8D, 0x14, 0x40, 0xA2, 0x05]);
    system.step();
    assert_eq!(system.step(), 4);
    assert_eq!(system.oam_dma_cycles, 513);
    let pc = system.cpu.pc;
    let mut stalled = 0u32;
    let before = position(&system);
    while system.oam_dma_cycles > 0 {
        let cycles = system.step();
        assert!(cycles >= 1 && cycles <= 4);
        stalled += cycles as u32;
        assert_eq!(system.cpu.pc, pc);
    }
    assert_eq!(stalled, 513);
    // the picture unit kept running
    assert_eq!(position(&system) - before, 3 * 513);
    assert_eq!(system.step(), 2);
    assert_eq!(system.cpu.x, 5);
}

#[test]
fn page_crossing_costs_a_cycle() {
    // LDX #$01; LDA $02FF,X; LDA $0200,X; STA $02FF,X
    let mut system = console(&[0xA2, 0x01, 0xBD, 0xFF, 0x02, 0xBD, 0x00, 0x02, 0x9D, 0xFF, 0x02]);
    system.write_byte(0x0300, 0x44);
    system.step();
    assert_eq!(system.step(), 5);
    assert_eq!(system.cpu.a, 0x44);
    assert_eq!(system.step(), 4);
    assert_eq!(system.step(), 5);
    // LDY #$10; LDA ($40),Y with the pointer at $02F8
    let mut system = console(&[0xA0, 0x10, 0xB1, 0x40, 0xA0, 0x01, 0xB1, 0x40]);
    system.write_byte(0x0040, 0xF8);
    system.write_byte(0x0041, 0x02);
    system.write_byte(0x0308, 0x66);
    system.step();
    assert_eq!(system.step(), 6);
    assert_eq!(system.cpu.a, 0x66);
    system.step();
    assert_eq!(system.step(), 5);
}

#[test]
fn branch_cycles() {
    // at $80FB: BNE +3 crosses into page $81; before that: BEQ not taken, BNE +0
    let mut program = vec![0xEA; 0x200];
    program[0] = 0xA9; // LDA #$01 clears zero
    program[1] = 0x01;
    program[2] = 0xF0; // BEQ +2, not taken
    program[3] = 0x02;
    program[4] = 0xD0; // BNE +0, taken within the page
    program[5] = 0x00;
    program[6] = 0x4C; // JMP $80FB
    program[7] = 0xFB;
    program[8] = 0x80;
    program[0xFB] = 0xD0; // BNE +3: from $80FD to $8100
    program[0xFC] = 0x03;
    program[0x100] = 0xD0; // BNE -4: from $8102 back to $80FE
    program[0x101] = 0xFC;
    let mut system = console(&program);
    system.step();
    assert_eq!(system.step(), 2);
    assert_eq!(system.cpu.pc, 0x8004);
    assert_eq!(system.step(), 3);
    assert_eq!(system.cpu.pc, 0x8006);
    system.step();
    assert_eq!(system.step(), 4);
    assert_eq!(system.cpu.pc, 0x8100);
    assert_eq!(system.step(), 4);
    assert_eq!(system.cpu.pc, 0x80FE);
}

#[test]
fn jmp_indirect_page_wrap() {
    // JMP ($02FF) takes its high byte from $0200
    let mut system = console(&[0x6C, 0xFF, 0x02]);
    system.write_byte(0x02FF, 0x34);
    system.write_byte(0x0300, 0x56);
    system.write_byte(0x0200, 0x12);
    assert_eq!(system.step(), 5);
    assert_eq!(system.cpu.pc, 0x1234);
    let mut system = console(&[0x6C, 0x10, 0x02]);
    system.write_byte(0x0210, 0x78);
    system.write_byte(0x0211, 0x56);
    system.step();
    assert_eq!(system.cpu.pc, 0x5678);
}

#[test]
fn jsr_and_rts() {
    // JSR $8010; LDA #$01 ... at $8010: LDX #$07; RTS
    let mut program = vec![0xEA; 0x20];
    program[0..5].copy_from_slice(&[0x20, 0x10, 0x80, 0xA9, 0x01]);
    program[0x10..0x13].copy_from_slice(&[0xA2, 0x07, 0x60]);
    let mut system = console(&program);
    assert_eq!(system.step(), 6);
    assert_eq!(system.cpu.pc, 0x8010);
    assert_eq!(system.cpu.sp, 0xFB);
    // the address of the call's last byte is on the stack
    assert_eq!(system.cpu_ram[0x1FD], 0x80);
    assert_eq!(system.cpu_ram[0x1FC], 0x02);
    system.step();
    assert_eq!(system.step(), 6);
    assert_eq!(system.cpu.pc, 0x8003);
    assert_eq!(system.cpu.sp, 0xFD);
    system.step();
    assert_eq!((system.cpu.a, system.cpu.x), (1, 7));
}

#[test]
fn brk_and_rti() {
    // CLI; BRK; padding; LDA #$09 ... handler at $A000: RTI
    let mut program = vec![0xEA; 0x2001];
    program[0..5].copy_from_slice(&[0x58, 0x00, 0xFF, 0xA9, 0x09]);
    program[0x2000] = 0x40;
    let mut system = console(&program);
    system.step();
    assert_eq!(system.cpu.status, 0x20);
    assert_eq!(system.step(), 7);
    assert_eq!(system.cpu.pc, 0xA000);
    assert_eq!(system.cpu.status & I, I);
    // the live status has no break flag, the pushed one has
    assert_eq!(system.cpu.status & B, 0);
    assert_eq!(system.cpu_ram[0x1FD], 0x80);
    assert_eq!(system.cpu_ram[0x1FC], 0x03);
    assert_eq!(system.cpu_ram[0x1FB], 0x20 | B);
    assert_eq!(system.step(), 6);
    assert_eq!(system.cpu.pc, 0x8003);
    assert_eq!(system.cpu.status, 0x20);
    assert_eq!(system.cpu.sp, 0xFD);
    system.step();
    assert_eq!(system.cpu.a, 9);
}

#[test]
fn stack_instructions() {
    // LDA #$80; PHA; PHP; LDA #$00; PLP; PLA
    let mut system = console(&[0xA9, 0x80, 0x48, 0x08, 0xA9, 0x00, 0x28, 0x68]);
    system.step();
    assert_eq!(system.step(), 3);
    assert_eq!(system.cpu_ram[0x1FD], 0x80);
    assert_eq!(system.step(), 3);
    assert_eq!(system.cpu_ram[0x1FC], 0x24 | N | B);
    system.step();
    assert_eq!(system.cpu.status & Z, Z);
    assert_eq!(system.step(), 4);
    // break is dropped on the way back
    assert_eq!(system.cpu.status, 0x24 | N);
    system.cpu.status = 0x24;
    assert_eq!(system.step(), 4);
    assert_eq!(system.cpu.a, 0x80);
    assert_eq!(system.cpu.status & N, N);
    assert_eq!(system.cpu.sp, 0xFD);
    // the stack pointer wraps within page 1
    system.cpu.sp = 0x00;
    system.push(0x11);
    assert_eq!(system.cpu.sp, 0xFF);
    assert_eq!(system.cpu_ram[0x100], 0x11);
    system.push_word(0xBEEF);
    assert_eq!(system.pop_word(), 0xBEEF);
    assert_eq!(system.pop(), 0x11);
    assert_eq!(system.cpu.sp, 0x00);
}

#[test]
fn addressing_modes() {
    let mut system = console(&[0xEA]);
    for (i, b) in [0x10u8, 0x20, 0x30, 0x40].iter().enumerate() {
        system.write_byte(0x0200 + i as u16, *b);
    }
    system.cpu.x = 0x05;
    system.cpu.y = 0x80;
    // the operand bytes are read from RAM at the program counter
    system.write_byte(0x0010, 0xFE);
    system.write_byte(0x0011, 0x02);
    system.cpu.pc = 0x0010;
    let o = system.resolve(AddrMode::ZeroPageX);
    assert_eq!((o.addr, system.cpu.pc), (0x0003, 0x0011));
    system.cpu.pc = 0x0010;
    let o = system.resolve(AddrMode::ZeroPageY);
    assert_eq!(o.addr, 0x007E);
    system.cpu.pc = 0x0010;
    let o = system.resolve(AddrMode::Absolute);
    assert_eq!((o.addr, system.cpu.pc), (0x02FE, 0x0012));
    system.cpu.pc = 0x0010;
    let o = system.resolve(AddrMode::AbsoluteX);
    assert_eq!((o.addr, o.base), (0x0303, 0x02FE));
    system.cpu.pc = 0x0010;
    let o = system.resolve(AddrMode::AbsoluteY);
    assert_eq!((o.addr, o.base), (0x037E, 0x02FE));
    system.cpu.pc = 0x0010;
    let o = system.resolve(AddrMode::Immediate);
    assert_eq!((o.addr, system.cpu.pc), (0x0010, 0x0011));
    // (zp,X): pointer at $FE + 5 = $03, wrapping in the zero page
    system.write_byte(0x0003, 0x34);
    system.write_byte(0x0004, 0x12);
    system.cpu.pc = 0x0010;
    let o = system.resolve(AddrMode::IndirectX);
    assert_eq!(o.addr, 0x1234);
    // (zp),Y: pointer at $FF takes its high byte from $00
    system.write_byte(0x0010, 0xFF);
    system.write_byte(0x00FF, 0xF0);
    system.write_byte(0x0000, 0x02);
    system.cpu.pc = 0x0010;
    let o = system.resolve(AddrMode::IndirectY);
    assert_eq!((o.addr, o.base), (0x0370, 0x02F0));
    system.cpu.pc = 0x0010;
    let o = system.resolve(AddrMode::Implied);
    assert_eq!((o.addr, system.cpu.pc), (0, 0x0010));
}

#[test]
fn read_modify_write_instructions() {
    // INC $10; DEC $0200; ASL $10; LSR A; ROL $10,X; ROR $0200,X
    let mut system = console(&[
        0xE6, 0x10, 0xCE, 0x00, 0x02, 0x06, 0x10, 0x4A, 0x36, 0x0F, 0x7E, 0xFF, 0x01,
    ]);
    system.write_byte(0x0010, 0x7F);
    system.write_byte(0x0200, 0x00);
    system.cpu.a = 0x03;
    system.cpu.x = 0x01;
    assert_eq!(system.step(), 5);
    assert_eq!(system.read_byte(0x0010), 0x80);
    assert_eq!(system.cpu.status & (Z | N), N);
    assert_eq!(system.step(), 6);
    assert_eq!(system.read_byte(0x0200), 0xFF);
    assert_eq!(system.step(), 5);
    assert_eq!(system.read_byte(0x0010), 0x00);
    assert_eq!(system.cpu.status & (C | Z), C | Z);
    assert_eq!(system.step(), 2);
    assert_eq!(system.cpu.a, 0x01);
    assert_eq!(system.cpu.status & C, C);
    assert_eq!(system.step(), 6);
    assert_eq!(system.read_byte(0x0010), 0x01);
    assert_eq!(system.cpu.status & C, 0);
    assert_eq!(system.step(), 7);
    assert_eq!(system.read_byte(0x0200), 0x7F);
    assert_eq!(system.cpu.status & C, C);
}

#[test]
fn store_instructions() {
    // STA $10; STX $11,Y; STY $0212; SAX $13; STA ($20,X); STA ($22),Y
    let mut system = console(&[
        0x85, 0x10, 0x96, 0x10, 0x8C, 0x12, 0x02, 0x87, 0x13, 0x81, 0x1D, 0x91, 0x22,
    ]);
    system.cpu.a = 0xF5;
    system.cpu.x = 0x03;
    system.cpu.y = 0x01;
    system.write_byte(0x0020, 0x00);
    system.write_byte(0x0021, 0x03);
    system.write_byte(0x0022, 0x10);
    system.write_byte(0x0023, 0x03);
    assert_eq!(system.step(), 3);
    assert_eq!(system.step(), 4);
    assert_eq!(system.step(), 4);
    assert_eq!(system.step(), 3);
    assert_eq!(system.step(), 6);
    assert_eq!(system.step(), 6);
    assert_eq!(system.read_byte(0x0010), 0xF5);
    assert_eq!(system.read_byte(0x0011), 0x03);
    assert_eq!(system.read_byte(0x0212), 0x01);
    assert_eq!(system.read_byte(0x0013), 0x01);
    assert_eq!(system.read_byte(0x0300), 0xF5);
    assert_eq!(system.read_byte(0x0311), 0xF5);
}

#[test]
fn undocumented_instructions() {
    // LAX $10; DCP $10; ISC $10; SLO $11; NOP $1234; NOP #$00; NOP
    let mut system = console(&[
        0xA7, 0x10, 0xC7, 0x10, 0xE7, 0x10, 0x07, 0x11, 0x0C, 0x34, 0x12, 0x80, 0x00, 0x1A,
    ]);
    system.write_byte(0x0010, 0x42);
    system.write_byte(0x0011, 0x81);
    assert_eq!(system.step(), 3);
    assert_eq!((system.cpu.a, system.cpu.x), (0x42, 0x42));
    assert_eq!(system.step(), 5);
    assert_eq!(system.read_byte(0x0010), 0x41);
    assert_eq!(system.cpu.status & C, C);
    system.cpu.status |= C;
    assert_eq!(system.step(), 5);
    assert_eq!(system.read_byte(0x0010), 0x42);
    assert_eq!(system.cpu.a, 0x00);
    assert_eq!(system.step(), 5);
    assert_eq!(system.read_byte(0x0011), 0x02);
    assert_eq!(system.cpu.a, 0x02);
    assert_eq!(system.cpu.status & C, C);
    let pc = system.cpu.pc;
    assert_eq!(system.step(), 4);
    assert_eq!(system.cpu.pc, pc + 3);
    assert_eq!(system.step(), 2);
    assert_eq!(system.cpu.pc, pc + 5);
    assert_eq!(system.step(), 2);
    assert_eq!(system.cpu.pc, pc + 6);
}

#[test]
fn ldy_zero_page_x() {
    let mut system = console(&[0xA2, 0x04, 0xB4, 0x10]);
    system.write_byte(0x0014, 0x99);
    system.step();
    assert_eq!(system.step(), 4);
    assert_eq!(system.cpu.y, 0x99);
    assert_eq!(system.cpu.status & N, N);
}

#[test]
fn jam_keeps_the_cpu_in_place() {
    let mut system = console(&[0xEA, 0x02, 0xA9, 0x01]);
    system.step();
    for _ in 0..5 {
        assert_eq!(system.step(), 2);
        assert_eq!(system.cpu.pc, 0x8001);
    }
    assert_eq!(system.cpu.a, 0);
}

#[test]
fn frame_interrupt_reaches_the_cpu() {
    // CLI; loop: JMP loop ... handler at $A000: LDA $4015; RTI
    let mut program = vec![0xEA; 0x2004];
    program[0..4].copy_from_slice(&[0x58, 0x4C, 0x01, 0x80]);
    program[0x2000..0x2004].copy_from_slice(&[0xAD, 0x15, 0x40, 0x40]);
    let mut system = console(&program);
    let mut guard = 0;
    while system.cpu.pc != 0xA000 {
        system.step();
        guard += 1;
        assert!(guard < 20_000);
    }
    // the fourth step of the frame counter, on cycle 22371
    assert!(system.apu.cycles > 22371 && system.apu.cycles <= 22371 + 3);
    assert_eq!(system.cpu.status & I, I);
    assert_eq!(system.cpu_ram[0x1FB] & B, 0);
    system.step();
    assert_eq!(system.cpu.a & 0x40, 0x40);
    assert!(!system.apu.frame_interrupt());
    system.step();
    assert_eq!(system.cpu.pc, 0x8001);
    assert_eq!(system.cpu.status & I, 0);
}

#[test]
fn interrupts_wait_for_the_flag() {
    // SEI; loop: JMP loop
    let mut system = console(&[0x78, 0x4C, 0x01, 0x80]);
    for _ in 0..9000 {
        system.step();
        assert_ne!(system.cpu.pc, 0xA000);
    }
    assert!(system.apu.frame_interrupt());
}

#[test]
fn run_frame_completes_a_frame() {
    let mut system = console(&[0x4C, 0x00, 0x80]);
    assert_eq!(system.ppu.frame, 0);
    assert!(system.run_frame());
    assert_eq!(system.ppu.frame, 1);
    assert_eq!(system.cycles, 0);
    assert_eq!(system.ppu.scanline, 0);
    assert!(system.ppu.cycle < 9);
    assert!(system.run_frame());
    assert_eq!(system.ppu.frame, 2);
    assert_eq!(system.get_frame_buffer().len(), 256 * 240 * 3);
    // with rendering off every pixel shows the backdrop
    assert_eq!(&system.get_frame_buffer()[0..3], &[0x5F, 0x97, 0xFF]);
}

#[test]
fn run_frame_respects_the_budget() {
    let mut system = console(&[0x4C, 0x00, 0x80]);
    // a frame that starts late in the budget runs out of it first
    system.cycles = 29_000;
    assert!(!system.run_frame());
    assert_eq!(system.ppu.frame, 0);
    assert!(system.cycles < 3);
    assert!(system.run_frame());
}

#[test]
fn load_cartridge_sets_up_the_picture_unit() {
    let mut data = image(&[0xEA], 0, 0x8123, 0);
    data[6] = 0x01;
    for i in 0..0x2000 {
        data[16 + 0x8000 + i] = (i % 251) as u8;
    }
    let mut system = console_with(&data);
    assert_eq!(system.ppu.mirroring, Mirroring::Vertical);
    assert_eq!(system.ppu.vram[0x1234], (0x1234 % 251) as u8);
    assert_eq!(system.ppu.vram[0x2000], 0);
    assert_eq!(system.cpu.pc, 0x8123);
    // reset keeps RAM
    system.write_byte(0x0042, 0x42);
    system.cpu.a = 9;
    system.cpu.sp = 0x10;
    system.reset();
    assert_eq!(system.read_byte(0x0042), 0x42);
    assert_eq!((system.cpu.a, system.cpu.sp, system.cpu.status, system.cpu.pc), (0, 0xFD, 0x24, 0x8123));
}

#[test]
fn ppu_step_through_the_console() {
    let mut system = console(&[0xEA]);
    system.ppu_step();
    assert_eq!((system.ppu.scanline, system.ppu.cycle), (0, 1));
    let before = system.cpu;
    system.ppu_step();
    assert_eq!(system.cpu, before);
}

/// An image for a banked board: program banks of 8 KiB filled with their
/// number, character banks of 1 KiB filled with `0x40 + number`, and the
/// vectors in the last bank pointing at `$E000`.
fn banked_image(mapper: u8, prg_16k: u8, chr_8k: u8) -> Vec<u8> {
    let mut data = vec![0x4E, 0x45, 0x53, 0x1A, prg_16k, chr_8k, (mapper & 0x0F) << 4, mapper & 0xF0];
    data.resize(16, 0);
    for bank in 0..prg_16k as usize * 2 {
        let start = data.len();
        data.resize(start + 0x2000, bank as u8);
    }
    let end = data.len();
    for v in [end - 6, end - 4, end - 2] {
        data[v] = 0x00;
        data[v + 1] = 0xE0;
    }
    for bank in 0..chr_8k as usize * 8 {
        let start = data.len();
        data.resize(start + 0x400, 0x40 + bank as u8);
    }
    data
}

#[test]
fn mmc3_behind_the_bus() {
    let mut system = console_with(&banked_image(4, 8, 4));
    assert_eq!(system.cpu.pc, 0xE000);
    assert_eq!(system.read_byte(0x8000), 0);
    assert_eq!(system.read_byte(0xA000), 1);
    assert_eq!(system.read_byte(0xC000), 14);
    assert_eq!(system.read_byte(0xE000), 15);
    // R6 = 9 switches the first slot
    system.write_byte(0x8000, 6);
    system.write_byte(0x8001, 9);
    assert_eq!(system.read_byte(0x8000), 9);
    assert_eq!(system.read_byte(0x9FFF), 9);
    // work RAM answers once enabled
    system.write_byte(0x6005, 0x77);
    assert_eq!(system.read_byte(0x6005), 0);
    system.write_byte(0xA001, 0x80);
    system.write_byte(0x6005, 0x77);
    assert_eq!(system.read_byte(0x6005), 0x77);
}

#[test]
fn mmc3_switches_patterns_and_mirroring() {
    let mut system = console_with(&banked_image(4, 8, 4));
    assert_eq!(system.ppu.mirroring, Mirroring::Vertical);
    // at power-on every character slot shows bank 0
    assert_eq!(system.ppu.vram[0x0000], 0x40);
    assert_eq!(system.ppu.vram[0x1C00], 0x40);
    // R2 = 17 at $1000, R0 = 6 gives 6 and 7 at $0000
    system.write_byte(0x8000, 2);
    system.write_byte(0x8001, 17);
    system.write_byte(0x8000, 0);
    system.write_byte(0x8001, 6);
    assert_eq!(system.ppu.vram[0x1000], 0x40 + 17);
    assert_eq!(system.ppu.vram[0x0000], 0x40 + 6);
    assert_eq!(system.ppu.vram[0x0400], 0x40 + 7);
    // the nametables are left alone
    assert_eq!(system.ppu.vram[0x2000], 0);
    system.write_byte(0xA000, 1);
    assert_eq!(system.ppu.mirroring, Mirroring::Horizontal);
    system.write_byte(0xA000, 0);
    assert_eq!(system.ppu.mirroring, Mirroring::Vertical);
}

#[test]
fn mmc3_scanline_interrupt_reaches_the_cpu() {
    // at $E000: CLI; loop: JMP loop. The IRQ vector points at $E000 too,
    // so the handler is seen by the stack growing.
    let mut data = banked_image(4, 8, 4);
    let code = 16 + 15 * 0x2000;
    data[code..code + 4].copy_from_slice(&[0x58, 0x4C, 0x01, 0xE0]);
    let mut system = console_with(&data);
    system.write_byte(0x4017, 0x40); // no frame interrupts
    system.write_byte(0xC000, 4); // latch
    system.write_byte(0xC001, 0); // reload
    system.write_byte(0xE001, 0); // enable
    system.write_byte(0x2001, 0x08); // rendering on
    system.step();
    assert_eq!(system.cpu.sp, 0xFD);
    let mut guard = 0;
    while system.cpu.sp == 0xFD {
        system.step();
        guard += 1;
        assert!(guard < 2000);
    }
    // reloaded on scanline 0, then counted down on 1 to 4
    assert_eq!(system.ppu.scanline, 4);
    assert!(system.ppu.cycle >= 260 && system.ppu.cycle < 270);
    assert_eq!(system.cpu.pc, 0xE000);
    assert_eq!(system.cpu.status & I, I);
    // acknowledging clears the line
    system.write_byte(0xE000, 0);
    system.step();
    let sp = system.cpu.sp;
    for _ in 0..200 {
        system.step();
    }
    assert_eq!(system.cpu.sp, sp);
}

#[test]
fn no_scanline_count_while_rendering_is_off() {
    let mut data = banked_image(4, 8, 4);
    let code = 16 + 15 * 0x2000;
    data[code..code + 4].copy_from_slice(&[0x58, 0x4C, 0x01, 0xE0]);
    let mut system = console_with(&data);
    system.write_byte(0x4017, 0x40);
    system.write_byte(0xC000, 1);
    system.write_byte(0xC001, 0);
    system.write_byte(0xE001, 0);
    for _ in 0..5000 {
        system.step();
    }
    assert_eq!(system.cpu.sp, 0xFD);
}

#[test]
fn mmc5_behind_the_bus() {
    let mut system = console_with(&banked_image(5, 8, 4));
    // mode 3, the last slot on the last bank
    assert_eq!(system.cpu.pc, 0xE000);
    assert_eq!(system.read_byte(0xE000), 15);
    system.write_byte(0x5114, 3);
    system.write_byte(0x5115, 4);
    assert_eq!(system.read_byte(0x8000), 3);
    assert_eq!(system.read_byte(0xA000), 4);
    // the multiplier
    system.write_byte(0x5205, 200);
    system.write_byte(0x5206, 100);
    assert_eq!(system.read_byte(0x5205), (20000u16 & 0xFF) as u8);
    assert_eq!(system.read_byte(0x5206), (20000u16 >> 8) as u8);
    // character banks: 1 KiB mode, slot 0 on bank 9
    system.write_byte(0x5101, 3);
    system.write_byte(0x5120, 9);
    assert_eq!(system.ppu.vram[0x0000], 0x40 + 9);
    // writes to the program window are ignored
    system.write_byte(0x8000, 0xFF);
    assert_eq!(system.read_byte(0x8000), 3);
    // other boards have nothing in the expansion range
    let mut plain = console(&[0xEA]);
    plain.write_byte(0x5205, 7);
    assert_eq!(plain.read_byte(0x5205), 0);
}

#[test]
fn mmc1_switches_patterns_over_the_bus() {
    // mapper 1 with 2 program banks and 2 character banks of 8 KiB
    let mut data = banked_image(1, 2, 2);
    let end = 16 + 0x8000;
    data[end - 4] = 0x00;
    data[end - 3] = 0xC0;
    let mut system = console_with(&data);
    assert_eq!(system.ppu.vram[0x0000], 0x40);
    // 4 KiB character mode, second half on 4 KiB bank 3
    for bit in [0u8, 0, 1, 1, 1] {
        system.write_byte(0x8000, bit);
    }
    for bit in [1u8, 1, 0, 0, 0] {
        system.write_byte(0xC000, bit);
    }
    assert_eq!(system.ppu.vram[0x0000], 0x40);
    assert_eq!(system.ppu.vram[0x1000], 0x40 + 12);
}

#[test]
fn frame_step_drives_a_frame() {
    let mut system = console(&[0x4C, 0x00, 0x80]);
    let start = system.ppu.frame;
    let mut steps = 0u32;
    let mut spent = 0u64;
    let answer = loop {
        let (answer, cycles) = system.frame_step(start);
        assert_eq!(cycles, 3);
        steps += 1;
        spent += cycles as u64;
        if let Some(done) = answer {
            break done;
        }
        assert_eq!(system.cycles, spent);
        assert_eq!(system.ppu.frame, start);
    };
    assert!(answer);
    assert_eq!(system.ppu.frame, start + 1);
    assert_eq!(system.cycles, 0);
    // 341 x 262 dots at three dots a cycle and three cycles a step
    assert_eq!(steps, (341 * 262 + 8) / 9);
    // with the budget spent a step ends the run without a tick
    system.cycles = 29_780 + 5;
    let before = system.ppu.cycle;
    assert_eq!(system.frame_step(start + 1), (Some(false), 0));
    assert_eq!(system.cycles, 5);
    assert_eq!(system.ppu.cycle, before);
}

#[test]
fn oam_dma_from_the_register_page() {
    let mut system = console(&[0xEA]);
    system.controller1.press(ControllerButton::A);
    system.write_byte(0x4016, 1);
    system.write_byte(0x4016, 0);
    system.write_byte(0x4015, 0x01);
    system.write_byte(0x4003, 0x08);
    system.write_byte(0x2003, 0x00);
    system.write_byte(0x4014, 0x40);
    // the status and the first controller bit, each read once
    assert_eq!(system.ppu.oam_data[0x15], 0x01);
    assert_eq!(system.ppu.oam_data[0x16], 1);
    assert_eq!(system.ppu.oam_data[0x17], 0);
    assert_eq!(system.ppu.oam_data[0x00], 0);
    assert_eq!(system.ppu.oam_data[0xFF], 0);
    // the copy moved the read-out on by one
    assert_eq!(system.read_byte(0x4016), 0);
}
