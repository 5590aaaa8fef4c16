//! The 6502 as found in the console: its registers, its arithmetic, and the
//! table that gives every opcode byte an operation, an addressing mode and
//! a cycle count. Nothing here touches memory; the bus does.

use vstd::prelude::*;
use crate::bits::bit;
use crate::bits::is_weight;
use crate::bits::lemma_bits_u8;
use crate::bits::lemma_set_clear_u8;
use crate::bits::lemma_shl_u8;
use crate::bits::lemma_word;
use crate::bits::with_bit;
use crate::bits::without_bit;

verus! {

pub const FLAG_CARRY: u8 = 0x01;

pub const FLAG_ZERO: u8 = 0x02;

pub const FLAG_INTERRUPT: u8 = 0x04;

pub const FLAG_DECIMAL: u8 = 0x08;

pub const FLAG_BREAK: u8 = 0x10;

pub const FLAG_UNUSED: u8 = 0x20;

pub const FLAG_OVERFLOW: u8 = 0x40;

pub const FLAG_NEGATIVE: u8 = 0x80;

/// How an instruction finds its operand.
#[derive(Debug, Clone, Copy, PartialEq, Eq, Structural)]
pub enum AddrMode {
    Implied,
    Accumulator,
    Immediate,
    ZeroPage,
    ZeroPageX,
    ZeroPageY,
    Absolute,
    AbsoluteX,
    AbsoluteY,
    Indirect,
    IndirectX,
    IndirectY,
    Relative,
}

/// What an instruction does. The documented operations come first, then the
/// undocumented ones.
#[derive(Debug, Clone, Copy, PartialEq, Eq, Structural)]
pub enum Op {
    Adc,
    And,
    Asl,
    Bcc,
    Bcs,
    Beq,
    Bit,
    Bmi,
    Bne,
    Bpl,
    Brk,
    Bvc,
    Bvs,
    Clc,
    Cld,
    Cli,
    Clv,
    Cpa,
    Cpx,
    Cpy,
    Dec,
    Dex,
    Dey,
    Eor,
    Inc,
    Inx,
    Iny,
    Jmp,
    Jsr,
    Lda,
    Ldx,
    Ldy,
    Lsr,
    Nop,
    Ora,
    Pha,
    Php,
    Pla,
    Plp,
    Rol,
    Ror,
    Rti,
    Rts,
    Sbc,
    Sec,
    Sed,
    Sei,
    Sta,
    Stx,
    Sty,
    Tax,
    Tay,
    Tsx,
    Txa,
    Txs,
    Tya,
    Lax,
    Sax,
    Dcp,
    Isc,
    Slo,
    Rla,
    Sre,
    Rra,
    Anc,
    Alr,
    Arr,
    Axs,
    Xaa,
    Ahx,
    Shy,
    Shx,
    Tas,
    Las,
    Kil,
}

/// The shape of an operation: what it needs from the bus.
#[derive(Debug, Clone, Copy, PartialEq, Eq, Structural)]
pub enum OpKind {
    /// Reads its operand and changes registers.
    Load,
    /// Writes a value made from registers to its operand.
    Store,
    /// Reads its operand, changes it, writes it back.
    Modify,
    /// Works on registers alone.
    Register,
    /// Adds a signed offset to the program counter if a flag allows.
    Branch,
    /// Uses the stack or sets the program counter.
    Control,
    /// Steps over its operand.
    Skip,
    /// Jams the processor.
    Halt,
}

/// One row of the opcode table.
#[derive(Debug, Clone, Copy, PartialEq, Eq, Structural)]
pub struct Instruction {
    pub op: Op,
    pub mode: AddrMode,
    /// Cycles the instruction takes at least.
    pub cycles: u8,
    /// Whether an indexed read that crosses a page costs one cycle more.
    pub page_penalty: bool,
}

/// A row of the opcode table.
pub open spec fn instruction(op: Op, mode: AddrMode, cycles: u8, page_penalty: bool) -> Instruction {
    Instruction { op, mode, cycles, page_penalty }
}

/// The opcode table. Every byte is an instruction: the 151 documented
/// ones, the undocumented ones with their usual names, skips of one to
/// three bytes, and the twelve bytes that jam the processor.
pub open spec fn decode(opcode: u8) -> Instruction {
    match opcode / 16 {
        0 => decode_row_0(opcode),
        1 => decode_row_1(opcode),
        2 => decode_row_2(opcode),
        3 => decode_row_3(opcode),
        4 => decode_row_4(opcode),
        5 => decode_row_5(opcode),
        6 => decode_row_6(opcode),
        7 => decode_row_7(opcode),
        8 => decode_row_8(opcode),
        9 => decode_row_9(opcode),
        10 => decode_row_a(opcode),
        11 => decode_row_b(opcode),
        12 => decode_row_c(opcode),
        13 => decode_row_d(opcode),
        14 => decode_row_e(opcode),
        _ => decode_row_f(opcode),
    }
}

/// Opcodes `$00` to `$0F`.
pub open spec fn decode_row_0(opcode: u8) -> Instruction {
    match opcode {
        0x00 => instruction(Op::Brk, AddrMode::Implied, 7, false),
        0x01 => instruction(Op::Ora, AddrMode::IndirectX, 6, false),
        0x02 => instruction(Op::Kil, AddrMode::Implied, 2, false),
        0x03 => instruction(Op::Slo, AddrMode::IndirectX, 8, false),
        0x04 => instruction(Op::Nop, AddrMode::ZeroPage, 3, false),
        0x05 => instruction(Op::Ora, AddrMode::ZeroPage, 3, false),
        0x06 => instruction(Op::Asl, AddrMode::ZeroPage, 5, false),
        0x07 => instruction(Op::Slo, AddrMode::ZeroPage, 5, false),
        0x08 => instruction(Op::Php, AddrMode::Implied, 3, false),
        0x09 => instruction(Op::Ora, AddrMode::Immediate, 2, false),
        0x0A => instruction(Op::Asl, AddrMode::Accumulator, 2, false),
        0x0B => instruction(Op::Anc, AddrMode::Immediate, 2, false),
        0x0C => instruction(Op::Nop, AddrMode::Absolute, 4, false),
        0x0D => instruction(Op::Ora, AddrMode::Absolute, 4, false),
        0x0E => instruction(Op::Asl, AddrMode::Absolute, 6, false),
        _ => instruction(Op::Slo, AddrMode::Absolute, 6, false),
    }
}

/// Opcodes `$10` to `$1F`.
pub open spec fn decode_row_1(opcode: u8) -> Instruction {
    match opcode {
        0x10 => instruction(Op::Bpl, AddrMode::Relative, 2, false),
        0x11 => instruction(Op::Ora, AddrMode::IndirectY, 5, true),
        0x12 => instruction(Op::Kil, AddrMode::Implied, 2, false),
        0x13 => instruction(Op::Slo, AddrMode::IndirectY, 8, false),
        0x14 => instruction(Op::Nop, AddrMode::ZeroPageX, 4, false),
        0x15 => instruction(Op::Ora, AddrMode::ZeroPageX, 4, false),
        0x16 => instruction(Op::Asl, AddrMode::ZeroPageX, 6, false),
        0x17 => instruction(Op::Slo, AddrMode::ZeroPageX, 6, false),
        0x18 => instruction(Op::Clc, AddrMode::Implied, 2, false),
        0x19 => instruction(Op::Ora, AddrMode::AbsoluteY, 4, true),
        0x1A => instruction(Op::Nop, AddrMode::Implied, 2, false),
        0x1B => instruction(Op::Slo, AddrMode::AbsoluteY, 7, false),
        0x1C => instruction(Op::Nop, AddrMode::AbsoluteX, 4, false),
        0x1D => instruction(Op::Ora, AddrMode::AbsoluteX, 4, true),
        0x1E => instruction(Op::Asl, AddrMode::AbsoluteX, 7, false),
        _ => instruction(Op::Slo, AddrMode::AbsoluteX, 7, false),
    }
}

/// Opcodes `$20` to `$2F`.
pub open spec fn decode_row_2(opcode: u8) -> Instruction {
    match opcode {
        0x20 => instruction(Op::Jsr, AddrMode::Absolute, 6, false),
        0x21 => instruction(Op::And, AddrMode::IndirectX, 6, false),
        0x22 => instruction(Op::Kil, AddrMode::Implied, 2, false),
        0x23 => instruction(Op::Rla, AddrMode::IndirectX, 8, false),
        0x24 => instruction(Op::Bit, AddrMode::ZeroPage, 3, false),
        0x25 => instruction(Op::And, AddrMode::ZeroPage, 3, false),
        0x26 => instruction(Op::Rol, AddrMode::ZeroPage, 5, false),
        0x27 => instruction(Op::Rla, AddrMode::ZeroPage, 5, false),
        0x28 => instruction(Op::Plp, AddrMode::Implied, 4, false),
        0x29 => instruction(Op::And, AddrMode::Immediate, 2, false),
        0x2A => instruction(Op::Rol, AddrMode::Accumulator, 2, false),
        0x2B => instruction(Op::Anc, AddrMode::Immediate, 2, false),
        0x2C => instruction(Op::Bit, AddrMode::Absolute, 4, false),
        0x2D => instruction(Op::And, AddrMode::Absolute, 4, false),
        0x2E => instruction(Op::Rol, AddrMode::Absolute, 6, false),
        _ => instruction(Op::Rla, AddrMode::Absolute, 6, false),
    }
}

/// Opcodes `$30` to `$3F`.
pub open spec fn decode_row_3(opcode: u8) -> Instruction {
    match opcode {
        0x30 => instruction(Op::Bmi, AddrMode::Relative, 2, false),
        0x31 => instruction(Op::And, AddrMode::IndirectY, 5, true),
        0x32 => instruction(Op::Kil, AddrMode::Implied, 2, false),
        0x33 => instruction(Op::Rla, AddrMode::IndirectY, 8, false),
        0x34 => instruction(Op::Nop, AddrMode::ZeroPageX, 4, false),
        0x35 => instruction(Op::And, AddrMode::ZeroPageX, 4, false),
        0x36 => instruction(Op::Rol, AddrMode::ZeroPageX, 6, false),
        0x37 => instruction(Op::Rla, AddrMode::ZeroPageX, 6, false),
        0x38 => instruction(Op::Sec, AddrMode::Implied, 2, false),
        0x39 => instruction(Op::And, AddrMode::AbsoluteY, 4, true),
        0x3A => instruction(Op::Nop, AddrMode::Implied, 2, false),
        0x3B => instruction(Op::Rla, AddrMode::AbsoluteY, 7, false),
        0x3C => instruction(Op::Nop, AddrMode::AbsoluteX, 4, false),
        0x3D => instruction(Op::And, AddrMode::AbsoluteX, 4, true),
        0x3E => instruction(Op::Rol, AddrMode::AbsoluteX, 7, false),
        _ => instruction(Op::Rla, AddrMode::AbsoluteX, 7, false),
    }
}

/// Opcodes `$40` to `$4F`.
pub open spec fn decode_row_4(opcode: u8) -> Instruction {
    match opcode {
        0x40 => instruction(Op::Rti, AddrMode::Implied, 6, false),
        0x41 => instruction(Op::Eor, AddrMode::IndirectX, 6, false),
        0x42 => instruction(Op::Kil, AddrMode::Implied, 2, false),
        0x43 => instruction(Op::Sre, AddrMode::IndirectX, 8, false),
        0x44 => instruction(Op::Nop, AddrMode::ZeroPage, 3, false),
        0x45 => instruction(Op::Eor, AddrMode::ZeroPage, 3, false),
        0x46 => instruction(Op::Lsr, AddrMode::ZeroPage, 5, false),
        0x47 => instruction(Op::Sre, AddrMode::ZeroPage, 5, false),
        0x48 => instruction(Op::Pha, AddrMode::Implied, 3, false),
        0x49 => instruction(Op::Eor, AddrMode::Immediate, 2, false),
        0x4A => instruction(Op::Lsr, AddrMode::Accumulator, 2, false),
        0x4B => instruction(Op::Alr, AddrMode::Immediate, 2, false),
        0x4C => instruction(Op::Jmp, AddrMode::Absolute, 3, false),
        0x4D => instruction(Op::Eor, AddrMode::Absolute, 4, false),
        0x4E => instruction(Op::Lsr, AddrMode::Absolute, 6, false),
        _ => instruction(Op::Sre, AddrMode::Absolute, 6, false),
    }
}

/// Opcodes `$50` to `$5F`.
pub open spec fn decode_row_5(opcode: u8) -> Instruction {
    match opcode {
        0x50 => instruction(Op::Bvc, AddrMode::Relative, 2, false),
        0x51 => instruction(Op::Eor, AddrMode::IndirectY, 5, true),
        0x52 => instruction(Op::Kil, AddrMode::Implied, 2, false),
        0x53 => instruction(Op::Sre, AddrMode::IndirectY, 8, false),
        0x54 => instruction(Op::Nop, AddrMode::ZeroPageX, 4, false),
        0x55 => instruction(Op::Eor, AddrMode::ZeroPageX, 4, false),
        0x56 => instruction(Op::Lsr, AddrMode::ZeroPageX, 6, false),
        0x57 => instruction(Op::Sre, AddrMode::ZeroPageX, 6, false),
        0x58 => instruction(Op::Cli, AddrMode::Implied, 2, false),
        0x59 => instruction(Op::Eor, AddrMode::AbsoluteY, 4, true),
        0x5A => instruction(Op::Nop, AddrMode::Implied, 2, false),
        0x5B => instruction(Op::Sre, AddrMode::AbsoluteY, 7, false),
        0x5C => instruction(Op::Nop, AddrMode::AbsoluteX, 4, false),
        0x5D => instruction(Op::Eor, AddrMode::AbsoluteX, 4, true),
        0x5E => instruction(Op::Lsr, AddrMode::AbsoluteX, 7, false),
        _ => instruction(Op::Sre, AddrMode::AbsoluteX, 7, false),
    }
}

/// Opcodes `$60` to `$6F`.
pub open spec fn decode_row_6(opcode: u8) -> Instruction {
    match opcode {
        0x60 => instruction(Op::Rts, AddrMode::Implied, 6, false),
        0x61 => instruction(Op::Adc, AddrMode::IndirectX, 6, false),
        0x62 => instruction(Op::Kil, AddrMode::Implied, 2, false),
        0x63 => instruction(Op::Rra, AddrMode::IndirectX, 8, false),
        0x64 => instruction(Op::Nop, AddrMode::ZeroPage, 3, false),
        0x65 => instruction(Op::Adc, AddrMode::ZeroPage, 3, false),
        0x66 => instruction(Op::Ror, AddrMode::ZeroPage, 5, false),
        0x67 => instruction(Op::Rra, AddrMode::ZeroPage, 5, false),
        0x68 => instruction(Op::Pla, AddrMode::Implied, 4, false),
        0x69 => instruction(Op::Adc, AddrMode::Immediate, 2, false),
        0x6A => instruction(Op::Ror, AddrMode::Accumulator, 2, false),
        0x6B => instruction(Op::Arr, AddrMode::Immediate, 2, false),
        0x6C => instruction(Op::Jmp, AddrMode::Indirect, 5, false),
        0x6D => instruction(Op::Adc, AddrMode::Absolute, 4, false),
        0x6E => instruction(Op::Ror, AddrMode::Absolute, 6, false),
        _ => instruction(Op::Rra, AddrMode::Absolute, 6, false),
    }
}

/// Opcodes `$70` to `$7F`.
pub open spec fn decode_row_7(opcode: u8) -> Instruction {
    match opcode {
        0x70 => instruction(Op::Bvs, AddrMode::Relative, 2, false),
        0x71 => instruction(Op::Adc, AddrMode::IndirectY, 5, true),
        0x72 => instruction(Op::Kil, AddrMode::Implied, 2, false),
        0x73 => instruction(Op::Rra, AddrMode::IndirectY, 8, false),
        0x74 => instruction(Op::Nop, AddrMode::ZeroPageX, 4, false),
        0x75 => instruction(Op::Adc, AddrMode::ZeroPageX, 4, false),
        0x76 => instruction(Op::Ror, AddrMode::ZeroPageX, 6, false),
        0x77 => instruction(Op::Rra, AddrMode::ZeroPageX, 6, false),
        0x78 => instruction(Op::Sei, AddrMode::Implied, 2, false),
        0x79 => instruction(Op::Adc, AddrMode::AbsoluteY, 4, true),
        0x7A => instruction(Op::Nop, AddrMode::Implied, 2, false),
        0x7B => instruction(Op::Rra, AddrMode::AbsoluteY, 7, false),
        0x7C => instruction(Op::Nop, AddrMode::AbsoluteX, 4, false),
        0x7D => instruction(Op::Adc, AddrMode::AbsoluteX, 4, true),
        0x7E => instruction(Op::Ror, AddrMode::AbsoluteX, 7, false),
        _ => instruction(Op::Rra, AddrMode::AbsoluteX, 7, false),
    }
}

/// Opcodes `$80` to `$8F`.
pub open spec fn decode_row_8(opcode: u8) -> Instruction {
    match opcode {
        0x80 | 0x82 | 0x89 => instruction(Op::Nop, AddrMode::Immediate, 2, false),
        0x81 => instruction(Op::Sta, AddrMode::IndirectX, 6, false),
        0x83 => instruction(Op::Sax, AddrMode::IndirectX, 6, false),
        0x84 => instruction(Op::Sty, AddrMode::ZeroPage, 3, false),
        0x85 => instruction(Op::Sta, AddrMode::ZeroPage, 3, false),
        0x86 => instruction(Op::Stx, AddrMode::ZeroPage, 3, false),
        0x87 => instruction(Op::Sax, AddrMode::ZeroPage, 3, false),
        0x88 => instruction(Op::Dey, AddrMode::Implied, 2, false),
        0x8A => instruction(Op::Txa, AddrMode::Implied, 2, false),
        0x8B => instruction(Op::Xaa, AddrMode::Immediate, 2, false),
        0x8C => instruction(Op::Sty, AddrMode::Absolute, 4, false),
        0x8D => instruction(Op::Sta, AddrMode::Absolute, 4, false),
        0x8E => instruction(Op::Stx, AddrMode::Absolute, 4, false),
        _ => instruction(Op::Sax, AddrMode::Absolute, 4, false),
    }
}

/// Opcodes `$90` to `$9F`.
pub open spec fn decode_row_9(opcode: u8) -> Instruction {
    match opcode {
        0x90 => instruction(Op::Bcc, AddrMode::Relative, 2, false),
        0x91 => instruction(Op::Sta, AddrMode::IndirectY, 6, false),
        0x92 => instruction(Op::Kil, AddrMode::Implied, 2, false),
        0x93 => instruction(Op::Ahx, AddrMode::IndirectY, 6, false),
        0x94 => instruction(Op::Sty, AddrMode::ZeroPageX, 4, false),
        0x95 => instruction(Op::Sta, AddrMode::ZeroPageX, 4, false),
        0x96 => instruction(Op::Stx, AddrMode::ZeroPageY, 4, false),
        0x97 => instruction(Op::Sax, AddrMode::ZeroPageY, 4, false),
        0x98 => instruction(Op::Tya, AddrMode::Implied, 2, false),
        0x99 => instruction(Op::Sta, AddrMode::AbsoluteY, 5, false),
        0x9A => instruction(Op::Txs, AddrMode::Implied, 2, false),
        0x9B => instruction(Op::Tas, AddrMode::AbsoluteY, 5, false),
        0x9C => instruction(Op::Shy, AddrMode::AbsoluteX, 5, false),
        0x9D => instruction(Op::Sta, AddrMode::AbsoluteX, 5, false),
        0x9E => instruction(Op::Shx, AddrMode::AbsoluteY, 5, false),
        _ => instruction(Op::Ahx, AddrMode::AbsoluteY, 5, false),
    }
}

/// Opcodes `$A0` to `$AF`.
pub open spec fn decode_row_a(opcode: u8) -> Instruction {
    match opcode {
        0xA0 => instruction(Op::Ldy, AddrMode::Immediate, 2, false),
        0xA1 => instruction(Op::Lda, AddrMode::IndirectX, 6, false),
        0xA2 => instruction(Op::Ldx, AddrMode::Immediate, 2, false),
        0xA3 => instruction(Op::Lax, AddrMode::IndirectX, 6, false),
        0xA4 => instruction(Op::Ldy, AddrMode::ZeroPage, 3, false),
        0xA5 => instruction(Op::Lda, AddrMode::ZeroPage, 3, false),
        0xA6 => instruction(Op::Ldx, AddrMode::ZeroPage, 3, false),
        0xA7 => instruction(Op::Lax, AddrMode::ZeroPage, 3, false),
        0xA8 => instruction(Op::Tay, AddrMode::Implied, 2, false),
        0xA9 => instruction(Op::Lda, AddrMode::Immediate, 2, false),
        0xAA => instruction(Op::Tax, AddrMode::Implied, 2, false),
        0xAB => instruction(Op::Lax, AddrMode::Immediate, 2, false),
        0xAC => instruction(Op::Ldy, AddrMode::Absolute, 4, false),
        0xAD => instruction(Op::Lda, AddrMode::Absolute, 4, false),
        0xAE => instruction(Op::Ldx, AddrMode::Absolute, 4, false),
        _ => instruction(Op::Lax, AddrMode::Absolute, 4, false),
    }
}

/// Opcodes `$B0` to `$BF`.
pub open spec fn decode_row_b(opcode: u8) -> Instruction {
    match opcode {
        0xB0 => instruction(Op::Bcs, AddrMode::Relative, 2, false),
        0xB1 => instruction(Op::Lda, AddrMode::IndirectY, 5, true),
        0xB2 => instruction(Op::Kil, AddrMode::Implied, 2, false),
        0xB3 => instruction(Op::Lax, AddrMode::IndirectY, 5, false),
        0xB4 => instruction(Op::Ldy, AddrMode::ZeroPageX, 4, false),
        0xB5 => instruction(Op::Lda, AddrMode::ZeroPageX, 4, false),
        0xB6 => instruction(Op::Ldx, AddrMode::ZeroPageY, 4, false),
        0xB7 => instruction(Op::Lax, AddrMode::ZeroPageY, 4, false),
        0xB8 => instruction(Op::Clv, AddrMode::Implied, 2, false),
        0xB9 => instruction(Op::Lda, AddrMode::AbsoluteY, 4, true),
        0xBA => instruction(Op::Tsx, AddrMode::Implied, 2, false),
        0xBB => instruction(Op::Las, AddrMode::AbsoluteY, 4, false),
        0xBC => instruction(Op::Ldy, AddrMode::AbsoluteX, 4, true),
        0xBD => instruction(Op::Lda, AddrMode::AbsoluteX, 4, true),
        0xBE => instruction(Op::Ldx, AddrMode::AbsoluteY, 4, true),
        _ => instruction(Op::Lax, AddrMode::AbsoluteY, 4, false),
    }
}

/// Opcodes `$C0` to `$CF`.
pub open spec fn decode_row_c(opcode: u8) -> Instruction {
    match opcode {
        0xC0 => instruction(Op::Cpy, AddrMode::Immediate, 2, false),
        0xC1 => instruction(Op::Cpa, AddrMode::IndirectX, 6, false),
        0xC2 => instruction(Op::Nop, AddrMode::Immediate, 2, false),
        0xC3 => instruction(Op::Dcp, AddrMode::IndirectX, 8, false),
        0xC4 => instruction(Op::Cpy, AddrMode::ZeroPage, 3, false),
        0xC5 => instruction(Op::Cpa, AddrMode::ZeroPage, 3, false),
        0xC6 => instruction(Op::Dec, AddrMode::ZeroPage, 5, false),
        0xC7 => instruction(Op::Dcp, AddrMode::ZeroPage, 5, false),
        0xC8 => instruction(Op::Iny, AddrMode::Implied, 2, false),
        0xC9 => instruction(Op::Cpa, AddrMode::Immediate, 2, false),
        0xCA => instruction(Op::Dex, AddrMode::Implied, 2, false),
        0xCB => instruction(Op::Axs, AddrMode::Immediate, 2, false),
        0xCC => instruction(Op::Cpy, AddrMode::Absolute, 4, false),
        0xCD => instruction(Op::Cpa, AddrMode::Absolute, 4, false),
        0xCE => instruction(Op::Dec, AddrMode::Absolute, 6, false),
        _ => instruction(Op::Dcp, AddrMode::Absolute, 6, false),
    }
}

/// Opcodes `$D0` to `$DF`.
pub open spec fn decode_row_d(opcode: u8) -> Instruction {
    match opcode {
        0xD0 => instruction(Op::Bne, AddrMode::Relative, 2, false),
        0xD1 => instruction(Op::Cpa, AddrMode::IndirectY, 5, true),
        0xD2 => instruction(Op::Kil, AddrMode::Implied, 2, false),
        0xD3 => instruction(Op::Dcp, AddrMode::IndirectY, 8, false),
        0xD4 => instruction(Op::Nop, AddrMode::ZeroPageX, 4, false),
        0xD5 => instruction(Op::Cpa, AddrMode::ZeroPageX, 4, false),
        0xD6 => instruction(Op::Dec, AddrMode::ZeroPageX, 6, false),
        0xD7 => instruction(Op::Dcp, AddrMode::ZeroPageX, 6, false),
        0xD8 => instruction(Op::Cld, AddrMode::Implied, 2, false),
        0xD9 => instruction(Op::Cpa, AddrMode::AbsoluteY, 4, true),
        0xDA => instruction(Op::Nop, AddrMode::Implied, 2, false),
        0xDB => instruction(Op::Dcp, AddrMode::AbsoluteY, 7, false),
        0xDC => instruction(Op::Nop, AddrMode::AbsoluteX, 4, false),
        0xDD => instruction(Op::Cpa, AddrMode::AbsoluteX, 4, true),
        0xDE => instruction(Op::Dec, AddrMode::AbsoluteX, 7, false),
        _ => instruction(Op::Dcp, AddrMode::AbsoluteX, 7, false),
    }
}

/// Opcodes `$E0` to `$EF`.
pub open spec fn decode_row_e(opcode: u8) -> Instruction {
    match opcode {
        0xE0 => instruction(Op::Cpx, AddrMode::Immediate, 2, false),
        0xE1 => instruction(Op::Sbc, AddrMode::IndirectX, 6, false),
        0xE2 => instruction(Op::Nop, AddrMode::Immediate, 2, false),
        0xE3 => instruction(Op::Isc, AddrMode::IndirectX, 8, false),
        0xE4 => instruction(Op::Cpx, AddrMode::ZeroPage, 3, false),
        0xE5 => instruction(Op::Sbc, AddrMode::ZeroPage, 3, false),
        0xE6 => instruction(Op::Inc, AddrMode::ZeroPage, 5, false),
        0xE7 => instruction(Op::Isc, AddrMode::ZeroPage, 5, false),
        0xE8 => instruction(Op::Inx, AddrMode::Implied, 2, false),
        0xE9 | 0xEB => instruction(Op::Sbc, AddrMode::Immediate, 2, false),
        0xEA => instruction(Op::Nop, AddrMode::Implied, 2, false),
        0xEC => instruction(Op::Cpx, AddrMode::Absolute, 4, false),
        0xED => instruction(Op::Sbc, AddrMode::Absolute, 4, false),
        0xEE => instruction(Op::Inc, AddrMode::Absolute, 6, false),
        _ => instruction(Op::Isc, AddrMode::Absolute, 6, false),
    }
}

/// Opcodes `$F0` to `$FF`.
pub open spec fn decode_row_f(opcode: u8) -> Instruction {
    match opcode {
        0xF0 => instruction(Op::Beq, AddrMode::Relative, 2, false),
        0xF1 => instruction(Op::Sbc, AddrMode::IndirectY, 5, true),
        0xF2 => instruction(Op::Kil, AddrMode::Implied, 2, false),
        0xF3 => instruction(Op::Isc, AddrMode::IndirectY, 8, false),
        0xF4 => instruction(Op::Nop, AddrMode::ZeroPageX, 4, false),
        0xF5 => instruction(Op::Sbc, AddrMode::ZeroPageX, 4, false),
        0xF6 => instruction(Op::Inc, AddrMode::ZeroPageX, 6, false),
        0xF7 => instruction(Op::Isc, AddrMode::ZeroPageX, 6, false),
        0xF8 => instruction(Op::Sed, AddrMode::Implied, 2, false),
        0xF9 => instruction(Op::Sbc, AddrMode::AbsoluteY, 4, true),
        0xFA => instruction(Op::Nop, AddrMode::Implied, 2, false),
        0xFB => instruction(Op::Isc, AddrMode::AbsoluteY, 7, false),
        0xFC => instruction(Op::Nop, AddrMode::AbsoluteX, 4, false),
        0xFD => instruction(Op::Sbc, AddrMode::AbsoluteX, 4, true),
        0xFE => instruction(Op::Inc, AddrMode::AbsoluteX, 7, false),
        _ => instruction(Op::Isc, AddrMode::AbsoluteX, 7, false),
    }
}

/// Every row of the opcode table takes between two and eight cycles.
pub proof fn lemma_decode_cycles(opcode: u8)
    ensures
        2 <= decode(opcode).cycles <= 8,
{
}

/// The shape of each operation.
pub open spec fn op_kind(op: Op) -> OpKind {
    match op {
        Op::Lda | Op::Ldx | Op::Ldy | Op::Adc | Op::Sbc | Op::And | Op::Ora | Op::Eor | Op::Cpa | Op::Cpx | Op::Cpy | Op::Bit | Op::Lax | Op::Anc | Op::Alr | Op::Arr | Op::Axs | Op::Xaa | Op::Las => OpKind::Load,
        Op::Sta | Op::Stx | Op::Sty | Op::Sax | Op::Ahx | Op::Shy | Op::Shx | Op::Tas => OpKind::Store,
        Op::Asl | Op::Lsr | Op::Rol | Op::Ror | Op::Inc | Op::Dec | Op::Slo | Op::Rla | Op::Sre | Op::Rra | Op::Dcp | Op::Isc => OpKind::Modify,
        Op::Clc | Op::Cld | Op::Cli | Op::Clv | Op::Sec | Op::Sed | Op::Sei | Op::Tax | Op::Tay | Op::Tsx | Op::Txa | Op::Txs | Op::Tya | Op::Inx | Op::Iny | Op::Dex | Op::Dey => OpKind::Register,
        Op::Bcc | Op::Bcs | Op::Beq | Op::Bmi | Op::Bne | Op::Bpl | Op::Bvc | Op::Bvs => OpKind::Branch,
        Op::Brk | Op::Jmp | Op::Jsr | Op::Rti | Op::Rts | Op::Pha | Op::Php | Op::Pla | Op::Plp => OpKind::Control,
        Op::Nop => OpKind::Skip,
        Op::Kil => OpKind::Halt,
    }
}

/// Bytes that follow the opcode in each addressing mode.
pub open spec fn operand_len(mode: AddrMode) -> u16 {
    match mode {
        AddrMode::Implied | AddrMode::Accumulator => 0,
        AddrMode::Absolute | AddrMode::AbsoluteX | AddrMode::AbsoluteY | AddrMode::Indirect => 2,
        _ => 1,
    }
}

/// Looks an opcode up in the table.
pub fn decode_opcode(opcode: u8) -> (r: Instruction)
    ensures
        r == decode(opcode),
        2 <= r.cycles <= 8,
{
    match opcode / 16 {
        0 => lookup_row_0(opcode),
        1 => lookup_row_1(opcode),
        2 => lookup_row_2(opcode),
        3 => lookup_row_3(opcode),
        4 => lookup_row_4(opcode),
        5 => lookup_row_5(opcode),
        6 => lookup_row_6(opcode),
        7 => lookup_row_7(opcode),
        8 => lookup_row_8(opcode),
        9 => lookup_row_9(opcode),
        10 => lookup_row_a(opcode),
        11 => lookup_row_b(opcode),
        12 => lookup_row_c(opcode),
        13 => lookup_row_d(opcode),
        14 => lookup_row_e(opcode),
        _ => lookup_row_f(opcode),
    }
}

fn lookup_row_0(opcode: u8) -> (r: Instruction)
    requires
        opcode / 16 == 0,
    ensures
        r == decode_row_0(opcode),
        2 <= r.cycles <= 8,
{
    match opcode {
        0x00 => make_instruction(Op::Brk, AddrMode::Implied, 7, false),
        0x01 => make_instruction(Op::Ora, AddrMode::IndirectX, 6, false),
        0x02 => make_instruction(Op::Kil, AddrMode::Implied, 2, false),
        0x03 => make_instruction(Op::Slo, AddrMode::IndirectX, 8, false),
        0x04 => make_instruction(Op::Nop, AddrMode::ZeroPage, 3, false),
        0x05 => make_instruction(Op::Ora, AddrMode::ZeroPage, 3, false),
        0x06 => make_instruction(Op::Asl, AddrMode::ZeroPage, 5, false),
        0x07 => make_instruction(Op::Slo, AddrMode::ZeroPage, 5, false),
        0x08 => make_instruction(Op::Php, AddrMode::Implied, 3, false),
        0x09 => make_instruction(Op::Ora, AddrMode::Immediate, 2, false),
        0x0A => make_instruction(Op::Asl, AddrMode::Accumulator, 2, false),
        0x0B => make_instruction(Op::Anc, AddrMode::Immediate, 2, false),
        0x0C => make_instruction(Op::Nop, AddrMode::Absolute, 4, false),
        0x0D => make_instruction(Op::Ora, AddrMode::Absolute, 4, false),
        0x0E => make_instruction(Op::Asl, AddrMode::Absolute, 6, false),
        _ => make_instruction(Op::Slo, AddrMode::Absolute, 6, false),
    }
}

fn lookup_row_1(opcode: u8) -> (r: Instruction)
    requires
        opcode / 16 == 1,
    ensures
        r == decode_row_1(opcode),
        2 <= r.cycles <= 8,
{
    match opcode {
        0x10 => make_instruction(Op::Bpl, AddrMode::Relative, 2, false),
        0x11 => make_instruction(Op::Ora, AddrMode::IndirectY, 5, true),
        0x12 => make_instruction(Op::Kil, AddrMode::Implied, 2, false),
        0x13 => make_instruction(Op::Slo, AddrMode::IndirectY, 8, false),
        0x14 => make_instruction(Op::Nop, AddrMode::ZeroPageX, 4, false),
        0x15 => make_instruction(Op::Ora, AddrMode::ZeroPageX, 4, false),
        0x16 => make_instruction(Op::Asl, AddrMode::ZeroPageX, 6, false),
        0x17 => make_instruction(Op::Slo, AddrMode::ZeroPageX, 6, false),
        0x18 => make_instruction(Op::Clc, AddrMode::Implied, 2, false),
        0x19 => make_instruction(Op::Ora, AddrMode::AbsoluteY, 4, true),
        0x1A => make_instruction(Op::Nop, AddrMode::Implied, 2, false),
        0x1B => make_instruction(Op::Slo, AddrMode::AbsoluteY, 7, false),
        0x1C => make_instruction(Op::Nop, AddrMode::AbsoluteX, 4, false),
        0x1D => make_instruction(Op::Ora, AddrMode::AbsoluteX, 4, true),
        0x1E => make_instruction(Op::Asl, AddrMode::AbsoluteX, 7, false),
        _ => make_instruction(Op::Slo, AddrMode::AbsoluteX, 7, false),
    }
}

fn lookup_row_2(opcode: u8) -> (r: Instruction)
    requires
        opcode / 16 == 2,
    ensures
        r == decode_row_2(opcode),
        2 <= r.cycles <= 8,
{
    match opcode {
        0x20 => make_instruction(Op::Jsr, AddrMode::Absolute, 6, false),
        0x21 => make_instruction(Op::And, AddrMode::IndirectX, 6, false),
        0x22 => make_instruction(Op::Kil, AddrMode::Implied, 2, false),
        0x23 => make_instruction(Op::Rla, AddrMode::IndirectX, 8, false),
        0x24 => make_instruction(Op::Bit, AddrMode::ZeroPage, 3, false),
        0x25 => make_instruction(Op::And, AddrMode::ZeroPage, 3, false),
        0x26 => make_instruction(Op::Rol, AddrMode::ZeroPage, 5, false),
        0x27 => make_instruction(Op::Rla, AddrMode::ZeroPage, 5, false),
        0x28 => make_instruction(Op::Plp, AddrMode::Implied, 4, false),
        0x29 => make_instruction(Op::And, AddrMode::Immediate, 2, false),
        0x2A => make_instruction(Op::Rol, AddrMode::Accumulator, 2, false),
        0x2B => make_instruction(Op::Anc, AddrMode::Immediate, 2, false),
        0x2C => make_instruction(Op::Bit, AddrMode::Absolute, 4, false),
        0x2D => make_instruction(Op::And, AddrMode::Absolute, 4, false),
        0x2E => make_instruction(Op::Rol, AddrMode::Absolute, 6, false),
        _ => make_instruction(Op::Rla, AddrMode::Absolute, 6, false),
    }
}

fn lookup_row_3(opcode: u8) -> (r: Instruction)
    requires
        opcode / 16 == 3,
    ensures
        r == decode_row_3(opcode),
        2 <= r.cycles <= 8,
{
    match opcode {
        0x30 => make_instruction(Op::Bmi, AddrMode::Relative, 2, false),
        0x31 => make_instruction(Op::And, AddrMode::IndirectY, 5, true),
        0x32 => make_instruction(Op::Kil, AddrMode::Implied, 2, false),
        0x33 => make_instruction(Op::Rla, AddrMode::IndirectY, 8, false),
        0x34 => make_instruction(Op::Nop, AddrMode::ZeroPageX, 4, false),
        0x35 => make_instruction(Op::And, AddrMode::ZeroPageX, 4, false),
        0x36 => make_instruction(Op::Rol, AddrMode::ZeroPageX, 6, false),
        0x37 => make_instruction(Op::Rla, AddrMode::ZeroPageX, 6, false),
        0x38 => make_instruction(Op::Sec, AddrMode::Implied, 2, false),
        0x39 => make_instruction(Op::And, AddrMode::AbsoluteY, 4, true),
        0x3A => make_instruction(Op::Nop, AddrMode::Implied, 2, false),
        0x3B => make_instruction(Op::Rla, AddrMode::AbsoluteY, 7, false),
        0x3C => make_instruction(Op::Nop, AddrMode::AbsoluteX, 4, false),
        0x3D => make_instruction(Op::And, AddrMode::AbsoluteX, 4, true),
        0x3E => make_instruction(Op::Rol, AddrMode::AbsoluteX, 7, false),
        _ => make_instruction(Op::Rla, AddrMode::AbsoluteX, 7, false),
    }
}

fn lookup_row_4(opcode: u8) -> (r: Instruction)
    requires
        opcode / 16 == 4,
    ensures
        r == decode_row_4(opcode),
        2 <= r.cycles <= 8,
{
    match opcode {
        0x40 => make_instruction(Op::Rti, AddrMode::Implied, 6, false),
        0x41 => make_instruction(Op::Eor, AddrMode::IndirectX, 6, false),
        0x42 => make_instruction(Op::Kil, AddrMode::Implied, 2, false),
        0x43 => make_instruction(Op::Sre, AddrMode::IndirectX, 8, false),
        0x44 => make_instruction(Op::Nop, AddrMode::ZeroPage, 3, false),
        0x45 => make_instruction(Op::Eor, AddrMode::ZeroPage, 3, false),
        0x46 => make_instruction(Op::Lsr, AddrMode::ZeroPage, 5, false),
        0x47 => make_instruction(Op::Sre, AddrMode::ZeroPage, 5, false),
        0x48 => make_instruction(Op::Pha, AddrMode::Implied, 3, false),
        0x49 => make_instruction(Op::Eor, AddrMode::Immediate, 2, false),
        0x4A => make_instruction(Op::Lsr, AddrMode::Accumulator, 2, false),
        0x4B => make_instruction(Op::Alr, AddrMode::Immediate, 2, false),
        0x4C => make_instruction(Op::Jmp, AddrMode::Absolute, 3, false),
        0x4D => make_instruction(Op::Eor, AddrMode::Absolute, 4, false),
        0x4E => make_instruction(Op::Lsr, AddrMode::Absolute, 6, false),
        _ => make_instruction(Op::Sre, AddrMode::Absolute, 6, false),
    }
}

fn lookup_row_5(opcode: u8) -> (r: Instruction)
    requires
        opcode / 16 == 5,
    ensures
        r == decode_row_5(opcode),
        2 <= r.cycles <= 8,
{
    match opcode {
        0x50 => make_instruction(Op::Bvc, AddrMode::Relative, 2, false),
        0x51 => make_instruction(Op::Eor, AddrMode::IndirectY, 5, true),
        0x52 => make_instruction(Op::Kil, AddrMode::Implied, 2, false),
        0x53 => make_instruction(Op::Sre, AddrMode::IndirectY, 8, false),
        0x54 => make_instruction(Op::Nop, AddrMode::ZeroPageX, 4, false),
        0x55 => make_instruction(Op::Eor, AddrMode::ZeroPageX, 4, false),
        0x56 => make_instruction(Op::Lsr, AddrMode::ZeroPageX, 6, false),
        0x57 => make_instruction(Op::Sre, AddrMode::ZeroPageX, 6, false),
        0x58 => make_instruction(Op::Cli, AddrMode::Implied, 2, false),
        0x59 => make_instruction(Op::Eor, AddrMode::AbsoluteY, 4, true),
        0x5A => make_instruction(Op::Nop, AddrMode::Implied, 2, false),
        0x5B => make_instruction(Op::Sre, AddrMode::AbsoluteY, 7, false),
        0x5C => make_instruction(Op::Nop, AddrMode::AbsoluteX, 4, false),
        0x5D => make_instruction(Op::Eor, AddrMode::AbsoluteX, 4, true),
        0x5E => make_instruction(Op::Lsr, AddrMode::AbsoluteX, 7, false),
        _ => make_instruction(Op::Sre, AddrMode::AbsoluteX, 7, false),
    }
}

fn lookup_row_6(opcode: u8) -> (r: Instruction)
    requires
        opcode / 16 == 6,
    ensures
        r == decode_row_6(opcode),
        2 <= r.cycles <= 8,
{
    match opcode {
        0x60 => make_instruction(Op::Rts, AddrMode::Implied, 6, false),
        0x61 => make_instruction(Op::Adc, AddrMode::IndirectX, 6, false),
        0x62 => make_instruction(Op::Kil, AddrMode::Implied, 2, false),
        0x63 => make_instruction(Op::Rra, AddrMode::IndirectX, 8, false),
        0x64 => make_instruction(Op::Nop, AddrMode::ZeroPage, 3, false),
        0x65 => make_instruction(Op::Adc, AddrMode::ZeroPage, 3, false),
        0x66 => make_instruction(Op::Ror, AddrMode::ZeroPage, 5, false),
        0x67 => make_instruction(Op::Rra, AddrMode::ZeroPage, 5, false),
        0x68 => make_instruction(Op::Pla, AddrMode::Implied, 4, false),
        0x69 => make_instruction(Op::Adc, AddrMode::Immediate, 2, false),
        0x6A => make_instruction(Op::Ror, AddrMode::Accumulator, 2, false),
        0x6B => make_instruction(Op::Arr, AddrMode::Immediate, 2, false),
        0x6C => make_instruction(Op::Jmp, AddrMode::Indirect, 5, false),
        0x6D => make_instruction(Op::Adc, AddrMode::Absolute, 4, false),
        0x6E => make_instruction(Op::Ror, AddrMode::Absolute, 6, false),
        _ => make_instruction(Op::Rra, AddrMode::Absolute, 6, false),
    }
}

fn lookup_row_7(opcode: u8) -> (r: Instruction)
    requires
        opcode / 16 == 7,
    ensures
        r == decode_row_7(opcode),
        2 <= r.cycles <= 8,
{
    match opcode {
        0x70 => make_instruction(Op::Bvs, AddrMode::Relative, 2, false),
        0x71 => make_instruction(Op::Adc, AddrMode::IndirectY, 5, true),
        0x72 => make_instruction(Op::Kil, AddrMode::Implied, 2, false),
        0x73 => make_instruction(Op::Rra, AddrMode::IndirectY, 8, false),
        0x74 => make_instruction(Op::Nop, AddrMode::ZeroPageX, 4, false),
        0x75 => make_instruction(Op::Adc, AddrMode::ZeroPageX, 4, false),
        0x76 => make_instruction(Op::Ror, AddrMode::ZeroPageX, 6, false),
        0x77 => make_instruction(Op::Rra, AddrMode::ZeroPageX, 6, false),
        0x78 => make_instruction(Op::Sei, AddrMode::Implied, 2, false),
        0x79 => make_instruction(Op::Adc, AddrMode::AbsoluteY, 4, true),
        0x7A => make_instruction(Op::Nop, AddrMode::Implied, 2, false),
        0x7B => make_instruction(Op::Rra, AddrMode::AbsoluteY, 7, false),
        0x7C => make_instruction(Op::Nop, AddrMode::AbsoluteX, 4, false),
        0x7D => make_instruction(Op::Adc, AddrMode::AbsoluteX, 4, true),
        0x7E => make_instruction(Op::Ror, AddrMode::AbsoluteX, 7, false),
        _ => make_instruction(Op::Rra, AddrMode::AbsoluteX, 7, false),
    }
}

fn lookup_row_8(opcode: u8) -> (r: Instruction)
    requires
        opcode / 16 == 8,
    ensures
        r == decode_row_8(opcode),
        2 <= r.cycles <= 8,
{
    match opcode {
        0x80 | 0x82 | 0x89 => make_instruction(Op::Nop, AddrMode::Immediate, 2, false),
        0x81 => make_instruction(Op::Sta, AddrMode::IndirectX, 6, false),
        0x83 => make_instruction(Op::Sax, AddrMode::IndirectX, 6, false),
        0x84 => make_instruction(Op::Sty, AddrMode::ZeroPage, 3, false),
        0x85 => make_instruction(Op::Sta, AddrMode::ZeroPage, 3, false),
        0x86 => make_instruction(Op::Stx, AddrMode::ZeroPage, 3, false),
        0x87 => make_instruction(Op::Sax, AddrMode::ZeroPage, 3, false),
        0x88 => make_instruction(Op::Dey, AddrMode::Implied, 2, false),
        0x8A => make_instruction(Op::Txa, AddrMode::Implied, 2, false),
        0x8B => make_instruction(Op::Xaa, AddrMode::Immediate, 2, false),
        0x8C => make_instruction(Op::Sty, AddrMode::Absolute, 4, false),
        0x8D => make_instruction(Op::Sta, AddrMode::Absolute, 4, false),
        0x8E => make_instruction(Op::Stx, AddrMode::Absolute, 4, false),
        _ => make_instruction(Op::Sax, AddrMode::Absolute, 4, false),
    }
}

fn lookup_row_9(opcode: u8) -> (r: Instruction)
    requires
        opcode / 16 == 9,
    ensures
        r == decode_row_9(opcode),
        2 <= r.cycles <= 8,
{
    match opcode {
        0x90 => make_instruction(Op::Bcc, AddrMode::Relative, 2, false),
        0x91 => make_instruction(Op::Sta, AddrMode::IndirectY, 6, false),
        0x92 => make_instruction(Op::Kil, AddrMode::Implied, 2, false),
        0x93 => make_instruction(Op::Ahx, AddrMode::IndirectY, 6, false),
        0x94 => make_instruction(Op::Sty, AddrMode::ZeroPageX, 4, false),
        0x95 => make_instruction(Op::Sta, AddrMode::ZeroPageX, 4, false),
        0x96 => make_instruction(Op::Stx, AddrMode::ZeroPageY, 4, false),
        0x97 => make_instruction(Op::Sax, AddrMode::ZeroPageY, 4, false),
        0x98 => make_instruction(Op::Tya, AddrMode::Implied, 2, false),
        0x99 => make_instruction(Op::Sta, AddrMode::AbsoluteY, 5, false),
        0x9A => make_instruction(Op::Txs, AddrMode::Implied, 2, false),
        0x9B => make_instruction(Op::Tas, AddrMode::AbsoluteY, 5, false),
        0x9C => make_instruction(Op::Shy, AddrMode::AbsoluteX, 5, false),
        0x9D => make_instruction(Op::Sta, AddrMode::AbsoluteX, 5, false),
        0x9E => make_instruction(Op::Shx, AddrMode::AbsoluteY, 5, false),
        _ => make_instruction(Op::Ahx, AddrMode::AbsoluteY, 5, false),
    }
}

fn lookup_row_a(opcode: u8) -> (r: Instruction)
    requires
        opcode / 16 == 10,
    ensures
        r == decode_row_a(opcode),
        2 <= r.cycles <= 8,
{
    match opcode {
        0xA0 => make_instruction(Op::Ldy, AddrMode::Immediate, 2, false),
        0xA1 => make_instruction(Op::Lda, AddrMode::IndirectX, 6, false),
        0xA2 => make_instruction(Op::Ldx, AddrMode::Immediate, 2, false),
        0xA3 => make_instruction(Op::Lax, AddrMode::IndirectX, 6, false),
        0xA4 => make_instruction(Op::Ldy, AddrMode::ZeroPage, 3, false),
        0xA5 => make_instruction(Op::Lda, AddrMode::ZeroPage, 3, false),
        0xA6 => make_instruction(Op::Ldx, AddrMode::ZeroPage, 3, false),
        0xA7 => make_instruction(Op::Lax, AddrMode::ZeroPage, 3, false),
        0xA8 => make_instruction(Op::Tay, AddrMode::Implied, 2, false),
        0xA9 => make_instruction(Op::Lda, AddrMode::Immediate, 2, false),
        0xAA => make_instruction(Op::Tax, AddrMode::Implied, 2, false),
        0xAB => make_instruction(Op::Lax, AddrMode::Immediate, 2, false),
        0xAC => make_instruction(Op::Ldy, AddrMode::Absolute, 4, false),
        0xAD => make_instruction(Op::Lda, AddrMode::Absolute, 4, false),
        0xAE => make_instruction(Op::Ldx, AddrMode::Absolute, 4, false),
        _ => make_instruction(Op::Lax, AddrMode::Absolute, 4, false),
    }
}

fn lookup_row_b(opcode: u8) -> (r: Instruction)
    requires
        opcode / 16 == 11,
    ensures
        r == decode_row_b(opcode),
        2 <= r.cycles <= 8,
{
    match opcode {
        0xB0 => make_instruction(Op::Bcs, AddrMode::Relative, 2, false),
        0xB1 => make_instruction(Op::Lda, AddrMode::IndirectY, 5, true),
        0xB2 => make_instruction(Op::Kil, AddrMode::Implied, 2, false),
        0xB3 => make_instruction(Op::Lax, AddrMode::IndirectY, 5, false),
        0xB4 => make_instruction(Op::Ldy, AddrMode::ZeroPageX, 4, false),
        0xB5 => make_instruction(Op::Lda, AddrMode::ZeroPageX, 4, false),
        0xB6 => make_instruction(Op::Ldx, AddrMode::ZeroPageY, 4, false),
        0xB7 => make_instruction(Op::Lax, AddrMode::ZeroPageY, 4, false),
        0xB8 => make_instruction(Op::Clv, AddrMode::Implied, 2, false),
        0xB9 => make_instruction(Op::Lda, AddrMode::AbsoluteY, 4, true),
        0xBA => make_instruction(Op::Tsx, AddrMode::Implied, 2, false),
        0xBB => make_instruction(Op::Las, AddrMode::AbsoluteY, 4, false),
        0xBC => make_instruction(Op::Ldy, AddrMode::AbsoluteX, 4, true),
        0xBD => make_instruction(Op::Lda, AddrMode::AbsoluteX, 4, true),
        0xBE => make_instruction(Op::Ldx, AddrMode::AbsoluteY, 4, true),
        _ => make_instruction(Op::Lax, AddrMode::AbsoluteY, 4, false),
    }
}

fn lookup_row_c(opcode: u8) -> (r: Instruction)
    requires
        opcode / 16 == 12,
    ensures
        r == decode_row_c(opcode),
        2 <= r.cycles <= 8,
{
    match opcode {
        0xC0 => make_instruction(Op::Cpy, AddrMode::Immediate, 2, false),
        0xC1 => make_instruction(Op::Cpa, AddrMode::IndirectX, 6, false),
        0xC2 => make_instruction(Op::Nop, AddrMode::Immediate, 2, false),
        0xC3 => make_instruction(Op::Dcp, AddrMode::IndirectX, 8, false),
        0xC4 => make_instruction(Op::Cpy, AddrMode::ZeroPage, 3, false),
        0xC5 => make_instruction(Op::Cpa, AddrMode::ZeroPage, 3, false),
        0xC6 => make_instruction(Op::Dec, AddrMode::ZeroPage, 5, false),
        0xC7 => make_instruction(Op::Dcp, AddrMode::ZeroPage, 5, false),
        0xC8 => make_instruction(Op::Iny, AddrMode::Implied, 2, false),
        0xC9 => make_instruction(Op::Cpa, AddrMode::Immediate, 2, false),
        0xCA => make_instruction(Op::Dex, AddrMode::Implied, 2, false),
        0xCB => make_instruction(Op::Axs, AddrMode::Immediate, 2, false),
        0xCC => make_instruction(Op::Cpy, AddrMode::Absolute, 4, false),
        0xCD => make_instruction(Op::Cpa, AddrMode::Absolute, 4, false),
        0xCE => make_instruction(Op::Dec, AddrMode::Absolute, 6, false),
        _ => make_instruction(Op::Dcp, AddrMode::Absolute, 6, false),
    }
}

fn lookup_row_d(opcode: u8) -> (r: Instruction)
    requires
        opcode / 16 == 13,
    ensures
        r == decode_row_d(opcode),
        2 <= r.cycles <= 8,
{
    match opcode {
        0xD0 => make_instruction(Op::Bne, AddrMode::Relative, 2, false),
        0xD1 => make_instruction(Op::Cpa, AddrMode::IndirectY, 5, true),
        0xD2 => make_instruction(Op::Kil, AddrMode::Implied, 2, false),
        0xD3 => make_instruction(Op::Dcp, AddrMode::IndirectY, 8, false),
        0xD4 => make_instruction(Op::Nop, AddrMode::ZeroPageX, 4, false),
        0xD5 => make_instruction(Op::Cpa, AddrMode::ZeroPageX, 4, false),
        0xD6 => make_instruction(Op::Dec, AddrMode::ZeroPageX, 6, false),
        0xD7 => make_instruction(Op::Dcp, AddrMode::ZeroPageX, 6, false),
        0xD8 => make_instruction(Op::Cld, AddrMode::Implied, 2, false),
        0xD9 => make_instruction(Op::Cpa, AddrMode::AbsoluteY, 4, true),
        0xDA => make_instruction(Op::Nop, AddrMode::Implied, 2, false),
        0xDB => make_instruction(Op::Dcp, AddrMode::AbsoluteY, 7, false),
        0xDC => make_instruction(Op::Nop, AddrMode::AbsoluteX, 4, false),
        0xDD => make_instruction(Op::Cpa, AddrMode::AbsoluteX, 4, true),
        0xDE => make_instruction(Op::Dec, AddrMode::AbsoluteX, 7, false),
        _ => make_instruction(Op::Dcp, AddrMode::AbsoluteX, 7, false),
    }
}

fn lookup_row_e(opcode: u8) -> (r: Instruction)
    requires
        opcode / 16 == 14,
    ensures
        r == decode_row_e(opcode),
        2 <= r.cycles <= 8,
{
    match opcode {
        0xE0 => make_instruction(Op::Cpx, AddrMode::Immediate, 2, false),
        0xE1 => make_instruction(Op::Sbc, AddrMode::IndirectX, 6, false),
        0xE2 => make_instruction(Op::Nop, AddrMode::Immediate, 2, false),
        0xE3 => make_instruction(Op::Isc, AddrMode::IndirectX, 8, false),
        0xE4 => make_instruction(Op::Cpx, AddrMode::ZeroPage, 3, false),
        0xE5 => make_instruction(Op::Sbc, AddrMode::ZeroPage, 3, false),
        0xE6 => make_instruction(Op::Inc, AddrMode::ZeroPage, 5, false),
        0xE7 => make_instruction(Op::Isc, AddrMode::ZeroPage, 5, false),
        0xE8 => make_instruction(Op::Inx, AddrMode::Implied, 2, false),
        0xE9 | 0xEB => make_instruction(Op::Sbc, AddrMode::Immediate, 2, false),
        0xEA => make_instruction(Op::Nop, AddrMode::Implied, 2, false),
        0xEC => make_instruction(Op::Cpx, AddrMode::Absolute, 4, false),
        0xED => make_instruction(Op::Sbc, AddrMode::Absolute, 4, false),
        0xEE => make_instruction(Op::Inc, AddrMode::Absolute, 6, false),
        _ => make_instruction(Op::Isc, AddrMode::Absolute, 6, false),
    }
}

fn lookup_row_f(opcode: u8) -> (r: Instruction)
    requires
        opcode / 16 == 15,
    ensures
        r == decode_row_f(opcode),
        2 <= r.cycles <= 8,
{
    match opcode {
        0xF0 => make_instruction(Op::Beq, AddrMode::Relative, 2, false),
        0xF1 => make_instruction(Op::Sbc, AddrMode::IndirectY, 5, true),
        0xF2 => make_instruction(Op::Kil, AddrMode::Implied, 2, false),
        0xF3 => make_instruction(Op::Isc, AddrMode::IndirectY, 8, false),
        0xF4 => make_instruction(Op::Nop, AddrMode::ZeroPageX, 4, false),
        0xF5 => make_instruction(Op::Sbc, AddrMode::ZeroPageX, 4, false),
        0xF6 => make_instruction(Op::Inc, AddrMode::ZeroPageX, 6, false),
        0xF7 => make_instruction(Op::Isc, AddrMode::ZeroPageX, 6, false),
        0xF8 => make_instruction(Op::Sed, AddrMode::Implied, 2, false),
        0xF9 => make_instruction(Op::Sbc, AddrMode::AbsoluteY, 4, true),
        0xFA => make_instruction(Op::Nop, AddrMode::Implied, 2, false),
        0xFB => make_instruction(Op::Isc, AddrMode::AbsoluteY, 7, false),
        0xFC => make_instruction(Op::Nop, AddrMode::AbsoluteX, 4, false),
        0xFD => make_instruction(Op::Sbc, AddrMode::AbsoluteX, 4, true),
        0xFE => make_instruction(Op::Inc, AddrMode::AbsoluteX, 7, false),
        _ => make_instruction(Op::Isc, AddrMode::AbsoluteX, 7, false),
    }
}

#[verifier::when_used_as_spec(instruction)]
fn make_instruction(op: Op, mode: AddrMode, cycles: u8, page_penalty: bool) -> (r: Instruction)
    ensures
        r == instruction(op, mode, cycles, page_penalty),
{
    Instruction { op, mode, cycles, page_penalty }
}

/// The shape of an operation.
pub fn kind_of(op: Op) -> (r: OpKind)
    ensures
        r == op_kind(op),
{
    match op {
        Op::Lda | Op::Ldx | Op::Ldy | Op::Adc | Op::Sbc | Op::And | Op::Ora | Op::Eor | Op::Cpa | Op::Cpx | Op::Cpy | Op::Bit | Op::Lax | Op::Anc | Op::Alr | Op::Arr | Op::Axs | Op::Xaa | Op::Las => OpKind::Load,
        Op::Sta | Op::Stx | Op::Sty | Op::Sax | Op::Ahx | Op::Shy | Op::Shx | Op::Tas => OpKind::Store,
        Op::Asl | Op::Lsr | Op::Rol | Op::Ror | Op::Inc | Op::Dec | Op::Slo | Op::Rla | Op::Sre | Op::Rra | Op::Dcp | Op::Isc => OpKind::Modify,
        Op::Clc | Op::Cld | Op::Cli | Op::Clv | Op::Sec | Op::Sed | Op::Sei | Op::Tax | Op::Tay | Op::Tsx | Op::Txa | Op::Txs | Op::Tya | Op::Inx | Op::Iny | Op::Dex | Op::Dey => OpKind::Register,
        Op::Bcc | Op::Bcs | Op::Beq | Op::Bmi | Op::Bne | Op::Bpl | Op::Bvc | Op::Bvs => OpKind::Branch,
        Op::Brk | Op::Jmp | Op::Jsr | Op::Rti | Op::Rts | Op::Pha | Op::Php | Op::Pla | Op::Plp => OpKind::Control,
        Op::Nop => OpKind::Skip,
        Op::Kil => OpKind::Halt,
    }
}

/// Bytes that follow the opcode in an addressing mode.
pub fn operand_length(mode: AddrMode) -> (r: u16)
    ensures
        r == operand_len(mode),
{
    match mode {
        AddrMode::Implied | AddrMode::Accumulator => 0,
        AddrMode::Absolute | AddrMode::AbsoluteX | AddrMode::AbsoluteY | AddrMode::Indirect => 2,
        _ => 1,
    }
}

// ---------------------------------------------------------------------------
// Registers and arithmetic
// ---------------------------------------------------------------------------

/// The register file.
#[derive(Debug, Clone, Copy, PartialEq, Eq, Structural)]
pub struct Cpu {
    pub a: u8,
    pub x: u8,
    pub y: u8,
    /// Low byte of the stack pointer; the stack lives in page 1.
    pub sp: u8,
    pub pc: u16,
    /// Flags N V - B D I Z C, bit 7 first.
    pub status: u8,
}

/// Whether a byte names one flag: a single bit.
pub open spec fn is_flag(flag: u8) -> bool {
    is_weight(flag as int)
}

/// A status byte with one flag set or cleared.
pub open spec fn with_flag(status: u8, flag: u8, on: bool) -> u8 {
    if on {
        with_bit(status, flag as int)
    } else {
        without_bit(status, flag as int)
    }
}

/// A status byte with zero and negative set from a result: zero when the
/// result is 0, negative when its top bit is set.
pub open spec fn with_nz(status: u8, value: u8) -> u8 {
    with_flag(with_flag(status, FLAG_ZERO, value == 0), FLAG_NEGATIVE, value >= 128)
}

/// The carry as a number.
pub open spec fn carry_in(status: u8) -> int {
    if bit(status as int, 1) {
        1
    } else {
        0
    }
}

/// A byte read as a signed number.
pub open spec fn signed(value: u8) -> int {
    if value >= 128 {
        value as int - 256
    } else {
        value as int
    }
}

/// Whether two addresses lie in different 256-byte pages.
pub open spec fn pages_differ(a: u16, b: u16) -> bool {
    a / 256 != b / 256
}

/// A signed 8-bit offset added to an address, wrapping at 64 KiB.
pub open spec fn offset_address(base: u16, offset: u8) -> u16 {
    ((base + signed(offset) + 0x10000) % 0x10000) as u16
}

/// An address one further, wrapping at 64 KiB.
pub open spec fn next_address(addr: u16) -> u16 {
    ((addr + 1) % 0x10000) as u16
}

/// An address some bytes further, wrapping at 64 KiB.
pub open spec fn address_plus(addr: u16, n: int) -> u16 {
    ((addr + n) % 0x10000) as u16
}

/// A byte some steps further, wrapping at 256.
pub open spec fn byte_plus(value: u8, n: int) -> u8 {
    ((value + n) % 256) as u8
}

/// A 16-bit word from its two bytes.
pub open spec fn word_of(lo: u8, hi: u8) -> u16 {
    (hi * 256 + lo) as u16
}

impl Cpu {
    /// The registers after reset, before the program counter is loaded.
    pub open spec fn spec_new() -> Cpu {
        Cpu { a: 0, x: 0, y: 0, sp: 0xFD, pc: 0, status: 0x24 }
    }

    /// Whether a flag is set.
    pub open spec fn flag(self, flag: u8) -> bool {
        bit(self.status as int, flag as int)
    }

    /// Zero and negative set from a result.
    pub open spec fn spec_update_nz(self, value: u8) -> Cpu {
        Cpu { status: with_nz(self.status, value), ..self }
    }

    /// Add with carry. A becomes the sum of A, the value and the carry,
    /// modulo 256. The carry flag tells that the unsigned sum passed 255,
    /// the overflow flag that the signed sum left -128 to 127. Decimal mode
    /// does not exist on this processor.
    pub open spec fn spec_adc(self, value: u8) -> Cpu {
        let sum = self.a as int + value as int + carry_in(self.status);
        let signed_sum = signed(self.a) + signed(value) + carry_in(self.status);
        let result = (sum % 256) as u8;
        let carried = with_flag(self.status, FLAG_CARRY, sum > 0xFF);
        let overflowed = with_flag(carried, FLAG_OVERFLOW, signed_sum < -128 || signed_sum > 127);
        Cpu { a: result, status: with_nz(overflowed, result), ..self }
    }

    /// Subtract with borrow: adding the complement `255 - value`.
    pub open spec fn spec_sbc(self, value: u8) -> Cpu {
        self.spec_adc((255 - value) as u8)
    }

    /// Compare a register with a value: carry when the register is not
    /// below it, zero and negative from the difference.
    pub open spec fn spec_compare(self, register: u8, value: u8) -> Cpu {
        let difference = ((register as int - value as int + 256) % 256) as u8;
        Cpu {
            status: with_nz(with_flag(self.status, FLAG_CARRY, register >= value), difference),
            ..self
        }
    }

    /// The registers after an operation that reads `value`.
    pub open spec fn spec_load(self, op: Op, value: u8) -> Cpu {
        match op {
            Op::Lda => Cpu { a: value, ..self }.spec_update_nz(value),
            Op::Ldx => Cpu { x: value, ..self }.spec_update_nz(value),
            Op::Ldy => Cpu { y: value, ..self }.spec_update_nz(value),
            Op::Lax => Cpu { a: value, x: value, ..self }.spec_update_nz(value),
            Op::And => Cpu { a: self.a & value, ..self }.spec_update_nz(self.a & value),
            Op::Ora => Cpu { a: self.a | value, ..self }.spec_update_nz(self.a | value),
            Op::Eor => Cpu { a: self.a ^ value, ..self }.spec_update_nz(self.a ^ value),
            Op::Adc => self.spec_adc(value),
            Op::Sbc => self.spec_sbc(value),
            Op::Cpa => self.spec_compare(self.a, value),
            Op::Cpx => self.spec_compare(self.x, value),
            Op::Cpy => self.spec_compare(self.y, value),
            // zero from A and the value, overflow and negative from the value itself
            Op::Bit => Cpu {
                status: (with_flag(self.status, FLAG_ZERO, self.a & value == 0) % 64 + (value / 64)
                    * 64) as u8,
                ..self
            },
            // AND, then carry from bit 7
            Op::Anc => {
                let r = self.a & value;
                Cpu { a: r, status: with_flag(with_nz(self.status, r), FLAG_CARRY, r >= 128), ..self }
            },
            // AND, then shift right
            Op::Alr => {
                let m = self.a & value;
                Cpu {
                    a: m / 2,
                    status: with_nz(with_flag(self.status, FLAG_CARRY, m % 2 == 1), m / 2),
                    ..self
                }
            },
            // AND, then rotate right; carry from bit 6, overflow from bits 5 and 6
            Op::Arr => {
                let r = ((self.a & value) / 2 + carry_in(self.status) * 128) as u8;
                let carried = with_flag(self.status, FLAG_CARRY, bit(r as int, 64));
                let overflowed = with_flag(
                    carried,
                    FLAG_OVERFLOW,
                    bit(r as int, 32) != bit(r as int, 64),
                );
                Cpu { a: r, status: with_nz(overflowed, r), ..self }
            },
            // X becomes A AND X minus the value, without borrow
            Op::Axs => {
                let m = self.a & self.x;
                let r = ((m as int - value as int + 256) % 256) as u8;
                Cpu { x: r, status: with_nz(with_flag(self.status, FLAG_CARRY, m >= value), r), ..self }
            },
            Op::Xaa => Cpu { a: self.x & value, ..self }.spec_update_nz(self.x & value),
            Op::Las => Cpu {
                a: value & self.sp,
                x: value & self.sp,
                sp: value & self.sp,
                ..self
            }.spec_update_nz(value & self.sp),
            _ => self,
        }
    }

    /// The byte that an operation writes back after reading `value`:
    /// doubled or halved by a shift, with the carry coming in at the free
    /// end for a rotate, or one more or less.
    pub open spec fn spec_modified(self, op: Op, value: u8) -> u8 {
        match op {
            Op::Asl | Op::Slo => ((value % 128) * 2) as u8,
            Op::Lsr | Op::Sre => value / 2,
            Op::Rol | Op::Rla => ((value % 128) * 2 + carry_in(self.status)) as u8,
            Op::Ror | Op::Rra => (value / 2 + carry_in(self.status) * 128) as u8,
            Op::Inc | Op::Isc => byte_plus(value, 1),
            Op::Dec | Op::Dcp => byte_plus(value, 255),
            _ => value,
        }
    }

    /// The registers after an operation that changes `value` in place.
    /// Shifts and rotates put the bit that falls out into the carry. The
    /// undocumented ones then combine the new byte with A: SLO ORs, RLA
    /// ANDs, SRE XORs, RRA adds, DCP compares and ISC subtracts.
    pub open spec fn spec_modify(self, op: Op, value: u8) -> Cpu {
        let result = self.spec_modified(op, value);
        let left = Cpu { status: with_flag(self.status, FLAG_CARRY, value >= 128), ..self };
        let right = Cpu { status: with_flag(self.status, FLAG_CARRY, value % 2 == 1), ..self };
        match op {
            Op::Asl | Op::Rol => left.spec_update_nz(result),
            Op::Lsr | Op::Ror => right.spec_update_nz(result),
            Op::Inc | Op::Dec => self.spec_update_nz(result),
            Op::Slo => Cpu { a: left.a | result, ..left }.spec_update_nz(left.a | result),
            Op::Rla => Cpu { a: left.a & result, ..left }.spec_update_nz(left.a & result),
            Op::Sre => Cpu { a: right.a ^ result, ..right }.spec_update_nz(right.a ^ result),
            Op::Rra => right.spec_adc(result),
            Op::Dcp => self.spec_compare(self.a, result),
            Op::Isc => self.spec_sbc(result),
            _ => self,
        }
    }

    /// The registers after an operation that needs no memory.
    pub open spec fn spec_register(self, op: Op) -> Cpu {
        match op {
            Op::Clc => Cpu { status: with_flag(self.status, FLAG_CARRY, false), ..self },
            Op::Sec => Cpu { status: with_flag(self.status, FLAG_CARRY, true), ..self },
            Op::Cli => Cpu { status: with_flag(self.status, FLAG_INTERRUPT, false), ..self },
            Op::Sei => Cpu { status: with_flag(self.status, FLAG_INTERRUPT, true), ..self },
            Op::Cld => Cpu { status: with_flag(self.status, FLAG_DECIMAL, false), ..self },
            Op::Sed => Cpu { status: with_flag(self.status, FLAG_DECIMAL, true), ..self },
            Op::Clv => Cpu { status: with_flag(self.status, FLAG_OVERFLOW, false), ..self },
            Op::Tax => Cpu { x: self.a, ..self }.spec_update_nz(self.a),
            Op::Tay => Cpu { y: self.a, ..self }.spec_update_nz(self.a),
            Op::Txa => Cpu { a: self.x, ..self }.spec_update_nz(self.x),
            Op::Tya => Cpu { a: self.y, ..self }.spec_update_nz(self.y),
            Op::Tsx => Cpu { x: self.sp, ..self }.spec_update_nz(self.sp),
            Op::Txs => Cpu { sp: self.x, ..self },
            Op::Inx => Cpu { x: byte_plus(self.x, 1), ..self }.spec_update_nz(byte_plus(self.x, 1)),
            Op::Iny => Cpu { y: byte_plus(self.y, 1), ..self }.spec_update_nz(byte_plus(self.y, 1)),
            Op::Dex => Cpu { x: byte_plus(self.x, 255), ..self }.spec_update_nz(
                byte_plus(self.x, 255),
            ),
            Op::Dey => Cpu { y: byte_plus(self.y, 255), ..self }.spec_update_nz(
                byte_plus(self.y, 255),
            ),
            _ => self,
        }
    }

    /// Whether a branch is taken.
    pub open spec fn spec_branch_taken(self, op: Op) -> bool {
        match op {
            Op::Bpl => !self.flag(FLAG_NEGATIVE),
            Op::Bmi => self.flag(FLAG_NEGATIVE),
            Op::Bvc => !self.flag(FLAG_OVERFLOW),
            Op::Bvs => self.flag(FLAG_OVERFLOW),
            Op::Bcc => !self.flag(FLAG_CARRY),
            Op::Bcs => self.flag(FLAG_CARRY),
            Op::Bne => !self.flag(FLAG_ZERO),
            Op::Beq => self.flag(FLAG_ZERO),
            _ => false,
        }
    }

    /// The byte a store writes. The unstable stores AND the registers with
    /// the high byte of the target address before indexing, plus one.
    pub open spec fn spec_stored(self, op: Op, base: u16) -> u8 {
        let high = byte_plus((base / 256) as u8, 1);
        match op {
            Op::Sta => self.a,
            Op::Stx => self.x,
            Op::Sty => self.y,
            Op::Sax => self.a & self.x,
            Op::Ahx | Op::Tas => self.a & self.x & high,
            Op::Shy => self.y & high,
            Op::Shx => self.x & high,
            _ => 0,
        }
    }

    pub fn new() -> (r: Self)
        ensures
            r == Cpu::spec_new(),
    {
        Cpu { a: 0, x: 0, y: 0, sp: 0xFD, pc: 0, status: 0x24 }
    }

    /// Whether a flag is set.
    pub fn has_flag(&self, flag: u8) -> (r: bool)
        requires
            is_flag(flag),
        ensures
            r == self.flag(flag),
    {
        proof {
            lemma_set_clear_u8(self.status, flag);
        }
        self.status & flag != 0
    }

    /// Sets or clears a flag.
    pub fn set_flag(&mut self, flag: u8, on: bool)
        requires
            is_flag(flag),
        ensures
            *final(self) == (Cpu { status: with_flag(old(self).status, flag, on), ..*old(self) }),
    {
        proof {
            lemma_set_clear_u8(self.status, flag);
        }
        if on {
            self.status = self.status | flag;
        } else {
            self.status = self.status & !flag;
        }
    }

    /// Sets zero and negative from a result.
    pub fn update_nz(&mut self, value: u8)
        ensures
            *final(self) == old(self).spec_update_nz(value),
    {
        proof {
            lemma_bits_u8(value);
        }
        self.set_flag(FLAG_ZERO, value == 0);
        self.set_flag(FLAG_NEGATIVE, value & 0x80 != 0);
    }

    /// Adds to A with carry. See [`Cpu::spec_adc`].
    pub fn adc(&mut self, value: u8)
        ensures
            *final(self) == old(self).spec_adc(value),
    {
        proof {
            lemma_bits_u8(self.status);
        }
        let carry: u16 = if self.status & FLAG_CARRY != 0 { 1 } else { 0 };
        let sum: u16 = self.a as u16 + value as u16 + carry;
        let result: u8 = (sum % 256) as u8;
        proof {
            lemma_sign_bits(self.a, value, result);
        }
        let overflow = (self.a ^ result) & (value ^ result) & 0x80 != 0;
        self.set_flag(FLAG_CARRY, sum > 0xFF);
        self.set_flag(FLAG_OVERFLOW, overflow);
        self.a = result;
        self.update_nz(result);
    }

    /// Subtracts from A with borrow. See [`Cpu::spec_sbc`].
    pub fn sbc(&mut self, value: u8)
        ensures
            *final(self) == old(self).spec_sbc(value),
    {
        proof {
            lemma_complement(value);
        }
        self.adc(!value);
    }

    /// Compares a register with a value. See [`Cpu::spec_compare`].
    pub fn compare(&mut self, register: u8, value: u8)
        ensures
            *final(self) == old(self).spec_compare(register, value),
    {
        let difference: u8 = register.wrapping_sub(value);
        self.set_flag(FLAG_CARRY, register >= value);
        self.update_nz(difference);
    }

    /// Carries out an operation that reads `value`. See [`Cpu::spec_load`].
    pub fn load(&mut self, op: Op, value: u8)
        ensures
            *final(self) == old(self).spec_load(op, value),
    {
        match op {
            Op::Lda => {
                self.a = value;
                self.update_nz(value);
            },
            Op::Ldx => {
                self.x = value;
                self.update_nz(value);
            },
            Op::Ldy => {
                self.y = value;
                self.update_nz(value);
            },
            Op::Lax => {
                self.a = value;
                self.x = value;
                self.update_nz(value);
            },
            Op::And => {
                self.a = self.a & value;
                self.update_nz(self.a);
            },
            Op::Ora => {
                self.a = self.a | value;
                self.update_nz(self.a);
            },
            Op::Eor => {
                self.a = self.a ^ value;
                self.update_nz(self.a);
            },
            Op::Adc => {
                self.adc(value);
            },
            Op::Sbc => {
                self.sbc(value);
            },
            Op::Cpa => {
                self.compare(self.a, value);
            },
            Op::Cpx => {
                self.compare(self.x, value);
            },
            Op::Cpy => {
                self.compare(self.y, value);
            },
            Op::Bit => {
                self.set_flag(FLAG_ZERO, self.a & value == 0);
                proof {
                    lemma_bit_test(self.status, value);
                }
                self.status = (self.status & 0x3F) | (value & 0xC0);
            },
            Op::Anc => {
                self.a = self.a & value;
                self.update_nz(self.a);
                proof {
                    lemma_bits_u8(self.a);
                }
                self.set_flag(FLAG_CARRY, self.a & 0x80 != 0);
            },
            Op::Alr => {
                let m: u8 = self.a & value;
                proof {
                    lemma_bits_u8(m);
                }
                self.set_flag(FLAG_CARRY, m & 0x01 != 0);
                self.a = m >> 1;
                self.update_nz(self.a);
            },
            Op::Arr => {
                proof {
                    lemma_bits_u8(self.status);
                    lemma_rotate(self.a & value, self.status & FLAG_CARRY != 0);
                }
                let r: u8 = ((self.a & value) >> 1) | (if self.status & FLAG_CARRY != 0 {
                    0x80u8
                } else {
                    0u8
                });
                proof {
                    lemma_bits_u8(r);
                    lemma_bits_u8(r >> 5);
                    lemma_bits_u8(r >> 6);
                    lemma_arr_overflow(r);
                }
                self.set_flag(FLAG_CARRY, r & 0x40 != 0);
                self.set_flag(FLAG_OVERFLOW, ((r >> 5) & 1) ^ ((r >> 6) & 1) != 0);
                self.a = r;
                self.update_nz(r);
            },
            Op::Axs => {
                let m: u8 = self.a & self.x;
                let r: u8 = m.wrapping_sub(value);
                self.set_flag(FLAG_CARRY, m >= value);
                self.x = r;
                self.update_nz(r);
            },
            Op::Xaa => {
                self.a = self.x & value;
                self.update_nz(self.a);
            },
            Op::Las => {
                let r: u8 = value & self.sp;
                self.a = r;
                self.x = r;
                self.sp = r;
                self.update_nz(r);
            },
            _ => {},
        }
    }

    /// The byte an operation writes back. See [`Cpu::spec_modified`].
    pub fn modified(&self, op: Op, value: u8) -> (r: u8)
        ensures
            r == self.spec_modified(op, value),
    {
        proof {
            lemma_bits_u8(self.status);
            lemma_bits_u8(value);
            lemma_shl_u8(value);
            lemma_rotate(value, self.status & FLAG_CARRY != 0);
        }
        let carry = self.status & FLAG_CARRY != 0;
        match op {
            Op::Asl | Op::Slo => value << 1,
            Op::Lsr | Op::Sre => value >> 1,
            Op::Rol | Op::Rla => (value << 1) | (if carry { 0x01u8 } else { 0u8 }),
            Op::Ror | Op::Rra => (value >> 1) | (if carry { 0x80u8 } else { 0u8 }),
            Op::Inc | Op::Isc => value.wrapping_add(1),
            Op::Dec | Op::Dcp => value.wrapping_sub(1),
            _ => value,
        }
    }

    /// Carries out an operation that changes `value` in place. See
    /// [`Cpu::spec_modify`].
    pub fn modify(&mut self, op: Op, value: u8)
        ensures
            *final(self) == old(self).spec_modify(op, value),
    {
        proof {
            lemma_bits_u8(value);
        }
        let result = self.modified(op, value);
        match op {
            Op::Asl | Op::Rol => {
                self.set_flag(FLAG_CARRY, value & 0x80 != 0);
                self.update_nz(result);
            },
            Op::Lsr | Op::Ror => {
                self.set_flag(FLAG_CARRY, value & 0x01 != 0);
                self.update_nz(result);
            },
            Op::Inc | Op::Dec => {
                self.update_nz(result);
            },
            Op::Slo => {
                self.set_flag(FLAG_CARRY, value & 0x80 != 0);
                self.a = self.a | result;
                self.update_nz(self.a);
            },
            Op::Rla => {
                self.set_flag(FLAG_CARRY, value & 0x80 != 0);
                self.a = self.a & result;
                self.update_nz(self.a);
            },
            Op::Sre => {
                self.set_flag(FLAG_CARRY, value & 0x01 != 0);
                self.a = self.a ^ result;
                self.update_nz(self.a);
            },
            Op::Rra => {
                self.set_flag(FLAG_CARRY, value & 0x01 != 0);
                self.adc(result);
            },
            Op::Dcp => {
                self.compare(self.a, result);
            },
            Op::Isc => {
                self.sbc(result);
            },
            _ => {},
        }
    }

    /// Carries out an operation that needs no memory. See
    /// [`Cpu::spec_register`].
    pub fn register(&mut self, op: Op)
        ensures
            *final(self) == old(self).spec_register(op),
    {
        match op {
            Op::Clc => {
                self.set_flag(FLAG_CARRY, false);
            },
            Op::Sec => {
                self.set_flag(FLAG_CARRY, true);
            },
            Op::Cli => {
                self.set_flag(FLAG_INTERRUPT, false);
            },
            Op::Sei => {
                self.set_flag(FLAG_INTERRUPT, true);
            },
            Op::Cld => {
                self.set_flag(FLAG_DECIMAL, false);
            },
            Op::Sed => {
                self.set_flag(FLAG_DECIMAL, true);
            },
            Op::Clv => {
                self.set_flag(FLAG_OVERFLOW, false);
            },
            Op::Tax => {
                self.x = self.a;
                self.update_nz(self.x);
            },
            Op::Tay => {
                self.y = self.a;
                self.update_nz(self.y);
            },
            Op::Txa => {
                self.a = self.x;
                self.update_nz(self.a);
            },
            Op::Tya => {
                self.a = self.y;
                self.update_nz(self.a);
            },
            Op::Tsx => {
                self.x = self.sp;
                self.update_nz(self.x);
            },
            Op::Txs => {
                self.sp = self.x;
            },
            Op::Inx => {
                self.x = self.x.wrapping_add(1);
                self.update_nz(self.x);
            },
            Op::Iny => {
                self.y = self.y.wrapping_add(1);
                self.update_nz(self.y);
            },
            Op::Dex => {
                self.x = self.x.wrapping_sub(1);
                self.update_nz(self.x);
            },
            Op::Dey => {
                self.y = self.y.wrapping_sub(1);
                self.update_nz(self.y);
            },
            _ => {},
        }
    }

    /// Whether a branch is taken. See [`Cpu::spec_branch_taken`].
    pub fn branch_taken(&self, op: Op) -> (r: bool)
        ensures
            r == self.spec_branch_taken(op),
    {
        proof {
            lemma_bits_u8(self.status);
        }
        match op {
            Op::Bpl => self.status & FLAG_NEGATIVE == 0,
            Op::Bmi => self.status & FLAG_NEGATIVE != 0,
            Op::Bvc => self.status & FLAG_OVERFLOW == 0,
            Op::Bvs => self.status & FLAG_OVERFLOW != 0,
            Op::Bcc => self.status & FLAG_CARRY == 0,
            Op::Bcs => self.status & FLAG_CARRY != 0,
            Op::Bne => self.status & FLAG_ZERO == 0,
            Op::Beq => self.status & FLAG_ZERO != 0,
            _ => false,
        }
    }

    /// The byte a store writes. See [`Cpu::spec_stored`].
    pub fn stored(&self, op: Op, base: u16) -> (r: u8)
        ensures
            r == self.spec_stored(op, base),
    {
        let top: u8 = high_byte(base);
        let high: u8 = top.wrapping_add(1);
        match op {
            Op::Sta => self.a,
            Op::Stx => self.x,
            Op::Sty => self.y,
            Op::Sax => self.a & self.x,
            Op::Ahx | Op::Tas => self.a & self.x & high,
            Op::Shy => self.y & high,
            Op::Shx => self.x & high,
            _ => 0,
        }
    }
}

/// The overflow test of the adder, made on the sign bits, is the test
/// whether both operands have the sign that the result lacks.
proof fn lemma_sign_bits(a: u8, v: u8, r: u8)
    by (bit_vector)
    ensures
        ((a ^ r) & (v ^ r) & 0x80 != 0) <==> ((a >= 128) == (v >= 128) && (r >= 128) != (a >= 128)),
{
}

proof fn lemma_complement(value: u8)
    by (bit_vector)
    ensures
        !value == 255 - value,
{
}

proof fn lemma_bit_test(status: u8, value: u8)
    by (bit_vector)
    ensures
        (status & 0x3F) | (value & 0xC0) == status % 64 + (value / 64) * 64,
{
}

proof fn lemma_rotate(value: u8, carry: bool)
    by (bit_vector)
    ensures
        (value << 1) | (if carry { 0x01u8 } else { 0u8 }) == (value % 128) * 2 + (if carry {
            1u8
        } else {
            0u8
        }),
        (value >> 1) | (if carry { 0x80u8 } else { 0u8 }) == value / 2 + (if carry {
            128u8
        } else {
            0u8
        }),
{
}

proof fn lemma_arr_overflow(r: u8)
    by (bit_vector)
    ensures
        (((r >> 5) & 1) ^ ((r >> 6) & 1) != 0) == (((r / 32) % 2 == 1) != ((r / 64) % 2 == 1)),
{
}

/// Setting or clearing a flag changes that flag and no other.
pub proof fn lemma_flags_independent(c: Cpu, flag: u8, other: u8, on: bool)
    requires
        is_flag(flag),
        is_flag(other),
    ensures
        (Cpu { status: with_flag(c.status, flag, on), ..c }).flag(flag) == on,
        other != flag ==> (Cpu { status: with_flag(c.status, flag, on), ..c }).flag(other) == c.flag(
            other,
        ),
{
    lemma_set_clear_u8(c.status, flag);
    lemma_set_clear_u8(c.status, other);
    lemma_set_clear_u8(with_flag(c.status, flag, on), flag);
    lemma_set_clear_u8(with_flag(c.status, flag, on), other);
    if other != flag {
        lemma_disjoint_weights(c.status, flag, other);
    }
}

proof fn lemma_disjoint_weights(x: u8, w: u8, o: u8)
    by (bit_vector)
    requires
        w == 1 || w == 2 || w == 4 || w == 8 || w == 16 || w == 32 || w == 64 || w == 128,
        o == 1 || o == 2 || o == 4 || o == 8 || o == 16 || o == 32 || o == 64 || o == 128,
        w != o,
    ensures
        (x | w) & o == x & o,
        (x & !w) & o == x & o,
{
}

/// The high byte of a word.
pub fn high_byte(word: u16) -> (r: u8)
    ensures
        r as int == word as int / 256,
{
    (word / 256) as u8
}

/// The low byte of a word.
pub fn low_byte(word: u16) -> (r: u8)
    ensures
        r as int == word as int % 256,
{
    (word % 256) as u8
}

/// Puts two bytes together, low byte first.
pub fn make_word(lo: u8, hi: u8) -> (r: u16)
    ensures
        r == word_of(lo, hi),
{
    proof {
        lemma_word(lo, hi);
    }
    ((hi as u16) << 8) | lo as u16
}

/// Whether two addresses lie in different pages.
pub fn page_crossed(a: u16, b: u16) -> (r: bool)
    ensures
        r == pages_differ(a, b),
{
    a / 256 != b / 256
}

/// Adds a signed offset to an address. See [`offset_address`].
pub fn add_offset(base: u16, offset: u8) -> (r: u16)
    ensures
        r == offset_address(base, offset),
{
    if offset < 0x80 {
        base.wrapping_add(offset as u16)
    } else {
        base.wrapping_add(0xFF00 + offset as u16)
    }
}

} // verus!
