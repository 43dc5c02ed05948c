//! The opcode table: a total mapping from each of the 256 possible opcode
//! byte values to its decoding entry.
//!
//! Every documented official instruction of the 6502 resolves to an
//! [`OpInfo`] giving its mnemonic, addressing mode, byte length, base cycle
//! cost and whether the mode charges one extra cycle on a page cross.
//! Every other byte value is deliberately classified
//! [`OpEntry::Unimplemented`]; executing one is reported as an
//! illegal-opcode condition, never left to default behavior.

use vstd::prelude::*;

verus! {

/// Addressing mode of an instruction.
#[derive(Clone, Copy, PartialEq, Eq, Structural, Debug)]
pub enum Mode {
    Immediate,
    ZeroPage,
    ZeroPageX,
    ZeroPageY,
    Absolute,
    AbsoluteX,
    AbsoluteY,
    Indirect,
    IndirectX,
    IndirectY,
    Relative,
    Accumulator,
    Implied,
}

/// Mnemonic of a documented official instruction.
#[derive(Clone, Copy, PartialEq, Eq, Structural, Debug)]
pub enum Mnemonic {
    Adc,
    And,
    Asl,
    Bcc,
    Bcs,
    Beq,
    Bit,
    Bmi,
    Bne,
    Bpl,
    Brk,
    Bvc,
    Bvs,
    Clc,
    Cld,
    Cli,
    Clv,
    Cmp,
    Cpx,
    Cpy,
    Dec,
    Dex,
    Dey,
    Eor,
    Inc,
    Inx,
    Iny,
    Jmp,
    Jsr,
    Lda,
    Ldx,
    Ldy,
    Lsr,
    Nop,
    Ora,
    Pha,
    Php,
    Pla,
    Plp,
    Rol,
    Ror,
    Rti,
    Rts,
    Sbc,
    Sec,
    Sed,
    Sei,
    Sta,
    Stx,
    Sty,
    Tax,
    Tay,
    Tsx,
    Txa,
    Txs,
    Tya,
}

/// One opcode table entry: mnemonic, addressing mode, instruction length in
/// bytes, base cycle cost, and whether the addressing mode costs one extra
/// cycle when the effective address crosses a page boundary.
#[derive(Clone, Copy, PartialEq, Eq, Structural, Debug)]
pub struct OpInfo {
    pub mnemonic: Mnemonic,
    pub mode: Mode,
    pub len: u8,
    pub cycles: u8,
    pub page_penalty: bool,
}

/// Classification of an opcode byte: a documented official instruction, or
/// a value this emulator deliberately leaves unimplemented.
#[derive(Clone, Copy, PartialEq, Eq, Structural, Debug)]
pub enum OpEntry {
    Official(OpInfo),
    Unimplemented,
}

/// The table itself, as a total function on the opcode byte.
pub open spec fn opcode_table(b: u8) -> OpEntry {
    match b {
        0x00 => OpEntry::Official(OpInfo { mnemonic: Mnemonic::Brk, mode: Mode::Implied, len: 1, cycles: 7, page_penalty: false }),
        0x01 => OpEntry::Official(OpInfo { mnemonic: Mnemonic::Ora, mode: Mode::IndirectX, len: 2, cycles: 6, page_penalty: false }),
        0x05 => OpEntry::Official(OpInfo { mnemonic: Mnemonic::Ora, mode: Mode::ZeroPage, len: 2, cycles: 3, page_penalty: false }),
        0x06 => OpEntry::Official(OpInfo { mnemonic: Mnemonic::Asl, mode: Mode::ZeroPage, len: 2, cycles: 5, page_penalty: false }),
        0x08 => OpEntry::Official(OpInfo { mnemonic: Mnemonic::Php, mode: Mode::Implied, len: 1, cycles: 3, page_penalty: false }),
        0x09 => OpEntry::Official(OpInfo { mnemonic: Mnemonic::Ora, mode: Mode::Immediate, len: 2, cycles: 2, page_penalty: false }),
        0x0a => OpEntry::Official(OpInfo { mnemonic: Mnemonic::Asl, mode: Mode::Accumulator, len: 1, cycles: 2, page_penalty: false }),
        0x0d => OpEntry::Official(OpInfo { mnemonic: Mnemonic::Ora, mode: Mode::Absolute, len: 3, cycles: 4, page_penalty: false }),
        0x0e => OpEntry::Official(OpInfo { mnemonic: Mnemonic::Asl, mode: Mode::Absolute, len: 3, cycles: 6, page_penalty: false }),
        0x10 => OpEntry::Official(OpInfo { mnemonic: Mnemonic::Bpl, mode: Mode::Relative, len: 2, cycles: 2, page_penalty: false }),
        0x11 => OpEntry::Official(OpInfo { mnemonic: Mnemonic::Ora, mode: Mode::IndirectY, len: 2, cycles: 5, page_penalty: true }),
        0x15 => OpEntry::Official(OpInfo { mnemonic: Mnemonic::Ora, mode: Mode::ZeroPageX, len: 2, cycles: 4, page_penalty: false }),
        0x16 => OpEntry::Official(OpInfo { mnemonic: Mnemonic::Asl, mode: Mode::ZeroPageX, len: 2, cycles: 6, page_penalty: false }),
        0x18 => OpEntry::Official(OpInfo { mnemonic: Mnemonic::Clc, mode: Mode::Implied, len: 1, cycles: 2, page_penalty: false }),
        0x19 => OpEntry::Official(OpInfo { mnemonic: Mnemonic::Ora, mode: Mode::AbsoluteY, len: 3, cycles: 4, page_penalty: true }),
        0x1d => OpEntry::Official(OpInfo { mnemonic: Mnemonic::Ora, mode: Mode::AbsoluteX, len: 3, cycles: 4, page_penalty: true }),
        0x1e => OpEntry::Official(OpInfo { mnemonic: Mnemonic::Asl, mode: Mode::AbsoluteX, len: 3, cycles: 7, page_penalty: false }),
        0x20 => OpEntry::Official(OpInfo { mnemonic: Mnemonic::Jsr, mode: Mode::Absolute, len: 3, cycles: 6, page_penalty: false }),
        0x21 => OpEntry::Official(OpInfo { mnemonic: Mnemonic::And, mode: Mode::IndirectX, len: 2, cycles: 6, page_penalty: false }),
        0x24 => OpEntry::Official(OpInfo { mnemonic: Mnemonic::Bit, mode: Mode::ZeroPage, len: 2, cycles: 3, page_penalty: false }),
        0x25 => OpEntry::Official(OpInfo { mnemonic: Mnemonic::And, mode: Mode::ZeroPage, len: 2, cycles: 3, page_penalty: false }),
        0x26 => OpEntry::Official(OpInfo { mnemonic: Mnemonic::Rol, mode: Mode::ZeroPage, len: 2, cycles: 5, page_penalty: false }),
        0x28 => OpEntry::Official(OpInfo { mnemonic: Mnemonic::Plp, mode: Mode::Implied, len: 1, cycles: 4, page_penalty: false }),
        0x29 => OpEntry::Official(OpInfo { mnemonic: Mnemonic::And, mode: Mode::Immediate, len: 2, cycles: 2, page_penalty: false }),
        0x2a => OpEntry::Official(OpInfo { mnemonic: Mnemonic::Rol, mode: Mode::Accumulator, len: 1, cycles: 2, page_penalty: false }),
        0x2c => OpEntry::Official(OpInfo { mnemonic: Mnemonic::Bit, mode: Mode::Absolute, len: 3, cycles: 4, page_penalty: false }),
        0x2d => OpEntry::Official(OpInfo { mnemonic: Mnemonic::And, mode: Mode::Absolute, len: 3, cycles: 4, page_penalty: false }),
        0x2e => OpEntry::Official(OpInfo { mnemonic: Mnemonic::Rol, mode: Mode::Absolute, len: 3, cycles: 6, page_penalty: false }),
        0x30 => OpEntry::Official(OpInfo { mnemonic: Mnemonic::Bmi, mode: Mode::Relative, len: 2, cycles: 2, page_penalty: false }),
        0x31 => OpEntry::Official(OpInfo { mnemonic: Mnemonic::And, mode: Mode::IndirectY, len: 2, cycles: 5, page_penalty: true }),
        0x35 => OpEntry::Official(OpInfo { mnemonic: Mnemonic::And, mode: Mode::ZeroPageX, len: 2, cycles: 4, page_penalty: false }),
        0x36 => OpEntry::Official(OpInfo { mnemonic: Mnemonic::Rol, mode: Mode::ZeroPageX, len: 2, cycles: 6, page_penalty: false }),
        0x38 => OpEntry::Official(OpInfo { mnemonic: Mnemonic::Sec, mode: Mode::Implied, len: 1, cycles: 2, page_penalty: false }),
        0x39 => OpEntry::Official(OpInfo { mnemonic: Mnemonic::And, mode: Mode::AbsoluteY, len: 3, cycles: 4, page_penalty: true }),
        0x3d => OpEntry::Official(OpInfo { mnemonic: Mnemonic::And, mode: Mode::AbsoluteX, len: 3, cycles: 4, page_penalty: true }),
        0x3e => OpEntry::Official(OpInfo { mnemonic: Mnemonic::Rol, mode: Mode::AbsoluteX, len: 3, cycles: 7, page_penalty: false }),
        0x40 => OpEntry::Official(OpInfo { mnemonic: Mnemonic::Rti, mode: Mode::Implied, len: 1, cycles: 6, page_penalty: false }),
        0x41 => OpEntry::Official(OpInfo { mnemonic: Mnemonic::Eor, mode: Mode::IndirectX, len: 2, cycles: 6, page_penalty: false }),
        0x45 => OpEntry::Official(OpInfo { mnemonic: Mnemonic::Eor, mode: Mode::ZeroPage, len: 2, cycles: 3, page_penalty: false }),
        0x46 => OpEntry::Official(OpInfo { mnemonic: Mnemonic::Lsr, mode: Mode::ZeroPage, len: 2, cycles: 5, page_penalty: false }),
        0x48 => OpEntry::Official(OpInfo { mnemonic: Mnemonic::Pha, mode: Mode::Implied, len: 1, cycles: 3, page_penalty: false }),
        0x49 => OpEntry::Official(OpInfo { mnemonic: Mnemonic::Eor, mode: Mode::Immediate, len: 2, cycles: 2, page_penalty: false }),
        0x4a => OpEntry::Official(OpInfo { mnemonic: Mnemonic::Lsr, mode: Mode::Accumulator, len: 1, cycles: 2, page_penalty: false }),
        0x4c => OpEntry::Official(OpInfo { mnemonic: Mnemonic::Jmp, mode: Mode::Absolute, len: 3, cycles: 3, page_penalty: false }),
        0x4d => OpEntry::Official(OpInfo { mnemonic: Mnemonic::Eor, mode: Mode::Absolute, len: 3, cycles: 4, page_penalty: false }),
        0x4e => OpEntry::Official(OpInfo { mnemonic: Mnemonic::Lsr, mode: Mode::Absolute, len: 3, cycles: 6, page_penalty: false }),
        0x50 => OpEntry::Official(OpInfo { mnemonic: Mnemonic::Bvc, mode: Mode::Relative, len: 2, cycles: 2, page_penalty: false }),
        0x51 => OpEntry::Official(OpInfo { mnemonic: Mnemonic::Eor, mode: Mode::IndirectY, len: 2, cycles: 5, page_penalty: true }),
        0x55 => OpEntry::Official(OpInfo { mnemonic: Mnemonic::Eor, mode: Mode::ZeroPageX, len: 2, cycles: 4, page_penalty: false }),
        0x56 => OpEntry::Official(OpInfo { mnemonic: Mnemonic::Lsr, mode: Mode::ZeroPageX, len: 2, cycles: 6, page_penalty: false }),
        0x58 => OpEntry::Official(OpInfo { mnemonic: Mnemonic::Cli, mode: Mode::Implied, len: 1, cycles: 2, page_penalty: false }),
        0x59 => OpEntry::Official(OpInfo { mnemonic: Mnemonic::Eor, mode: Mode::AbsoluteY, len: 3, cycles: 4, page_penalty: true }),
        0x5d => OpEntry::Official(OpInfo { mnemonic: Mnemonic::Eor, mode: Mode::AbsoluteX, len: 3, cycles: 4, page_penalty: true }),
        0x5e => OpEntry::Official(OpInfo { mnemonic: Mnemonic::Lsr, mode: Mode::AbsoluteX, len: 3, cycles: 7, page_penalty: false }),
        0x60 => OpEntry::Official(OpInfo { mnemonic: Mnemonic::Rts, mode: Mode::Implied, len: 1, cycles: 6, page_penalty: false }),
        0x61 => OpEntry::Official(OpInfo { mnemonic: Mnemonic::Adc, mode: Mode::IndirectX, len: 2, cycles: 6, page_penalty: false }),
        0x65 => OpEntry::Official(OpInfo { mnemonic: Mnemonic::Adc, mode: Mode::ZeroPage, len: 2, cycles: 3, page_penalty: false }),
        0x66 => OpEntry::Official(OpInfo { mnemonic: Mnemonic::Ror, mode: Mode::ZeroPage, len: 2, cycles: 5, page_penalty: false }),
        0x68 => OpEntry::Official(OpInfo { mnemonic: Mnemonic::Pla, mode: Mode::Implied, len: 1, cycles: 4, page_penalty: false }),
        0x69 => OpEntry::Official(OpInfo { mnemonic: Mnemonic::Adc, mode: Mode::Immediate, len: 2, cycles: 2, page_penalty: false }),
        0x6a => OpEntry::Official(OpInfo { mnemonic: Mnemonic::Ror, mode: Mode::Accumulator, len: 1, cycles: 2, page_penalty: false }),
        0x6c => OpEntry::Official(OpInfo { mnemonic: Mnemonic::Jmp, mode: Mode::Indirect, len: 3, cycles: 5, page_penalty: false }),
        0x6d => OpEntry::Official(OpInfo { mnemonic: Mnemonic::Adc, mode: Mode::Absolute, len: 3, cycles: 4, page_penalty: false }),
        0x6e => OpEntry::Official(OpInfo { mnemonic: Mnemonic::Ror, mode: Mode::Absolute, len: 3, cycles: 6, page_penalty: false }),
        0x70 => OpEntry::Official(OpInfo { mnemonic: Mnemonic::Bvs, mode: Mode::Relative, len: 2, cycles: 2, page_penalty: false }),
        0x71 => OpEntry::Official(OpInfo { mnemonic: Mnemonic::Adc, mode: Mode::IndirectY, len: 2, cycles: 5, page_penalty: true }),
        0x75 => OpEntry::Official(OpInfo { mnemonic: Mnemonic::Adc, mode: Mode::ZeroPageX, len: 2, cycles: 4, page_penalty: false }),
        0x76 => OpEntry::Official(OpInfo { mnemonic: Mnemonic::Ror, mode: Mode::ZeroPageX, len: 2, cycles: 6, page_penalty: false }),
        0x78 => OpEntry::Official(OpInfo { mnemonic: Mnemonic::Sei, mode: Mode::Implied, len: 1, cycles: 2, page_penalty: false }),
        0x79 => OpEntry::Official(OpInfo { mnemonic: Mnemonic::Adc, mode: Mode::AbsoluteY, len: 3, cycles: 4, page_penalty: true }),
        0x7d => OpEntry::Official(OpInfo { mnemonic: Mnemonic::Adc, mode: Mode::AbsoluteX, len: 3, cycles: 4, page_penalty: true }),
        0x7e => OpEntry::Official(OpInfo { mnemonic: Mnemonic::Ror, mode: Mode::AbsoluteX, len: 3, cycles: 7, page_penalty: false }),
        0x81 => OpEntry::Official(OpInfo { mnemonic: Mnemonic::Sta, mode: Mode::IndirectX, len: 2, cycles: 6, page_penalty: false }),
        0x84 => OpEntry::Official(OpInfo { mnemonic: Mnemonic::Sty, mode: Mode::ZeroPage, len: 2, cycles: 3, page_penalty: false }),
        0x85 => OpEntry::Official(OpInfo { mnemonic: Mnemonic::Sta, mode: Mode::ZeroPage, len: 2, cycles: 3, page_penalty: false }),
        0x86 => OpEntry::Official(OpInfo { mnemonic: Mnemonic::Stx, mode: Mode::ZeroPage, len: 2, cycles: 3, page_penalty: false }),
        0x88 => OpEntry::Official(OpInfo { mnemonic: Mnemonic::Dey, mode: Mode::Implied, len: 1, cycles: 2, page_penalty: false }),
        0x8a => OpEntry::Official(OpInfo { mnemonic: Mnemonic::Txa, mode: Mode::Implied, len: 1, cycles: 2, page_penalty: false }),
        0x8c => OpEntry::Official(OpInfo { mnemonic: Mnemonic::Sty, mode: Mode::Absolute, len: 3, cycles: 4, page_penalty: false }),
        0x8d => OpEntry::Official(OpInfo { mnemonic: Mnemonic::Sta, mode: Mode::Absolute, len: 3, cycles: 4, page_penalty: false }),
        0x8e => OpEntry::Official(OpInfo { mnemonic: Mnemonic::Stx, mode: Mode::Absolute, len: 3, cycles: 4, page_penalty: false }),
        0x90 => OpEntry::Official(OpInfo { mnemonic: Mnemonic::Bcc, mode: Mode::Relative, len: 2, cycles: 2, page_penalty: false }),
        0x91 => OpEntry::Official(OpInfo { mnemonic: Mnemonic::Sta, mode: Mode::IndirectY, len: 2, cycles: 6, page_penalty: false }),
        0x94 => OpEntry::Official(OpInfo { mnemonic: Mnemonic::Sty, mode: Mode::ZeroPageX, len: 2, cycles: 4, page_penalty: false }),
        0x95 => OpEntry::Official(OpInfo { mnemonic: Mnemonic::Sta, mode: Mode::ZeroPageX, len: 2, cycles: 4, page_penalty: false }),
        0x96 => OpEntry::Official(OpInfo { mnemonic: Mnemonic::Stx, mode: Mode::ZeroPageY, len: 2, cycles: 4, page_penalty: false }),
        0x98 => OpEntry::Official(OpInfo { mnemonic: Mnemonic::Tya, mode: Mode::Implied, len: 1, cycles: 2, page_penalty: false }),
        0x99 => OpEntry::Official(OpInfo { mnemonic: Mnemonic::Sta, mode: Mode::AbsoluteY, len: 3, cycles: 5, page_penalty: false }),
        0x9a => OpEntry::Official(OpInfo { mnemonic: Mnemonic::Txs, mode: Mode::Implied, len: 1, cycles: 2, page_penalty: false }),
        0x9d => OpEntry::Official(OpInfo { mnemonic: Mnemonic::Sta, mode: Mode::AbsoluteX, len: 3, cycles: 5, page_penalty: false }),
        0xa0 => OpEntry::Official(OpInfo { mnemonic: Mnemonic::Ldy, mode: Mode::Immediate, len: 2, cycles: 2, page_penalty: false }),
        0xa1 => OpEntry::Official(OpInfo { mnemonic: Mnemonic::Lda, mode: Mode::IndirectX, len: 2, cycles: 6, page_penalty: false }),
        0xa2 => OpEntry::Official(OpInfo { mnemonic: Mnemonic::Ldx, mode: Mode::Immediate, len: 2, cycles: 2, page_penalty: false }),
        0xa4 => OpEntry::Official(OpInfo { mnemonic: Mnemonic::Ldy, mode: Mode::ZeroPage, len: 2, cycles: 3, page_penalty: false }),
        0xa5 => OpEntry::Official(OpInfo { mnemonic: Mnemonic::Lda, mode: Mode::ZeroPage, len: 2, cycles: 3, page_penalty: false }),
        0xa6 => OpEntry::Official(OpInfo { mnemonic: Mnemonic::Ldx, mode: Mode::ZeroPage, len: 2, cycles: 3, page_penalty: false }),
        0xa8 => OpEntry::Official(OpInfo { mnemonic: Mnemonic::Tay, mode: Mode::Implied, len: 1, cycles: 2, page_penalty: false }),
        0xa9 => OpEntry::Official(OpInfo { mnemonic: Mnemonic::Lda, mode: Mode::Immediate, len: 2, cycles: 2, page_penalty: false }),
        0xaa => OpEntry::Official(OpInfo { mnemonic: Mnemonic::Tax, mode: Mode::Implied, len: 1, cycles: 2, page_penalty: false }),
        0xac => OpEntry::Official(OpInfo { mnemonic: Mnemonic::Ldy, mode: Mode::Absolute, len: 3, cycles: 4, page_penalty: false }),
        0xad => OpEntry::Official(OpInfo { mnemonic: Mnemonic::Lda, mode: Mode::Absolute, len: 3, cycles: 4, page_penalty: false }),
        0xae => OpEntry::Official(OpInfo { mnemonic: Mnemonic::Ldx, mode: Mode::Absolute, len: 3, cycles: 4, page_penalty: false }),
        0xb0 => OpEntry::Official(OpInfo { mnemonic: Mnemonic::Bcs, mode: Mode::Relative, len: 2, cycles: 2, page_penalty: false }),
        0xb1 => OpEntry::Official(OpInfo { mnemonic: Mnemonic::Lda, mode: Mode::IndirectY, len: 2, cycles: 5, page_penalty: true }),
        0xb4 => OpEntry::Official(OpInfo { mnemonic: Mnemonic::Ldy, mode: Mode::ZeroPageX, len: 2, cycles: 4, page_penalty: false }),
        0xb5 => OpEntry::Official(OpInfo { mnemonic: Mnemonic::Lda, mode: Mode::ZeroPageX, len: 2, cycles: 4, page_penalty: false }),
        0xb6 => OpEntry::Official(OpInfo { mnemonic: Mnemonic::Ldx, mode: Mode::ZeroPageY, len: 2, cycles: 4, page_penalty: false }),
        0xb8 => OpEntry::Official(OpInfo { mnemonic: Mnemonic::Clv, mode: Mode::Implied, len: 1, cycles: 2, page_penalty: false }),
        0xb9 => OpEntry::Official(OpInfo { mnemonic: Mnemonic::Lda, mode: Mode::AbsoluteY, len: 3, cycles: 4, page_penalty: true }),
        0xba => OpEntry::Official(OpInfo { mnemonic: Mnemonic::Tsx, mode: Mode::Implied, len: 1, cycles: 2, page_penalty: false }),
        0xbc => OpEntry::Official(OpInfo { mnemonic: Mnemonic::Ldy, mode: Mode::AbsoluteX, len: 3, cycles: 4, page_penalty: true }),
        0xbd => OpEntry::Official(OpInfo { mnemonic: Mnemonic::Lda, mode: Mode::AbsoluteX, len: 3, cycles: 4, page_penalty: true }),
        0xbe => OpEntry::Official(OpInfo { mnemonic: Mnemonic::Ldx, mode: Mode::AbsoluteY, len: 3, cycles: 4, page_penalty: true }),
        0xc0 => OpEntry::Official(OpInfo { mnemonic: Mnemonic::Cpy, mode: Mode::Immediate, len: 2, cycles: 2, page_penalty: false }),
        0xc1 => OpEntry::Official(OpInfo { mnemonic: Mnemonic::Cmp, mode: Mode::IndirectX, len: 2, cycles: 6, page_penalty: false }),
        0xc4 => OpEntry::Official(OpInfo { mnemonic: Mnemonic::Cpy, mode: Mode::ZeroPage, len: 2, cycles: 3, page_penalty: false }),
        0xc5 => OpEntry::Official(OpInfo { mnemonic: Mnemonic::Cmp, mode: Mode::ZeroPage, len: 2, cycles: 3, page_penalty: false }),
        0xc6 => OpEntry::Official(OpInfo { mnemonic: Mnemonic::Dec, mode: Mode::ZeroPage, len: 2, cycles: 5, page_penalty: false }),
        0xc8 => OpEntry::Official(OpInfo { mnemonic: Mnemonic::Iny, mode: Mode::Implied, len: 1, cycles: 2, page_penalty: false }),
        0xc9 => OpEntry::Official(OpInfo { mnemonic: Mnemonic::Cmp, mode: Mode::Immediate, len: 2, cycles: 2, page_penalty: false }),
        0xca => OpEntry::Official(OpInfo { mnemonic: Mnemonic::Dex, mode: Mode::Implied, len: 1, cycles: 2, page_penalty: false }),
        0xcc => OpEntry::Official(OpInfo { mnemonic: Mnemonic::Cpy, mode: Mode::Absolute, len: 3, cycles: 4, page_penalty: false }),
        0xcd => OpEntry::Official(OpInfo { mnemonic: Mnemonic::Cmp, mode: Mode::Absolute, len: 3, cycles: 4, page_penalty: false }),
        0xce => OpEntry::Official(OpInfo { mnemonic: Mnemonic::Dec, mode: Mode::Absolute, len: 3, cycles: 6, page_penalty: false }),
        0xd0 => OpEntry::Official(OpInfo { mnemonic: Mnemonic::Bne, mode: Mode::Relative, len: 2, cycles: 2, page_penalty: false }),
        0xd1 => OpEntry::Official(OpInfo { mnemonic: Mnemonic::Cmp, mode: Mode::IndirectY, len: 2, cycles: 5, page_penalty: true }),
        0xd5 => OpEntry::Official(OpInfo { mnemonic: Mnemonic::Cmp, mode: Mode::ZeroPageX, len: 2, cycles: 4, page_penalty: false }),
        0xd6 => OpEntry::Official(OpInfo { mnemonic: Mnemonic::Dec, mode: Mode::ZeroPageX, len: 2, cycles: 6, page_penalty: false }),
        0xd8 => OpEntry::Official(OpInfo { mnemonic: Mnemonic::Cld, mode: Mode::Implied, len: 1, cycles: 2, page_penalty: false }),
        0xd9 => OpEntry::Official(OpInfo { mnemonic: Mnemonic::Cmp, mode: Mode::AbsoluteY, len: 3, cycles: 4, page_penalty: true }),
        0xdd => OpEntry::Official(OpInfo { mnemonic: Mnemonic::Cmp, mode: Mode::AbsoluteX, len: 3, cycles: 4, page_penalty: true }),
        0xde => OpEntry::Official(OpInfo { mnemonic: Mnemonic::Dec, mode: Mode::AbsoluteX, len: 3, cycles: 7, page_penalty: false }),
        0xe0 => OpEntry::Official(OpInfo { mnemonic: Mnemonic::Cpx, mode: Mode::Immediate, len: 2, cycles: 2, page_penalty: false }),
        0xe1 => OpEntry::Official(OpInfo { mnemonic: Mnemonic::Sbc, mode: Mode::IndirectX, len: 2, cycles: 6, page_penalty: false }),
        0xe4 => OpEntry::Official(OpInfo { mnemonic: Mnemonic::Cpx, mode: Mode::ZeroPage, len: 2, cycles: 3, page_penalty: false }),
        0xe5 => OpEntry::Official(OpInfo { mnemonic: Mnemonic::Sbc, mode: Mode::ZeroPage, len: 2, cycles: 3, page_penalty: false }),
        0xe6 => OpEntry::Official(OpInfo { mnemonic: Mnemonic::Inc, mode: Mode::ZeroPage, len: 2, cycles: 5, page_penalty: false }),
        0xe8 => OpEntry::Official(OpInfo { mnemonic: Mnemonic::Inx, mode: Mode::Implied, len: 1, cycles: 2, page_penalty: false }),
        0xe9 => OpEntry::Official(OpInfo { mnemonic: Mnemonic::Sbc, mode: Mode::Immediate, len: 2, cycles: 2, page_penalty: false }),
        0xea => OpEntry::Official(OpInfo { mnemonic: Mnemonic::Nop, mode: Mode::Implied, len: 1, cycles: 2, page_penalty: false }),
        0xec => OpEntry::Official(OpInfo { mnemonic: Mnemonic::Cpx, mode: Mode::Absolute, len: 3, cycles: 4, page_penalty: false }),
        0xed => OpEntry::Official(OpInfo { mnemonic: Mnemonic::Sbc, mode: Mode::Absolute, len: 3, cycles: 4, page_penalty: false }),
        0xee => OpEntry::Official(OpInfo { mnemonic: Mnemonic::Inc, mode: Mode::Absolute, len: 3, cycles: 6, page_penalty: false }),
        0xf0 => OpEntry::Official(OpInfo { mnemonic: Mnemonic::Beq, mode: Mode::Relative, len: 2, cycles: 2, page_penalty: false }),
        0xf1 => OpEntry::Official(OpInfo { mnemonic: Mnemonic::Sbc, mode: Mode::IndirectY, len: 2, cycles: 5, page_penalty: true }),
        0xf5 => OpEntry::Official(OpInfo { mnemonic: Mnemonic::Sbc, mode: Mode::ZeroPageX, len: 2, cycles: 4, page_penalty: false }),
        0xf6 => OpEntry::Official(OpInfo { mnemonic: Mnemonic::Inc, mode: Mode::ZeroPageX, len: 2, cycles: 6, page_penalty: false }),
        0xf8 => OpEntry::Official(OpInfo { mnemonic: Mnemonic::Sed, mode: Mode::Implied, len: 1, cycles: 2, page_penalty: false }),
        0xf9 => OpEntry::Official(OpInfo { mnemonic: Mnemonic::Sbc, mode: Mode::AbsoluteY, len: 3, cycles: 4, page_penalty: true }),
        0xfd => OpEntry::Official(OpInfo { mnemonic: Mnemonic::Sbc, mode: Mode::AbsoluteX, len: 3, cycles: 4, page_penalty: true }),
        0xfe => OpEntry::Official(OpInfo { mnemonic: Mnemonic::Inc, mode: Mode::AbsoluteX, len: 3, cycles: 7, page_penalty: false }),
        _ => OpEntry::Unimplemented,
    }
}

/// Executable lookup into the opcode table.
pub fn lookup_opcode(b: u8) -> (r: OpEntry)
    ensures
        r == opcode_table(b),
{
    match b {
        0x00 => OpEntry::Official(OpInfo { mnemonic: Mnemonic::Brk, mode: Mode::Implied, len: 1, cycles: 7, page_penalty: false }),
        0x01 => OpEntry::Official(OpInfo { mnemonic: Mnemonic::Ora, mode: Mode::IndirectX, len: 2, cycles: 6, page_penalty: false }),
        0x05 => OpEntry::Official(OpInfo { mnemonic: Mnemonic::Ora, mode: Mode::ZeroPage, len: 2, cycles: 3, page_penalty: false }),
        0x06 => OpEntry::Official(OpInfo { mnemonic: Mnemonic::Asl, mode: Mode::ZeroPage, len: 2, cycles: 5, page_penalty: false }),
        0x08 => OpEntry::Official(OpInfo { mnemonic: Mnemonic::Php, mode: Mode::Implied, len: 1, cycles: 3, page_penalty: false }),
        0x09 => OpEntry::Official(OpInfo { mnemonic: Mnemonic::Ora, mode: Mode::Immediate, len: 2, cycles: 2, page_penalty: false }),
        0x0a => OpEntry::Official(OpInfo { mnemonic: Mnemonic::Asl, mode: Mode::Accumulator, len: 1, cycles: 2, page_penalty: false }),
        0x0d => OpEntry::Official(OpInfo { mnemonic: Mnemonic::Ora, mode: Mode::Absolute, len: 3, cycles: 4, page_penalty: false }),
        0x0e => OpEntry::Official(OpInfo { mnemonic: Mnemonic::Asl, mode: Mode::Absolute, len: 3, cycles: 6, page_penalty: false }),
        0x10 => OpEntry::Official(OpInfo { mnemonic: Mnemonic::Bpl, mode: Mode::Relative, len: 2, cycles: 2, page_penalty: false }),
        0x11 => OpEntry::Official(OpInfo { mnemonic: Mnemonic::Ora, mode: Mode::IndirectY, len: 2, cycles: 5, page_penalty: true }),
        0x15 => OpEntry::Official(OpInfo { mnemonic: Mnemonic::Ora, mode: Mode::ZeroPageX, len: 2, cycles: 4, page_penalty: false }),
        0x16 => OpEntry::Official(OpInfo { mnemonic: Mnemonic::Asl, mode: Mode::ZeroPageX, len: 2, cycles: 6, page_penalty: false }),
        0x18 => OpEntry::Official(OpInfo { mnemonic: Mnemonic::Clc, mode: Mode::Implied, len: 1, cycles: 2, page_penalty: false }),
        0x19 => OpEntry::Official(OpInfo { mnemonic: Mnemonic::Ora, mode: Mode::AbsoluteY, len: 3, cycles: 4, page_penalty: true }),
        0x1d => OpEntry::Official(OpInfo { mnemonic: Mnemonic::Ora, mode: Mode::AbsoluteX, len: 3, cycles: 4, page_penalty: true }),
        0x1e => OpEntry::Official(OpInfo { mnemonic: Mnemonic::Asl, mode: Mode::AbsoluteX, len: 3, cycles: 7, page_penalty: false }),
        0x20 => OpEntry::Official(OpInfo { mnemonic: Mnemonic::Jsr, mode: Mode::Absolute, len: 3, cycles: 6, page_penalty: false }),
        0x21 => OpEntry::Official(OpInfo { mnemonic: Mnemonic::And, mode: Mode::IndirectX, len: 2, cycles: 6, page_penalty: false }),
        0x24 => OpEntry::Official(OpInfo { mnemonic: Mnemonic::Bit, mode: Mode::ZeroPage, len: 2, cycles: 3, page_penalty: false }),
        0x25 => OpEntry::Official(OpInfo { mnemonic: Mnemonic::And, mode: Mode::ZeroPage, len: 2, cycles: 3, page_penalty: false }),
        0x26 => OpEntry::Official(OpInfo { mnemonic: Mnemonic::Rol, mode: Mode::ZeroPage, len: 2, cycles: 5, page_penalty: false }),
        0x28 => OpEntry::Official(OpInfo { mnemonic: Mnemonic::Plp, mode: Mode::Implied, len: 1, cycles: 4, page_penalty: false }),
        0x29 => OpEntry::Official(OpInfo { mnemonic: Mnemonic::And, mode: Mode::Immediate, len: 2, cycles: 2, page_penalty: false }),
        0x2a => OpEntry::Official(OpInfo { mnemonic: Mnemonic::Rol, mode: Mode::Accumulator, len: 1, cycles: 2, page_penalty: false }),
        0x2c => OpEntry::Official(OpInfo { mnemonic: Mnemonic::Bit, mode: Mode::Absolute, len: 3, cycles: 4, page_penalty: false }),
        0x2d => OpEntry::Official(OpInfo { mnemonic: Mnemonic::And, mode: Mode::Absolute, len: 3, cycles: 4, page_penalty: false }),
        0x2e => OpEntry::Official(OpInfo { mnemonic: Mnemonic::Rol, mode: Mode::Absolute, len: 3, cycles: 6, page_penalty: false }),
        0x30 => OpEntry::Official(OpInfo { mnemonic: Mnemonic::Bmi, mode: Mode::Relative, len: 2, cycles: 2, page_penalty: false }),
        0x31 => OpEntry::Official(OpInfo { mnemonic: Mnemonic::And, mode: Mode::IndirectY, len: 2, cycles: 5, page_penalty: true }),
        0x35 => OpEntry::Official(OpInfo { mnemonic: Mnemonic::And, mode: Mode::ZeroPageX, len: 2, cycles: 4, page_penalty: false }),
        0x36 => OpEntry::Official(OpInfo { mnemonic: Mnemonic::Rol, mode: Mode::ZeroPageX, len: 2, cycles: 6, page_penalty: false }),
        0x38 => OpEntry::Official(OpInfo { mnemonic: Mnemonic::Sec, mode: Mode::Implied, len: 1, cycles: 2, page_penalty: false }),
        0x39 => OpEntry::Official(OpInfo { mnemonic: Mnemonic::And, mode: Mode::AbsoluteY, len: 3, cycles: 4, page_penalty: true }),
        0x3d => OpEntry::Official(OpInfo { mnemonic: Mnemonic::And, mode: Mode::AbsoluteX, len: 3, cycles: 4, page_penalty: true }),
        0x3e => OpEntry::Official(OpInfo { mnemonic: Mnemonic::Rol, mode: Mode::AbsoluteX, len: 3, cycles: 7, page_penalty: false }),
        0x40 => OpEntry::Official(OpInfo { mnemonic: Mnemonic::Rti, mode: Mode::Implied, len: 1, cycles: 6, page_penalty: false }),
        0x41 => OpEntry::Official(OpInfo { mnemonic: Mnemonic::Eor, mode: Mode::IndirectX, len: 2, cycles: 6, page_penalty: false }),
        0x45 => OpEntry::Official(OpInfo { mnemonic: Mnemonic::Eor, mode: Mode::ZeroPage, len: 2, cycles: 3, page_penalty: false }),
        0x46 => OpEntry::Official(OpInfo { mnemonic: Mnemonic::Lsr, mode: Mode::ZeroPage, len: 2, cycles: 5, page_penalty: false }),
        0x48 => OpEntry::Official(OpInfo { mnemonic: Mnemonic::Pha, mode: Mode::Implied, len: 1, cycles: 3, page_penalty: false }),
        0x49 => OpEntry::Official(OpInfo { mnemonic: Mnemonic::Eor, mode: Mode::Immediate, len: 2, cycles: 2, page_penalty: false }),
        0x4a => OpEntry::Official(OpInfo { mnemonic: Mnemonic::Lsr, mode: Mode::Accumulator, len: 1, cycles: 2, page_penalty: false }),
        0x4c => OpEntry::Official(OpInfo { mnemonic: Mnemonic::Jmp, mode: Mode::Absolute, len: 3, cycles: 3, page_penalty: false }),
        0x4d => OpEntry::Official(OpInfo { mnemonic: Mnemonic::Eor, mode: Mode::Absolute, len: 3, cycles: 4, page_penalty: false }),
        0x4e => OpEntry::Official(OpInfo { mnemonic: Mnemonic::Lsr, mode: Mode::Absolute, len: 3, cycles: 6, page_penalty: false }),
        0x50 => OpEntry::Official(OpInfo { mnemonic: Mnemonic::Bvc, mode: Mode::Relative, len: 2, cycles: 2, page_penalty: false }),
        0x51 => OpEntry::Official(OpInfo { mnemonic: Mnemonic::Eor, mode: Mode::IndirectY, len: 2, cycles: 5, page_penalty: true }),
        0x55 => OpEntry::Official(OpInfo { mnemonic: Mnemonic::Eor, mode: Mode::ZeroPageX, len: 2, cycles: 4, page_penalty: false }),
        0x56 => OpEntry::Official(OpInfo { mnemonic: Mnemonic::Lsr, mode: Mode::ZeroPageX, len: 2, cycles: 6, page_penalty: false }),
        0x58 => OpEntry::Official(OpInfo { mnemonic: Mnemonic::Cli, mode: Mode::Implied, len: 1, cycles: 2, page_penalty: false }),
        0x59 => OpEntry::Official(OpInfo { mnemonic: Mnemonic::Eor, mode: Mode::AbsoluteY, len: 3, cycles: 4, page_penalty: true }),
        0x5d => OpEntry::Official(OpInfo { mnemonic: Mnemonic::Eor, mode: Mode::AbsoluteX, len: 3, cycles: 4, page_penalty: true }),
        0x5e => OpEntry::Official(OpInfo { mnemonic: Mnemonic::Lsr, mode: Mode::AbsoluteX, len: 3, cycles: 7, page_penalty: false }),
        0x60 => OpEntry::Official(OpInfo { mnemonic: Mnemonic::Rts, mode: Mode::Implied, len: 1, cycles: 6, page_penalty: false }),
        0x61 => OpEntry::Official(OpInfo { mnemonic: Mnemonic::Adc, mode: Mode::IndirectX, len: 2, cycles: 6, page_penalty: false }),
        0x65 => OpEntry::Official(OpInfo { mnemonic: Mnemonic::Adc, mode: Mode::ZeroPage, len: 2, cycles: 3, page_penalty: false }),
        0x66 => OpEntry::Official(OpInfo { mnemonic: Mnemonic::Ror, mode: Mode::ZeroPage, len: 2, cycles: 5, page_penalty: false }),
        0x68 => OpEntry::Official(OpInfo { mnemonic: Mnemonic::Pla, mode: Mode::Implied, len: 1, cycles: 4, page_penalty: false }),
        0x69 => OpEntry::Official(OpInfo { mnemonic: Mnemonic::Adc, mode: Mode::Immediate, len: 2, cycles: 2, page_penalty: false }),
        0x6a => OpEntry::Official(OpInfo { mnemonic: Mnemonic::Ror, mode: Mode::Accumulator, len: 1, cycles: 2, page_penalty: false }),
        0x6c => OpEntry::Official(OpInfo { mnemonic: Mnemonic::Jmp, mode: Mode::Indirect, len: 3, cycles: 5, page_penalty: false }),
        0x6d => OpEntry::Official(OpInfo { mnemonic: Mnemonic::Adc, mode: Mode::Absolute, len: 3, cycles: 4, page_penalty: false }),
        0x6e => OpEntry::Official(OpInfo { mnemonic: Mnemonic::Ror, mode: Mode::Absolute, len: 3, cycles: 6, page_penalty: false }),
        0x70 => OpEntry::Official(OpInfo { mnemonic: Mnemonic::Bvs, mode: Mode::Relative, len: 2, cycles: 2, page_penalty: false }),
        0x71 => OpEntry::Official(OpInfo { mnemonic: Mnemonic::Adc, mode: Mode::IndirectY, len: 2, cycles: 5, page_penalty: true }),
        0x75 => OpEntry::Official(OpInfo { mnemonic: Mnemonic::Adc, mode: Mode::ZeroPageX, len: 2, cycles: 4, page_penalty: false }),
        0x76 => OpEntry::Official(OpInfo { mnemonic: Mnemonic::Ror, mode: Mode::ZeroPageX, len: 2, cycles: 6, page_penalty: false }),
        0x78 => OpEntry::Official(OpInfo { mnemonic: Mnemonic::Sei, mode: Mode::Implied, len: 1, cycles: 2, page_penalty: false }),
        0x79 => OpEntry::Official(OpInfo { mnemonic: Mnemonic::Adc, mode: Mode::AbsoluteY, len: 3, cycles: 4, page_penalty: true }),
        0x7d => OpEntry::Official(OpInfo { mnemonic: Mnemonic::Adc, mode: Mode::AbsoluteX, len: 3, cycles: 4, page_penalty: true }),
        0x7e => OpEntry::Official(OpInfo { mnemonic: Mnemonic::Ror, mode: Mode::AbsoluteX, len: 3, cycles: 7, page_penalty: false }),
        0x81 => OpEntry::Official(OpInfo { mnemonic: Mnemonic::Sta, mode: Mode::IndirectX, len: 2, cycles: 6, page_penalty: false }),
        0x84 => OpEntry::Official(OpInfo { mnemonic: Mnemonic::Sty, mode: Mode::ZeroPage, len: 2, cycles: 3, page_penalty: false }),
        0x85 => OpEntry::Official(OpInfo { mnemonic: Mnemonic::Sta, mode: Mode::ZeroPage, len: 2, cycles: 3, page_penalty: false }),
        0x86 => OpEntry::Official(OpInfo { mnemonic: Mnemonic::Stx, mode: Mode::ZeroPage, len: 2, cycles: 3, page_penalty: false }),
        0x88 => OpEntry::Official(OpInfo { mnemonic: Mnemonic::Dey, mode: Mode::Implied, len: 1, cycles: 2, page_penalty: false }),
        0x8a => OpEntry::Official(OpInfo { mnemonic: Mnemonic::Txa, mode: Mode::Implied, len: 1, cycles: 2, page_penalty: false }),
        0x8c => OpEntry::Official(OpInfo { mnemonic: Mnemonic::Sty, mode: Mode::Absolute, len: 3, cycles: 4, page_penalty: false }),
        0x8d => OpEntry::Official(OpInfo { mnemonic: Mnemonic::Sta, mode: Mode::Absolute, len: 3, cycles: 4, page_penalty: false }),
        0x8e => OpEntry::Official(OpInfo { mnemonic: Mnemonic::Stx, mode: Mode::Absolute, len: 3, cycles: 4, page_penalty: false }),
        0x90 => OpEntry::Official(OpInfo { mnemonic: Mnemonic::Bcc, mode: Mode::Relative, len: 2, cycles: 2, page_penalty: false }),
        0x91 => OpEntry::Official(OpInfo { mnemonic: Mnemonic::Sta, mode: Mode::IndirectY, len: 2, cycles: 6, page_penalty: false }),
        0x94 => OpEntry::Official(OpInfo { mnemonic: Mnemonic::Sty, mode: Mode::ZeroPageX, len: 2, cycles: 4, page_penalty: false }),
        0x95 => OpEntry::Official(OpInfo { mnemonic: Mnemonic::Sta, mode: Mode::ZeroPageX, len: 2, cycles: 4, page_penalty: false }),
        0x96 => OpEntry::Official(OpInfo { mnemonic: Mnemonic::Stx, mode: Mode::ZeroPageY, len: 2, cycles: 4, page_penalty: false }),
        0x98 => OpEntry::Official(OpInfo { mnemonic: Mnemonic::Tya, mode: Mode::Implied, len: 1, cycles: 2, page_penalty: false }),
        0x99 => OpEntry::Official(OpInfo { mnemonic: Mnemonic::Sta, mode: Mode::AbsoluteY, len: 3, cycles: 5, page_penalty: false }),
        0x9a => OpEntry::Official(OpInfo { mnemonic: Mnemonic::Txs, mode: Mode::Implied, len: 1, cycles: 2, page_penalty: false }),
        0x9d => OpEntry::Official(OpInfo { mnemonic: Mnemonic::Sta, mode: Mode::AbsoluteX, len: 3, cycles: 5, page_penalty: false }),
        0xa0 => OpEntry::Official(OpInfo { mnemonic: Mnemonic::Ldy, mode: Mode::Immediate, len: 2, cycles: 2, page_penalty: false }),
        0xa1 => OpEntry::Official(OpInfo { mnemonic: Mnemonic::Lda, mode: Mode::IndirectX, len: 2, cycles: 6, page_penalty: false }),
        0xa2 => OpEntry::Official(OpInfo { mnemonic: Mnemonic::Ldx, mode: Mode::Immediate, len: 2, cycles: 2, page_penalty: false }),
        0xa4 => OpEntry::Official(OpInfo { mnemonic: Mnemonic::Ldy, mode: Mode::ZeroPage, len: 2, cycles: 3, page_penalty: false }),
        0xa5 => OpEntry::Official(OpInfo { mnemonic: Mnemonic::Lda, mode: Mode::ZeroPage, len: 2, cycles: 3, page_penalty: false }),
        0xa6 => OpEntry::Official(OpInfo { mnemonic: Mnemonic::Ldx, mode: Mode::ZeroPage, len: 2, cycles: 3, page_penalty: false }),
        0xa8 => OpEntry::Official(OpInfo { mnemonic: Mnemonic::Tay, mode: Mode::Implied, len: 1, cycles: 2, page_penalty: false }),
        0xa9 => OpEntry::Official(OpInfo { mnemonic: Mnemonic::Lda, mode: Mode::Immediate, len: 2, cycles: 2, page_penalty: false }),
        0xaa => OpEntry::Official(OpInfo { mnemonic: Mnemonic::Tax, mode: Mode::Implied, len: 1, cycles: 2, page_penalty: false }),
        0xac => OpEntry::Official(OpInfo { mnemonic: Mnemonic::Ldy, mode: Mode::Absolute, len: 3, cycles: 4, page_penalty: false }),
        0xad => OpEntry::Official(OpInfo { mnemonic: Mnemonic::Lda, mode: Mode::Absolute, len: 3, cycles: 4, page_penalty: false }),
        0xae => OpEntry::Official(OpInfo { mnemonic: Mnemonic::Ldx, mode: Mode::Absolute, len: 3, cycles: 4, page_penalty: false }),
        0xb0 => OpEntry::Official(OpInfo { mnemonic: Mnemonic::Bcs, mode: Mode::Relative, len: 2, cycles: 2, page_penalty: false }),
        0xb1 => OpEntry::Official(OpInfo { mnemonic: Mnemonic::Lda, mode: Mode::IndirectY, len: 2, cycles: 5, page_penalty: true }),
        0xb4 => OpEntry::Official(OpInfo { mnemonic: Mnemonic::Ldy, mode: Mode::ZeroPageX, len: 2, cycles: 4, page_penalty: false }),
        0xb5 => OpEntry::Official(OpInfo { mnemonic: Mnemonic::Lda, mode: Mode::ZeroPageX, len: 2, cycles: 4, page_penalty: false }),
        0xb6 => OpEntry::Official(OpInfo { mnemonic: Mnemonic::Ldx, mode: Mode::ZeroPageY, len: 2, cycles: 4, page_penalty: false }),
        0xb8 => OpEntry::Official(OpInfo { mnemonic: Mnemonic::Clv, mode: Mode::Implied, len: 1, cycles: 2, page_penalty: false }),
        0xb9 => OpEntry::Official(OpInfo { mnemonic: Mnemonic::Lda, mode: Mode::AbsoluteY, len: 3, cycles: 4, page_penalty: true }),
        0xba => OpEntry::Official(OpInfo { mnemonic: Mnemonic::Tsx, mode: Mode::Implied, len: 1, cycles: 2, page_penalty: false }),
        0xbc => OpEntry::Official(OpInfo { mnemonic: Mnemonic::Ldy, mode: Mode::AbsoluteX, len: 3, cycles: 4, page_penalty: true }),
        0xbd => OpEntry::Official(OpInfo { mnemonic: Mnemonic::Lda, mode: Mode::AbsoluteX, len: 3, cycles: 4, page_penalty: true }),
        0xbe => OpEntry::Official(OpInfo { mnemonic: Mnemonic::Ldx, mode: Mode::AbsoluteY, len: 3, cycles: 4, page_penalty: true }),
        0xc0 => OpEntry::Official(OpInfo { mnemonic: Mnemonic::Cpy, mode: Mode::Immediate, len: 2, cycles: 2, page_penalty: false }),
        0xc1 => OpEntry::Official(OpInfo { mnemonic: Mnemonic::Cmp, mode: Mode::IndirectX, len: 2, cycles: 6, page_penalty: false }),
        0xc4 => OpEntry::Official(OpInfo { mnemonic: Mnemonic::Cpy, mode: Mode::ZeroPage, len: 2, cycles: 3, page_penalty: false }),
        0xc5 => OpEntry::Official(OpInfo { mnemonic: Mnemonic::Cmp, mode: Mode::ZeroPage, len: 2, cycles: 3, page_penalty: false }),
        0xc6 => OpEntry::Official(OpInfo { mnemonic: Mnemonic::Dec, mode: Mode::ZeroPage, len: 2, cycles: 5, page_penalty: false }),
        0xc8 => OpEntry::Official(OpInfo { mnemonic: Mnemonic::Iny, mode: Mode::Implied, len: 1, cycles: 2, page_penalty: false }),
        0xc9 => OpEntry::Official(OpInfo { mnemonic: Mnemonic::Cmp, mode: Mode::Immediate, len: 2, cycles: 2, page_penalty: false }),
        0xca => OpEntry::Official(OpInfo { mnemonic: Mnemonic::Dex, mode: Mode::Implied, len: 1, cycles: 2, page_penalty: false }),
        0xcc => OpEntry::Official(OpInfo { mnemonic: Mnemonic::Cpy, mode: Mode::Absolute, len: 3, cycles: 4, page_penalty: false }),
        0xcd => OpEntry::Official(OpInfo { mnemonic: Mnemonic::Cmp, mode: Mode::Absolute, len: 3, cycles: 4, page_penalty: false }),
        0xce => OpEntry::Official(OpInfo { mnemonic: Mnemonic::Dec, mode: Mode::Absolute, len: 3, cycles: 6, page_penalty: false }),
        0xd0 => OpEntry::Official(OpInfo { mnemonic: Mnemonic::Bne, mode: Mode::Relative, len: 2, cycles: 2, page_penalty: false }),
        0xd1 => OpEntry::Official(OpInfo { mnemonic: Mnemonic::Cmp, mode: Mode::IndirectY, len: 2, cycles: 5, page_penalty: true }),
        0xd5 => OpEntry::Official(OpInfo { mnemonic: Mnemonic::Cmp, mode: Mode::ZeroPageX, len: 2, cycles: 4, page_penalty: false }),
        0xd6 => OpEntry::Official(OpInfo { mnemonic: Mnemonic::Dec, mode: Mode::ZeroPageX, len: 2, cycles: 6, page_penalty: false }),
        0xd8 => OpEntry::Official(OpInfo { mnemonic: Mnemonic::Cld, mode: Mode::Implied, len: 1, cycles: 2, page_penalty: false }),
        0xd9 => OpEntry::Official(OpInfo { mnemonic: Mnemonic::Cmp, mode: Mode::AbsoluteY, len: 3, cycles: 4, page_penalty: true }),
        0xdd => OpEntry::Official(OpInfo { mnemonic: Mnemonic::Cmp, mode: Mode::AbsoluteX, len: 3, cycles: 4, page_penalty: true }),
        0xde => OpEntry::Official(OpInfo { mnemonic: Mnemonic::Dec, mode: Mode::AbsoluteX, len: 3, cycles: 7, page_penalty: false }),
        0xe0 => OpEntry::Official(OpInfo { mnemonic: Mnemonic::Cpx, mode: Mode::Immediate, len: 2, cycles: 2, page_penalty: false }),
        0xe1 => OpEntry::Official(OpInfo { mnemonic: Mnemonic::Sbc, mode: Mode::IndirectX, len: 2, cycles: 6, page_penalty: false }),
        0xe4 => OpEntry::Official(OpInfo { mnemonic: Mnemonic::Cpx, mode: Mode::ZeroPage, len: 2, cycles: 3, page_penalty: false }),
        0xe5 => OpEntry::Official(OpInfo { mnemonic: Mnemonic::Sbc, mode: Mode::ZeroPage, len: 2, cycles: 3, page_penalty: false }),
        0xe6 => OpEntry::Official(OpInfo { mnemonic: Mnemonic::Inc, mode: Mode::ZeroPage, len: 2, cycles: 5, page_penalty: false }),
        0xe8 => OpEntry::Official(OpInfo { mnemonic: Mnemonic::Inx, mode: Mode::Implied, len: 1, cycles: 2, page_penalty: false }),
        0xe9 => OpEntry::Official(OpInfo { mnemonic: Mnemonic::Sbc, mode: Mode::Immediate, len: 2, cycles: 2, page_penalty: false }),
        0xea => OpEntry::Official(OpInfo { mnemonic: Mnemonic::Nop, mode: Mode::Implied, len: 1, cycles: 2, page_penalty: false }),
        0xec => OpEntry::Official(OpInfo { mnemonic: Mnemonic::Cpx, mode: Mode::Absolute, len: 3, cycles: 4, page_penalty: false }),
        0xed => OpEntry::Official(OpInfo { mnemonic: Mnemonic::Sbc, mode: Mode::Absolute, len: 3, cycles: 4, page_penalty: false }),
        0xee => OpEntry::Official(OpInfo { mnemonic: Mnemonic::Inc, mode: Mode::Absolute, len: 3, cycles: 6, page_penalty: false }),
        0xf0 => OpEntry::Official(OpInfo { mnemonic: Mnemonic::Beq, mode: Mode::Relative, len: 2, cycles: 2, page_penalty: false }),
        0xf1 => OpEntry::Official(OpInfo { mnemonic: Mnemonic::Sbc, mode: Mode::IndirectY, len: 2, cycles: 5, page_penalty: true }),
        0xf5 => OpEntry::Official(OpInfo { mnemonic: Mnemonic::Sbc, mode: Mode::ZeroPageX, len: 2, cycles: 4, page_penalty: false }),
        0xf6 => OpEntry::Official(OpInfo { mnemonic: Mnemonic::Inc, mode: Mode::ZeroPageX, len: 2, cycles: 6, page_penalty: false }),
        0xf8 => OpEntry::Official(OpInfo { mnemonic: Mnemonic::Sed, mode: Mode::Implied, len: 1, cycles: 2, page_penalty: false }),
        0xf9 => OpEntry::Official(OpInfo { mnemonic: Mnemonic::Sbc, mode: Mode::AbsoluteY, len: 3, cycles: 4, page_penalty: true }),
        0xfd => OpEntry::Official(OpInfo { mnemonic: Mnemonic::Sbc, mode: Mode::AbsoluteX, len: 3, cycles: 4, page_penalty: true }),
        0xfe => OpEntry::Official(OpInfo { mnemonic: Mnemonic::Inc, mode: Mode::AbsoluteX, len: 3, cycles: 7, page_penalty: false }),
        _ => OpEntry::Unimplemented,
    }
}

} // verus!
