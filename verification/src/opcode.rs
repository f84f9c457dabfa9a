//! The opcode table: a pure, immutable mapping from each of the 151
//! documented 6502/6510 opcode bytes to its operation, addressing mode and
//! base cycle cost, plus whether an indexed page crossing adds one cycle.
//! Every byte without a documented operation decodes to `None`; the CPU core
//! treats such a byte as a fault and halts.

use vstd::prelude::*;

verus! {

/// One of the 56 documented 6502/6510 operations.
#[derive(Clone, Copy, Debug, PartialEq, Eq, Structural)]
pub enum Operation {
    Adc, And, Asl, Bcc, Bcs, Beq, Bit, Bmi, Bne, Bpl, Brk, Bvc, Bvs, Clc,
    Cld, Cli, Clv, Cmp, Cpx, Cpy, Dec, Dex, Dey, Eor, Inc, Inx, Iny, Jmp,
    Jsr, Lda, Ldx, Ldy, Lsr, Nop, Ora, Pha, Php, Pla, Plp, Rol, Ror, Rti,
    Rts, Sbc, Sec, Sed, Sei, Sta, Stx, Sty, Tax, Tay, Tsx, Txa, Txs, Tya,
}

/// The rule by which an instruction's operand location is computed from the
/// bytes following the opcode and from the index registers.
#[derive(Clone, Copy, Debug, PartialEq, Eq, Structural)]
pub enum AddressingMode {
    /// No operand, or the operand is implied by the operation.
    Implied,
    /// The operand is the accumulator.
    Accumulator,
    /// One byte: the operand is the literal fetched byte.
    Immediate,
    /// One byte: an address in page zero.
    ZeroPage,
    /// One byte plus X, wrapped within page zero.
    ZeroPageX,
    /// One byte plus Y, wrapped within page zero.
    ZeroPageY,
    /// Two bytes, little-endian.
    Absolute,
    /// Two bytes plus X, full 16-bit wrap.
    AbsoluteX,
    /// Two bytes plus Y, full 16-bit wrap.
    AbsoluteY,
    /// One byte plus X wrapped in page zero, naming a little-endian pointer
    /// whose both bytes lie in page zero.
    IndirectX,
    /// One byte naming a page-zero little-endian pointer, plus Y with full
    /// 16-bit wrap.
    IndirectY,
    /// One signed byte added to the program counter after the instruction.
    Relative,
    /// Two bytes naming a little-endian pointer; used only by the indirect
    /// jump, which reproduces the hardware page-wrap bug.
    Indirect,
}

/// A decoded opcode-table entry: the operation, its addressing mode, its base
/// cycle cost, and whether a page crossing during indexed resolution costs
/// one extra cycle.
#[derive(Clone, Copy, Debug, PartialEq, Eq, Structural)]
pub struct Instr {
    pub op: Operation,
    pub mode: AddressingMode,
    pub cycles: u8,
    pub page_penalty: bool,
}

/// The opcode table as a mathematical function: `None` for every byte with no
/// documented operation.
pub open spec fn decode_spec(opcode: u8) -> Option<Instr> {
    match opcode {
        0x00 => Some(Instr { op: Operation::Brk, mode: AddressingMode::Implied, cycles: 7, page_penalty: false }),
        0x01 => Some(Instr { op: Operation::Ora, mode: AddressingMode::IndirectX, cycles: 6, page_penalty: false }),
        0x05 => Some(Instr { op: Operation::Ora, mode: AddressingMode::ZeroPage, cycles: 3, page_penalty: false }),
        0x06 => Some(Instr { op: Operation::Asl, mode: AddressingMode::ZeroPage, cycles: 5, page_penalty: false }),
        0x08 => Some(Instr { op: Operation::Php, mode: AddressingMode::Implied, cycles: 3, page_penalty: false }),
        0x09 => Some(Instr { op: Operation::Ora, mode: AddressingMode::Immediate, cycles: 2, page_penalty: false }),
        0x0A => Some(Instr { op: Operation::Asl, mode: AddressingMode::Accumulator, cycles: 2, page_penalty: false }),
        0x0D => Some(Instr { op: Operation::Ora, mode: AddressingMode::Absolute, cycles: 4, page_penalty: false }),
        0x0E => Some(Instr { op: Operation::Asl, mode: AddressingMode::Absolute, cycles: 6, page_penalty: false }),
        0x10 => Some(Instr { op: Operation::Bpl, mode: AddressingMode::Relative, cycles: 2, page_penalty: false }),
        0x11 => Some(Instr { op: Operation::Ora, mode: AddressingMode::IndirectY, cycles: 5, page_penalty: true }),
        0x15 => Some(Instr { op: Operation::Ora, mode: AddressingMode::ZeroPageX, cycles: 4, page_penalty: false }),
        0x16 => Some(Instr { op: Operation::Asl, mode: AddressingMode::ZeroPageX, cycles: 6, page_penalty: false }),
        0x18 => Some(Instr { op: Operation::Clc, mode: AddressingMode::Implied, cycles: 2, page_penalty: false }),
        0x19 => Some(Instr { op: Operation::Ora, mode: AddressingMode::AbsoluteY, cycles: 4, page_penalty: true }),
        0x1D => Some(Instr { op: Operation::Ora, mode: AddressingMode::AbsoluteX, cycles: 4, page_penalty: true }),
        0x1E => Some(Instr { op: Operation::Asl, mode: AddressingMode::AbsoluteX, cycles: 7, page_penalty: false }),
        0x20 => Some(Instr { op: Operation::Jsr, mode: AddressingMode::Absolute, cycles: 6, page_penalty: false }),
        0x21 => Some(Instr { op: Operation::And, mode: AddressingMode::IndirectX, cycles: 6, page_penalty: false }),
        0x24 => Some(Instr { op: Operation::Bit, mode: AddressingMode::ZeroPage, cycles: 3, page_penalty: false }),
        0x25 => Some(Instr { op: Operation::And, mode: AddressingMode::ZeroPage, cycles: 3, page_penalty: false }),
        0x26 => Some(Instr { op: Operation::Rol, mode: AddressingMode::ZeroPage, cycles: 5, page_penalty: false }),
        0x28 => Some(Instr { op: Operation::Plp, mode: AddressingMode::Implied, cycles: 4, page_penalty: false }),
        0x29 => Some(Instr { op: Operation::And, mode: AddressingMode::Immediate, cycles: 2, page_penalty: false }),
        0x2A => Some(Instr { op: Operation::Rol, mode: AddressingMode::Accumulator, cycles: 2, page_penalty: false }),
        0x2C => Some(Instr { op: Operation::Bit, mode: AddressingMode::Absolute, cycles: 4, page_penalty: false }),
        0x2D => Some(Instr { op: Operation::And, mode: AddressingMode::Absolute, cycles: 4, page_penalty: false }),
        0x2E => Some(Instr { op: Operation::Rol, mode: AddressingMode::Absolute, cycles: 6, page_penalty: false }),
        0x30 => Some(Instr { op: Operation::Bmi, mode: AddressingMode::Relative, cycles: 2, page_penalty: false }),
        0x31 => Some(Instr { op: Operation::And, mode: AddressingMode::IndirectY, cycles: 5, page_penalty: true }),
        0x35 => Some(Instr { op: Operation::And, mode: AddressingMode::ZeroPageX, cycles: 4, page_penalty: false }),
        0x36 => Some(Instr { op: Operation::Rol, mode: AddressingMode::ZeroPageX, cycles: 6, page_penalty: false }),
        0x38 => Some(Instr { op: Operation::Sec, mode: AddressingMode::Implied, cycles: 2, page_penalty: false }),
        0x39 => Some(Instr { op: Operation::And, mode: AddressingMode::AbsoluteY, cycles: 4, page_penalty: true }),
        0x3D => Some(Instr { op: Operation::And, mode: AddressingMode::AbsoluteX, cycles: 4, page_penalty: true }),
        0x3E => Some(Instr { op: Operation::Rol, mode: AddressingMode::AbsoluteX, cycles: 7, page_penalty: false }),
        0x40 => Some(Instr { op: Operation::Rti, mode: AddressingMode::Implied, cycles: 6, page_penalty: false }),
        0x41 => Some(Instr { op: Operation::Eor, mode: AddressingMode::IndirectX, cycles: 6, page_penalty: false }),
        0x45 => Some(Instr { op: Operation::Eor, mode: AddressingMode::ZeroPage, cycles: 3, page_penalty: false }),
        0x46 => Some(Instr { op: Operation::Lsr, mode: AddressingMode::ZeroPage, cycles: 5, page_penalty: false }),
        0x48 => Some(Instr { op: Operation::Pha, mode: AddressingMode::Implied, cycles: 3, page_penalty: false }),
        0x49 => Some(Instr { op: Operation::Eor, mode: AddressingMode::Immediate, cycles: 2, page_penalty: false }),
        0x4A => Some(Instr { op: Operation::Lsr, mode: AddressingMode::Accumulator, cycles: 2, page_penalty: false }),
        0x4C => Some(Instr { op: Operation::Jmp, mode: AddressingMode::Absolute, cycles: 3, page_penalty: false }),
        0x4D => Some(Instr { op: Operation::Eor, mode: AddressingMode::Absolute, cycles: 4, page_penalty: false }),
        0x4E => Some(Instr { op: Operation::Lsr, mode: AddressingMode::Absolute, cycles: 6, page_penalty: false }),
        0x50 => Some(Instr { op: Operation::Bvc, mode: AddressingMode::Relative, cycles: 2, page_penalty: false }),
        0x51 => Some(Instr { op: Operation::Eor, mode: AddressingMode::IndirectY, cycles: 5, page_penalty: true }),
        0x55 => Some(Instr { op: Operation::Eor, mode: AddressingMode::ZeroPageX, cycles: 4, page_penalty: false }),
        0x56 => Some(Instr { op: Operation::Lsr, mode: AddressingMode::ZeroPageX, cycles: 6, page_penalty: false }),
        0x58 => Some(Instr { op: Operation::Cli, mode: AddressingMode::Implied, cycles: 2, page_penalty: false }),
        0x59 => Some(Instr { op: Operation::Eor, mode: AddressingMode::AbsoluteY, cycles: 4, page_penalty: true }),
        0x5D => Some(Instr { op: Operation::Eor, mode: AddressingMode::AbsoluteX, cycles: 4, page_penalty: true }),
        0x5E => Some(Instr { op: Operation::Lsr, mode: AddressingMode::AbsoluteX, cycles: 7, page_penalty: false }),
        0x60 => Some(Instr { op: Operation::Rts, mode: AddressingMode::Implied, cycles: 6, page_penalty: false }),
        0x61 => Some(Instr { op: Operation::Adc, mode: AddressingMode::IndirectX, cycles: 6, page_penalty: false }),
        0x65 => Some(Instr { op: Operation::Adc, mode: AddressingMode::ZeroPage, cycles: 3, page_penalty: false }),
        0x66 => Some(Instr { op: Operation::Ror, mode: AddressingMode::ZeroPage, cycles: 5, page_penalty: false }),
        0x68 => Some(Instr { op: Operation::Pla, mode: AddressingMode::Implied, cycles: 4, page_penalty: false }),
        0x69 => Some(Instr { op: Operation::Adc, mode: AddressingMode::Immediate, cycles: 2, page_penalty: false }),
        0x6A => Some(Instr { op: Operation::Ror, mode: AddressingMode::Accumulator, cycles: 2, page_penalty: false }),
        0x6C => Some(Instr { op: Operation::Jmp, mode: AddressingMode::Indirect, cycles: 5, page_penalty: false }),
        0x6D => Some(Instr { op: Operation::Adc, mode: AddressingMode::Absolute, cycles: 4, page_penalty: false }),
        0x6E => Some(Instr { op: Operation::Ror, mode: AddressingMode::Absolute, cycles: 6, page_penalty: false }),
        0x70 => Some(Instr { op: Operation::Bvs, mode: AddressingMode::Relative, cycles: 2, page_penalty: false }),
        0x71 => Some(Instr { op: Operation::Adc, mode: AddressingMode::IndirectY, cycles: 5, page_penalty: true }),
        0x75 => Some(Instr { op: Operation::Adc, mode: AddressingMode::ZeroPageX, cycles: 4, page_penalty: false }),
        0x76 => Some(Instr { op: Operation::Ror, mode: AddressingMode::ZeroPageX, cycles: 6, page_penalty: false }),
        0x78 => Some(Instr { op: Operation::Sei, mode: AddressingMode::Implied, cycles: 2, page_penalty: false }),
        0x79 => Some(Instr { op: Operation::Adc, mode: AddressingMode::AbsoluteY, cycles: 4, page_penalty: true }),
        0x7D => Some(Instr { op: Operation::Adc, mode: AddressingMode::AbsoluteX, cycles: 4, page_penalty: true }),
        0x7E => Some(Instr { op: Operation::Ror, mode: AddressingMode::AbsoluteX, cycles: 7, page_penalty: false }),
        0x81 => Some(Instr { op: Operation::Sta, mode: AddressingMode::IndirectX, cycles: 6, page_penalty: false }),
        0x84 => Some(Instr { op: Operation::Sty, mode: AddressingMode::ZeroPage, cycles: 3, page_penalty: false }),
        0x85 => Some(Instr { op: Operation::Sta, mode: AddressingMode::ZeroPage, cycles: 3, page_penalty: false }),
        0x86 => Some(Instr { op: Operation::Stx, mode: AddressingMode::ZeroPage, cycles: 3, page_penalty: false }),
        0x88 => Some(Instr { op: Operation::Dey, mode: AddressingMode::Implied, cycles: 2, page_penalty: false }),
        0x8A => Some(Instr { op: Operation::Txa, mode: AddressingMode::Implied, cycles: 2, page_penalty: false }),
        0x8C => Some(Instr { op: Operation::Sty, mode: AddressingMode::Absolute, cycles: 4, page_penalty: false }),
        0x8D => Some(Instr { op: Operation::Sta, mode: AddressingMode::Absolute, cycles: 4, page_penalty: false }),
        0x8E => Some(Instr { op: Operation::Stx, mode: AddressingMode::Absolute, cycles: 4, page_penalty: false }),
        0x90 => Some(Instr { op: Operation::Bcc, mode: AddressingMode::Relative, cycles: 2, page_penalty: false }),
        0x91 => Some(Instr { op: Operation::Sta, mode: AddressingMode::IndirectY, cycles: 6, page_penalty: false }),
        0x94 => Some(Instr { op: Operation::Sty, mode: AddressingMode::ZeroPageX, cycles: 4, page_penalty: false }),
        0x95 => Some(Instr { op: Operation::Sta, mode: AddressingMode::ZeroPageX, cycles: 4, page_penalty: false }),
        0x96 => Some(Instr { op: Operation::Stx, mode: AddressingMode::ZeroPageY, cycles: 4, page_penalty: false }),
        0x98 => Some(Instr { op: Operation::Tya, mode: AddressingMode::Implied, cycles: 2, page_penalty: false }),
        0x99 => Some(Instr { op: Operation::Sta, mode: AddressingMode::AbsoluteY, cycles: 5, page_penalty: false }),
        0x9A => Some(Instr { op: Operation::Txs, mode: AddressingMode::Implied, cycles: 2, page_penalty: false }),
        0x9D => Some(Instr { op: Operation::Sta, mode: AddressingMode::AbsoluteX, cycles: 5, page_penalty: false }),
        0xA0 => Some(Instr { op: Operation::Ldy, mode: AddressingMode::Immediate, cycles: 2, page_penalty: false }),
        0xA1 => Some(Instr { op: Operation::Lda, mode: AddressingMode::IndirectX, cycles: 6, page_penalty: false }),
        0xA2 => Some(Instr { op: Operation::Ldx, mode: AddressingMode::Immediate, cycles: 2, page_penalty: false }),
        0xA4 => Some(Instr { op: Operation::Ldy, mode: AddressingMode::ZeroPage, cycles: 3, page_penalty: false }),
        0xA5 => Some(Instr { op: Operation::Lda, mode: AddressingMode::ZeroPage, cycles: 3, page_penalty: false }),
        0xA6 => Some(Instr { op: Operation::Ldx, mode: AddressingMode::ZeroPage, cycles: 3, page_penalty: false }),
        0xA8 => Some(Instr { op: Operation::Tay, mode: AddressingMode::Implied, cycles: 2, page_penalty: false }),
        0xA9 => Some(Instr { op: Operation::Lda, mode: AddressingMode::Immediate, cycles: 2, page_penalty: false }),
        0xAA => Some(Instr { op: Operation::Tax, mode: AddressingMode::Implied, cycles: 2, page_penalty: false }),
        0xAC => Some(Instr { op: Operation::Ldy, mode: AddressingMode::Absolute, cycles: 4, page_penalty: false }),
        0xAD => Some(Instr { op: Operation::Lda, mode: AddressingMode::Absolute, cycles: 4, page_penalty: false }),
        0xAE => Some(Instr { op: Operation::Ldx, mode: AddressingMode::Absolute, cycles: 4, page_penalty: false }),
        0xB0 => Some(Instr { op: Operation::Bcs, mode: AddressingMode::Relative, cycles: 2, page_penalty: false }),
        0xB1 => Some(Instr { op: Operation::Lda, mode: AddressingMode::IndirectY, cycles: 5, page_penalty: true }),
        0xB4 => Some(Instr { op: Operation::Ldy, mode: AddressingMode::ZeroPageX, cycles: 4, page_penalty: false }),
        0xB5 => Some(Instr { op: Operation::Lda, mode: AddressingMode::ZeroPageX, cycles: 4, page_penalty: false }),
        0xB6 => Some(Instr { op: Operation::Ldx, mode: AddressingMode::ZeroPageY, cycles: 4, page_penalty: false }),
        0xB8 => Some(Instr { op: Operation::Clv, mode: AddressingMode::Implied, cycles: 2, page_penalty: false }),
        0xB9 => Some(Instr { op: Operation::Lda, mode: AddressingMode::AbsoluteY, cycles: 4, page_penalty: true }),
        0xBA => Some(Instr { op: Operation::Tsx, mode: AddressingMode::Implied, cycles: 2, page_penalty: false }),
        0xBC => Some(Instr { op: Operation::Ldy, mode: AddressingMode::AbsoluteX, cycles: 4, page_penalty: true }),
        0xBD => Some(Instr { op: Operation::Lda, mode: AddressingMode::AbsoluteX, cycles: 4, page_penalty: true }),
        0xBE => Some(Instr { op: Operation::Ldx, mode: AddressingMode::AbsoluteY, cycles: 4, page_penalty: true }),
        0xC0 => Some(Instr { op: Operation::Cpy, mode: AddressingMode::Immediate, cycles: 2, page_penalty: false }),
        0xC1 => Some(Instr { op: Operation::Cmp, mode: AddressingMode::IndirectX, cycles: 6, page_penalty: false }),
        0xC4 => Some(Instr { op: Operation::Cpy, mode: AddressingMode::ZeroPage, cycles: 3, page_penalty: false }),
        0xC5 => Some(Instr { op: Operation::Cmp, mode: AddressingMode::ZeroPage, cycles: 3, page_penalty: false }),
        0xC6 => Some(Instr { op: Operation::Dec, mode: AddressingMode::ZeroPage, cycles: 5, page_penalty: false }),
        0xC8 => Some(Instr { op: Operation::Iny, mode: AddressingMode::Implied, cycles: 2, page_penalty: false }),
        0xC9 => Some(Instr { op: Operation::Cmp, mode: AddressingMode::Immediate, cycles: 2, page_penalty: false }),
        0xCA => Some(Instr { op: Operation::Dex, mode: AddressingMode::Implied, cycles: 2, page_penalty: false }),
        0xCC => Some(Instr { op: Operation::Cpy, mode: AddressingMode::Absolute, cycles: 4, page_penalty: false }),
        0xCD => Some(Instr { op: Operation::Cmp, mode: AddressingMode::Absolute, cycles: 4, page_penalty: false }),
        0xCE => Some(Instr { op: Operation::Dec, mode: AddressingMode::Absolute, cycles: 6, page_penalty: false }),
        0xD0 => Some(Instr { op: Operation::Bne, mode: AddressingMode::Relative, cycles: 2, page_penalty: false }),
        0xD1 => Some(Instr { op: Operation::Cmp, mode: AddressingMode::IndirectY, cycles: 5, page_penalty: true }),
        0xD5 => Some(Instr { op: Operation::Cmp, mode: AddressingMode::ZeroPageX, cycles: 4, page_penalty: false }),
        0xD6 => Some(Instr { op: Operation::Dec, mode: AddressingMode::ZeroPageX, cycles: 6, page_penalty: false }),
        0xD8 => Some(Instr { op: Operation::Cld, mode: AddressingMode::Implied, cycles: 2, page_penalty: false }),
        0xD9 => Some(Instr { op: Operation::Cmp, mode: AddressingMode::AbsoluteY, cycles: 4, page_penalty: true }),
        0xDD => Some(Instr { op: Operation::Cmp, mode: AddressingMode::AbsoluteX, cycles: 4, page_penalty: true }),
        0xDE => Some(Instr { op: Operation::Dec, mode: AddressingMode::AbsoluteX, cycles: 7, page_penalty: false }),
        0xE0 => Some(Instr { op: Operation::Cpx, mode: AddressingMode::Immediate, cycles: 2, page_penalty: false }),
        0xE1 => Some(Instr { op: Operation::Sbc, mode: AddressingMode::IndirectX, cycles: 6, page_penalty: false }),
        0xE4 => Some(Instr { op: Operation::Cpx, mode: AddressingMode::ZeroPage, cycles: 3, page_penalty: false }),
        0xE5 => Some(Instr { op: Operation::Sbc, mode: AddressingMode::ZeroPage, cycles: 3, page_penalty: false }),
        0xE6 => Some(Instr { op: Operation::Inc, mode: AddressingMode::ZeroPage, cycles: 5, page_penalty: false }),
        0xE8 => Some(Instr { op: Operation::Inx, mode: AddressingMode::Implied, cycles: 2, page_penalty: false }),
        0xE9 => Some(Instr { op: Operation::Sbc, mode: AddressingMode::Immediate, cycles: 2, page_penalty: false }),
        0xEA => Some(Instr { op: Operation::Nop, mode: AddressingMode::Implied, cycles: 2, page_penalty: false }),
        0xEC => Some(Instr { op: Operation::Cpx, mode: AddressingMode::Absolute, cycles: 4, page_penalty: false }),
        0xED => Some(Instr { op: Operation::Sbc, mode: AddressingMode::Absolute, cycles: 4, page_penalty: false }),
        0xEE => Some(Instr { op: Operation::Inc, mode: AddressingMode::Absolute, cycles: 6, page_penalty: false }),
        0xF0 => Some(Instr { op: Operation::Beq, mode: AddressingMode::Relative, cycles: 2, page_penalty: false }),
        0xF1 => Some(Instr { op: Operation::Sbc, mode: AddressingMode::IndirectY, cycles: 5, page_penalty: true }),
        0xF5 => Some(Instr { op: Operation::Sbc, mode: AddressingMode::ZeroPageX, cycles: 4, page_penalty: false }),
        0xF6 => Some(Instr { op: Operation::Inc, mode: AddressingMode::ZeroPageX, cycles: 6, page_penalty: false }),
        0xF8 => Some(Instr { op: Operation::Sed, mode: AddressingMode::Implied, cycles: 2, page_penalty: false }),
        0xF9 => Some(Instr { op: Operation::Sbc, mode: AddressingMode::AbsoluteY, cycles: 4, page_penalty: true }),
        0xFD => Some(Instr { op: Operation::Sbc, mode: AddressingMode::AbsoluteX, cycles: 4, page_penalty: true }),
        0xFE => Some(Instr { op: Operation::Inc, mode: AddressingMode::AbsoluteX, cycles: 7, page_penalty: false }),
        _ => None,
    }
}

/// Looks an opcode byte up in the table.
pub fn decode(opcode: u8) -> (entry: Option<Instr>)
    ensures
        entry == decode_spec(opcode),
        entry matches Some(i) ==> i.cycles <= 7,
{
    match opcode {
        0x00 => Some(Instr { op: Operation::Brk, mode: AddressingMode::Implied, cycles: 7, page_penalty: false }),
        0x01 => Some(Instr { op: Operation::Ora, mode: AddressingMode::IndirectX, cycles: 6, page_penalty: false }),
        0x05 => Some(Instr { op: Operation::Ora, mode: AddressingMode::ZeroPage, cycles: 3, page_penalty: false }),
        0x06 => Some(Instr { op: Operation::Asl, mode: AddressingMode::ZeroPage, cycles: 5, page_penalty: false }),
        0x08 => Some(Instr { op: Operation::Php, mode: AddressingMode::Implied, cycles: 3, page_penalty: false }),
        0x09 => Some(Instr { op: Operation::Ora, mode: AddressingMode::Immediate, cycles: 2, page_penalty: false }),
        0x0A => Some(Instr { op: Operation::Asl, mode: AddressingMode::Accumulator, cycles: 2, page_penalty: false }),
        0x0D => Some(Instr { op: Operation::Ora, mode: AddressingMode::Absolute, cycles: 4, page_penalty: false }),
        0x0E => Some(Instr { op: Operation::Asl, mode: AddressingMode::Absolute, cycles: 6, page_penalty: false }),
        0x10 => Some(Instr { op: Operation::Bpl, mode: AddressingMode::Relative, cycles: 2, page_penalty: false }),
        0x11 => Some(Instr { op: Operation::Ora, mode: AddressingMode::IndirectY, cycles: 5, page_penalty: true }),
        0x15 => Some(Instr { op: Operation::Ora, mode: AddressingMode::ZeroPageX, cycles: 4, page_penalty: false }),
        0x16 => Some(Instr { op: Operation::Asl, mode: AddressingMode::ZeroPageX, cycles: 6, page_penalty: false }),
        0x18 => Some(Instr { op: Operation::Clc, mode: AddressingMode::Implied, cycles: 2, page_penalty: false }),
        0x19 => Some(Instr { op: Operation::Ora, mode: AddressingMode::AbsoluteY, cycles: 4, page_penalty: true }),
        0x1D => Some(Instr { op: Operation::Ora, mode: AddressingMode::AbsoluteX, cycles: 4, page_penalty: true }),
        0x1E => Some(Instr { op: Operation::Asl, mode: AddressingMode::AbsoluteX, cycles: 7, page_penalty: false }),
        0x20 => Some(Instr { op: Operation::Jsr, mode: AddressingMode::Absolute, cycles: 6, page_penalty: false }),
        0x21 => Some(Instr { op: Operation::And, mode: AddressingMode::IndirectX, cycles: 6, page_penalty: false }),
        0x24 => Some(Instr { op: Operation::Bit, mode: AddressingMode::ZeroPage, cycles: 3, page_penalty: false }),
        0x25 => Some(Instr { op: Operation::And, mode: AddressingMode::ZeroPage, cycles: 3, page_penalty: false }),
        0x26 => Some(Instr { op: Operation::Rol, mode: AddressingMode::ZeroPage, cycles: 5, page_penalty: false }),
        0x28 => Some(Instr { op: Operation::Plp, mode: AddressingMode::Implied, cycles: 4, page_penalty: false }),
        0x29 => Some(Instr { op: Operation::And, mode: AddressingMode::Immediate, cycles: 2, page_penalty: false }),
        0x2A => Some(Instr { op: Operation::Rol, mode: AddressingMode::Accumulator, cycles: 2, page_penalty: false }),
        0x2C => Some(Instr { op: Operation::Bit, mode: AddressingMode::Absolute, cycles: 4, page_penalty: false }),
        0x2D => Some(Instr { op: Operation::And, mode: AddressingMode::Absolute, cycles: 4, page_penalty: false }),
        0x2E => Some(Instr { op: Operation::Rol, mode: AddressingMode::Absolute, cycles: 6, page_penalty: false }),
        0x30 => Some(Instr { op: Operation::Bmi, mode: AddressingMode::Relative, cycles: 2, page_penalty: false }),
        0x31 => Some(Instr { op: Operation::And, mode: AddressingMode::IndirectY, cycles: 5, page_penalty: true }),
        0x35 => Some(Instr { op: Operation::And, mode: AddressingMode::ZeroPageX, cycles: 4, page_penalty: false }),
        0x36 => Some(Instr { op: Operation::Rol, mode: AddressingMode::ZeroPageX, cycles: 6, page_penalty: false }),
        0x38 => Some(Instr { op: Operation::Sec, mode: AddressingMode::Implied, cycles: 2, page_penalty: false }),
        0x39 => Some(Instr { op: Operation::And, mode: AddressingMode::AbsoluteY, cycles: 4, page_penalty: true }),
        0x3D => Some(Instr { op: Operation::And, mode: AddressingMode::AbsoluteX, cycles: 4, page_penalty: true }),
        0x3E => Some(Instr { op: Operation::Rol, mode: AddressingMode::AbsoluteX, cycles: 7, page_penalty: false }),
        0x40 => Some(Instr { op: Operation::Rti, mode: AddressingMode::Implied, cycles: 6, page_penalty: false }),
        0x41 => Some(Instr { op: Operation::Eor, mode: AddressingMode::IndirectX, cycles: 6, page_penalty: false }),
        0x45 => Some(Instr { op: Operation::Eor, mode: AddressingMode::ZeroPage, cycles: 3, page_penalty: false }),
        0x46 => Some(Instr { op: Operation::Lsr, mode: AddressingMode::ZeroPage, cycles: 5, page_penalty: false }),
        0x48 => Some(Instr { op: Operation::Pha, mode: AddressingMode::Implied, cycles: 3, page_penalty: false }),
        0x49 => Some(Instr { op: Operation::Eor, mode: AddressingMode::Immediate, cycles: 2, page_penalty: false }),
        0x4A => Some(Instr { op: Operation::Lsr, mode: AddressingMode::Accumulator, cycles: 2, page_penalty: false }),
        0x4C => Some(Instr { op: Operation::Jmp, mode: AddressingMode::Absolute, cycles: 3, page_penalty: false }),
        0x4D => Some(Instr { op: Operation::Eor, mode: AddressingMode::Absolute, cycles: 4, page_penalty: false }),
        0x4E => Some(Instr { op: Operation::Lsr, mode: AddressingMode::Absolute, cycles: 6, page_penalty: false }),
        0x50 => Some(Instr { op: Operation::Bvc, mode: AddressingMode::Relative, cycles: 2, page_penalty: false }),
        0x51 => Some(Instr { op: Operation::Eor, mode: AddressingMode::IndirectY, cycles: 5, page_penalty: true }),
        0x55 => Some(Instr { op: Operation::Eor, mode: AddressingMode::ZeroPageX, cycles: 4, page_penalty: false }),
        0x56 => Some(Instr { op: Operation::Lsr, mode: AddressingMode::ZeroPageX, cycles: 6, page_penalty: false }),
        0x58 => Some(Instr { op: Operation::Cli, mode: AddressingMode::Implied, cycles: 2, page_penalty: false }),
        0x59 => Some(Instr { op: Operation::Eor, mode: AddressingMode::AbsoluteY, cycles: 4, page_penalty: true }),
        0x5D => Some(Instr { op: Operation::Eor, mode: AddressingMode::AbsoluteX, cycles: 4, page_penalty: true }),
        0x5E => Some(Instr { op: Operation::Lsr, mode: AddressingMode::AbsoluteX, cycles: 7, page_penalty: false }),
        0x60 => Some(Instr { op: Operation::Rts, mode: AddressingMode::Implied, cycles: 6, page_penalty: false }),
        0x61 => Some(Instr { op: Operation::Adc, mode: AddressingMode::IndirectX, cycles: 6, page_penalty: false }),
        0x65 => Some(Instr { op: Operation::Adc, mode: AddressingMode::ZeroPage, cycles: 3, page_penalty: false }),
        0x66 => Some(Instr { op: Operation::Ror, mode: AddressingMode::ZeroPage, cycles: 5, page_penalty: false }),
        0x68 => Some(Instr { op: Operation::Pla, mode: AddressingMode::Implied, cycles: 4, page_penalty: false }),
        0x69 => Some(Instr { op: Operation::Adc, mode: AddressingMode::Immediate, cycles: 2, page_penalty: false }),
        0x6A => Some(Instr { op: Operation::Ror, mode: AddressingMode::Accumulator, cycles: 2, page_penalty: false }),
        0x6C => Some(Instr { op: Operation::Jmp, mode: AddressingMode::Indirect, cycles: 5, page_penalty: false }),
        0x6D => Some(Instr { op: Operation::Adc, mode: AddressingMode::Absolute, cycles: 4, page_penalty: false }),
        0x6E => Some(Instr { op: Operation::Ror, mode: AddressingMode::Absolute, cycles: 6, page_penalty: false }),
        0x70 => Some(Instr { op: Operation::Bvs, mode: AddressingMode::Relative, cycles: 2, page_penalty: false }),
        0x71 => Some(Instr { op: Operation::Adc, mode: AddressingMode::IndirectY, cycles: 5, page_penalty: true }),
        0x75 => Some(Instr { op: Operation::Adc, mode: AddressingMode::ZeroPageX, cycles: 4, page_penalty: false }),
        0x76 => Some(Instr { op: Operation::Ror, mode: AddressingMode::ZeroPageX, cycles: 6, page_penalty: false }),
        0x78 => Some(Instr { op: Operation::Sei, mode: AddressingMode::Implied, cycles: 2, page_penalty: false }),
        0x79 => Some(Instr { op: Operation::Adc, mode: AddressingMode::AbsoluteY, cycles: 4, page_penalty: true }),
        0x7D => Some(Instr { op: Operation::Adc, mode: AddressingMode::AbsoluteX, cycles: 4, page_penalty: true }),
        0x7E => Some(Instr { op: Operation::Ror, mode: AddressingMode::AbsoluteX, cycles: 7, page_penalty: false }),
        0x81 => Some(Instr { op: Operation::Sta, mode: AddressingMode::IndirectX, cycles: 6, page_penalty: false }),
        0x84 => Some(Instr { op: Operation::Sty, mode: AddressingMode::ZeroPage, cycles: 3, page_penalty: false }),
        0x85 => Some(Instr { op: Operation::Sta, mode: AddressingMode::ZeroPage, cycles: 3, page_penalty: false }),
        0x86 => Some(Instr { op: Operation::Stx, mode: AddressingMode::ZeroPage, cycles: 3, page_penalty: false }),
        0x88 => Some(Instr { op: Operation::Dey, mode: AddressingMode::Implied, cycles: 2, page_penalty: false }),
        0x8A => Some(Instr { op: Operation::Txa, mode: AddressingMode::Implied, cycles: 2, page_penalty: false }),
        0x8C => Some(Instr { op: Operation::Sty, mode: AddressingMode::Absolute, cycles: 4, page_penalty: false }),
        0x8D => Some(Instr { op: Operation::Sta, mode: AddressingMode::Absolute, cycles: 4, page_penalty: false }),
        0x8E => Some(Instr { op: Operation::Stx, mode: AddressingMode::Absolute, cycles: 4, page_penalty: false }),
        0x90 => Some(Instr { op: Operation::Bcc, mode: AddressingMode::Relative, cycles: 2, page_penalty: false }),
        0x91 => Some(Instr { op: Operation::Sta, mode: AddressingMode::IndirectY, cycles: 6, page_penalty: false }),
        0x94 => Some(Instr { op: Operation::Sty, mode: AddressingMode::ZeroPageX, cycles: 4, page_penalty: false }),
        0x95 => Some(Instr { op: Operation::Sta, mode: AddressingMode::ZeroPageX, cycles: 4, page_penalty: false }),
        0x96 => Some(Instr { op: Operation::Stx, mode: AddressingMode::ZeroPageY, cycles: 4, page_penalty: false }),
        0x98 => Some(Instr { op: Operation::Tya, mode: AddressingMode::Implied, cycles: 2, page_penalty: false }),
        0x99 => Some(Instr { op: Operation::Sta, mode: AddressingMode::AbsoluteY, cycles: 5, page_penalty: false }),
        0x9A => Some(Instr { op: Operation::Txs, mode: AddressingMode::Implied, cycles: 2, page_penalty: false }),
        0x9D => Some(Instr { op: Operation::Sta, mode: AddressingMode::AbsoluteX, cycles: 5, page_penalty: false }),
        0xA0 => Some(Instr { op: Operation::Ldy, mode: AddressingMode::Immediate, cycles: 2, page_penalty: false }),
        0xA1 => Some(Instr { op: Operation::Lda, mode: AddressingMode::IndirectX, cycles: 6, page_penalty: false }),
        0xA2 => Some(Instr { op: Operation::Ldx, mode: AddressingMode::Immediate, cycles: 2, page_penalty: false }),
        0xA4 => Some(Instr { op: Operation::Ldy, mode: AddressingMode::ZeroPage, cycles: 3, page_penalty: false }),
        0xA5 => Some(Instr { op: Operation::Lda, mode: AddressingMode::ZeroPage, cycles: 3, page_penalty: false }),
        0xA6 => Some(Instr { op: Operation::Ldx, mode: AddressingMode::ZeroPage, cycles: 3, page_penalty: false }),
        0xA8 => Some(Instr { op: Operation::Tay, mode: AddressingMode::Implied, cycles: 2, page_penalty: false }),
        0xA9 => Some(Instr { op: Operation::Lda, mode: AddressingMode::Immediate, cycles: 2, page_penalty: false }),
        0xAA => Some(Instr { op: Operation::Tax, mode: AddressingMode::Implied, cycles: 2, page_penalty: false }),
        0xAC => Some(Instr { op: Operation::Ldy, mode: AddressingMode::Absolute, cycles: 4, page_penalty: false }),
        0xAD => Some(Instr { op: Operation::Lda, mode: AddressingMode::Absolute, cycles: 4, page_penalty: false }),
        0xAE => Some(Instr { op: Operation::Ldx, mode: AddressingMode::Absolute, cycles: 4, page_penalty: false }),
        0xB0 => Some(Instr { op: Operation::Bcs, mode: AddressingMode::Relative, cycles: 2, page_penalty: false }),
        0xB1 => Some(Instr { op: Operation::Lda, mode: AddressingMode::IndirectY, cycles: 5, page_penalty: true }),
        0xB4 => Some(Instr { op: Operation::Ldy, mode: AddressingMode::ZeroPageX, cycles: 4, page_penalty: false }),
        0xB5 => Some(Instr { op: Operation::Lda, mode: AddressingMode::ZeroPageX, cycles: 4, page_penalty: false }),
        0xB6 => Some(Instr { op: Operation::Ldx, mode: AddressingMode::ZeroPageY, cycles: 4, page_penalty: false }),
        0xB8 => Some(Instr { op: Operation::Clv, mode: AddressingMode::Implied, cycles: 2, page_penalty: false }),
        0xB9 => Some(Instr { op: Operation::Lda, mode: AddressingMode::AbsoluteY, cycles: 4, page_penalty: true }),
        0xBA => Some(Instr { op: Operation::Tsx, mode: AddressingMode::Implied, cycles: 2, page_penalty: false }),
        0xBC => Some(Instr { op: Operation::Ldy, mode: AddressingMode::AbsoluteX, cycles: 4, page_penalty: true }),
        0xBD => Some(Instr { op: Operation::Lda, mode: AddressingMode::AbsoluteX, cycles: 4, page_penalty: true }),
        0xBE => Some(Instr { op: Operation::Ldx, mode: AddressingMode::AbsoluteY, cycles: 4, page_penalty: true }),
        0xC0 => Some(Instr { op: Operation::Cpy, mode: AddressingMode::Immediate, cycles: 2, page_penalty: false }),
        0xC1 => Some(Instr { op: Operation::Cmp, mode: AddressingMode::IndirectX, cycles: 6, page_penalty: false }),
        0xC4 => Some(Instr { op: Operation::Cpy, mode: AddressingMode::ZeroPage, cycles: 3, page_penalty: false }),
        0xC5 => Some(Instr { op: Operation::Cmp, mode: AddressingMode::ZeroPage, cycles: 3, page_penalty: false }),
        0xC6 => Some(Instr { op: Operation::Dec, mode: AddressingMode::ZeroPage, cycles: 5, page_penalty: false }),
        0xC8 => Some(Instr { op: Operation::Iny, mode: AddressingMode::Implied, cycles: 2, page_penalty: false }),
        0xC9 => Some(Instr { op: Operation::Cmp, mode: AddressingMode::Immediate, cycles: 2, page_penalty: false }),
        0xCA => Some(Instr { op: Operation::Dex, mode: AddressingMode::Implied, cycles: 2, page_penalty: false }),
        0xCC => Some(Instr { op: Operation::Cpy, mode: AddressingMode::Absolute, cycles: 4, page_penalty: false }),
        0xCD => Some(Instr { op: Operation::Cmp, mode: AddressingMode::Absolute, cycles: 4, page_penalty: false }),
        0xCE => Some(Instr { op: Operation::Dec, mode: AddressingMode::Absolute, cycles: 6, page_penalty: false }),
        0xD0 => Some(Instr { op: Operation::Bne, mode: AddressingMode::Relative, cycles: 2, page_penalty: false }),
        0xD1 => Some(Instr { op: Operation::Cmp, mode: AddressingMode::IndirectY, cycles: 5, page_penalty: true }),
        0xD5 => Some(Instr { op: Operation::Cmp, mode: AddressingMode::ZeroPageX, cycles: 4, page_penalty: false }),
        0xD6 => Some(Instr { op: Operation::Dec, mode: AddressingMode::ZeroPageX, cycles: 6, page_penalty: false }),
        0xD8 => Some(Instr { op: Operation::Cld, mode: AddressingMode::Implied, cycles: 2, page_penalty: false }),
        0xD9 => Some(Instr { op: Operation::Cmp, mode: AddressingMode::AbsoluteY, cycles: 4, page_penalty: true }),
        0xDD => Some(Instr { op: Operation::Cmp, mode: AddressingMode::AbsoluteX, cycles: 4, page_penalty: true }),
        0xDE => Some(Instr { op: Operation::Dec, mode: AddressingMode::AbsoluteX, cycles: 7, page_penalty: false }),
        0xE0 => Some(Instr { op: Operation::Cpx, mode: AddressingMode::Immediate, cycles: 2, page_penalty: false }),
        0xE1 => Some(Instr { op: Operation::Sbc, mode: AddressingMode::IndirectX, cycles: 6, page_penalty: false }),
        0xE4 => Some(Instr { op: Operation::Cpx, mode: AddressingMode::ZeroPage, cycles: 3, page_penalty: false }),
        0xE5 => Some(Instr { op: Operation::Sbc, mode: AddressingMode::ZeroPage, cycles: 3, page_penalty: false }),
        0xE6 => Some(Instr { op: Operation::Inc, mode: AddressingMode::ZeroPage, cycles: 5, page_penalty: false }),
        0xE8 => Some(Instr { op: Operation::Inx, mode: AddressingMode::Implied, cycles: 2, page_penalty: false }),
        0xE9 => Some(Instr { op: Operation::Sbc, mode: AddressingMode::Immediate, cycles: 2, page_penalty: false }),
        0xEA => Some(Instr { op: Operation::Nop, mode: AddressingMode::Implied, cycles: 2, page_penalty: false }),
        0xEC => Some(Instr { op: Operation::Cpx, mode: AddressingMode::Absolute, cycles: 4, page_penalty: false }),
        0xED => Some(Instr { op: Operation::Sbc, mode: AddressingMode::Absolute, cycles: 4, page_penalty: false }),
        0xEE => Some(Instr { op: Operation::Inc, mode: AddressingMode::Absolute, cycles: 6, page_penalty: false }),
        0xF0 => Some(Instr { op: Operation::Beq, mode: AddressingMode::Relative, cycles: 2, page_penalty: false }),
        0xF1 => Some(Instr { op: Operation::Sbc, mode: AddressingMode::IndirectY, cycles: 5, page_penalty: true }),
        0xF5 => Some(Instr { op: Operation::Sbc, mode: AddressingMode::ZeroPageX, cycles: 4, page_penalty: false }),
        0xF6 => Some(Instr { op: Operation::Inc, mode: AddressingMode::ZeroPageX, cycles: 6, page_penalty: false }),
        0xF8 => Some(Instr { op: Operation::Sed, mode: AddressingMode::Implied, cycles: 2, page_penalty: false }),
        0xF9 => Some(Instr { op: Operation::Sbc, mode: AddressingMode::AbsoluteY, cycles: 4, page_penalty: true }),
        0xFD => Some(Instr { op: Operation::Sbc, mode: AddressingMode::AbsoluteX, cycles: 4, page_penalty: true }),
        0xFE => Some(Instr { op: Operation::Inc, mode: AddressingMode::AbsoluteX, cycles: 7, page_penalty: false }),
        _ => None,
    }
}

} // verus!
