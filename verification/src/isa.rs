use vstd::prelude::*;
use crate::cpu::{
    spec_cpu_push, spec_cpu_push_word, spec_cpu_pull, spec_cpu_pull_val, spec_cpu_pull_word_val,
    spec_get_flag, spec_set_flag, spec_with_zn, spec_push_p, spec_push_p_irq, spec_restore_p,
    spec_inc8, spec_dec8, spec_wrap_add16, CpuView, CARRY_BIT, ZERO_FLAG, INTERRUPT_FLAG,
    DECIMAL_FLAG, OVERFLOW_FLAG, NEGATIVE_FLAG, NMI_ADDR, BRK_ADDR,
};
use crate::memory::{spec_bus_read, spec_bus_read_word, spec_bus_write, MemView};

verus! {

/// The addressing mode of a decoded instruction.
#[derive(Debug, PartialEq, Eq, Structural, Clone, Copy)]
pub enum Mode {
    Implied,
    Accumulator,
    Immediate,
    ZeroPage,
    ZeroPageX,
    ZeroPageY,
    Absolute,
    AbsoluteX,
    AbsoluteY,
    Indirect,
    IndexedIndirect,
    IndirectIndexed,
    Relative,
}

/// The operation of a decoded instruction.
#[derive(Debug, PartialEq, Eq, Structural, Clone, Copy)]
pub enum Op {
    Lda, Ldx, Ldy, Sta, Stx, Sty,
    Tax, Tay, Txa, Tya, Tsx, Txs,
    Pha, Php, Pla, Plp,
    And, Eor, Ora, Bit,
    Asl, Lsr, Rol, Ror,
    Adc, Sbc,
    Cmp, Cpx, Cpy,
    Inc, Inx, Iny, Dec, Dex, Dey,
    Clc, Sec, Cli, Sei, Clv, Cld, Sed,
    Bcc, Bcs, Beq, Bne, Bmi, Bpl, Bvc, Bvs,
    Jmp, Jsr, Rts, Rti, Brk, Nop,
}

/// One row of the 256-entry dispatch table: the operation, its addressing
/// mode, the base cycle count from the reference timing table, and whether
/// the mode adds one cycle when the indexed address crosses a page.
#[derive(Debug, PartialEq, Eq, Structural, Clone, Copy)]
pub struct Instr {
    pub op: Op,
    pub mode: Mode,
    pub base: u8,
    pub page_penalty: bool,
}

/// The dispatch table as a function of the opcode byte: `None` for every
/// undocumented opcode. Cycle counts are the documented 6502 timings.
#[verifier::opaque]
pub open spec fn spec_decode(opcode: u8) -> Option<Instr> {
    match opcode {
        0x00 => Some(Instr { op: Op::Brk, mode: Mode::Implied, base: 7, page_penalty: false }),
        0x01 => Some(Instr { op: Op::Ora, mode: Mode::IndexedIndirect, base: 6, page_penalty: false }),
        0x05 => Some(Instr { op: Op::Ora, mode: Mode::ZeroPage, base: 3, page_penalty: false }),
        0x06 => Some(Instr { op: Op::Asl, mode: Mode::ZeroPage, base: 5, page_penalty: false }),
        0x08 => Some(Instr { op: Op::Php, mode: Mode::Implied, base: 3, page_penalty: false }),
        0x09 => Some(Instr { op: Op::Ora, mode: Mode::Immediate, base: 2, page_penalty: false }),
        0x0a => Some(Instr { op: Op::Asl, mode: Mode::Accumulator, base: 2, page_penalty: false }),
        0x0d => Some(Instr { op: Op::Ora, mode: Mode::Absolute, base: 4, page_penalty: false }),
        0x0e => Some(Instr { op: Op::Asl, mode: Mode::Absolute, base: 6, page_penalty: false }),
        0x10 => Some(Instr { op: Op::Bpl, mode: Mode::Relative, base: 2, page_penalty: false }),
        0x11 => Some(Instr { op: Op::Ora, mode: Mode::IndirectIndexed, base: 5, page_penalty: true }),
        0x15 => Some(Instr { op: Op::Ora, mode: Mode::ZeroPageX, base: 4, page_penalty: false }),
        0x16 => Some(Instr { op: Op::Asl, mode: Mode::ZeroPageX, base: 6, page_penalty: false }),
        0x18 => Some(Instr { op: Op::Clc, mode: Mode::Implied, base: 2, page_penalty: false }),
        0x19 => Some(Instr { op: Op::Ora, mode: Mode::AbsoluteY, base: 4, page_penalty: true }),
        0x1d => Some(Instr { op: Op::Ora, mode: Mode::AbsoluteX, base: 4, page_penalty: true }),
        0x1e => Some(Instr { op: Op::Asl, mode: Mode::AbsoluteX, base: 7, page_penalty: false }),
        0x20 => Some(Instr { op: Op::Jsr, mode: Mode::Absolute, base: 6, page_penalty: false }),
        0x21 => Some(Instr { op: Op::And, mode: Mode::IndexedIndirect, base: 6, page_penalty: false }),
        0x24 => Some(Instr { op: Op::Bit, mode: Mode::ZeroPage, base: 3, page_penalty: false }),
        0x25 => Some(Instr { op: Op::And, mode: Mode::ZeroPage, base: 3, page_penalty: false }),
        0x26 => Some(Instr { op: Op::Rol, mode: Mode::ZeroPage, base: 5, page_penalty: false }),
        0x28 => Some(Instr { op: Op::Plp, mode: Mode::Implied, base: 4, page_penalty: false }),
        0x29 => Some(Instr { op: Op::And, mode: Mode::Immediate, base: 2, page_penalty: false }),
        0x2a => Some(Instr { op: Op::Rol, mode: Mode::Accumulator, base: 2, page_penalty: false }),
        0x2c => Some(Instr { op: Op::Bit, mode: Mode::Absolute, base: 4, page_penalty: false }),
        0x2d => Some(Instr { op: Op::And, mode: Mode::Absolute, base: 4, page_penalty: false }),
        0x2e => Some(Instr { op: Op::Rol, mode: Mode::Absolute, base: 6, page_penalty: false }),
        0x30 => Some(Instr { op: Op::Bmi, mode: Mode::Relative, base: 2, page_penalty: false }),
        0x31 => Some(Instr { op: Op::And, mode: Mode::IndirectIndexed, base: 5, page_penalty: true }),
        0x35 => Some(Instr { op: Op::And, mode: Mode::ZeroPageX, base: 4, page_penalty: false }),
        0x36 => Some(Instr { op: Op::Rol, mode: Mode::ZeroPageX, base: 6, page_penalty: false }),
        0x38 => Some(Instr { op: Op::Sec, mode: Mode::Implied, base: 2, page_penalty: false }),
        0x39 => Some(Instr { op: Op::And, mode: Mode::AbsoluteY, base: 4, page_penalty: true }),
        0x3d => Some(Instr { op: Op::And, mode: Mode::AbsoluteX, base: 4, page_penalty: true }),
        0x3e => Some(Instr { op: Op::Rol, mode: Mode::AbsoluteX, base: 7, page_penalty: false }),
        0x40 => Some(Instr { op: Op::Rti, mode: Mode::Implied, base: 6, page_penalty: false }),
        0x41 => Some(Instr { op: Op::Eor, mode: Mode::IndexedIndirect, base: 6, page_penalty: false }),
        0x45 => Some(Instr { op: Op::Eor, mode: Mode::ZeroPage, base: 3, page_penalty: false }),
        0x46 => Some(Instr { op: Op::Lsr, mode: Mode::ZeroPage, base: 5, page_penalty: false }),
        0x48 => Some(Instr { op: Op::Pha, mode: Mode::Implied, base: 3, page_penalty: false }),
        0x49 => Some(Instr { op: Op::Eor, mode: Mode::Immediate, base: 2, page_penalty: false }),
        0x4a => Some(Instr { op: Op::Lsr, mode: Mode::Accumulator, base: 2, page_penalty: false }),
        0x4c => Some(Instr { op: Op::Jmp, mode: Mode::Absolute, base: 3, page_penalty: false }),
        0x4d => Some(Instr { op: Op::Eor, mode: Mode::Absolute, base: 4, page_penalty: false }),
        0x4e => Some(Instr { op: Op::Lsr, mode: Mode::Absolute, base: 6, page_penalty: false }),
        0x50 => Some(Instr { op: Op::Bvc, mode: Mode::Relative, base: 2, page_penalty: false }),
        0x51 => Some(Instr { op: Op::Eor, mode: Mode::IndirectIndexed, base: 5, page_penalty: true }),
        0x55 => Some(Instr { op: Op::Eor, mode: Mode::ZeroPageX, base: 4, page_penalty: false }),
        0x56 => Some(Instr { op: Op::Lsr, mode: Mode::ZeroPageX, base: 6, page_penalty: false }),
        0x58 => Some(Instr { op: Op::Cli, mode: Mode::Implied, base: 2, page_penalty: false }),
        0x59 => Some(Instr { op: Op::Eor, mode: Mode::AbsoluteY, base: 4, page_penalty: true }),
        0x5d => Some(Instr { op: Op::Eor, mode: Mode::AbsoluteX, base: 4, page_penalty: true }),
        0x5e => Some(Instr { op: Op::Lsr, mode: Mode::AbsoluteX, base: 7, page_penalty: false }),
        0x60 => Some(Instr { op: Op::Rts, mode: Mode::Implied, base: 6, page_penalty: false }),
        0x61 => Some(Instr { op: Op::Adc, mode: Mode::IndexedIndirect, base: 6, page_penalty: false }),
        0x65 => Some(Instr { op: Op::Adc, mode: Mode::ZeroPage, base: 3, page_penalty: false }),
        0x66 => Some(Instr { op: Op::Ror, mode: Mode::ZeroPage, base: 5, page_penalty: false }),
        0x68 => Some(Instr { op: Op::Pla, mode: Mode::Implied, base: 4, page_penalty: false }),
        0x69 => Some(Instr { op: Op::Adc, mode: Mode::Immediate, base: 2, page_penalty: false }),
        0x6a => Some(Instr { op: Op::Ror, mode: Mode::Accumulator, base: 2, page_penalty: false }),
        0x6c => Some(Instr { op: Op::Jmp, mode: Mode::Indirect, base: 5, page_penalty: false }),
        0x6d => Some(Instr { op: Op::Adc, mode: Mode::Absolute, base: 4, page_penalty: false }),
        0x6e => Some(Instr { op: Op::Ror, mode: Mode::Absolute, base: 6, page_penalty: false }),
        0x70 => Some(Instr { op: Op::Bvs, mode: Mode::Relative, base: 2, page_penalty: false }),
        0x71 => Some(Instr { op: Op::Adc, mode: Mode::IndirectIndexed, base: 5, page_penalty: true }),
        0x75 => Some(Instr { op: Op::Adc, mode: Mode::ZeroPageX, base: 4, page_penalty: false }),
        0x76 => Some(Instr { op: Op::Ror, mode: Mode::ZeroPageX, base: 6, page_penalty: false }),
        0x78 => Some(Instr { op: Op::Sei, mode: Mode::Implied, base: 2, page_penalty: false }),
        0x79 => Some(Instr { op: Op::Adc, mode: Mode::AbsoluteY, base: 4, page_penalty: true }),
        0x7d => Some(Instr { op: Op::Adc, mode: Mode::AbsoluteX, base: 4, page_penalty: true }),
        0x7e => Some(Instr { op: Op::Ror, mode: Mode::AbsoluteX, base: 7, page_penalty: false }),
        0x81 => Some(Instr { op: Op::Sta, mode: Mode::IndexedIndirect, base: 6, page_penalty: false }),
        0x84 => Some(Instr { op: Op::Sty, mode: Mode::ZeroPage, base: 3, page_penalty: false }),
        0x85 => Some(Instr { op: Op::Sta, mode: Mode::ZeroPage, base: 3, page_penalty: false }),
        0x86 => Some(Instr { op: Op::Stx, mode: Mode::ZeroPage, base: 3, page_penalty: false }),
        0x88 => Some(Instr { op: Op::Dey, mode: Mode::Implied, base: 2, page_penalty: false }),
        0x8a => Some(Instr { op: Op::Txa, mode: Mode::Implied, base: 2, page_penalty: false }),
        0x8c => Some(Instr { op: Op::Sty, mode: Mode::Absolute, base: 4, page_penalty: false }),
        0x8d => Some(Instr { op: Op::Sta, mode: Mode::Absolute, base: 4, page_penalty: false }),
        0x8e => Some(Instr { op: Op::Stx, mode: Mode::Absolute, base: 4, page_penalty: false }),
        0x90 => Some(Instr { op: Op::Bcc, mode: Mode::Relative, base: 2, page_penalty: false }),
        0x91 => Some(Instr { op: Op::Sta, mode: Mode::IndirectIndexed, base: 6, page_penalty: false }),
        0x94 => Some(Instr { op: Op::Sty, mode: Mode::ZeroPageX, base: 4, page_penalty: false }),
        0x95 => Some(Instr { op: Op::Sta, mode: Mode::ZeroPageX, base: 4, page_penalty: false }),
        0x96 => Some(Instr { op: Op::Stx, mode: Mode::ZeroPageY, base: 4, page_penalty: false }),
        0x98 => Some(Instr { op: Op::Tya, mode: Mode::Implied, base: 2, page_penalty: false }),
        0x99 => Some(Instr { op: Op::Sta, mode: Mode::AbsoluteY, base: 5, page_penalty: false }),
        0x9a => Some(Instr { op: Op::Txs, mode: Mode::Implied, base: 2, page_penalty: false }),
        0x9d => Some(Instr { op: Op::Sta, mode: Mode::AbsoluteX, base: 5, page_penalty: false }),
        0xa0 => Some(Instr { op: Op::Ldy, mode: Mode::Immediate, base: 2, page_penalty: false }),
        0xa1 => Some(Instr { op: Op::Lda, mode: Mode::IndexedIndirect, base: 6, page_penalty: false }),
        0xa2 => Some(Instr { op: Op::Ldx, mode: Mode::Immediate, base: 2, page_penalty: false }),
        0xa4 => Some(Instr { op: Op::Ldy, mode: Mode::ZeroPage, base: 3, page_penalty: false }),
        0xa5 => Some(Instr { op: Op::Lda, mode: Mode::ZeroPage, base: 3, page_penalty: false }),
        0xa6 => Some(Instr { op: Op::Ldx, mode: Mode::ZeroPage, base: 3, page_penalty: false }),
        0xa8 => Some(Instr { op: Op::Tay, mode: Mode::Implied, base: 2, page_penalty: false }),
        0xa9 => Some(Instr { op: Op::Lda, mode: Mode::Immediate, base: 2, page_penalty: false }),
        0xaa => Some(Instr { op: Op::Tax, mode: Mode::Implied, base: 2, page_penalty: false }),
        0xac => Some(Instr { op: Op::Ldy, mode: Mode::Absolute, base: 4, page_penalty: false }),
        0xad => Some(Instr { op: Op::Lda, mode: Mode::Absolute, base: 4, page_penalty: false }),
        0xae => Some(Instr { op: Op::Ldx, mode: Mode::Absolute, base: 4, page_penalty: false }),
        0xb0 => Some(Instr { op: Op::Bcs, mode: Mode::Relative, base: 2, page_penalty: false }),
        0xb1 => Some(Instr { op: Op::Lda, mode: Mode::IndirectIndexed, base: 5, page_penalty: true }),
        0xb4 => Some(Instr { op: Op::Ldy, mode: Mode::ZeroPageX, base: 4, page_penalty: false }),
        0xb5 => Some(Instr { op: Op::Lda, mode: Mode::ZeroPageX, base: 4, page_penalty: false }),
        0xb6 => Some(Instr { op: Op::Ldx, mode: Mode::ZeroPageY, base: 4, page_penalty: false }),
        0xb8 => Some(Instr { op: Op::Clv, mode: Mode::Implied, base: 2, page_penalty: false }),
        0xb9 => Some(Instr { op: Op::Lda, mode: Mode::AbsoluteY, base: 4, page_penalty: true }),
        0xba => Some(Instr { op: Op::Tsx, mode: Mode::Implied, base: 2, page_penalty: false }),
        0xbc => Some(Instr { op: Op::Ldy, mode: Mode::AbsoluteX, base: 4, page_penalty: true }),
        0xbd => Some(Instr { op: Op::Lda, mode: Mode::AbsoluteX, base: 4, page_penalty: true }),
        0xbe => Some(Instr { op: Op::Ldx, mode: Mode::AbsoluteY, base: 4, page_penalty: true }),
        0xc0 => Some(Instr { op: Op::Cpy, mode: Mode::Immediate, base: 2, page_penalty: false }),
        0xc1 => Some(Instr { op: Op::Cmp, mode: Mode::IndexedIndirect, base: 6, page_penalty: false }),
        0xc4 => Some(Instr { op: Op::Cpy, mode: Mode::ZeroPage, base: 3, page_penalty: false }),
        0xc5 => Some(Instr { op: Op::Cmp, mode: Mode::ZeroPage, base: 3, page_penalty: false }),
        0xc6 => Some(Instr { op: Op::Dec, mode: Mode::ZeroPage, base: 5, page_penalty: false }),
        0xc8 => Some(Instr { op: Op::Iny, mode: Mode::Implied, base: 2, page_penalty: false }),
        0xc9 => Some(Instr { op: Op::Cmp, mode: Mode::Immediate, base: 2, page_penalty: false }),
        0xca => Some(Instr { op: Op::Dex, mode: Mode::Implied, base: 2, page_penalty: false }),
        0xcc => Some(Instr { op: Op::Cpy, mode: Mode::Absolute, base: 4, page_penalty: false }),
        0xcd => Some(Instr { op: Op::Cmp, mode: Mode::Absolute, base: 4, page_penalty: false }),
        0xce => Some(Instr { op: Op::Dec, mode: Mode::Absolute, base: 6, page_penalty: false }),
        0xd0 => Some(Instr { op: Op::Bne, mode: Mode::Relative, base: 2, page_penalty: false }),
        0xd1 => Some(Instr { op: Op::Cmp, mode: Mode::IndirectIndexed, base: 5, page_penalty: true }),
        0xd5 => Some(Instr { op: Op::Cmp, mode: Mode::ZeroPageX, base: 4, page_penalty: false }),
        0xd6 => Some(Instr { op: Op::Dec, mode: Mode::ZeroPageX, base: 6, page_penalty: false }),
        0xd8 => Some(Instr { op: Op::Cld, mode: Mode::Implied, base: 2, page_penalty: false }),
        0xd9 => Some(Instr { op: Op::Cmp, mode: Mode::AbsoluteY, base: 4, page_penalty: true }),
        0xdd => Some(Instr { op: Op::Cmp, mode: Mode::AbsoluteX, base: 4, page_penalty: true }),
        0xde => Some(Instr { op: Op::Dec, mode: Mode::AbsoluteX, base: 7, page_penalty: false }),
        0xe0 => Some(Instr { op: Op::Cpx, mode: Mode::Immediate, base: 2, page_penalty: false }),
        0xe1 => Some(Instr { op: Op::Sbc, mode: Mode::IndexedIndirect, base: 6, page_penalty: false }),
        0xe4 => Some(Instr { op: Op::Cpx, mode: Mode::ZeroPage, base: 3, page_penalty: false }),
        0xe5 => Some(Instr { op: Op::Sbc, mode: Mode::ZeroPage, base: 3, page_penalty: false }),
        0xe6 => Some(Instr { op: Op::Inc, mode: Mode::ZeroPage, base: 5, page_penalty: false }),
        0xe8 => Some(Instr { op: Op::Inx, mode: Mode::Implied, base: 2, page_penalty: false }),
        0xe9 => Some(Instr { op: Op::Sbc, mode: Mode::Immediate, base: 2, page_penalty: false }),
        0xea => Some(Instr { op: Op::Nop, mode: Mode::Implied, base: 2, page_penalty: false }),
        0xec => Some(Instr { op: Op::Cpx, mode: Mode::Absolute, base: 4, page_penalty: false }),
        0xed => Some(Instr { op: Op::Sbc, mode: Mode::Absolute, base: 4, page_penalty: false }),
        0xee => Some(Instr { op: Op::Inc, mode: Mode::Absolute, base: 6, page_penalty: false }),
        0xf0 => Some(Instr { op: Op::Beq, mode: Mode::Relative, base: 2, page_penalty: false }),
        0xf1 => Some(Instr { op: Op::Sbc, mode: Mode::IndirectIndexed, base: 5, page_penalty: true }),
        0xf5 => Some(Instr { op: Op::Sbc, mode: Mode::ZeroPageX, base: 4, page_penalty: false }),
        0xf6 => Some(Instr { op: Op::Inc, mode: Mode::ZeroPageX, base: 6, page_penalty: false }),
        0xf8 => Some(Instr { op: Op::Sed, mode: Mode::Implied, base: 2, page_penalty: false }),
        0xf9 => Some(Instr { op: Op::Sbc, mode: Mode::AbsoluteY, base: 4, page_penalty: true }),
        0xfd => Some(Instr { op: Op::Sbc, mode: Mode::AbsoluteX, base: 4, page_penalty: true }),
        0xfe => Some(Instr { op: Op::Inc, mode: Mode::AbsoluteX, base: 7, page_penalty: false }),
        _ => None,
    }
}

/// Executable twin of `spec_decode`.
pub fn decode(opcode: u8) -> (r: Option<Instr>)
    ensures
        r == spec_decode(opcode),
{
    proof {
        reveal(spec_decode);
    }
    match opcode {
        0x00 => Some(Instr { op: Op::Brk, mode: Mode::Implied, base: 7, page_penalty: false }),
        0x01 => Some(Instr { op: Op::Ora, mode: Mode::IndexedIndirect, base: 6, page_penalty: false }),
        0x05 => Some(Instr { op: Op::Ora, mode: Mode::ZeroPage, base: 3, page_penalty: false }),
        0x06 => Some(Instr { op: Op::Asl, mode: Mode::ZeroPage, base: 5, page_penalty: false }),
        0x08 => Some(Instr { op: Op::Php, mode: Mode::Implied, base: 3, page_penalty: false }),
        0x09 => Some(Instr { op: Op::Ora, mode: Mode::Immediate, base: 2, page_penalty: false }),
        0x0a => Some(Instr { op: Op::Asl, mode: Mode::Accumulator, base: 2, page_penalty: false }),
        0x0d => Some(Instr { op: Op::Ora, mode: Mode::Absolute, base: 4, page_penalty: false }),
        0x0e => Some(Instr { op: Op::Asl, mode: Mode::Absolute, base: 6, page_penalty: false }),
        0x10 => Some(Instr { op: Op::Bpl, mode: Mode::Relative, base: 2, page_penalty: false }),
        0x11 => Some(Instr { op: Op::Ora, mode: Mode::IndirectIndexed, base: 5, page_penalty: true }),
        0x15 => Some(Instr { op: Op::Ora, mode: Mode::ZeroPageX, base: 4, page_penalty: false }),
        0x16 => Some(Instr { op: Op::Asl, mode: Mode::ZeroPageX, base: 6, page_penalty: false }),
        0x18 => Some(Instr { op: Op::Clc, mode: Mode::Implied, base: 2, page_penalty: false }),
        0x19 => Some(Instr { op: Op::Ora, mode: Mode::AbsoluteY, base: 4, page_penalty: true }),
        0x1d => Some(Instr { op: Op::Ora, mode: Mode::AbsoluteX, base: 4, page_penalty: true }),
        0x1e => Some(Instr { op: Op::Asl, mode: Mode::AbsoluteX, base: 7, page_penalty: false }),
        0x20 => Some(Instr { op: Op::Jsr, mode: Mode::Absolute, base: 6, page_penalty: false }),
        0x21 => Some(Instr { op: Op::And, mode: Mode::IndexedIndirect, base: 6, page_penalty: false }),
        0x24 => Some(Instr { op: Op::Bit, mode: Mode::ZeroPage, base: 3, page_penalty: false }),
        0x25 => Some(Instr { op: Op::And, mode: Mode::ZeroPage, base: 3, page_penalty: false }),
        0x26 => Some(Instr { op: Op::Rol, mode: Mode::ZeroPage, base: 5, page_penalty: false }),
        0x28 => Some(Instr { op: Op::Plp, mode: Mode::Implied, base: 4, page_penalty: false }),
        0x29 => Some(Instr { op: Op::And, mode: Mode::Immediate, base: 2, page_penalty: false }),
        0x2a => Some(Instr { op: Op::Rol, mode: Mode::Accumulator, base: 2, page_penalty: false }),
        0x2c => Some(Instr { op: Op::Bit, mode: Mode::Absolute, base: 4, page_penalty: false }),
        0x2d => Some(Instr { op: Op::And, mode: Mode::Absolute, base: 4, page_penalty: false }),
        0x2e => Some(Instr { op: Op::Rol, mode: Mode::Absolute, base: 6, page_penalty: false }),
        0x30 => Some(Instr { op: Op::Bmi, mode: Mode::Relative, base: 2, page_penalty: false }),
        0x31 => Some(Instr { op: Op::And, mode: Mode::IndirectIndexed, base: 5, page_penalty: true }),
        0x35 => Some(Instr { op: Op::And, mode: Mode::ZeroPageX, base: 4, page_penalty: false }),
        0x36 => Some(Instr { op: Op::Rol, mode: Mode::ZeroPageX, base: 6, page_penalty: false }),
        0x38 => Some(Instr { op: Op::Sec, mode: Mode::Implied, base: 2, page_penalty: false }),
        0x39 => Some(Instr { op: Op::And, mode: Mode::AbsoluteY, base: 4, page_penalty: true }),
        0x3d => Some(Instr { op: Op::And, mode: Mode::AbsoluteX, base: 4, page_penalty: true }),
        0x3e => Some(Instr { op: Op::Rol, mode: Mode::AbsoluteX, base: 7, page_penalty: false }),
        0x40 => Some(Instr { op: Op::Rti, mode: Mode::Implied, base: 6, page_penalty: false }),
        0x41 => Some(Instr { op: Op::Eor, mode: Mode::IndexedIndirect, base: 6, page_penalty: false }),
        0x45 => Some(Instr { op: Op::Eor, mode: Mode::ZeroPage, base: 3, page_penalty: false }),
        0x46 => Some(Instr { op: Op::Lsr, mode: Mode::ZeroPage, base: 5, page_penalty: false }),
        0x48 => Some(Instr { op: Op::Pha, mode: Mode::Implied, base: 3, page_penalty: false }),
        0x49 => Some(Instr { op: Op::Eor, mode: Mode::Immediate, base: 2, page_penalty: false }),
        0x4a => Some(Instr { op: Op::Lsr, mode: Mode::Accumulator, base: 2, page_penalty: false }),
        0x4c => Some(Instr { op: Op::Jmp, mode: Mode::Absolute, base: 3, page_penalty: false }),
        0x4d => Some(Instr { op: Op::Eor, mode: Mode::Absolute, base: 4, page_penalty: false }),
        0x4e => Some(Instr { op: Op::Lsr, mode: Mode::Absolute, base: 6, page_penalty: false }),
        0x50 => Some(Instr { op: Op::Bvc, mode: Mode::Relative, base: 2, page_penalty: false }),
        0x51 => Some(Instr { op: Op::Eor, mode: Mode::IndirectIndexed, base: 5, page_penalty: true }),
        0x55 => Some(Instr { op: Op::Eor, mode: Mode::ZeroPageX, base: 4, page_penalty: false }),
        0x56 => Some(Instr { op: Op::Lsr, mode: Mode::ZeroPageX, base: 6, page_penalty: false }),
        0x58 => Some(Instr { op: Op::Cli, mode: Mode::Implied, base: 2, page_penalty: false }),
        0x59 => Some(Instr { op: Op::Eor, mode: Mode::AbsoluteY, base: 4, page_penalty: true }),
        0x5d => Some(Instr { op: Op::Eor, mode: Mode::AbsoluteX, base: 4, page_penalty: true }),
        0x5e => Some(Instr { op: Op::Lsr, mode: Mode::AbsoluteX, base: 7, page_penalty: false }),
        0x60 => Some(Instr { op: Op::Rts, mode: Mode::Implied, base: 6, page_penalty: false }),
        0x61 => Some(Instr { op: Op::Adc, mode: Mode::IndexedIndirect, base: 6, page_penalty: false }),
        0x65 => Some(Instr { op: Op::Adc, mode: Mode::ZeroPage, base: 3, page_penalty: false }),
        0x66 => Some(Instr { op: Op::Ror, mode: Mode::ZeroPage, base: 5, page_penalty: false }),
        0x68 => Some(Instr { op: Op::Pla, mode: Mode::Implied, base: 4, page_penalty: false }),
        0x69 => Some(Instr { op: Op::Adc, mode: Mode::Immediate, base: 2, page_penalty: false }),
        0x6a => Some(Instr { op: Op::Ror, mode: Mode::Accumulator, base: 2, page_penalty: false }),
        0x6c => Some(Instr { op: Op::Jmp, mode: Mode::Indirect, base: 5, page_penalty: false }),
        0x6d => Some(Instr { op: Op::Adc, mode: Mode::Absolute, base: 4, page_penalty: false }),
        0x6e => Some(Instr { op: Op::Ror, mode: Mode::Absolute, base: 6, page_penalty: false }),
        0x70 => Some(Instr { op: Op::Bvs, mode: Mode::Relative, base: 2, page_penalty: false }),
        0x71 => Some(Instr { op: Op::Adc, mode: Mode::IndirectIndexed, base: 5, page_penalty: true }),
        0x75 => Some(Instr { op: Op::Adc, mode: Mode::ZeroPageX, base: 4, page_penalty: false }),
        0x76 => Some(Instr { op: Op::Ror, mode: Mode::ZeroPageX, base: 6, page_penalty: false }),
        0x78 => Some(Instr { op: Op::Sei, mode: Mode::Implied, base: 2, page_penalty: false }),
        0x79 => Some(Instr { op: Op::Adc, mode: Mode::AbsoluteY, base: 4, page_penalty: true }),
        0x7d => Some(Instr { op: Op::Adc, mode: Mode::AbsoluteX, base: 4, page_penalty: true }),
        0x7e => Some(Instr { op: Op::Ror, mode: Mode::AbsoluteX, base: 7, page_penalty: false }),
        0x81 => Some(Instr { op: Op::Sta, mode: Mode::IndexedIndirect, base: 6, page_penalty: false }),
        0x84 => Some(Instr { op: Op::Sty, mode: Mode::ZeroPage, base: 3, page_penalty: false }),
        0x85 => Some(Instr { op: Op::Sta, mode: Mode::ZeroPage, base: 3, page_penalty: false }),
        0x86 => Some(Instr { op: Op::Stx, mode: Mode::ZeroPage, base: 3, page_penalty: false }),
        0x88 => Some(Instr { op: Op::Dey, mode: Mode::Implied, base: 2, page_penalty: false }),
        0x8a => Some(Instr { op: Op::Txa, mode: Mode::Implied, base: 2, page_penalty: false }),
        0x8c => Some(Instr { op: Op::Sty, mode: Mode::Absolute, base: 4, page_penalty: false }),
        0x8d => Some(Instr { op: Op::Sta, mode: Mode::Absolute, base: 4, page_penalty: false }),
        0x8e => Some(Instr { op: Op::Stx, mode: Mode::Absolute, base: 4, page_penalty: false }),
        0x90 => Some(Instr { op: Op::Bcc, mode: Mode::Relative, base: 2, page_penalty: false }),
        0x91 => Some(Instr { op: Op::Sta, mode: Mode::IndirectIndexed, base: 6, page_penalty: false }),
        0x94 => Some(Instr { op: Op::Sty, mode: Mode::ZeroPageX, base: 4, page_penalty: false }),
        0x95 => Some(Instr { op: Op::Sta, mode: Mode::ZeroPageX, base: 4, page_penalty: false }),
        0x96 => Some(Instr { op: Op::Stx, mode: Mode::ZeroPageY, base: 4, page_penalty: false }),
        0x98 => Some(Instr { op: Op::Tya, mode: Mode::Implied, base: 2, page_penalty: false }),
        0x99 => Some(Instr { op: Op::Sta, mode: Mode::AbsoluteY, base: 5, page_penalty: false }),
        0x9a => Some(Instr { op: Op::Txs, mode: Mode::Implied, base: 2, page_penalty: false }),
        0x9d => Some(Instr { op: Op::Sta, mode: Mode::AbsoluteX, base: 5, page_penalty: false }),
        0xa0 => Some(Instr { op: Op::Ldy, mode: Mode::Immediate, base: 2, page_penalty: false }),
        0xa1 => Some(Instr { op: Op::Lda, mode: Mode::IndexedIndirect, base: 6, page_penalty: false }),
        0xa2 => Some(Instr { op: Op::Ldx, mode: Mode::Immediate, base: 2, page_penalty: false }),
        0xa4 => Some(Instr { op: Op::Ldy, mode: Mode::ZeroPage, base: 3, page_penalty: false }),
        0xa5 => Some(Instr { op: Op::Lda, mode: Mode::ZeroPage, base: 3, page_penalty: false }),
        0xa6 => Some(Instr { op: Op::Ldx, mode: Mode::ZeroPage, base: 3, page_penalty: false }),
        0xa8 => Some(Instr { op: Op::Tay, mode: Mode::Implied, base: 2, page_penalty: false }),
        0xa9 => Some(Instr { op: Op::Lda, mode: Mode::Immediate, base: 2, page_penalty: false }),
        0xaa => Some(Instr { op: Op::Tax, mode: Mode::Implied, base: 2, page_penalty: false }),
        0xac => Some(Instr { op: Op::Ldy, mode: Mode::Absolute, base: 4, page_penalty: false }),
        0xad => Some(Instr { op: Op::Lda, mode: Mode::Absolute, base: 4, page_penalty: false }),
        0xae => Some(Instr { op: Op::Ldx, mode: Mode::Absolute, base: 4, page_penalty: false }),
        0xb0 => Some(Instr { op: Op::Bcs, mode: Mode::Relative, base: 2, page_penalty: false }),
        0xb1 => Some(Instr { op: Op::Lda, mode: Mode::IndirectIndexed, base: 5, page_penalty: true }),
        0xb4 => Some(Instr { op: Op::Ldy, mode: Mode::ZeroPageX, base: 4, page_penalty: false }),
        0xb5 => Some(Instr { op: Op::Lda, mode: Mode::ZeroPageX, base: 4, page_penalty: false }),
        0xb6 => Some(Instr { op: Op::Ldx, mode: Mode::ZeroPageY, base: 4, page_penalty: false }),
        0xb8 => Some(Instr { op: Op::Clv, mode: Mode::Implied, base: 2, page_penalty: false }),
        0xb9 => Some(Instr { op: Op::Lda, mode: Mode::AbsoluteY, base: 4, page_penalty: true }),
        0xba => Some(Instr { op: Op::Tsx, mode: Mode::Implied, base: 2, page_penalty: false }),
        0xbc => Some(Instr { op: Op::Ldy, mode: Mode::AbsoluteX, base: 4, page_penalty: true }),
        0xbd => Some(Instr { op: Op::Lda, mode: Mode::AbsoluteX, base: 4, page_penalty: true }),
        0xbe => Some(Instr { op: Op::Ldx, mode: Mode::AbsoluteY, base: 4, page_penalty: true }),
        0xc0 => Some(Instr { op: Op::Cpy, mode: Mode::Immediate, base: 2, page_penalty: false }),
        0xc1 => Some(Instr { op: Op::Cmp, mode: Mode::IndexedIndirect, base: 6, page_penalty: false }),
        0xc4 => Some(Instr { op: Op::Cpy, mode: Mode::ZeroPage, base: 3, page_penalty: false }),
        0xc5 => Some(Instr { op: Op::Cmp, mode: Mode::ZeroPage, base: 3, page_penalty: false }),
        0xc6 => Some(Instr { op: Op::Dec, mode: Mode::ZeroPage, base: 5, page_penalty: false }),
        0xc8 => Some(Instr { op: Op::Iny, mode: Mode::Implied, base: 2, page_penalty: false }),
        0xc9 => Some(Instr { op: Op::Cmp, mode: Mode::Immediate, base: 2, page_penalty: false }),
        0xca => Some(Instr { op: Op::Dex, mode: Mode::Implied, base: 2, page_penalty: false }),
        0xcc => Some(Instr { op: Op::Cpy, mode: Mode::Absolute, base: 4, page_penalty: false }),
        0xcd => Some(Instr { op: Op::Cmp, mode: Mode::Absolute, base: 4, page_penalty: false }),
        0xce => Some(Instr { op: Op::Dec, mode: Mode::Absolute, base: 6, page_penalty: false }),
        0xd0 => Some(Instr { op: Op::Bne, mode: Mode::Relative, base: 2, page_penalty: false }),
        0xd1 => Some(Instr { op: Op::Cmp, mode: Mode::IndirectIndexed, base: 5, page_penalty: true }),
        0xd5 => Some(Instr { op: Op::Cmp, mode: Mode::ZeroPageX, base: 4, page_penalty: false }),
        0xd6 => Some(Instr { op: Op::Dec, mode: Mode::ZeroPageX, base: 6, page_penalty: false }),
        0xd8 => Some(Instr { op: Op::Cld, mode: Mode::Implied, base: 2, page_penalty: false }),
        0xd9 => Some(Instr { op: Op::Cmp, mode: Mode::AbsoluteY, base: 4, page_penalty: true }),
        0xdd => Some(Instr { op: Op::Cmp, mode: Mode::AbsoluteX, base: 4, page_penalty: true }),
        0xde => Some(Instr { op: Op::Dec, mode: Mode::AbsoluteX, base: 7, page_penalty: false }),
        0xe0 => Some(Instr { op: Op::Cpx, mode: Mode::Immediate, base: 2, page_penalty: false }),
        0xe1 => Some(Instr { op: Op::Sbc, mode: Mode::IndexedIndirect, base: 6, page_penalty: false }),
        0xe4 => Some(Instr { op: Op::Cpx, mode: Mode::ZeroPage, base: 3, page_penalty: false }),
        0xe5 => Some(Instr { op: Op::Sbc, mode: Mode::ZeroPage, base: 3, page_penalty: false }),
        0xe6 => Some(Instr { op: Op::Inc, mode: Mode::ZeroPage, base: 5, page_penalty: false }),
        0xe8 => Some(Instr { op: Op::Inx, mode: Mode::Implied, base: 2, page_penalty: false }),
        0xe9 => Some(Instr { op: Op::Sbc, mode: Mode::Immediate, base: 2, page_penalty: false }),
        0xea => Some(Instr { op: Op::Nop, mode: Mode::Implied, base: 2, page_penalty: false }),
        0xec => Some(Instr { op: Op::Cpx, mode: Mode::Absolute, base: 4, page_penalty: false }),
        0xed => Some(Instr { op: Op::Sbc, mode: Mode::Absolute, base: 4, page_penalty: false }),
        0xee => Some(Instr { op: Op::Inc, mode: Mode::Absolute, base: 6, page_penalty: false }),
        0xf0 => Some(Instr { op: Op::Beq, mode: Mode::Relative, base: 2, page_penalty: false }),
        0xf1 => Some(Instr { op: Op::Sbc, mode: Mode::IndirectIndexed, base: 5, page_penalty: true }),
        0xf5 => Some(Instr { op: Op::Sbc, mode: Mode::ZeroPageX, base: 4, page_penalty: false }),
        0xf6 => Some(Instr { op: Op::Inc, mode: Mode::ZeroPageX, base: 6, page_penalty: false }),
        0xf8 => Some(Instr { op: Op::Sed, mode: Mode::Implied, base: 2, page_penalty: false }),
        0xf9 => Some(Instr { op: Op::Sbc, mode: Mode::AbsoluteY, base: 4, page_penalty: true }),
        0xfd => Some(Instr { op: Op::Sbc, mode: Mode::AbsoluteX, base: 4, page_penalty: true }),
        0xfe => Some(Instr { op: Op::Inc, mode: Mode::AbsoluteX, base: 7, page_penalty: false }),
        _ => None,
    }
}

/// What resolving an addressing mode yields: the effective address, the
/// program counter after the operand bytes, and whether an indexed address
/// crossed a page on the way.
#[verifier::ext_equal]
pub ghost struct ResolvedAddr {
    pub addr: u16,
    pub pc: u16,
    pub crossed: bool,
}

/// A 16-bit word from a low and a high byte.
pub open spec fn spec_w16(lo: u8, hi: u8) -> u16 {
    (lo + hi * 0x100) as u16
}

/// The address the high byte of an indirect pointer is read from: the
/// increment wraps inside the pointer's page, replicating the 6502's
/// indirect-JMP defect.
pub open spec fn spec_ind_high_addr(ptr: u16) -> u16 {
    ((ptr & 0xff00) + (ptr + 1) % 0x100) as u16
}

/// The indirect pointer's defect in general form: whenever the pointer's
/// low byte is $FF, the target's high byte is read from the start of the
/// pointer's own page, not from the next page.
pub proof fn lemma_indirect_pointer_page_wrap(ptr: u16)
    requires
        ptr & 0x00ff == 0x00ff,
    ensures
        spec_ind_high_addr(ptr) == ptr & 0xff00,
{
    assert((ptr & 0xff00) + (ptr + 1) % 0x100 == ptr & 0xff00) by (bit_vector)
        requires
            ptr & 0x00ff == 0x00ff,
    ;
    assert(ptr & 0xff00 <= 0xff00) by (bit_vector);
}

/// A branch target: the operand sign-extended and added to the program
/// counter after the operand, wrapping in 16 bits.
pub open spec fn spec_branch_target(pc: u16, off: u8) -> u16 {
    if off >= 0x80 {
        ((pc + off + 0xff00) % 0x10000) as u16
    } else {
        ((pc + off) % 0x10000) as u16
    }
}

/// Effective-address resolution, mode by mode, starting with `pc` on the
/// first operand byte. Reads have no side effect on this bus, so resolution
/// is a pure function of the bus contents.
pub open spec fn spec_resolve(m: MemView, pc: u16, x: u8, y: u8, mode: Mode) -> ResolvedAddr {
    match mode {
        Mode::Implied => ResolvedAddr { addr: 0, pc, crossed: false },
        Mode::Accumulator => ResolvedAddr { addr: 0, pc, crossed: false },
        Mode::Immediate => ResolvedAddr { addr: pc, pc: spec_wrap_add16(pc, 1), crossed: false },
        Mode::ZeroPage => ResolvedAddr {
            addr: spec_bus_read(m, pc) as u16,
            pc: spec_wrap_add16(pc, 1),
            crossed: false,
        },
        Mode::ZeroPageX => ResolvedAddr {
            addr: ((spec_bus_read(m, pc) + x) % 0x100) as u16,
            pc: spec_wrap_add16(pc, 1),
            crossed: false,
        },
        Mode::ZeroPageY => ResolvedAddr {
            addr: ((spec_bus_read(m, pc) + y) % 0x100) as u16,
            pc: spec_wrap_add16(pc, 1),
            crossed: false,
        },
        Mode::Absolute => ResolvedAddr {
            addr: spec_bus_read_word(m, pc),
            pc: spec_wrap_add16(pc, 2),
            crossed: false,
        },
        Mode::AbsoluteX => {
            let base = spec_bus_read_word(m, pc);
            let addr = spec_wrap_add16(base, x as u16);
            ResolvedAddr { addr, pc: spec_wrap_add16(pc, 2), crossed: base >> 8 != addr >> 8 }
        },
        Mode::AbsoluteY => {
            let base = spec_bus_read_word(m, pc);
            let addr = spec_wrap_add16(base, y as u16);
            ResolvedAddr { addr, pc: spec_wrap_add16(pc, 2), crossed: base >> 8 != addr >> 8 }
        },
        Mode::Indirect => {
            let ptr = spec_bus_read_word(m, pc);
            let lo = spec_bus_read(m, ptr);
            let hi = spec_bus_read(m, spec_ind_high_addr(ptr));
            ResolvedAddr { addr: spec_w16(lo, hi), pc: spec_wrap_add16(pc, 2), crossed: false }
        },
        Mode::IndexedIndirect => {
            let zp = ((spec_bus_read(m, pc) + x) % 0x100) as u16;
            let lo = spec_bus_read(m, zp);
            let hi = spec_bus_read(m, ((zp + 1) % 0x100) as u16);
            ResolvedAddr { addr: spec_w16(lo, hi), pc: spec_wrap_add16(pc, 1), crossed: false }
        },
        Mode::IndirectIndexed => {
            let zp = spec_bus_read(m, pc) as u16;
            let lo = spec_bus_read(m, zp);
            let hi = spec_bus_read(m, ((zp + 1) % 0x100) as u16);
            let base = spec_w16(lo, hi);
            let addr = spec_wrap_add16(base, y as u16);
            ResolvedAddr { addr, pc: spec_wrap_add16(pc, 1), crossed: base >> 8 != addr >> 8 }
        },
        Mode::Relative => {
            let off = spec_bus_read(m, pc);
            let next = spec_wrap_add16(pc, 1);
            ResolvedAddr { addr: spec_branch_target(next, off), pc: next, crossed: false }
        },
    }
}

// Register loads and stores.

pub open spec fn spec_lda(s: CpuView, addr: u16) -> CpuView {
    let v = spec_bus_read(s.mem, addr);
    CpuView { a: v, p: spec_with_zn(s.p, v), ..s }
}

pub open spec fn spec_ldx(s: CpuView, addr: u16) -> CpuView {
    let v = spec_bus_read(s.mem, addr);
    CpuView { x: v, p: spec_with_zn(s.p, v), ..s }
}

pub open spec fn spec_ldy(s: CpuView, addr: u16) -> CpuView {
    let v = spec_bus_read(s.mem, addr);
    CpuView { y: v, p: spec_with_zn(s.p, v), ..s }
}

pub open spec fn spec_sta(s: CpuView, addr: u16) -> CpuView {
    CpuView { mem: spec_bus_write(s.mem, addr, s.a), ..s }
}

pub open spec fn spec_stx(s: CpuView, addr: u16) -> CpuView {
    CpuView { mem: spec_bus_write(s.mem, addr, s.x), ..s }
}

pub open spec fn spec_sty(s: CpuView, addr: u16) -> CpuView {
    CpuView { mem: spec_bus_write(s.mem, addr, s.y), ..s }
}

// Transfers: all set Z and N from the moved value except TXS.

pub open spec fn spec_tax(s: CpuView) -> CpuView {
    CpuView { x: s.a, p: spec_with_zn(s.p, s.a), ..s }
}

pub open spec fn spec_tay(s: CpuView) -> CpuView {
    CpuView { y: s.a, p: spec_with_zn(s.p, s.a), ..s }
}

pub open spec fn spec_txa(s: CpuView) -> CpuView {
    CpuView { a: s.x, p: spec_with_zn(s.p, s.x), ..s }
}

pub open spec fn spec_tya(s: CpuView) -> CpuView {
    CpuView { a: s.y, p: spec_with_zn(s.p, s.y), ..s }
}

pub open spec fn spec_tsx(s: CpuView) -> CpuView {
    CpuView { x: s.s, p: spec_with_zn(s.p, s.s), ..s }
}

pub open spec fn spec_txs(s: CpuView) -> CpuView {
    CpuView { s: s.x, ..s }
}

// Stack instructions.

pub open spec fn spec_pha(s: CpuView) -> CpuView {
    spec_cpu_push(s, s.a)
}

pub open spec fn spec_php(s: CpuView) -> CpuView {
    spec_cpu_push(s, spec_push_p(s.p))
}

pub open spec fn spec_pla(s: CpuView) -> CpuView {
    let v = spec_cpu_pull_val(s);
    let s1 = spec_cpu_pull(s);
    CpuView { a: v, p: spec_with_zn(s1.p, v), ..s1 }
}

pub open spec fn spec_plp(s: CpuView) -> CpuView {
    let v = spec_cpu_pull_val(s);
    let s1 = spec_cpu_pull(s);
    CpuView { p: spec_restore_p(v), ..s1 }
}

// Logic.

pub open spec fn spec_and(s: CpuView, addr: u16) -> CpuView {
    let r = s.a & spec_bus_read(s.mem, addr);
    CpuView { a: r, p: spec_with_zn(s.p, r), ..s }
}

pub open spec fn spec_eor(s: CpuView, addr: u16) -> CpuView {
    let r = s.a ^ spec_bus_read(s.mem, addr);
    CpuView { a: r, p: spec_with_zn(s.p, r), ..s }
}

pub open spec fn spec_ora(s: CpuView, addr: u16) -> CpuView {
    let r = s.a | spec_bus_read(s.mem, addr);
    CpuView { a: r, p: spec_with_zn(s.p, r), ..s }
}

/// BIT: Z from the AND with the accumulator, N and V copied from bits 7 and
/// 6 of the operand; the accumulator is untouched.
pub open spec fn spec_bit(s: CpuView, addr: u16) -> CpuView {
    let v = spec_bus_read(s.mem, addr);
    let p1 = spec_set_flag(s.p, ZERO_FLAG, v & s.a == 0);
    let p2 = spec_set_flag(p1, NEGATIVE_FLAG, v & 0x80 != 0);
    let p3 = spec_set_flag(p2, OVERFLOW_FLAG, v & 0x40 != 0);
    CpuView { p: p3, ..s }
}

// Shifts and rotates.

/// A left shift: bit 0 takes `lsb` (the old carry for ROL, zero for ASL).
pub open spec fn spec_shl_val(v: u8, lsb: bool) -> u8 {
    ((v * 2) % 0x100 + if lsb { 1int } else { 0 }) as u8
}

/// A right shift: bit 7 takes `msb` (the old carry for ROR, zero for LSR).
pub open spec fn spec_shr_val(v: u8, msb: bool) -> u8 {
    (v / 2 + if msb { 0x80int } else { 0 }) as u8
}

/// The status after a shift: C takes the bit shifted out, then Z and N
/// follow the result.
pub open spec fn spec_shift_p(p: u8, carry: bool, r: u8) -> u8 {
    spec_with_zn(spec_set_flag(p, CARRY_BIT, carry), r)
}

pub open spec fn spec_asl_acc(s: CpuView) -> CpuView {
    let v = s.a;
    let r = spec_shl_val(v, false);
    CpuView { a: r, p: spec_shift_p(s.p, v & 0x80 != 0, r), ..s }
}

pub open spec fn spec_asl_mem(s: CpuView, addr: u16) -> CpuView {
    let v = spec_bus_read(s.mem, addr);
    let r = spec_shl_val(v, false);
    CpuView { p: spec_shift_p(s.p, v & 0x80 != 0, r), mem: spec_bus_write(s.mem, addr, r), ..s }
}

pub open spec fn spec_rol_acc(s: CpuView) -> CpuView {
    let v = s.a;
    let r = spec_shl_val(v, spec_get_flag(s.p, CARRY_BIT));
    CpuView { a: r, p: spec_shift_p(s.p, v & 0x80 != 0, r), ..s }
}

pub open spec fn spec_rol_mem(s: CpuView, addr: u16) -> CpuView {
    let v = spec_bus_read(s.mem, addr);
    let r = spec_shl_val(v, spec_get_flag(s.p, CARRY_BIT));
    CpuView { p: spec_shift_p(s.p, v & 0x80 != 0, r), mem: spec_bus_write(s.mem, addr, r), ..s }
}

pub open spec fn spec_lsr_acc(s: CpuView) -> CpuView {
    let v = s.a;
    let r = spec_shr_val(v, false);
    CpuView { a: r, p: spec_shift_p(s.p, v & 1 != 0, r), ..s }
}

pub open spec fn spec_lsr_mem(s: CpuView, addr: u16) -> CpuView {
    let v = spec_bus_read(s.mem, addr);
    let r = spec_shr_val(v, false);
    CpuView { p: spec_shift_p(s.p, v & 1 != 0, r), mem: spec_bus_write(s.mem, addr, r), ..s }
}

pub open spec fn spec_ror_acc(s: CpuView) -> CpuView {
    let v = s.a;
    let r = spec_shr_val(v, spec_get_flag(s.p, CARRY_BIT));
    CpuView { a: r, p: spec_shift_p(s.p, v & 1 != 0, r), ..s }
}

pub open spec fn spec_ror_mem(s: CpuView, addr: u16) -> CpuView {
    let v = spec_bus_read(s.mem, addr);
    let r = spec_shr_val(v, spec_get_flag(s.p, CARRY_BIT));
    CpuView { p: spec_shift_p(s.p, v & 1 != 0, r), mem: spec_bus_write(s.mem, addr, r), ..s }
}

// Arithmetic.

/// The 9-bit sum ADC forms from the accumulator, the operand and the carry.
pub open spec fn spec_adc_sum(a: u8, m: u8, c: bool) -> int {
    a + m + if c { 1int } else { 0 }
}

/// ADC: A takes the low byte of the 9-bit sum, C its ninth bit; V holds when
/// the operands share a sign the result does not have; Z and N follow the
/// result.
pub open spec fn spec_adc(s: CpuView, addr: u16) -> CpuView {
    let m = spec_bus_read(s.mem, addr);
    let sum = spec_adc_sum(s.a, m, spec_get_flag(s.p, CARRY_BIT));
    let r = (sum % 0x100) as u8;
    let p1 = spec_set_flag(s.p, CARRY_BIT, sum >= 0x100);
    let p2 = spec_set_flag(p1, OVERFLOW_FLAG, (s.a ^ m) & 0x80 == 0 && (s.a ^ r) & 0x80 != 0);
    CpuView { a: r, p: spec_with_zn(p2, r), ..s }
}

/// SBC: exactly ADC of the operand's complement; V holds when the operands
/// differ in sign and the result's sign departs from the accumulator's.
pub open spec fn spec_sbc(s: CpuView, addr: u16) -> CpuView {
    let m = spec_bus_read(s.mem, addr);
    let sum = spec_adc_sum(s.a, m ^ 0xff, spec_get_flag(s.p, CARRY_BIT));
    let r = (sum % 0x100) as u8;
    let p1 = spec_set_flag(s.p, CARRY_BIT, sum >= 0x100);
    let p2 = spec_set_flag(p1, OVERFLOW_FLAG, (s.a ^ m) & 0x80 != 0 && (s.a ^ r) & 0x80 != 0);
    CpuView { a: r, p: spec_with_zn(p2, r), ..s }
}

/// A compare: C holds when the register is at least the operand, Z and N
/// follow the 8-bit difference; no register changes.
pub open spec fn spec_compare(s: CpuView, reg: u8, addr: u16) -> CpuView {
    let m = spec_bus_read(s.mem, addr);
    let r = ((reg + 0x100 - m) % 0x100) as u8;
    CpuView { p: spec_with_zn(spec_set_flag(s.p, CARRY_BIT, reg >= m), r), ..s }
}

// Increments and decrements.

pub open spec fn spec_inc_mem(s: CpuView, addr: u16) -> CpuView {
    let r = spec_inc8(spec_bus_read(s.mem, addr));
    CpuView { p: spec_with_zn(s.p, r), mem: spec_bus_write(s.mem, addr, r), ..s }
}

pub open spec fn spec_dec_mem(s: CpuView, addr: u16) -> CpuView {
    let r = spec_dec8(spec_bus_read(s.mem, addr));
    CpuView { p: spec_with_zn(s.p, r), mem: spec_bus_write(s.mem, addr, r), ..s }
}

pub open spec fn spec_inx(s: CpuView) -> CpuView {
    let r = spec_inc8(s.x);
    CpuView { x: r, p: spec_with_zn(s.p, r), ..s }
}

pub open spec fn spec_iny(s: CpuView) -> CpuView {
    let r = spec_inc8(s.y);
    CpuView { y: r, p: spec_with_zn(s.p, r), ..s }
}

pub open spec fn spec_dex(s: CpuView) -> CpuView {
    let r = spec_dec8(s.x);
    CpuView { x: r, p: spec_with_zn(s.p, r), ..s }
}

pub open spec fn spec_dey(s: CpuView) -> CpuView {
    let r = spec_dec8(s.y);
    CpuView { y: r, p: spec_with_zn(s.p, r), ..s }
}

/// A flag set or clear instruction.
pub open spec fn spec_flag_op(s: CpuView, mask: u8, on: bool) -> CpuView {
    CpuView { p: spec_set_flag(s.p, mask, on), ..s }
}

// Flow control.

pub open spec fn spec_jmp(s: CpuView, addr: u16) -> CpuView {
    CpuView { pc: addr, ..s }
}

/// JSR: pushes the address of its last operand byte (PC minus one once the
/// operand is consumed), high byte first, then jumps.
pub open spec fn spec_jsr(s: CpuView, addr: u16) -> CpuView {
    let s1 = spec_cpu_push_word(s, spec_wrap_add16(s.pc, 0xffff));
    CpuView { pc: addr, ..s1 }
}

/// RTS: pulls the word and resumes one past it.
pub open spec fn spec_rts(s: CpuView) -> CpuView {
    let v = spec_cpu_pull_word_val(s);
    let s1 = spec_cpu_pull(spec_cpu_pull(s));
    CpuView { pc: spec_wrap_add16(v, 1), ..s1 }
}

/// RTI: pulls the status (with the B/U mask), then the return address, which
/// it resumes at unchanged.
pub open spec fn spec_rti(s: CpuView) -> CpuView {
    let pv = spec_cpu_pull_val(s);
    let s1 = spec_cpu_pull(s);
    let v = spec_cpu_pull_word_val(s1);
    let s2 = spec_cpu_pull(spec_cpu_pull(s1));
    CpuView { p: spec_restore_p(pv), pc: v, ..s2 }
}

/// BRK: pushes the address past the signature byte and the status with B and
/// U forced, sets I, and vectors through $FFFE.
pub open spec fn spec_brk(s: CpuView) -> CpuView {
    let s1 = spec_cpu_push_word(s, spec_wrap_add16(s.pc, 1));
    let s2 = spec_cpu_push(s1, spec_push_p(s1.p));
    let s3 = CpuView { p: spec_set_flag(s2.p, INTERRUPT_FLAG, true), ..s2 };
    CpuView { pc: spec_bus_read_word(s3.mem, BRK_ADDR), ..s3 }
}

/// A branch: two base cycles always; taken adds one, and a taken target on
/// another page than the instruction's end adds one more.
pub open spec fn spec_branch(s: CpuView, cond: bool, addr: u16) -> (CpuView, nat) {
    if cond {
        (CpuView { pc: addr, ..s }, if s.pc >> 8 == addr >> 8 { 1nat } else { 2nat })
    } else {
        (s, 0nat)
    }
}

/// A hardware interrupt: return address and status pushed (B clear, U set),
/// I raised, control through the vector. Costs 7 cycles.
pub open spec fn spec_interrupt(s: CpuView, vector: u16) -> CpuView {
    let s1 = spec_cpu_push_word(s, s.pc);
    let s2 = spec_cpu_push(s1, spec_push_p_irq(s1.p));
    let s3 = CpuView { p: spec_set_flag(s2.p, INTERRUPT_FLAG, true), ..s2 };
    CpuView { pc: spec_bus_read_word(s3.mem, vector), ..s3 }
}

/// One instruction's effect once its operand is resolved: the new state and
/// the extra cycles beyond the table (branch penalties only).
pub open spec fn spec_apply(s: CpuView, op: Op, mode: Mode, addr: u16) -> (CpuView, nat) {
    match op {
        Op::Lda => (spec_lda(s, addr), 0nat),
        Op::Ldx => (spec_ldx(s, addr), 0nat),
        Op::Ldy => (spec_ldy(s, addr), 0nat),
        Op::Sta => (spec_sta(s, addr), 0nat),
        Op::Stx => (spec_stx(s, addr), 0nat),
        Op::Sty => (spec_sty(s, addr), 0nat),
        Op::Tax => (spec_tax(s), 0nat),
        Op::Tay => (spec_tay(s), 0nat),
        Op::Txa => (spec_txa(s), 0nat),
        Op::Tya => (spec_tya(s), 0nat),
        Op::Tsx => (spec_tsx(s), 0nat),
        Op::Txs => (spec_txs(s), 0nat),
        Op::Pha => (spec_pha(s), 0nat),
        Op::Php => (spec_php(s), 0nat),
        Op::Pla => (spec_pla(s), 0nat),
        Op::Plp => (spec_plp(s), 0nat),
        Op::And => (spec_and(s, addr), 0nat),
        Op::Eor => (spec_eor(s, addr), 0nat),
        Op::Ora => (spec_ora(s, addr), 0nat),
        Op::Bit => (spec_bit(s, addr), 0nat),
        Op::Asl => (
            if mode is Accumulator {
                spec_asl_acc(s)
            } else {
                spec_asl_mem(s, addr)
            },
            0nat,
        ),
        Op::Lsr => (
            if mode is Accumulator {
                spec_lsr_acc(s)
            } else {
                spec_lsr_mem(s, addr)
            },
            0nat,
        ),
        Op::Rol => (
            if mode is Accumulator {
                spec_rol_acc(s)
            } else {
                spec_rol_mem(s, addr)
            },
            0nat,
        ),
        Op::Ror => (
            if mode is Accumulator {
                spec_ror_acc(s)
            } else {
                spec_ror_mem(s, addr)
            },
            0nat,
        ),
        Op::Adc => (spec_adc(s, addr), 0nat),
        Op::Sbc => (spec_sbc(s, addr), 0nat),
        Op::Cmp => (spec_compare(s, s.a, addr), 0nat),
        Op::Cpx => (spec_compare(s, s.x, addr), 0nat),
        Op::Cpy => (spec_compare(s, s.y, addr), 0nat),
        Op::Inc => (spec_inc_mem(s, addr), 0nat),
        Op::Inx => (spec_inx(s), 0nat),
        Op::Iny => (spec_iny(s), 0nat),
        Op::Dec => (spec_dec_mem(s, addr), 0nat),
        Op::Dex => (spec_dex(s), 0nat),
        Op::Dey => (spec_dey(s), 0nat),
        Op::Clc => (spec_flag_op(s, CARRY_BIT, false), 0nat),
        Op::Sec => (spec_flag_op(s, CARRY_BIT, true), 0nat),
        Op::Cli => (spec_flag_op(s, INTERRUPT_FLAG, false), 0nat),
        Op::Sei => (spec_flag_op(s, INTERRUPT_FLAG, true), 0nat),
        Op::Clv => (spec_flag_op(s, OVERFLOW_FLAG, false), 0nat),
        Op::Cld => (spec_flag_op(s, DECIMAL_FLAG, false), 0nat),
        Op::Sed => (spec_flag_op(s, DECIMAL_FLAG, true), 0nat),
        Op::Bcc => spec_branch(s, !spec_get_flag(s.p, CARRY_BIT), addr),
        Op::Bcs => spec_branch(s, spec_get_flag(s.p, CARRY_BIT), addr),
        Op::Beq => spec_branch(s, spec_get_flag(s.p, ZERO_FLAG), addr),
        Op::Bne => spec_branch(s, !spec_get_flag(s.p, ZERO_FLAG), addr),
        Op::Bmi => spec_branch(s, spec_get_flag(s.p, NEGATIVE_FLAG), addr),
        Op::Bpl => spec_branch(s, !spec_get_flag(s.p, NEGATIVE_FLAG), addr),
        Op::Bvs => spec_branch(s, spec_get_flag(s.p, OVERFLOW_FLAG), addr),
        Op::Bvc => spec_branch(s, !spec_get_flag(s.p, OVERFLOW_FLAG), addr),
        Op::Jmp => (spec_jmp(s, addr), 0nat),
        Op::Jsr => (spec_jsr(s, addr), 0nat),
        Op::Rts => (spec_rts(s), 0nat),
        Op::Rti => (spec_rti(s), 0nat),
        Op::Brk => (spec_brk(s), 0nat),
        Op::Nop => (s, 0nat),
    }
}

/// How one step ends: the next state with its cycle count, or a trap on an
/// undocumented opcode, which leaves the state untouched with the program
/// counter still on the offending byte.
#[verifier::ext_equal]
pub ghost enum StepResult {
    Stepped { next: CpuView, cycles: nat },
    Fault { opcode: u8, pc: u16 },
}

/// One full step of the machine: a pending NMI is served first, then a
/// pending IRQ if I is clear; otherwise the opcode at PC is fetched, decoded
/// from the table, its operand resolved, and the instruction applied. The
/// cycle count is the table's base plus the page-cross penalty where the
/// table allows one, plus branch penalties.
#[verifier::opaque]
pub open spec fn spec_step(s: CpuView) -> StepResult {
    if s.nmi_pending {
        StepResult::Stepped {
            next: spec_interrupt(CpuView { nmi_pending: false, ..s }, NMI_ADDR),
            cycles: 7nat,
        }
    } else if s.irq_line && !spec_get_flag(s.p, INTERRUPT_FLAG) {
        StepResult::Stepped { next: spec_interrupt(s, BRK_ADDR), cycles: 7nat }
    } else {
        let opcode = spec_bus_read(s.mem, s.pc);
        match spec_decode(opcode) {
            None => StepResult::Fault { opcode, pc: s.pc },
            Some(ins) => {
                let s1 = CpuView { pc: spec_wrap_add16(s.pc, 1), ..s };
                let r = spec_resolve(s1.mem, s1.pc, s1.x, s1.y, ins.mode);
                let s2 = CpuView { pc: r.pc, ..s1 };
                let ap = spec_apply(s2, ins.op, ins.mode, r.addr);
                StepResult::Stepped {
                    next: ap.0,
                    cycles: (ins.base + if ins.page_penalty && r.crossed {
                        1int
                    } else {
                        0int
                    } + ap.1) as nat,
                }
            },
        }
    }
}

} // verus!
