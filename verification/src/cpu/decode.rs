//! The 6502 opcode table: what each of the 256 opcodes does.
use vstd::prelude::*;

verus! {

/// Operand addressing modes.
#[derive(Clone, Copy, Debug, PartialEq, Eq, Structural)]
pub enum Mode {
    Imm,
    Zpg,
    ZpgX,
    ZpgY,
    Abs,
    AbsX,
    AbsY,
    IndX,
    IndY,
}

/// Instructions that read one operand from memory.
#[derive(Clone, Copy, Debug, PartialEq, Eq, Structural)]
pub enum ReadOp {
    Lda,
    Ldx,
    Ldy,
    Lax,
    Adc,
    Sbc,
    And,
    Eor,
    Ora,
    Cmp,
    Cpx,
    Cpy,
    Bit,
}

/// Instructions that store a register to memory.
#[derive(Clone, Copy, Debug, PartialEq, Eq, Structural)]
pub enum WriteOp {
    Sta,
    Stx,
    Sty,
    Sax,
}

/// Read-modify-write instructions.
#[derive(Clone, Copy, Debug, PartialEq, Eq, Structural)]
pub enum RmwOp {
    Inc,
    Dec,
    Asl,
    Lsr,
    Rol,
    Ror,
    Dcp,
    Isb,
    Slo,
    Rla,
    Sre,
    Rra,
}

/// Single-byte instructions that touch only registers (2 cycles each).
#[derive(Clone, Copy, Debug, PartialEq, Eq, Structural)]
pub enum ImpliedOp {
    Tax,
    Tay,
    Tsx,
    Txa,
    Txs,
    Tya,
    Inx,
    Iny,
    Dex,
    Dey,
    AslA,
    LsrA,
    RolA,
    RorA,
    Clc,
    Sec,
    Cli,
    Sei,
    Clv,
    Cld,
    Sed,
    Nop,
}

/// A decoded opcode. The cycle counts are base counts; reads through
/// absolute,X / absolute,Y / (indirect),Y take one more on a page crossing.
#[derive(Clone, Copy, Debug, PartialEq, Eq, Structural)]
pub enum Instr {
    Read(ReadOp, Mode, u8),
    Write(WriteOp, Mode, u8),
    Rmw(RmwOp, Mode, u8),
    Implied(ImpliedOp),
    Pha,
    Pla,
    Php,
    Plp,
    /// Branch when `(p & flag != 0) == set`.
    Branch(u8, bool),
    JmpAbs,
    JmpInd,
    Jsr,
    Rts,
    Rti,
    Brk,
    /// Unofficial NOP that skips operand bytes without reading them.
    Skip(u16, u8),
    /// Any opcode not listed: treated as a 2-cycle NOP.
    Unknown,
}

/// The opcode table.
pub open spec fn decode(op: u8) -> Instr {
    match op {
        0x00u8 => Instr::Brk,
        0x01u8 => Instr::Read(ReadOp::Ora, Mode::IndX, 6),
        0x03u8 => Instr::Rmw(RmwOp::Slo, Mode::IndX, 8),
        0x04u8 | 0x44u8 | 0x64u8 => Instr::Skip(1, 3),
        0x05u8 => Instr::Read(ReadOp::Ora, Mode::Zpg, 3),
        0x06u8 => Instr::Rmw(RmwOp::Asl, Mode::Zpg, 5),
        0x07u8 => Instr::Rmw(RmwOp::Slo, Mode::Zpg, 5),
        0x08u8 => Instr::Php,
        0x09u8 => Instr::Read(ReadOp::Ora, Mode::Imm, 2),
        0x0Au8 => Instr::Implied(ImpliedOp::AslA),
        0x0Cu8 | 0x1Cu8 | 0x3Cu8 | 0x5Cu8 | 0x7Cu8 | 0xDCu8 | 0xFCu8 => Instr::Skip(2, 4),
        0x0Du8 => Instr::Read(ReadOp::Ora, Mode::Abs, 4),
        0x0Eu8 => Instr::Rmw(RmwOp::Asl, Mode::Abs, 6),
        0x0Fu8 => Instr::Rmw(RmwOp::Slo, Mode::Abs, 6),
        0x10u8 => Instr::Branch(0x80, false),
        0x11u8 => Instr::Read(ReadOp::Ora, Mode::IndY, 5),
        0x13u8 => Instr::Rmw(RmwOp::Slo, Mode::IndY, 8),
        0x14u8 | 0x34u8 | 0x54u8 | 0x74u8 | 0xD4u8 | 0xF4u8 => Instr::Skip(1, 4),
        0x15u8 => Instr::Read(ReadOp::Ora, Mode::ZpgX, 4),
        0x16u8 => Instr::Rmw(RmwOp::Asl, Mode::ZpgX, 6),
        0x17u8 => Instr::Rmw(RmwOp::Slo, Mode::ZpgX, 6),
        0x18u8 => Instr::Implied(ImpliedOp::Clc),
        0x19u8 => Instr::Read(ReadOp::Ora, Mode::AbsY, 4),
        0x1Au8 | 0x3Au8 | 0x5Au8 | 0x7Au8 | 0xDAu8 | 0xEAu8 | 0xFAu8 => Instr::Implied(ImpliedOp::Nop),
        0x1Bu8 => Instr::Rmw(RmwOp::Slo, Mode::AbsY, 7),
        0x1Du8 => Instr::Read(ReadOp::Ora, Mode::AbsX, 4),
        0x1Eu8 => Instr::Rmw(RmwOp::Asl, Mode::AbsX, 7),
        0x1Fu8 => Instr::Rmw(RmwOp::Slo, Mode::AbsX, 7),
        0x20u8 => Instr::Jsr,
        0x21u8 => Instr::Read(ReadOp::And, Mode::IndX, 6),
        0x23u8 => Instr::Rmw(RmwOp::Rla, Mode::IndX, 8),
        0x24u8 => Instr::Read(ReadOp::Bit, Mode::Zpg, 3),
        0x25u8 => Instr::Read(ReadOp::And, Mode::Zpg, 3),
        0x26u8 => Instr::Rmw(RmwOp::Rol, Mode::Zpg, 5),
        0x27u8 => Instr::Rmw(RmwOp::Rla, Mode::Zpg, 5),
        0x28u8 => Instr::Plp,
        0x29u8 => Instr::Read(ReadOp::And, Mode::Imm, 2),
        0x2Au8 => Instr::Implied(ImpliedOp::RolA),
        0x2Cu8 => Instr::Read(ReadOp::Bit, Mode::Abs, 4),
        0x2Du8 => Instr::Read(ReadOp::And, Mode::Abs, 4),
        0x2Eu8 => Instr::Rmw(RmwOp::Rol, Mode::Abs, 6),
        0x2Fu8 => Instr::Rmw(RmwOp::Rla, Mode::Abs, 6),
        0x30u8 => Instr::Branch(0x80, true),
        0x31u8 => Instr::Read(ReadOp::And, Mode::IndY, 5),
        0x33u8 => Instr::Rmw(RmwOp::Rla, Mode::IndY, 8),
        0x35u8 => Instr::Read(ReadOp::And, Mode::ZpgX, 4),
        0x36u8 => Instr::Rmw(RmwOp::Rol, Mode::ZpgX, 6),
        0x37u8 => Instr::Rmw(RmwOp::Rla, Mode::ZpgX, 6),
        0x38u8 => Instr::Implied(ImpliedOp::Sec),
        0x39u8 => Instr::Read(ReadOp::And, Mode::AbsY, 4),
        0x3Bu8 => Instr::Rmw(RmwOp::Rla, Mode::AbsY, 7),
        0x3Du8 => Instr::Read(ReadOp::And, Mode::AbsX, 4),
        0x3Eu8 => Instr::Rmw(RmwOp::Rol, Mode::AbsX, 7),
        0x3Fu8 => Instr::Rmw(RmwOp::Rla, Mode::AbsX, 7),
        0x40u8 => Instr::Rti,
        0x41u8 => Instr::Read(ReadOp::Eor, Mode::IndX, 6),
        0x43u8 => Instr::Rmw(RmwOp::Sre, Mode::IndX, 8),
        0x45u8 => Instr::Read(ReadOp::Eor, Mode::Zpg, 3),
        0x46u8 => Instr::Rmw(RmwOp::Lsr, Mode::Zpg, 5),
        0x47u8 => Instr::Rmw(RmwOp::Sre, Mode::Zpg, 5),
        0x48u8 => Instr::Pha,
        0x49u8 => Instr::Read(ReadOp::Eor, Mode::Imm, 2),
        0x4Au8 => Instr::Implied(ImpliedOp::LsrA),
        0x4Cu8 => Instr::JmpAbs,
        0x4Du8 => Instr::Read(ReadOp::Eor, Mode::Abs, 4),
        0x4Eu8 => Instr::Rmw(RmwOp::Lsr, Mode::Abs, 6),
        0x4Fu8 => Instr::Rmw(RmwOp::Sre, Mode::Abs, 6),
        0x50u8 => Instr::Branch(0x40, false),
        0x51u8 => Instr::Read(ReadOp::Eor, Mode::IndY, 5),
        0x53u8 => Instr::Rmw(RmwOp::Sre, Mode::IndY, 8),
        0x55u8 => Instr::Read(ReadOp::Eor, Mode::ZpgX, 4),
        0x56u8 => Instr::Rmw(RmwOp::Lsr, Mode::ZpgX, 6),
        0x57u8 => Instr::Rmw(RmwOp::Sre, Mode::ZpgX, 6),
        0x58u8 => Instr::Implied(ImpliedOp::Cli),
        0x59u8 => Instr::Read(ReadOp::Eor, Mode::AbsY, 4),
        0x5Bu8 => Instr::Rmw(RmwOp::Sre, Mode::AbsY, 7),
        0x5Du8 => Instr::Read(ReadOp::Eor, Mode::AbsX, 4),
        0x5Eu8 => Instr::Rmw(RmwOp::Lsr, Mode::AbsX, 7),
        0x5Fu8 => Instr::Rmw(RmwOp::Sre, Mode::AbsX, 7),
        0x60u8 => Instr::Rts,
        0x61u8 => Instr::Read(ReadOp::Adc, Mode::IndX, 6),
        0x63u8 => Instr::Rmw(RmwOp::Rra, Mode::IndX, 8),
        0x65u8 => Instr::Read(ReadOp::Adc, Mode::Zpg, 3),
        0x66u8 => Instr::Rmw(RmwOp::Ror, Mode::Zpg, 5),
        0x67u8 => Instr::Rmw(RmwOp::Rra, Mode::Zpg, 5),
        0x68u8 => Instr::Pla,
        0x69u8 => Instr::Read(ReadOp::Adc, Mode::Imm, 2),
        0x6Au8 => Instr::Implied(ImpliedOp::RorA),
        0x6Cu8 => Instr::JmpInd,
        0x6Du8 => Instr::Read(ReadOp::Adc, Mode::Abs, 4),
        0x6Eu8 => Instr::Rmw(RmwOp::Ror, Mode::Abs, 6),
        0x6Fu8 => Instr::Rmw(RmwOp::Rra, Mode::Abs, 6),
        0x70u8 => Instr::Branch(0x40, true),
        0x71u8 => Instr::Read(ReadOp::Adc, Mode::IndY, 5),
        0x73u8 => Instr::Rmw(RmwOp::Rra, Mode::IndY, 8),
        0x75u8 => Instr::Read(ReadOp::Adc, Mode::ZpgX, 4),
        0x76u8 => Instr::Rmw(RmwOp::Ror, Mode::ZpgX, 6),
        0x77u8 => Instr::Rmw(RmwOp::Rra, Mode::ZpgX, 6),
        0x78u8 => Instr::Implied(ImpliedOp::Sei),
        0x79u8 => Instr::Read(ReadOp::Adc, Mode::AbsY, 4),
        0x7Bu8 => Instr::Rmw(RmwOp::Rra, Mode::AbsY, 7),
        0x7Du8 => Instr::Read(ReadOp::Adc, Mode::AbsX, 4),
        0x7Eu8 => Instr::Rmw(RmwOp::Ror, Mode::AbsX, 7),
        0x7Fu8 => Instr::Rmw(RmwOp::Rra, Mode::AbsX, 7),
        0x80u8 | 0x82u8 | 0x89u8 | 0xC2u8 | 0xE2u8 => Instr::Skip(1, 2),
        0x81u8 => Instr::Write(WriteOp::Sta, Mode::IndX, 6),
        0x83u8 => Instr::Write(WriteOp::Sax, Mode::IndX, 6),
        0x84u8 => Instr::Write(WriteOp::Sty, Mode::Zpg, 3),
        0x85u8 => Instr::Write(WriteOp::Sta, Mode::Zpg, 3),
        0x86u8 => Instr::Write(WriteOp::Stx, Mode::Zpg, 3),
        0x87u8 => Instr::Write(WriteOp::Sax, Mode::Zpg, 3),
        0x88u8 => Instr::Implied(ImpliedOp::Dey),
        0x8Au8 => Instr::Implied(ImpliedOp::Txa),
        0x8Cu8 => Instr::Write(WriteOp::Sty, Mode::Abs, 4),
        0x8Du8 => Instr::Write(WriteOp::Sta, Mode::Abs, 4),
        0x8Eu8 => Instr::Write(WriteOp::Stx, Mode::Abs, 4),
        0x8Fu8 => Instr::Write(WriteOp::Sax, Mode::Abs, 4),
        0x90u8 => Instr::Branch(0x01, false),
        0x91u8 => Instr::Write(WriteOp::Sta, Mode::IndY, 6),
        0x94u8 => Instr::Write(WriteOp::Sty, Mode::ZpgX, 4),
        0x95u8 => Instr::Write(WriteOp::Sta, Mode::ZpgX, 4),
        0x96u8 => Instr::Write(WriteOp::Stx, Mode::ZpgY, 4),
        0x97u8 => Instr::Write(WriteOp::Sax, Mode::ZpgY, 4),
        0x98u8 => Instr::Implied(ImpliedOp::Tya),
        0x99u8 => Instr::Write(WriteOp::Sta, Mode::AbsY, 5),
        0x9Au8 => Instr::Implied(ImpliedOp::Txs),
        0x9Du8 => Instr::Write(WriteOp::Sta, Mode::AbsX, 5),
        0xA0u8 => Instr::Read(ReadOp::Ldy, Mode::Imm, 2),
        0xA1u8 => Instr::Read(ReadOp::Lda, Mode::IndX, 6),
        0xA2u8 => Instr::Read(ReadOp::Ldx, Mode::Imm, 2),
        0xA3u8 => Instr::Read(ReadOp::Lax, Mode::IndX, 6),
        0xA4u8 => Instr::Read(ReadOp::Ldy, Mode::Zpg, 3),
        0xA5u8 => Instr::Read(ReadOp::Lda, Mode::Zpg, 3),
        0xA6u8 => Instr::Read(ReadOp::Ldx, Mode::Zpg, 3),
        0xA7u8 => Instr::Read(ReadOp::Lax, Mode::Zpg, 3),
        0xA8u8 => Instr::Implied(ImpliedOp::Tay),
        0xA9u8 => Instr::Read(ReadOp::Lda, Mode::Imm, 2),
        0xAAu8 => Instr::Implied(ImpliedOp::Tax),
        0xACu8 => Instr::Read(ReadOp::Ldy, Mode::Abs, 4),
        0xADu8 => Instr::Read(ReadOp::Lda, Mode::Abs, 4),
        0xAEu8 => Instr::Read(ReadOp::Ldx, Mode::Abs, 4),
        0xAFu8 => Instr::Read(ReadOp::Lax, Mode::Abs, 4),
        0xB0u8 => Instr::Branch(0x01, true),
        0xB1u8 => Instr::Read(ReadOp::Lda, Mode::IndY, 5),
        0xB3u8 => Instr::Read(ReadOp::Lax, Mode::IndY, 5),
        0xB4u8 => Instr::Read(ReadOp::Ldy, Mode::ZpgX, 4),
        0xB5u8 => Instr::Read(ReadOp::Lda, Mode::ZpgX, 4),
        0xB6u8 => Instr::Read(ReadOp::Ldx, Mode::ZpgY, 4),
        0xB7u8 => Instr::Read(ReadOp::Lax, Mode::ZpgY, 4),
        0xB8u8 => Instr::Implied(ImpliedOp::Clv),
        0xB9u8 => Instr::Read(ReadOp::Lda, Mode::AbsY, 4),
        0xBAu8 => Instr::Implied(ImpliedOp::Tsx),
        0xBCu8 => Instr::Read(ReadOp::Ldy, Mode::AbsX, 4),
        0xBDu8 => Instr::Read(ReadOp::Lda, Mode::AbsX, 4),
        0xBEu8 => Instr::Read(ReadOp::Ldx, Mode::AbsY, 4),
        0xBFu8 => Instr::Read(ReadOp::Lax, Mode::AbsY, 4),
        0xC0u8 => Instr::Read(ReadOp::Cpy, Mode::Imm, 2),
        0xC1u8 => Instr::Read(ReadOp::Cmp, Mode::IndX, 6),
        0xC3u8 => Instr::Rmw(RmwOp::Dcp, Mode::IndX, 8),
        0xC4u8 => Instr::Read(ReadOp::Cpy, Mode::Zpg, 3),
        0xC5u8 => Instr::Read(ReadOp::Cmp, Mode::Zpg, 3),
        0xC6u8 => Instr::Rmw(RmwOp::Dec, Mode::Zpg, 5),
        0xC7u8 => Instr::Rmw(RmwOp::Dcp, Mode::Zpg, 5),
        0xC8u8 => Instr::Implied(ImpliedOp::Iny),
        0xC9u8 => Instr::Read(ReadOp::Cmp, Mode::Imm, 2),
        0xCAu8 => Instr::Implied(ImpliedOp::Dex),
        0xCCu8 => Instr::Read(ReadOp::Cpy, Mode::Abs, 4),
        0xCDu8 => Instr::Read(ReadOp::Cmp, Mode::Abs, 4),
        0xCEu8 => Instr::Rmw(RmwOp::Dec, Mode::Abs, 6),
        0xCFu8 => Instr::Rmw(RmwOp::Dcp, Mode::Abs, 6),
        0xD0u8 => Instr::Branch(0x02, false),
        0xD1u8 => Instr::Read(ReadOp::Cmp, Mode::IndY, 5),
        0xD3u8 => Instr::Rmw(RmwOp::Dcp, Mode::IndY, 8),
        0xD5u8 => Instr::Read(ReadOp::Cmp, Mode::ZpgX, 4),
        0xD6u8 => Instr::Rmw(RmwOp::Dec, Mode::ZpgX, 6),
        0xD7u8 => Instr::Rmw(RmwOp::Dcp, Mode::ZpgX, 6),
        0xD8u8 => Instr::Implied(ImpliedOp::Cld),
        0xD9u8 => Instr::Read(ReadOp::Cmp, Mode::AbsY, 4),
        0xDBu8 => Instr::Rmw(RmwOp::Dcp, Mode::AbsY, 7),
        0xDDu8 => Instr::Read(ReadOp::Cmp, Mode::AbsX, 4),
        0xDEu8 => Instr::Rmw(RmwOp::Dec, Mode::AbsX, 7),
        0xDFu8 => Instr::Rmw(RmwOp::Dcp, Mode::AbsX, 7),
        0xE0u8 => Instr::Read(ReadOp::Cpx, Mode::Imm, 2),
        0xE1u8 => Instr::Read(ReadOp::Sbc, Mode::IndX, 6),
        0xE3u8 => Instr::Rmw(RmwOp::Isb, Mode::IndX, 8),
        0xE4u8 => Instr::Read(ReadOp::Cpx, Mode::Zpg, 3),
        0xE5u8 => Instr::Read(ReadOp::Sbc, Mode::Zpg, 3),
        0xE6u8 => Instr::Rmw(RmwOp::Inc, Mode::Zpg, 5),
        0xE7u8 => Instr::Rmw(RmwOp::Isb, Mode::Zpg, 5),
        0xE8u8 => Instr::Implied(ImpliedOp::Inx),
        0xE9u8 => Instr::Read(ReadOp::Sbc, Mode::Imm, 2),
        0xECu8 => Instr::Read(ReadOp::Cpx, Mode::Abs, 4),
        0xEDu8 => Instr::Read(ReadOp::Sbc, Mode::Abs, 4),
        0xEEu8 => Instr::Rmw(RmwOp::Inc, Mode::Abs, 6),
        0xEFu8 => Instr::Rmw(RmwOp::Isb, Mode::Abs, 6),
        0xF0u8 => Instr::Branch(0x02, true),
        0xF1u8 => Instr::Read(ReadOp::Sbc, Mode::IndY, 5),
        0xF3u8 => Instr::Rmw(RmwOp::Isb, Mode::IndY, 8),
        0xF5u8 => Instr::Read(ReadOp::Sbc, Mode::ZpgX, 4),
        0xF6u8 => Instr::Rmw(RmwOp::Inc, Mode::ZpgX, 6),
        0xF7u8 => Instr::Rmw(RmwOp::Isb, Mode::ZpgX, 6),
        0xF8u8 => Instr::Implied(ImpliedOp::Sed),
        0xF9u8 => Instr::Read(ReadOp::Sbc, Mode::AbsY, 4),
        0xFBu8 => Instr::Rmw(RmwOp::Isb, Mode::AbsY, 7),
        0xFDu8 => Instr::Read(ReadOp::Sbc, Mode::AbsX, 4),
        0xFEu8 => Instr::Rmw(RmwOp::Inc, Mode::AbsX, 7),
        0xFFu8 => Instr::Rmw(RmwOp::Isb, Mode::AbsX, 7),
        _ => Instr::Unknown,
    }
}

pub fn decode_op(op: u8) -> (i: Instr)
    ensures
        i == decode(op),
        i matches Instr::Read(_, _, c) ==> 2 <= c <= 6,
        i matches Instr::Write(_, _, c) ==> 3 <= c <= 6,
        i matches Instr::Rmw(_, _, c) ==> 5 <= c <= 8,
        i matches Instr::Skip(_, c) ==> 2 <= c <= 4,
        i matches Instr::Branch(f, _) ==> f == 0x01 || f == 0x02 || f == 0x40 || f == 0x80,
{
    match op {
        0x00u8 => Instr::Brk,
        0x01u8 => Instr::Read(ReadOp::Ora, Mode::IndX, 6),
        0x03u8 => Instr::Rmw(RmwOp::Slo, Mode::IndX, 8),
        0x04u8 | 0x44u8 | 0x64u8 => Instr::Skip(1, 3),
        0x05u8 => Instr::Read(ReadOp::Ora, Mode::Zpg, 3),
        0x06u8 => Instr::Rmw(RmwOp::Asl, Mode::Zpg, 5),
        0x07u8 => Instr::Rmw(RmwOp::Slo, Mode::Zpg, 5),
        0x08u8 => Instr::Php,
        0x09u8 => Instr::Read(ReadOp::Ora, Mode::Imm, 2),
        0x0Au8 => Instr::Implied(ImpliedOp::AslA),
        0x0Cu8 | 0x1Cu8 | 0x3Cu8 | 0x5Cu8 | 0x7Cu8 | 0xDCu8 | 0xFCu8 => Instr::Skip(2, 4),
        0x0Du8 => Instr::Read(ReadOp::Ora, Mode::Abs, 4),
        0x0Eu8 => Instr::Rmw(RmwOp::Asl, Mode::Abs, 6),
        0x0Fu8 => Instr::Rmw(RmwOp::Slo, Mode::Abs, 6),
        0x10u8 => Instr::Branch(0x80, false),
        0x11u8 => Instr::Read(ReadOp::Ora, Mode::IndY, 5),
        0x13u8 => Instr::Rmw(RmwOp::Slo, Mode::IndY, 8),
        0x14u8 | 0x34u8 | 0x54u8 | 0x74u8 | 0xD4u8 | 0xF4u8 => Instr::Skip(1, 4),
        0x15u8 => Instr::Read(ReadOp::Ora, Mode::ZpgX, 4),
        0x16u8 => Instr::Rmw(RmwOp::Asl, Mode::ZpgX, 6),
        0x17u8 => Instr::Rmw(RmwOp::Slo, Mode::ZpgX, 6),
        0x18u8 => Instr::Implied(ImpliedOp::Clc),
        0x19u8 => Instr::Read(ReadOp::Ora, Mode::AbsY, 4),
        0x1Au8 | 0x3Au8 | 0x5Au8 | 0x7Au8 | 0xDAu8 | 0xEAu8 | 0xFAu8 => Instr::Implied(ImpliedOp::Nop),
        0x1Bu8 => Instr::Rmw(RmwOp::Slo, Mode::AbsY, 7),
        0x1Du8 => Instr::Read(ReadOp::Ora, Mode::AbsX, 4),
        0x1Eu8 => Instr::Rmw(RmwOp::Asl, Mode::AbsX, 7),
        0x1Fu8 => Instr::Rmw(RmwOp::Slo, Mode::AbsX, 7),
        0x20u8 => Instr::Jsr,
        0x21u8 => Instr::Read(ReadOp::And, Mode::IndX, 6),
        0x23u8 => Instr::Rmw(RmwOp::Rla, Mode::IndX, 8),
        0x24u8 => Instr::Read(ReadOp::Bit, Mode::Zpg, 3),
        0x25u8 => Instr::Read(ReadOp::And, Mode::Zpg, 3),
        0x26u8 => Instr::Rmw(RmwOp::Rol, Mode::Zpg, 5),
        0x27u8 => Instr::Rmw(RmwOp::Rla, Mode::Zpg, 5),
        0x28u8 => Instr::Plp,
        0x29u8 => Instr::Read(ReadOp::And, Mode::Imm, 2),
        0x2Au8 => Instr::Implied(ImpliedOp::RolA),
        0x2Cu8 => Instr::Read(ReadOp::Bit, Mode::Abs, 4),
        0x2Du8 => Instr::Read(ReadOp::And, Mode::Abs, 4),
        0x2Eu8 => Instr::Rmw(RmwOp::Rol, Mode::Abs, 6),
        0x2Fu8 => Instr::Rmw(RmwOp::Rla, Mode::Abs, 6),
        0x30u8 => Instr::Branch(0x80, true),
        0x31u8 => Instr::Read(ReadOp::And, Mode::IndY, 5),
        0x33u8 => Instr::Rmw(RmwOp::Rla, Mode::IndY, 8),
        0x35u8 => Instr::Read(ReadOp::And, Mode::ZpgX, 4),
        0x36u8 => Instr::Rmw(RmwOp::Rol, Mode::ZpgX, 6),
        0x37u8 => Instr::Rmw(RmwOp::Rla, Mode::ZpgX, 6),
        0x38u8 => Instr::Implied(ImpliedOp::Sec),
        0x39u8 => Instr::Read(ReadOp::And, Mode::AbsY, 4),
        0x3Bu8 => Instr::Rmw(RmwOp::Rla, Mode::AbsY, 7),
        0x3Du8 => Instr::Read(ReadOp::And, Mode::AbsX, 4),
        0x3Eu8 => Instr::Rmw(RmwOp::Rol, Mode::AbsX, 7),
        0x3Fu8 => Instr::Rmw(RmwOp::Rla, Mode::AbsX, 7),
        0x40u8 => Instr::Rti,
        0x41u8 => Instr::Read(ReadOp::Eor, Mode::IndX, 6),
        0x43u8 => Instr::Rmw(RmwOp::Sre, Mode::IndX, 8),
        0x45u8 => Instr::Read(ReadOp::Eor, Mode::Zpg, 3),
        0x46u8 => Instr::Rmw(RmwOp::Lsr, Mode::Zpg, 5),
        0x47u8 => Instr::Rmw(RmwOp::Sre, Mode::Zpg, 5),
        0x48u8 => Instr::Pha,
        0x49u8 => Instr::Read(ReadOp::Eor, Mode::Imm, 2),
        0x4Au8 => Instr::Implied(ImpliedOp::LsrA),
        0x4Cu8 => Instr::JmpAbs,
        0x4Du8 => Instr::Read(ReadOp::Eor, Mode::Abs, 4),
        0x4Eu8 => Instr::Rmw(RmwOp::Lsr, Mode::Abs, 6),
        0x4Fu8 => Instr::Rmw(RmwOp::Sre, Mode::Abs, 6),
        0x50u8 => Instr::Branch(0x40, false),
        0x51u8 => Instr::Read(ReadOp::Eor, Mode::IndY, 5),
        0x53u8 => Instr::Rmw(RmwOp::Sre, Mode::IndY, 8),
        0x55u8 => Instr::Read(ReadOp::Eor, Mode::ZpgX, 4),
        0x56u8 => Instr::Rmw(RmwOp::Lsr, Mode::ZpgX, 6),
        0x57u8 => Instr::Rmw(RmwOp::Sre, Mode::ZpgX, 6),
        0x58u8 => Instr::Implied(ImpliedOp::Cli),
        0x59u8 => Instr::Read(ReadOp::Eor, Mode::AbsY, 4),
        0x5Bu8 => Instr::Rmw(RmwOp::Sre, Mode::AbsY, 7),
        0x5Du8 => Instr::Read(ReadOp::Eor, Mode::AbsX, 4),
        0x5Eu8 => Instr::Rmw(RmwOp::Lsr, Mode::AbsX, 7),
        0x5Fu8 => Instr::Rmw(RmwOp::Sre, Mode::AbsX, 7),
        0x60u8 => Instr::Rts,
        0x61u8 => Instr::Read(ReadOp::Adc, Mode::IndX, 6),
        0x63u8 => Instr::Rmw(RmwOp::Rra, Mode::IndX, 8),
        0x65u8 => Instr::Read(ReadOp::Adc, Mode::Zpg, 3),
        0x66u8 => Instr::Rmw(RmwOp::Ror, Mode::Zpg, 5),
        0x67u8 => Instr::Rmw(RmwOp::Rra, Mode::Zpg, 5),
        0x68u8 => Instr::Pla,
        0x69u8 => Instr::Read(ReadOp::Adc, Mode::Imm, 2),
        0x6Au8 => Instr::Implied(ImpliedOp::RorA),
        0x6Cu8 => Instr::JmpInd,
        0x6Du8 => Instr::Read(ReadOp::Adc, Mode::Abs, 4),
        0x6Eu8 => Instr::Rmw(RmwOp::Ror, Mode::Abs, 6),
        0x6Fu8 => Instr::Rmw(RmwOp::Rra, Mode::Abs, 6),
        0x70u8 => Instr::Branch(0x40, true),
        0x71u8 => Instr::Read(ReadOp::Adc, Mode::IndY, 5),
        0x73u8 => Instr::Rmw(RmwOp::Rra, Mode::IndY, 8),
        0x75u8 => Instr::Read(ReadOp::Adc, Mode::ZpgX, 4),
        0x76u8 => Instr::Rmw(RmwOp::Ror, Mode::ZpgX, 6),
        0x77u8 => Instr::Rmw(RmwOp::Rra, Mode::ZpgX, 6),
        0x78u8 => Instr::Implied(ImpliedOp::Sei),
        0x79u8 => Instr::Read(ReadOp::Adc, Mode::AbsY, 4),
        0x7Bu8 => Instr::Rmw(RmwOp::Rra, Mode::AbsY, 7),
        0x7Du8 => Instr::Read(ReadOp::Adc, Mode::AbsX, 4),
        0x7Eu8 => Instr::Rmw(RmwOp::Ror, Mode::AbsX, 7),
        0x7Fu8 => Instr::Rmw(RmwOp::Rra, Mode::AbsX, 7),
        0x80u8 | 0x82u8 | 0x89u8 | 0xC2u8 | 0xE2u8 => Instr::Skip(1, 2),
        0x81u8 => Instr::Write(WriteOp::Sta, Mode::IndX, 6),
        0x83u8 => Instr::Write(WriteOp::Sax, Mode::IndX, 6),
        0x84u8 => Instr::Write(WriteOp::Sty, Mode::Zpg, 3),
        0x85u8 => Instr::Write(WriteOp::Sta, Mode::Zpg, 3),
        0x86u8 => Instr::Write(WriteOp::Stx, Mode::Zpg, 3),
        0x87u8 => Instr::Write(WriteOp::Sax, Mode::Zpg, 3),
        0x88u8 => Instr::Implied(ImpliedOp::Dey),
        0x8Au8 => Instr::Implied(ImpliedOp::Txa),
        0x8Cu8 => Instr::Write(WriteOp::Sty, Mode::Abs, 4),
        0x8Du8 => Instr::Write(WriteOp::Sta, Mode::Abs, 4),
        0x8Eu8 => Instr::Write(WriteOp::Stx, Mode::Abs, 4),
        0x8Fu8 => Instr::Write(WriteOp::Sax, Mode::Abs, 4),
        0x90u8 => Instr::Branch(0x01, false),
        0x91u8 => Instr::Write(WriteOp::Sta, Mode::IndY, 6),
        0x94u8 => Instr::Write(WriteOp::Sty, Mode::ZpgX, 4),
        0x95u8 => Instr::Write(WriteOp::Sta, Mode::ZpgX, 4),
        0x96u8 => Instr::Write(WriteOp::Stx, Mode::ZpgY, 4),
        0x97u8 => Instr::Write(WriteOp::Sax, Mode::ZpgY, 4),
        0x98u8 => Instr::Implied(ImpliedOp::Tya),
        0x99u8 => Instr::Write(WriteOp::Sta, Mode::AbsY, 5),
        0x9Au8 => Instr::Implied(ImpliedOp::Txs),
        0x9Du8 => Instr::Write(WriteOp::Sta, Mode::AbsX, 5),
        0xA0u8 => Instr::Read(ReadOp::Ldy, Mode::Imm, 2),
        0xA1u8 => Instr::Read(ReadOp::Lda, Mode::IndX, 6),
        0xA2u8 => Instr::Read(ReadOp::Ldx, Mode::Imm, 2),
        0xA3u8 => Instr::Read(ReadOp::Lax, Mode::IndX, 6),
        0xA4u8 => Instr::Read(ReadOp::Ldy, Mode::Zpg, 3),
        0xA5u8 => Instr::Read(ReadOp::Lda, Mode::Zpg, 3),
        0xA6u8 => Instr::Read(ReadOp::Ldx, Mode::Zpg, 3),
        0xA7u8 => Instr::Read(ReadOp::Lax, Mode::Zpg, 3),
        0xA8u8 => Instr::Implied(ImpliedOp::Tay),
        0xA9u8 => Instr::Read(ReadOp::Lda, Mode::Imm, 2),
        0xAAu8 => Instr::Implied(ImpliedOp::Tax),
        0xACu8 => Instr::Read(ReadOp::Ldy, Mode::Abs, 4),
        0xADu8 => Instr::Read(ReadOp::Lda, Mode::Abs, 4),
        0xAEu8 => Instr::Read(ReadOp::Ldx, Mode::Abs, 4),
        0xAFu8 => Instr::Read(ReadOp::Lax, Mode::Abs, 4),
        0xB0u8 => Instr::Branch(0x01, true),
        0xB1u8 => Instr::Read(ReadOp::Lda, Mode::IndY, 5),
        0xB3u8 => Instr::Read(ReadOp::Lax, Mode::IndY, 5),
        0xB4u8 => Instr::Read(ReadOp::Ldy, Mode::ZpgX, 4),
        0xB5u8 => Instr::Read(ReadOp::Lda, Mode::ZpgX, 4),
        0xB6u8 => Instr::Read(ReadOp::Ldx, Mode::ZpgY, 4),
        0xB7u8 => Instr::Read(ReadOp::Lax, Mode::ZpgY, 4),
        0xB8u8 => Instr::Implied(ImpliedOp::Clv),
        0xB9u8 => Instr::Read(ReadOp::Lda, Mode::AbsY, 4),
        0xBAu8 => Instr::Implied(ImpliedOp::Tsx),
        0xBCu8 => Instr::Read(ReadOp::Ldy, Mode::AbsX, 4),
        0xBDu8 => Instr::Read(ReadOp::Lda, Mode::AbsX, 4),
        0xBEu8 => Instr::Read(ReadOp::Ldx, Mode::AbsY, 4),
        0xBFu8 => Instr::Read(ReadOp::Lax, Mode::AbsY, 4),
        0xC0u8 => Instr::Read(ReadOp::Cpy, Mode::Imm, 2),
        0xC1u8 => Instr::Read(ReadOp::Cmp, Mode::IndX, 6),
        0xC3u8 => Instr::Rmw(RmwOp::Dcp, Mode::IndX, 8),
        0xC4u8 => Instr::Read(ReadOp::Cpy, Mode::Zpg, 3),
        0xC5u8 => Instr::Read(ReadOp::Cmp, Mode::Zpg, 3),
        0xC6u8 => Instr::Rmw(RmwOp::Dec, Mode::Zpg, 5),
        0xC7u8 => Instr::Rmw(RmwOp::Dcp, Mode::Zpg, 5),
        0xC8u8 => Instr::Implied(ImpliedOp::Iny),
        0xC9u8 => Instr::Read(ReadOp::Cmp, Mode::Imm, 2),
        0xCAu8 => Instr::Implied(ImpliedOp::Dex),
        0xCCu8 => Instr::Read(ReadOp::Cpy, Mode::Abs, 4),
        0xCDu8 => Instr::Read(ReadOp::Cmp, Mode::Abs, 4),
        0xCEu8 => Instr::Rmw(RmwOp::Dec, Mode::Abs, 6),
        0xCFu8 => Instr::Rmw(RmwOp::Dcp, Mode::Abs, 6),
        0xD0u8 => Instr::Branch(0x02, false),
        0xD1u8 => Instr::Read(ReadOp::Cmp, Mode::IndY, 5),
        0xD3u8 => Instr::Rmw(RmwOp::Dcp, Mode::IndY, 8),
        0xD5u8 => Instr::Read(ReadOp::Cmp, Mode::ZpgX, 4),
        0xD6u8 => Instr::Rmw(RmwOp::Dec, Mode::ZpgX, 6),
        0xD7u8 => Instr::Rmw(RmwOp::Dcp, Mode::ZpgX, 6),
        0xD8u8 => Instr::Implied(ImpliedOp::Cld),
        0xD9u8 => Instr::Read(ReadOp::Cmp, Mode::AbsY, 4),
        0xDBu8 => Instr::Rmw(RmwOp::Dcp, Mode::AbsY, 7),
        0xDDu8 => Instr::Read(ReadOp::Cmp, Mode::AbsX, 4),
        0xDEu8 => Instr::Rmw(RmwOp::Dec, Mode::AbsX, 7),
        0xDFu8 => Instr::Rmw(RmwOp::Dcp, Mode::AbsX, 7),
        0xE0u8 => Instr::Read(ReadOp::Cpx, Mode::Imm, 2),
        0xE1u8 => Instr::Read(ReadOp::Sbc, Mode::IndX, 6),
        0xE3u8 => Instr::Rmw(RmwOp::Isb, Mode::IndX, 8),
        0xE4u8 => Instr::Read(ReadOp::Cpx, Mode::Zpg, 3),
        0xE5u8 => Instr::Read(ReadOp::Sbc, Mode::Zpg, 3),
        0xE6u8 => Instr::Rmw(RmwOp::Inc, Mode::Zpg, 5),
        0xE7u8 => Instr::Rmw(RmwOp::Isb, Mode::Zpg, 5),
        0xE8u8 => Instr::Implied(ImpliedOp::Inx),
        0xE9u8 => Instr::Read(ReadOp::Sbc, Mode::Imm, 2),
        0xECu8 => Instr::Read(ReadOp::Cpx, Mode::Abs, 4),
        0xEDu8 => Instr::Read(ReadOp::Sbc, Mode::Abs, 4),
        0xEEu8 => Instr::Rmw(RmwOp::Inc, Mode::Abs, 6),
        0xEFu8 => Instr::Rmw(RmwOp::Isb, Mode::Abs, 6),
        0xF0u8 => Instr::Branch(0x02, true),
        0xF1u8 => Instr::Read(ReadOp::Sbc, Mode::IndY, 5),
        0xF3u8 => Instr::Rmw(RmwOp::Isb, Mode::IndY, 8),
        0xF5u8 => Instr::Read(ReadOp::Sbc, Mode::ZpgX, 4),
        0xF6u8 => Instr::Rmw(RmwOp::Inc, Mode::ZpgX, 6),
        0xF7u8 => Instr::Rmw(RmwOp::Isb, Mode::ZpgX, 6),
        0xF8u8 => Instr::Implied(ImpliedOp::Sed),
        0xF9u8 => Instr::Read(ReadOp::Sbc, Mode::AbsY, 4),
        0xFBu8 => Instr::Rmw(RmwOp::Isb, Mode::AbsY, 7),
        0xFDu8 => Instr::Read(ReadOp::Sbc, Mode::AbsX, 4),
        0xFEu8 => Instr::Rmw(RmwOp::Inc, Mode::AbsX, 7),
        0xFFu8 => Instr::Rmw(RmwOp::Isb, Mode::AbsX, 7),
        _ => Instr::Unknown,
    }
}

} // verus!
