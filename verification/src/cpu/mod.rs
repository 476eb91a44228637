//! Ricoh 2A03 CPU (a 6502 without decimal mode): all official and the
//! common unofficial opcodes, with cycle counts.
//!
//! The behaviour of every instruction is stated over `Machine`, the CPU
//! registers together with the abstract bus state; each bus access is a
//! `BusView::read` or `BusView::write`, in the order the hardware makes them.
pub mod decode;
pub mod exec;

use vstd::prelude::*;

use crate::bus::BusView;
use decode::{decode, ImpliedOp, Instr, Mode, ReadOp, RmwOp, WriteOp};

verus! {

/// Carry flag.
pub const FLAG_C: u8 = 0x01;
/// Zero flag.
pub const FLAG_Z: u8 = 0x02;
/// Interrupt-disable flag.
pub const FLAG_I: u8 = 0x04;
/// Decimal flag (no effect on the NES).
pub const FLAG_D: u8 = 0x08;
/// Break flag (only in pushed copies of P).
pub const FLAG_B: u8 = 0x10;
/// Unused flag, always pushed as 1.
pub const FLAG_U: u8 = 0x20;
/// Overflow flag.
pub const FLAG_V: u8 = 0x40;
/// Negative flag.
pub const FLAG_N: u8 = 0x80;

/// CPU registers and pending interrupt lines.
pub struct Cpu {
    pub a: u8,
    pub x: u8,
    pub y: u8,
    pub sp: u8,
    pub pc: u16,
    pub p: u8,
    pub cycles: u64,
    pub nmi_pending: bool,
    pub irq_pending: bool,
}

/// The CPU together with everything on its bus.
#[verifier::ext_equal]
pub struct Machine {
    pub cpu: Cpu,
    pub bus: BusView,
}

pub open spec fn mach(cpu: Cpu, bus: BusView) -> Machine {
    Machine { cpu, bus }
}

/// `p` with `flag` set or cleared.
pub open spec fn with_flag(p: u8, flag: u8, on: bool) -> u8 {
    if on { p | flag } else { p & !flag }
}

/// `p` with Z and N set from `v`.
pub open spec fn with_zn(p: u8, v: u8) -> u8 {
    with_flag(with_flag(p, FLAG_Z, v == 0), FLAG_N, v & 0x80u8 != 0)
}

pub open spec fn add8(a: u8, b: u8) -> u8 {
    vstd::wrapping::u8_specs::wrapping_add(a, b)
}

pub open spec fn sub8(a: u8, b: u8) -> u8 {
    vstd::wrapping::u8_specs::wrapping_sub(a, b)
}

pub open spec fn add16(a: u16, b: u16) -> u16 {
    vstd::wrapping::u16_specs::wrapping_add(a, b)
}

pub open spec fn sub16(a: u16, b: u16) -> u16 {
    vstd::wrapping::u16_specs::wrapping_sub(a, b)
}

/// Little-endian word from two bytes.
pub open spec fn word(lo: u8, hi: u8) -> u16 {
    ((hi as u16) << 8u16) | (lo as u16)
}

/// The target of a relative branch: `pc` plus the signed offset `off`.
pub open spec fn rel_target(pc: u16, off: u8) -> u16 {
    if off < 128 { add16(pc, off as u16) } else { sub16(pc, (256 - off) as u16) }
}

/// Whether two addresses lie on different 256-byte pages.
pub open spec fn page_crossed(a: u16, b: u16) -> bool {
    (a & 0xFF00u16) != (b & 0xFF00u16)
}

/// Add-with-carry on the accumulator (SBC is ADC of the complement).
pub open spec fn spec_adc(c: Cpu, val: u8) -> Cpu {
    let a = c.a as u16;
    let v = val as u16;
    let carry = (c.p & FLAG_C) as u16;
    let result = (a + v + carry) as u16;
    let p1 = with_flag(c.p, FLAG_C, result > 0xFF);
    let p2 = with_flag(p1, FLAG_V, (!(a ^ v) & (a ^ result) & 0x80u16) != 0);
    let a2 = result as u8;
    Cpu { a: a2, p: with_zn(p2, a2), ..c }
}

/// A byte read as a two's-complement number.
pub open spec fn signed8(x: u8) -> int {
    if x < 128 { x as int } else { x - 256 }
}

/// The carry and overflow bits survive the Z/N update.
proof fn lemma_adc_flags(p: u8, carry: bool, overflow: bool, r: u8)
    by (bit_vector)
    ensures
        (with_zn(with_flag(with_flag(p, FLAG_C, carry), FLAG_V, overflow), r) & FLAG_C != 0) == carry,
        (with_zn(with_flag(with_flag(p, FLAG_C, carry), FLAG_V, overflow), r) & FLAG_V != 0) == overflow,
{
}

/// The 9-bit sum of an addition with carry, its low byte, and the
/// two's-complement overflow test on it.
proof fn lemma_adc_sum(a: u8, v: u8, cin: u16)
    by (bit_vector)
    requires
        cin <= 1,
    ensures
        ((a as u16 + v as u16 + cin) as u16) as u8 == (a + v + cin) % 256,
        ((a as u16 + v as u16 + cin) as u16 > 0xFF) == (a + v + cin > 255),
        ((!((a as u16) ^ (v as u16)) & ((a as u16) ^ ((a as u16 + v as u16 + cin) as u16)) & 0x80u16) != 0)
            == ((a < 128 && v < 128 && a + v + cin >= 128) || (a >= 128 && v >= 128 && a + v + cin < 384)),
{
}

/// ADC law: A becomes A + M + C modulo 256; C is set exactly when that sum
/// exceeds 255, V exactly when the two's-complement sum leaves -128..=127,
/// Z exactly when the new A is 0 and N to its bit 7; X, Y, SP and PC are
/// unchanged.
pub proof fn lemma_adc(c: Cpu, val: u8)
    ensures
        spec_adc(c, val).a == (c.a + val + (c.p & FLAG_C)) % 256,
        (spec_adc(c, val).p & FLAG_C != 0) == (c.a + val + (c.p & FLAG_C) > 255),
        (spec_adc(c, val).p & FLAG_V != 0) == !(-128 <= signed8(c.a) + signed8(val) + (c.p & FLAG_C) <= 127),
        (spec_adc(c, val).p & FLAG_Z != 0) == (spec_adc(c, val).a == 0),
        (spec_adc(c, val).p & FLAG_N != 0) == (spec_adc(c, val).a >= 128),
        spec_adc(c, val) == (Cpu { a: spec_adc(c, val).a, p: spec_adc(c, val).p, ..c }),
{
    crate::bits::lemma_byte_fields();
    let cin = (c.p & FLAG_C) as u16;
    assert(c.p & FLAG_C <= 1);
    lemma_adc_sum(c.a, val, cin);
    let a = c.a as u16;
    let v = val as u16;
    let result = (a + v + cin) as u16;
    let ov = (!(a ^ v) & (a ^ result) & 0x80u16) != 0;
    lemma_adc_flags(c.p, result > 0xFF, ov, result as u8);
    lemma_zn_bits(with_flag(with_flag(c.p, FLAG_C, result > 0xFF), FLAG_V, ov), result as u8);
}

/// The flags that `with_zn` and `with_flag` leave: the carry given, Z from
/// the result being zero, N from its bit 7, and bits 2-6 untouched.
proof fn lemma_compare_flags(p: u8, carry: bool, r: u8)
    by (bit_vector)
    ensures
        (with_zn(with_flag(p, FLAG_C, carry), r) & FLAG_C != 0) == carry,
        (with_zn(with_flag(p, FLAG_C, carry), r) & FLAG_Z != 0) == (r == 0),
        (with_zn(with_flag(p, FLAG_C, carry), r) & FLAG_N != 0) == (r >= 128),
        with_zn(with_flag(p, FLAG_C, carry), r) & 0x7Cu8 == p & 0x7Cu8,
{
}

/// Compare law (CMP, CPX, CPY): comparing register value `reg` with operand
/// `val` sets C exactly when `reg >= val` (unsigned), Z exactly when they are
/// equal, and N to bit 7 of `(reg - val) mod 256`; the registers and the
/// other flags are unchanged.
pub proof fn lemma_compare(c: Cpu, reg: u8, val: u8)
    ensures
        (spec_cmp(c, reg, val).p & FLAG_C != 0) == (reg >= val),
        (spec_cmp(c, reg, val).p & FLAG_Z != 0) == (reg == val),
        (spec_cmp(c, reg, val).p & FLAG_N != 0) == ((reg - val) % 256 >= 128),
        spec_cmp(c, reg, val).p & 0x7Cu8 == c.p & 0x7Cu8,
        spec_cmp(c, reg, val).a == c.a,
        spec_cmp(c, reg, val).x == c.x,
        spec_cmp(c, reg, val).y == c.y,
        spec_cmp(c, reg, val).sp == c.sp,
        spec_cmp(c, reg, val).pc == c.pc,
{
    let r = sub8(reg, val);
    assert(r == (reg - val) % 256);
    assert(r == 0 <==> reg == val);
    lemma_compare_flags(c.p, reg >= val, r);
}

/// The flags that `with_zn` sets: Z from the value being zero, N from its
/// bit 7, every other bit untouched.
proof fn lemma_zn_bits(p: u8, r: u8)
    by (bit_vector)
    ensures
        (with_zn(p, r) & FLAG_Z != 0) == (r == 0),
        (with_zn(p, r) & FLAG_N != 0) == (r >= 128),
        with_zn(p, r) & 0x7Du8 == p & 0x7Du8,
{
}

/// Shifting a byte `v` left, with carry-in `cin`, as a 16-bit sum cut to a
/// byte.
proof fn lemma_shl_bits(v: u8, cin: u8)
    by (bit_vector)
    requires
        cin <= 1,
    ensures
        (v << 1u8) == ((v as u16 + v as u16) as u16) as u8,
        ((v << 1u8) | cin) == ((v as u16 + v as u16 + cin as u16) as u16) as u8,
{
}

/// A byte doubled in 16 bits and cut to a byte is the double modulo 256.
proof fn lemma_double_mod(v: u8)
    by (bit_vector)
    ensures
        ((v as u16 + v as u16) as u16) as u8 == (v + v) % 256,
{
}

/// A byte doubled plus a carry in 16 bits and cut to a byte is that sum
/// modulo 256.
proof fn lemma_double_carry_mod(v: u8, cin: u8)
    by (bit_vector)
    requires
        cin <= 1,
    ensures
        ((v as u16 + v as u16 + cin as u16) as u16) as u8 == (v + v + cin) % 256,
{
}

/// The arithmetic meaning of shifting a byte `v` right, with carry-in `cin`,
/// and of its top and bottom bits.
proof fn lemma_shr_bits(v: u8, cin: u8)
    by (bit_vector)
    requires
        cin <= 1,
    ensures
        (v >> 1u8) == v / 2,
        ((v >> 1u8) | (cin << 7u8)) == v / 2 + 128 * cin,
        (v & 1u8 != 0) == (v % 2 == 1),
        (v & 0x80u8 != 0) == (v >= 128),
{
}

/// The flags BIT sets: Z as given, V and N from bits 6 and 7 of `v`, bits
/// 0, 2 and 3 (C, I, D) untouched.
proof fn lemma_bit_flags(p: u8, z: bool, v: u8)
    by (bit_vector)
    ensures
        ((((with_flag(p, FLAG_Z, z) & 0x3Fu8) | (v & 0xC0u8)) & FLAG_Z) != 0) == z,
        (((with_flag(p, FLAG_Z, z) & 0x3Fu8) | (v & 0xC0u8)) & FLAG_V != 0) == (v & 0x40u8 != 0),
        (((with_flag(p, FLAG_Z, z) & 0x3Fu8) | (v & 0xC0u8)) & FLAG_N != 0) == (v & 0x80u8 != 0),
        ((with_flag(p, FLAG_Z, z) & 0x3Fu8) | (v & 0xC0u8)) & 0x0Du8 == p & 0x0Du8,
{
}

/// Shift and rotate law (ASL, LSR, ROL, ROR and the combined SLO, SRE, RLA,
/// RRA): with carry-in C, ASL gives `2v mod 256`, LSR `v / 2`, ROL
/// `(2v + C) mod 256`, ROR `v / 2 + 128 C`; the carry out is bit 7 of `v` for
/// ASL and ROL and bit 0 for LSR and ROR; Z and N follow the result and the
/// other flags are unchanged.
pub proof fn lemma_shift(op: RmwOp, p: u8, v: u8)
    requires
        op != RmwOp::Inc && op != RmwOp::Dec && op != RmwOp::Dcp && op != RmwOp::Isb,
    ensures
        ({
            let (r, p2) = shift_result(op, p, v);
            let cin = p & FLAG_C;
            let left = op == RmwOp::Asl || op == RmwOp::Slo || op == RmwOp::Rol || op == RmwOp::Rla;
            &&& (op == RmwOp::Asl || op == RmwOp::Slo) ==> r == (2 * v) % 256
            &&& (op == RmwOp::Lsr || op == RmwOp::Sre) ==> r == v / 2
            &&& (op == RmwOp::Rol || op == RmwOp::Rla) ==> r == (2 * v + cin) % 256
            &&& (op == RmwOp::Ror || op == RmwOp::Rra) ==> r == v / 2 + 128 * cin
            &&& (p2 & FLAG_C != 0) == (if left { v >= 128 } else { v % 2 == 1 })
            &&& (p2 & FLAG_Z != 0) == (r == 0)
            &&& (p2 & FLAG_N != 0) == (r >= 128)
            &&& p2 & 0x7Cu8 == p & 0x7Cu8
        }),
{
    crate::bits::lemma_byte_fields();
    let cin = p & FLAG_C;
    assert(cin <= 1);
    lemma_shl_bits(v, cin);
    lemma_double_mod(v);
    lemma_double_carry_mod(v, cin);
    lemma_shr_bits(v, cin);
    let (r, p2) = shift_result(op, p, v);
    let left = op == RmwOp::Asl || op == RmwOp::Slo || op == RmwOp::Rol || op == RmwOp::Rla;
    lemma_compare_flags(p, if left { v & 0x80u8 != 0 } else { v & 1u8 != 0 }, r);
}

/// Setting or clearing one of the flags C, I, D or V changes that bit alone.
proof fn lemma_single_flag(p: u8, flag: u8, on: bool)
    by (bit_vector)
    requires
        flag == 0x01u8 || flag == 0x04u8 || flag == 0x08u8 || flag == 0x40u8,
    ensures
        (with_flag(p, flag, on) & flag != 0) == on,
        with_flag(p, flag, on) & !flag == p & !flag,
{
}

/// Register-transfer law: TAX, TAY, TXA, TYA and TSX copy the source
/// register into the target, set Z exactly when the copied value is 0 and N
/// to its bit 7, and change no other flag or register; TXS copies X into SP
/// and changes no flag.
pub proof fn lemma_transfer(c: Cpu, op: ImpliedOp)
    ensures
        ({
            let n = spec_implied(c, op);
            let (src, moved) = match op {
                ImpliedOp::Tax => (c.a, n.x),
                ImpliedOp::Tay => (c.a, n.y),
                ImpliedOp::Txa => (c.x, n.a),
                ImpliedOp::Tya => (c.y, n.a),
                _ => (c.sp, n.x),
            };
            &&& (op == ImpliedOp::Tax || op == ImpliedOp::Tay || op == ImpliedOp::Txa || op == ImpliedOp::Tya
                || op == ImpliedOp::Tsx) ==> {
                &&& moved == src
                &&& (n.p & FLAG_Z != 0) == (src == 0)
                &&& (n.p & FLAG_N != 0) == (src >= 128)
                &&& n.p & 0x7Du8 == c.p & 0x7Du8
                &&& n.sp == c.sp && n.pc == c.pc
                &&& (op != ImpliedOp::Tax && op != ImpliedOp::Tsx) ==> n.x == c.x
                &&& (op != ImpliedOp::Tay) ==> n.y == c.y
                &&& (op != ImpliedOp::Txa && op != ImpliedOp::Tya) ==> n.a == c.a
            }
            &&& op == ImpliedOp::Txs ==> n == Cpu { sp: c.x, ..c }
        }),
{
    lemma_zn_bits(c.p, c.a);
    lemma_zn_bits(c.p, c.x);
    lemma_zn_bits(c.p, c.y);
    lemma_zn_bits(c.p, c.sp);
}

/// Flag-instruction law: CLC/SEC, CLI/SEI, CLV and CLD/SED clear or set
/// exactly their own flag (C, I, V, D) and change nothing else; NOP
/// changes nothing.
pub proof fn lemma_flag_ops(c: Cpu, op: ImpliedOp)
    ensures
        ({
            let n = spec_implied(c, op);
            let (flag, on) = match op {
                ImpliedOp::Clc => (FLAG_C, false),
                ImpliedOp::Sec => (FLAG_C, true),
                ImpliedOp::Cli => (FLAG_I, false),
                ImpliedOp::Sei => (FLAG_I, true),
                ImpliedOp::Clv => (FLAG_V, false),
                ImpliedOp::Cld => (FLAG_D, false),
                _ => (FLAG_D, true),
            };
            &&& (op == ImpliedOp::Clc || op == ImpliedOp::Sec || op == ImpliedOp::Cli || op == ImpliedOp::Sei
                || op == ImpliedOp::Clv || op == ImpliedOp::Cld || op == ImpliedOp::Sed) ==> {
                &&& (n.p & flag != 0) == on
                &&& n.p & !flag == c.p & !flag
                &&& n == Cpu { p: n.p, ..c }
            }
            &&& op == ImpliedOp::Nop ==> n == c
        }),
{
    lemma_single_flag(c.p, FLAG_C, false);
    lemma_single_flag(c.p, FLAG_C, true);
    lemma_single_flag(c.p, FLAG_I, false);
    lemma_single_flag(c.p, FLAG_I, true);
    lemma_single_flag(c.p, FLAG_V, false);
    lemma_single_flag(c.p, FLAG_D, false);
    lemma_single_flag(c.p, FLAG_D, true);
}

/// Increment/decrement-register law: INX and INY add one to X or Y modulo
/// 256, DEX and DEY subtract one modulo 256; Z and N follow the new value,
/// the other flags and registers are unchanged.
pub proof fn lemma_inc_dec_reg(c: Cpu, op: ImpliedOp)
    requires
        op == ImpliedOp::Inx || op == ImpliedOp::Iny || op == ImpliedOp::Dex || op == ImpliedOp::Dey,
    ensures
        ({
            let n = spec_implied(c, op);
            let (old_v, new_v) = match op {
                ImpliedOp::Inx => (c.x, n.x),
                ImpliedOp::Dex => (c.x, n.x),
                ImpliedOp::Iny => (c.y, n.y),
                _ => (c.y, n.y),
            };
            let step = if op == ImpliedOp::Inx || op == ImpliedOp::Iny { 1int } else { -1int };
            &&& new_v == (old_v + step) % 256
            &&& (n.p & FLAG_Z != 0) == (new_v == 0)
            &&& (n.p & FLAG_N != 0) == (new_v >= 128)
            &&& n.p & 0x7Du8 == c.p & 0x7Du8
            &&& n.a == c.a && n.sp == c.sp && n.pc == c.pc
            &&& (op == ImpliedOp::Inx || op == ImpliedOp::Dex) ==> n.y == c.y
            &&& (op == ImpliedOp::Iny || op == ImpliedOp::Dey) ==> n.x == c.x
        }),
{
    lemma_zn_bits(c.p, add8(c.x, 1));
    lemma_zn_bits(c.p, add8(c.y, 1));
    lemma_zn_bits(c.p, sub8(c.x, 1));
    lemma_zn_bits(c.p, sub8(c.y, 1));
}

/// Accumulator shift law: ASL A, LSR A, ROL A and ROR A act on A as the
/// shift law says they act on a memory byte, and touch no other register.
pub proof fn lemma_shift_a(c: Cpu, op: ImpliedOp)
    requires
        op == ImpliedOp::AslA || op == ImpliedOp::LsrA || op == ImpliedOp::RolA || op == ImpliedOp::RorA,
    ensures
        ({
            let rop = if op == ImpliedOp::AslA { RmwOp::Asl } else if op == ImpliedOp::LsrA { RmwOp::Lsr }
                else if op == ImpliedOp::RolA { RmwOp::Rol } else { RmwOp::Ror };
            let c2 = spec_implied(c, op);
            &&& (c2.a, c2.p) == shift_result(rop, c.p, c.a)
            &&& c2.x == c.x && c2.y == c.y && c2.sp == c.sp && c2.pc == c.pc
        }),
{
}

/// Two addresses are on the same 256-byte page exactly when their high
/// bytes agree.
proof fn lemma_same_page(a: u16, b: u16)
    by (bit_vector)
    ensures
        ((a & 0xFF00u16) != (b & 0xFF00u16)) == (a / 256 != b / 256),
{
}

/// The stack slots at SP and SP - 1 are distinct RAM bytes.
proof fn lemma_stack_slots(sp: u8, sp1: u8)
    by (bit_vector)
    requires
        sp1 == (if sp == 0 { 255u8 } else { (sp - 1) as u8 }),
    ensures
        (0x0100u16 | (sp as u16)) <= 0x1FFF,
        (0x0100u16 | (sp1 as u16)) <= 0x1FFF,
        ((0x0100u16 | (sp as u16)) & 0x07FFu16) < 2048,
        ((0x0100u16 | (sp1 as u16)) & 0x07FFu16) < 2048,
        ((0x0100u16 | (sp as u16)) & 0x07FFu16) != ((0x0100u16 | (sp1 as u16)) & 0x07FFu16),
{
}

/// A little-endian word is its low byte plus 256 times its high byte.
pub(crate) proof fn lemma_word_value(lo: u8, hi: u8)
    by (bit_vector)
    ensures
        word(lo, hi) == lo + 256 * hi,
{
}

/// The status byte a PHP/PLP pair leaves (B clear, U set, the rest kept),
/// and the address JMP ($xxyy) reads the target's high byte from (the
/// pointer's successor within the same page).
proof fn lemma_plp_jmp_bits(p: u8, lo: u8, hi: u8)
    by (bit_vector)
    ensures
        (((p | FLAG_B | FLAG_U) | FLAG_U) & !FLAG_B) & 0xCFu8 == p & 0xCFu8,
        (((p | FLAG_B | FLAG_U) | FLAG_U) & !FLAG_B) & FLAG_B == 0,
        (((p | FLAG_B | FLAG_U) | FLAG_U) & !FLAG_B) & FLAG_U != 0,
        (word(lo, hi) & 0xFF00u16) | (add16(word(lo, hi), 1) & 0x00FFu16)
            == if lo == 255 { word(0, hi) } else { word((lo + 1) as u8, hi) },
{
}

/// The three stack slots an interrupt fills are distinct RAM bytes, and the
/// status byte it pushes comes back from RTI with B clear, U set and the
/// other bits kept.
proof fn lemma_interrupt_frame(sp: u8, sp1: u8, sp2: u8, p: u8)
    by (bit_vector)
    requires
        sp1 == (if sp == 0 { 255u8 } else { (sp - 1) as u8 }),
        sp2 == (if sp1 == 0 { 255u8 } else { (sp1 - 1) as u8 }),
    ensures
        (0x0100u16 | (sp as u16)) <= 0x1FFF,
        (0x0100u16 | (sp1 as u16)) <= 0x1FFF,
        (0x0100u16 | (sp2 as u16)) <= 0x1FFF,
        ((0x0100u16 | (sp as u16)) & 0x07FFu16) < 2048,
        ((0x0100u16 | (sp1 as u16)) & 0x07FFu16) < 2048,
        ((0x0100u16 | (sp2 as u16)) & 0x07FFu16) < 2048,
        ((0x0100u16 | (sp as u16)) & 0x07FFu16) != ((0x0100u16 | (sp1 as u16)) & 0x07FFu16),
        ((0x0100u16 | (sp as u16)) & 0x07FFu16) != ((0x0100u16 | (sp2 as u16)) & 0x07FFu16),
        ((0x0100u16 | (sp1 as u16)) & 0x07FFu16) != ((0x0100u16 | (sp2 as u16)) & 0x07FFu16),
        ((((p | FLAG_U) & !FLAG_B) | FLAG_U) & !FLAG_B) & 0xCFu8 == p & 0xCFu8,
        ((((p | FLAG_U) & !FLAG_B) | FLAG_U) & !FLAG_B) & FLAG_B == 0,
        ((((p | FLAG_U) & !FLAG_B) | FLAG_U) & !FLAG_B) & FLAG_U != 0,
        (p | FLAG_I) & FLAG_I != 0,
{
}

/// A word split into its low and high bytes and joined again is the word.
proof fn lemma_word_split(w: u16)
    by (bit_vector)
    ensures
        ((((w >> 8u16) as u8) as u16) << 8u16) | ((w as u8) as u16) == w,
{
}

/// SBC law: SBC adds the complement of M, so A becomes A - M - (1 - C)
/// modulo 256, C is set exactly when no borrow occurs (A >= M + (1 - C)),
/// V exactly when the two's-complement difference leaves -128..=127, and Z
/// and N follow the new A.
pub proof fn lemma_sbc(c: Cpu, val: u8)
    ensures
        spec_adc(c, val ^ 0xFFu8).a == (c.a - val - (1 - (c.p & FLAG_C))) % 256,
        (spec_adc(c, val ^ 0xFFu8).p & FLAG_C != 0) == (c.a >= val + 1 - (c.p & FLAG_C)),
        (spec_adc(c, val ^ 0xFFu8).p & FLAG_V != 0) == !(-128 <= signed8(c.a) - signed8(val) - (1 - (c.p & FLAG_C))
            <= 127),
        (spec_adc(c, val ^ 0xFFu8).p & FLAG_Z != 0) == (spec_adc(c, val ^ 0xFFu8).a == 0),
        (spec_adc(c, val ^ 0xFFu8).p & FLAG_N != 0) == (spec_adc(c, val ^ 0xFFu8).a >= 128),
{
    crate::bits::lemma_byte_fields();
    assert(val ^ 0xFFu8 == 255 - val);
    assert(signed8(val ^ 0xFFu8) == -signed8(val) - 1);
    lemma_adc(c, val ^ 0xFFu8);
    let x = c.a - val - (1 - (c.p & FLAG_C));
    assert((x + 256) % 256 == x % 256) by {
        vstd::arithmetic::div_mod::lemma_mod_add_multiples_vanish(x, 256);
    }
}

/// Compare `reg` with `val`: C = reg >= val, Z/N from reg - val.
pub open spec fn spec_cmp(c: Cpu, reg: u8, val: u8) -> Cpu {
    Cpu { p: with_zn(with_flag(c.p, FLAG_C, reg >= val), sub8(reg, val)), ..c }
}

/// Register-only instructions.
pub open spec fn spec_implied(c: Cpu, op: ImpliedOp) -> Cpu {
    match op {
        ImpliedOp::Tax => Cpu { x: c.a, p: with_zn(c.p, c.a), ..c },
        ImpliedOp::Tay => Cpu { y: c.a, p: with_zn(c.p, c.a), ..c },
        ImpliedOp::Tsx => Cpu { x: c.sp, p: with_zn(c.p, c.sp), ..c },
        ImpliedOp::Txa => Cpu { a: c.x, p: with_zn(c.p, c.x), ..c },
        ImpliedOp::Txs => Cpu { sp: c.x, ..c },
        ImpliedOp::Tya => Cpu { a: c.y, p: with_zn(c.p, c.y), ..c },
        ImpliedOp::Inx => Cpu { x: add8(c.x, 1), p: with_zn(c.p, add8(c.x, 1)), ..c },
        ImpliedOp::Iny => Cpu { y: add8(c.y, 1), p: with_zn(c.p, add8(c.y, 1)), ..c },
        ImpliedOp::Dex => Cpu { x: sub8(c.x, 1), p: with_zn(c.p, sub8(c.x, 1)), ..c },
        ImpliedOp::Dey => Cpu { y: sub8(c.y, 1), p: with_zn(c.p, sub8(c.y, 1)), ..c },
        ImpliedOp::AslA => {
            let r = c.a << 1u8;
            Cpu { a: r, p: with_zn(with_flag(c.p, FLAG_C, c.a & 0x80u8 != 0), r), ..c }
        },
        ImpliedOp::LsrA => {
            let r = c.a >> 1u8;
            Cpu { a: r, p: with_zn(with_flag(c.p, FLAG_C, c.a & 1u8 != 0), r), ..c }
        },
        ImpliedOp::RolA => {
            let r = (c.a << 1u8) | (c.p & FLAG_C);
            Cpu { a: r, p: with_zn(with_flag(c.p, FLAG_C, c.a & 0x80u8 != 0), r), ..c }
        },
        ImpliedOp::RorA => {
            let r = (c.a >> 1u8) | ((c.p & FLAG_C) << 7u8);
            Cpu { a: r, p: with_zn(with_flag(c.p, FLAG_C, c.a & 1u8 != 0), r), ..c }
        },
        ImpliedOp::Clc => Cpu { p: c.p & !FLAG_C, ..c },
        ImpliedOp::Sec => Cpu { p: c.p | FLAG_C, ..c },
        ImpliedOp::Cli => Cpu { p: c.p & !FLAG_I, ..c },
        ImpliedOp::Sei => Cpu { p: c.p | FLAG_I, ..c },
        ImpliedOp::Clv => Cpu { p: c.p & !FLAG_V, ..c },
        ImpliedOp::Cld => Cpu { p: c.p & !FLAG_D, ..c },
        ImpliedOp::Sed => Cpu { p: c.p | FLAG_D, ..c },
        ImpliedOp::Nop => c,
    }
}

/// Shift/rotate of a memory operand: the result byte and the new P (carry, Z, N).
pub open spec fn shift_result(op: RmwOp, p: u8, v: u8) -> (u8, u8) {
    let r = if op == RmwOp::Asl || op == RmwOp::Slo {
        v << 1u8
    } else if op == RmwOp::Lsr || op == RmwOp::Sre {
        v >> 1u8
    } else if op == RmwOp::Rol || op == RmwOp::Rla {
        (v << 1u8) | (p & FLAG_C)
    } else {
        (v >> 1u8) | ((p & FLAG_C) << 7u8)
    };
    let carry = if op == RmwOp::Asl || op == RmwOp::Slo || op == RmwOp::Rol || op == RmwOp::Rla {
        v & 0x80u8 != 0
    } else {
        v & 1u8 != 0
    };
    (r, with_zn(with_flag(p, FLAG_C, carry), r))
}

impl Machine {
    pub open spec fn wf(self) -> bool {
        self.bus.wf()
    }

    pub open spec fn with_cpu(self, c: Cpu) -> Machine {
        Machine { cpu: c, ..self }
    }

    /// A bus read; the CPU registers are unchanged.
    pub open spec fn read(self, addr: u16) -> (Machine, u8) {
        let (b, v) = self.bus.read(addr);
        (Machine { bus: b, ..self }, v)
    }

    /// A bus write.
    pub open spec fn write(self, addr: u16, val: u8) -> Machine {
        Machine { bus: self.bus.write(addr, val), ..self }
    }

    /// Read the byte at PC and step PC.
    #[verifier::opaque]
    pub open spec fn fetch(self) -> (Machine, u8) {
        let (m, v) = self.read(self.cpu.pc);
        (m.with_cpu(Cpu { pc: add16(self.cpu.pc, 1), ..m.cpu }), v)
    }

    /// Push a byte at $0100 + SP and decrement SP.
    #[verifier::opaque]
    pub open spec fn push(self, val: u8) -> Machine {
        let m = self.write(0x0100u16 | (self.cpu.sp as u16), val);
        m.with_cpu(Cpu { sp: sub8(self.cpu.sp, 1), ..m.cpu })
    }

    /// Increment SP and pull the byte at $0100 + SP.
    #[verifier::opaque]
    pub open spec fn pop(self) -> (Machine, u8) {
        let sp = add8(self.cpu.sp, 1);
        let m = self.with_cpu(Cpu { sp, ..self.cpu });
        m.read(0x0100u16 | (sp as u16))
    }

    /// Push high byte, then low byte.
    #[verifier::opaque]
    pub open spec fn push_word(self, val: u16) -> Machine {
        self.push((val >> 8u16) as u8).push(val as u8)
    }

    /// Pull low byte, then high byte.
    #[verifier::opaque]
    pub open spec fn pop_word(self) -> (Machine, u16) {
        let (m1, lo) = self.pop();
        let (m2, hi) = m1.pop();
        (m2, word(lo, hi))
    }

    /// Little-endian word at `addr`, `addr + 1`.
    #[verifier::opaque]
    pub open spec fn read16(self, addr: u16) -> (Machine, u16) {
        let (m1, lo) = self.read(addr);
        let (m2, hi) = m1.read(add16(addr, 1));
        (m2, word(lo, hi))
    }

    /// Little-endian word in the zero page, wrapping from $FF to $00.
    #[verifier::opaque]
    pub open spec fn read16_zp(self, zp: u8) -> (Machine, u16) {
        let (m1, lo) = self.read(zp as u16);
        let (m2, hi) = m1.read(add8(zp, 1) as u16);
        (m2, word(lo, hi))
    }

    /// Effective address of an operand (and whether indexing crossed a page).
    #[verifier::opaque]
    pub open spec fn resolve(self, mode: Mode) -> (Machine, u16, bool) {
        match mode {
            Mode::Imm => (self.with_cpu(Cpu { pc: add16(self.cpu.pc, 1), ..self.cpu }), self.cpu.pc, false),
            Mode::Zpg => {
                let (m, v) = self.fetch();
                (m, v as u16, false)
            },
            Mode::ZpgX => {
                let (m, v) = self.fetch();
                (m, add8(v, self.cpu.x) as u16, false)
            },
            Mode::ZpgY => {
                let (m, v) = self.fetch();
                (m, add8(v, self.cpu.y) as u16, false)
            },
            Mode::Abs => {
                let (m1, lo) = self.fetch();
                let (m2, hi) = m1.fetch();
                (m2, word(lo, hi), false)
            },
            Mode::AbsX => {
                let (m1, lo) = self.fetch();
                let (m2, hi) = m1.fetch();
                let base = word(lo, hi);
                let addr = add16(base, self.cpu.x as u16);
                (m2, addr, page_crossed(base, addr))
            },
            Mode::AbsY => {
                let (m1, lo) = self.fetch();
                let (m2, hi) = m1.fetch();
                let base = word(lo, hi);
                let addr = add16(base, self.cpu.y as u16);
                (m2, addr, page_crossed(base, addr))
            },
            Mode::IndX => {
                let (m1, v) = self.fetch();
                let (m2, addr) = m1.read16_zp(add8(v, self.cpu.x));
                (m2, addr, false)
            },
            Mode::IndY => {
                let (m1, zp) = self.fetch();
                let (m2, base) = m1.read16_zp(zp);
                let addr = add16(base, self.cpu.y as u16);
                (m2, addr, page_crossed(base, addr))
            },
        }
    }

    /// A read instruction applied to the operand at `addr`.
    #[verifier::opaque]
    pub open spec fn spec_read_op(self, op: ReadOp, addr: u16) -> Machine {
        let (m, v) = self.read(addr);
        let c = m.cpu;
        let c2 = match op {
            ReadOp::Lda => Cpu { a: v, p: with_zn(c.p, v), ..c },
            ReadOp::Ldx => Cpu { x: v, p: with_zn(c.p, v), ..c },
            ReadOp::Ldy => Cpu { y: v, p: with_zn(c.p, v), ..c },
            ReadOp::Lax => Cpu { a: v, x: v, p: with_zn(c.p, v), ..c },
            ReadOp::Adc => spec_adc(c, v),
            ReadOp::Sbc => spec_adc(c, v ^ 0xFFu8),
            ReadOp::And => Cpu { a: c.a & v, p: with_zn(c.p, c.a & v), ..c },
            ReadOp::Eor => Cpu { a: c.a ^ v, p: with_zn(c.p, c.a ^ v), ..c },
            ReadOp::Ora => Cpu { a: c.a | v, p: with_zn(c.p, c.a | v), ..c },
            ReadOp::Cmp => spec_cmp(c, c.a, v),
            ReadOp::Cpx => spec_cmp(c, c.x, v),
            ReadOp::Cpy => spec_cmp(c, c.y, v),
            ReadOp::Bit => Cpu { p: (with_flag(c.p, FLAG_Z, c.a & v == 0) & 0x3Fu8) | (v & 0xC0u8), ..c },
        };
        m.with_cpu(c2)
    }

    /// A store instruction to `addr`.
    #[verifier::opaque]
    pub open spec fn spec_write_op(self, op: WriteOp, addr: u16) -> Machine {
        let c = self.cpu;
        let v = match op {
            WriteOp::Sta => c.a,
            WriteOp::Stx => c.x,
            WriteOp::Sty => c.y,
            WriteOp::Sax => c.a & c.x,
        };
        self.write(addr, v)
    }

    /// A read-modify-write instruction on `addr`. The combined unofficial
    /// opcodes (SLO, RLA, SRE, RRA) read the written byte back from the bus.
    #[verifier::opaque]
    pub open spec fn spec_rmw_op(self, op: RmwOp, addr: u16) -> Machine {
        let (m1, v) = self.read(addr);
        let c = m1.cpu;
        match op {
            RmwOp::Inc => m1.write(addr, add8(v, 1)).with_cpu(Cpu { p: with_zn(c.p, add8(v, 1)), ..c }),
            RmwOp::Dec => m1.write(addr, sub8(v, 1)).with_cpu(Cpu { p: with_zn(c.p, sub8(v, 1)), ..c }),
            RmwOp::Dcp => m1.write(addr, sub8(v, 1)).with_cpu(spec_cmp(c, c.a, sub8(v, 1))),
            RmwOp::Isb => m1.write(addr, add8(v, 1)).with_cpu(spec_adc(c, add8(v, 1) ^ 0xFFu8)),
            _ => {
                let (r, p) = shift_result(op, c.p, v);
                let m2 = m1.write(addr, r).with_cpu(Cpu { p, ..c });
                if op == RmwOp::Asl || op == RmwOp::Lsr || op == RmwOp::Rol || op == RmwOp::Ror {
                    m2
                } else {
                    let (m3, w) = m2.read(addr);
                    let c3 = m3.cpu;
                    if op == RmwOp::Slo {
                        m3.with_cpu(Cpu { a: c3.a | w, p: with_zn(c3.p, c3.a | w), ..c3 })
                    } else if op == RmwOp::Rla {
                        m3.with_cpu(Cpu { a: c3.a & w, p: with_zn(c3.p, c3.a & w), ..c3 })
                    } else if op == RmwOp::Sre {
                        m3.with_cpu(Cpu { a: c3.a ^ w, p: with_zn(c3.p, c3.a ^ w), ..c3 })
                    } else {
                        m3.with_cpu(spec_adc(c3, w))
                    }
                }
            },
        }
    }

    /// Relative branch: fetch the offset; when taken, jump and charge one
    /// cycle, or two when the target is on another page.
    #[verifier::opaque]
    pub open spec fn spec_branch(self, taken: bool) -> (Machine, u8) {
        let (m, off) = self.fetch();
        let pc = m.cpu.pc;
        let target = rel_target(pc, off);
        if taken {
            (m.with_cpu(Cpu { pc: target, ..m.cpu }), if page_crossed(pc, target) { 2u8 } else { 1u8 })
        } else {
            (m, 0u8)
        }
    }

    /// Interrupt entry: push PC and P (B clear, U set), set I, load PC from `vector`.
    #[verifier::opaque]
    pub open spec fn spec_interrupt(self, vector: u16) -> Machine {
        let m1 = self.push_word(self.cpu.pc);
        let m2 = m1.push((m1.cpu.p | FLAG_U) & !FLAG_B);
        let m3 = m2.with_cpu(Cpu { p: m2.cpu.p | FLAG_I, ..m2.cpu });
        let (m4, target) = m3.read16(vector);
        m4.with_cpu(Cpu { pc: target, ..m4.cpu })
    }

    /// A read instruction: resolve the operand, apply the operation; one extra
    /// cycle when indexing crossed a page.
    pub open spec fn spec_read_instr(self, op: ReadOp, mode: Mode, cycles: u8) -> (Machine, u8) {
        let (m, addr, crossed) = self.resolve(mode);
        (m.spec_read_op(op, addr), (cycles + if crossed { 1u8 } else { 0u8 }) as u8)
    }

    pub open spec fn spec_write_instr(self, op: WriteOp, mode: Mode, cycles: u8) -> (Machine, u8) {
        let (m, addr, _) = self.resolve(mode);
        (m.spec_write_op(op, addr), cycles)
    }

    pub open spec fn spec_rmw_instr(self, op: RmwOp, mode: Mode, cycles: u8) -> (Machine, u8) {
        let (m, addr, _) = self.resolve(mode);
        (m.spec_rmw_op(op, addr), cycles)
    }

    /// PHA.
    #[verifier::opaque]
    pub open spec fn spec_pha(self) -> (Machine, u8) {
        (self.push(self.cpu.a), 3u8)
    }

    /// PHP: the pushed copy has B and U set.
    #[verifier::opaque]
    pub open spec fn spec_php(self) -> (Machine, u8) {
        (self.push(self.cpu.p | FLAG_B | FLAG_U), 3u8)
    }

    /// PLA.
    #[verifier::opaque]
    pub open spec fn spec_pla(self) -> (Machine, u8) {
        let (m, v) = self.pop();
        (m.with_cpu(Cpu { a: v, p: with_zn(m.cpu.p, v), ..m.cpu }), 4u8)
    }

    /// PLP: B is cleared and U set in the pulled value.
    #[verifier::opaque]
    pub open spec fn spec_plp(self) -> (Machine, u8) {
        let (m, v) = self.pop();
        (m.with_cpu(Cpu { p: (v | FLAG_U) & !FLAG_B, ..m.cpu }), 4u8)
    }

    /// Conditional branch: 2 cycles plus the branch's extra cycles.
    #[verifier::opaque]
    pub open spec fn spec_branch_instr(self, flag: u8, set: bool) -> (Machine, u8) {
        let (m, extra) = self.spec_branch((self.cpu.p & flag != 0) == set);
        (m, (2 + extra) as u8)
    }

    /// JMP absolute.
    #[verifier::opaque]
    pub open spec fn spec_jmp_abs(self) -> (Machine, u8) {
        let (m, addr, _) = self.resolve(Mode::Abs);
        (m.with_cpu(Cpu { pc: addr, ..m.cpu }), 3u8)
    }

    /// JMP indirect, with the page-wrap bug in the pointer's high byte.
    #[verifier::opaque]
    pub open spec fn spec_jmp_ind(self) -> (Machine, u8) {
        let (m1, lo) = self.fetch();
        let (m2, hi) = m1.fetch();
        let ptr = word(lo, hi);
        let (m3, tlo) = m2.read(ptr);
        let (m4, thi) = m3.read((ptr & 0xFF00u16) | (add16(ptr, 1) & 0x00FFu16));
        (m4.with_cpu(Cpu { pc: word(tlo, thi), ..m4.cpu }), 5u8)
    }

    /// JSR: push the address of the operand's last byte, then jump.
    #[verifier::opaque]
    pub open spec fn spec_jsr(self) -> (Machine, u8) {
        let (m1, lo) = self.fetch();
        let m2 = m1.push_word(m1.cpu.pc);
        let (m3, hi) = m2.read(m2.cpu.pc);
        (m3.with_cpu(Cpu { pc: word(lo, hi), ..m3.cpu }), 6u8)
    }

    /// RTS: pull the return address and add one.
    #[verifier::opaque]
    pub open spec fn spec_rts(self) -> (Machine, u8) {
        let (m, a) = self.pop_word();
        (m.with_cpu(Cpu { pc: add16(a, 1), ..m.cpu }), 6u8)
    }

    /// RTI: pull P (B cleared, U set), then PC.
    #[verifier::opaque]
    pub open spec fn spec_rti(self) -> (Machine, u8) {
        let (m1, p) = self.pop();
        let m2 = m1.with_cpu(Cpu { p: (p | FLAG_U) & !FLAG_B, ..m1.cpu });
        let (m3, a) = m2.pop_word();
        (m3.with_cpu(Cpu { pc: a, ..m3.cpu }), 6u8)
    }

    /// BRK: skip the padding byte, push PC and P (B and U set), set I, jump through $FFFE.
    #[verifier::opaque]
    pub open spec fn spec_brk(self) -> (Machine, u8) {
        let m0 = self.with_cpu(Cpu { pc: add16(self.cpu.pc, 1), ..self.cpu });
        let m1 = m0.push_word(m0.cpu.pc);
        let m2 = m1.push(m1.cpu.p | FLAG_B | FLAG_U);
        let m3 = m2.with_cpu(Cpu { p: m2.cpu.p | FLAG_I, ..m2.cpu });
        let (m4, target) = m3.read16(0xFFFE);
        (m4.with_cpu(Cpu { pc: target, ..m4.cpu }), 7u8)
    }

    /// Execute one decoded instruction (its opcode already fetched); the
    /// machine afterwards and the cycles used.
    pub open spec fn spec_execute(self, instr: Instr) -> (Machine, u8) {
        match instr {
            Instr::Read(op, mode, cycles) => self.spec_read_instr(op, mode, cycles),
            Instr::Write(op, mode, cycles) => self.spec_write_instr(op, mode, cycles),
            Instr::Rmw(op, mode, cycles) => self.spec_rmw_instr(op, mode, cycles),
            Instr::Implied(op) => (self.with_cpu(spec_implied(self.cpu, op)), 2u8),
            Instr::Pha => self.spec_pha(),
            Instr::Php => self.spec_php(),
            Instr::Pla => self.spec_pla(),
            Instr::Plp => self.spec_plp(),
            Instr::Branch(flag, set) => self.spec_branch_instr(flag, set),
            Instr::JmpAbs => self.spec_jmp_abs(),
            Instr::JmpInd => self.spec_jmp_ind(),
            Instr::Jsr => self.spec_jsr(),
            Instr::Rts => self.spec_rts(),
            Instr::Rti => self.spec_rti(),
            Instr::Brk => self.spec_brk(),
            Instr::Skip(bytes, cycles) => (self.with_cpu(Cpu { pc: add16(self.cpu.pc, bytes), ..self.cpu }), cycles),
            Instr::Unknown => (self, 2u8),
        }
    }

    /// One CPU step: a pending NMI, else a pending IRQ when I is clear, else
    /// the next instruction. Returns the machine afterwards and the cycles used.
    pub open spec fn spec_step(self) -> (Machine, u8) {
        if self.cpu.nmi_pending {
            (self.with_cpu(Cpu { nmi_pending: false, ..self.cpu }).spec_interrupt(0xFFFA), 7u8)
        } else if self.cpu.irq_pending && self.cpu.p & FLAG_I == 0 {
            (self.with_cpu(Cpu { irq_pending: false, ..self.cpu }).spec_interrupt(0xFFFE), 7u8)
        } else {
            let (m, op) = self.fetch();
            m.spec_execute(decode(op))
        }
    }

    /// Compare-instruction law: CMP, CPX and CPY read their operand at `addr`
    /// and compare it with A, X or Y respectively: C is set exactly when the
    /// register is at least the operand, Z exactly when they are equal, N to
    /// bit 7 of their difference modulo 256, and the registers are unchanged.
    pub proof fn lemma_compare_instr(self, op: ReadOp, addr: u16)
        requires
            op == ReadOp::Cmp || op == ReadOp::Cpx || op == ReadOp::Cpy,
        ensures
            ({
                let (m, v) = self.read(addr);
                let reg = if op == ReadOp::Cmp { self.cpu.a } else if op == ReadOp::Cpx { self.cpu.x } else { self.cpu.y };
                let c = self.spec_read_op(op, addr).cpu;
                &&& (c.p & FLAG_C != 0) == (reg >= v)
                &&& (c.p & FLAG_Z != 0) == (reg == v)
                &&& (c.p & FLAG_N != 0) == ((reg - v) % 256 >= 128)
                &&& c.a == self.cpu.a && c.x == self.cpu.x && c.y == self.cpu.y
                &&& self.spec_read_op(op, addr).bus == m.bus
            }),
    {
        reveal(Machine::spec_read_op);
        let (m, v) = self.read(addr);
        let reg = if op == ReadOp::Cmp { self.cpu.a } else if op == ReadOp::Cpx { self.cpu.x } else { self.cpu.y };
        lemma_compare(m.cpu, reg, v);
    }

    /// Load and logic law (LDA, LDX, LDY, AND, ORA, EOR): the operand `v` read
    /// at `addr` goes to the target register, or A becomes `A & v`, `A | v` or
    /// `A ^ v`; Z is set exactly when the new value is zero, N is its bit 7,
    /// the other flags and the other registers are unchanged.
    pub proof fn lemma_load_logic(self, op: ReadOp, addr: u16)
        requires
            op == ReadOp::Lda || op == ReadOp::Ldx || op == ReadOp::Ldy || op == ReadOp::And || op == ReadOp::Ora
                || op == ReadOp::Eor,
        ensures
            ({
                let (m, v) = self.read(addr);
                let a = self.cpu.a;
                let r = if op == ReadOp::And { a & v } else if op == ReadOp::Ora { a | v } else if op == ReadOp::Eor {
                    a ^ v
                } else {
                    v
                };
                let c = self.spec_read_op(op, addr).cpu;
                &&& c.a == (if op == ReadOp::Ldx || op == ReadOp::Ldy { a } else { r })
                &&& c.x == (if op == ReadOp::Ldx { v } else { self.cpu.x })
                &&& c.y == (if op == ReadOp::Ldy { v } else { self.cpu.y })
                &&& (c.p & FLAG_Z != 0) == (r == 0)
                &&& (c.p & FLAG_N != 0) == (r >= 128)
                &&& c.p & 0x7Du8 == self.cpu.p & 0x7Du8
                &&& c.sp == self.cpu.sp && c.pc == self.cpu.pc
                &&& self.spec_read_op(op, addr).bus == m.bus
            }),
    {
        reveal(Machine::spec_read_op);
        let (m, v) = self.read(addr);
        let a = self.cpu.a;
        let r = if op == ReadOp::And { a & v } else if op == ReadOp::Ora { a | v } else if op == ReadOp::Eor {
            a ^ v
        } else {
            v
        };
        lemma_zn_bits(self.cpu.p, r);
    }

    /// BIT law: BIT leaves A alone and sets Z exactly when `A & v` is zero,
    /// V to bit 6 and N to bit 7 of the operand `v`; C, I and D are unchanged.
    pub proof fn lemma_bit(self, addr: u16)
        ensures
            ({
                let (m, v) = self.read(addr);
                let c = self.spec_read_op(ReadOp::Bit, addr).cpu;
                &&& c.a == self.cpu.a
                &&& (c.p & FLAG_Z != 0) == (self.cpu.a & v == 0)
                &&& (c.p & FLAG_V != 0) == (v & 0x40u8 != 0)
                &&& (c.p & FLAG_N != 0) == (v & 0x80u8 != 0)
                &&& c.p & 0x0Du8 == self.cpu.p & 0x0Du8
            }),
    {
        reveal(Machine::spec_read_op);
        let (m, v) = self.read(addr);
        lemma_bit_flags(self.cpu.p, self.cpu.a & v == 0, v);
    }

    /// INC/DEC law: INC and DEC write `v + 1` or `v - 1` modulo 256 back to
    /// `addr` (where `v` is the byte read there), set Z exactly when that
    /// result is zero and N to its bit 7, and change no register.
    pub proof fn lemma_inc_dec(self, op: RmwOp, addr: u16)
        requires
            op == RmwOp::Inc || op == RmwOp::Dec,
        ensures
            ({
                let (m, v) = self.read(addr);
                let r: u8 = if op == RmwOp::Inc { ((v + 1) % 256) as u8 } else { ((v + 255) % 256) as u8 };
                let after = self.spec_rmw_op(op, addr);
                &&& after.bus == m.bus.write(addr, r)
                &&& (after.cpu.p & FLAG_Z != 0) == (r == 0)
                &&& (after.cpu.p & FLAG_N != 0) == (r >= 128)
                &&& after.cpu.p & 0x7Du8 == self.cpu.p & 0x7Du8
                &&& after.cpu.a == self.cpu.a && after.cpu.x == self.cpu.x && after.cpu.y == self.cpu.y
            }),
    {
        reveal(Machine::spec_rmw_op);
        let (m, v) = self.read(addr);
        let r: u8 = if op == RmwOp::Inc { ((v + 1) % 256) as u8 } else { ((v + 255) % 256) as u8 };
        assert(r == (if op == RmwOp::Inc { add8(v, 1) } else { sub8(v, 1) }));
        lemma_zn_bits(self.cpu.p, r);
    }

    /// Branch law: a conditional branch reads its offset byte at PC and is
    /// taken exactly when `(P & flag != 0) == set`. Taken, PC becomes the
    /// address after the offset byte plus the offset read as a signed byte
    /// (modulo 64K) and the branch takes 3 cycles, or 4 when that target lies
    /// on another page; not taken, PC just moves past the offset and it takes
    /// 2 cycles. No other register or flag changes.
    pub proof fn lemma_branch(self, flag: u8, set: bool)
        ensures
            ({
                let (m, off) = self.read(self.cpu.pc);
                let next = (self.cpu.pc + 1) % 65536;
                let taken = (self.cpu.p & flag != 0) == set;
                let target = (next + signed8(off)) % 65536;
                let (r, cycles) = self.spec_branch_instr(flag, set);
                &&& r.cpu.pc == (if taken { target } else { next })
                &&& cycles == (if !taken { 2u8 } else if next / 256 != target / 256 { 4u8 } else { 3u8 })
                &&& r.cpu == (Cpu { pc: r.cpu.pc, ..self.cpu })
                &&& r.bus == m.bus
            }),
    {
        reveal(Machine::spec_branch_instr);
        reveal(Machine::spec_branch);
        reveal(Machine::fetch);
        let (m, off) = self.read(self.cpu.pc);
        let next = add16(self.cpu.pc, 1);
        let target = rel_target(next, off);
        lemma_same_page(next, target);
    }

    /// Subroutine law: JSR at an operand address PC jumps to the little-endian
    /// word at PC, PC + 1, and an RTS executed right there returns to the
    /// instruction after the JSR (PC + 2) with the stack pointer restored.
    pub proof fn lemma_jsr_rts(self)
        requires
            self.wf(),
        ensures
            ({
                let (m, _) = self.spec_jsr();
                let (r, _) = m.spec_rts();
                &&& r.cpu.pc == (self.cpu.pc + 2) % 65536
                &&& r.cpu.sp == self.cpu.sp
            }),
    {
        reveal(Machine::spec_jsr);
        reveal(Machine::spec_rts);
        reveal(Machine::fetch);
        reveal(Machine::push_word);
        reveal(Machine::pop_word);
        reveal(Machine::push);
        reveal(Machine::pop);
        reveal(BusView::read);
        reveal(BusView::write);
        let (m1, lo) = self.fetch();
        let w = m1.cpu.pc;
        let sp = self.cpu.sp;
        let sp1 = sub8(sp, 1);
        let a0 = 0x0100u16 | (sp as u16);
        let a1 = 0x0100u16 | (sp1 as u16);
        lemma_stack_slots(sp, sp1);
        assert(word(w as u8, (w >> 8u16) as u8) == w) by {
            lemma_word_split(w);
        }
    }

    /// Zero-page addressing law. With `b` the byte after the opcode:
    /// immediate addresses that operand byte itself; zero page addresses
    /// `b`, and zero page,X / zero page,Y address `(b + X) mod 256` /
    /// `(b + Y) mod 256`, never leaving page zero. Each leaves PC one past
    /// the operand byte and reports no page crossing.
    pub proof fn lemma_zero_page_modes(self)
        ensures
            ({
                let pc = self.cpu.pc;
                let b = self.fetch().1;
                let im = self.resolve(Mode::Imm);
                let z = self.resolve(Mode::Zpg);
                let zx = self.resolve(Mode::ZpgX);
                let zy = self.resolve(Mode::ZpgY);
                &&& im.1 == pc && im.0.cpu.pc == (pc + 1) % 65536 && !im.2
                &&& z.1 == b && z.0.cpu.pc == (pc + 1) % 65536 && !z.2
                &&& zx.1 == (b + self.cpu.x) % 256 && zx.0.cpu.pc == (pc + 1) % 65536 && !zx.2
                &&& zy.1 == (b + self.cpu.y) % 256 && zy.0.cpu.pc == (pc + 1) % 65536 && !zy.2
            }),
    {
        reveal(Machine::fetch);
        reveal(Machine::resolve);
    }

    /// Absolute addressing law. With `b` and `hi` the two bytes after the
    /// opcode, absolute addresses `b + 256 * hi`, and absolute,X /
    /// absolute,Y add X / Y to it modulo 64K, reporting a page crossing
    /// exactly when the high byte changes. Each leaves PC two past the
    /// opcode's successor.
    pub proof fn lemma_absolute_modes(self)
        ensures
            ({
                let pc = self.cpu.pc;
                let (m1, b) = self.fetch();
                let hi = m1.fetch().1;
                let base = b + 256 * hi;
                let a = self.resolve(Mode::Abs);
                let ax = self.resolve(Mode::AbsX);
                let ay = self.resolve(Mode::AbsY);
                &&& a.1 == base && a.0.cpu.pc == (pc + 2) % 65536 && !a.2
                &&& ax.1 == (base + self.cpu.x) % 65536 && ax.2 == (base / 256 != ax.1 / 256)
                &&& ax.0.cpu.pc == (pc + 2) % 65536
                &&& ay.1 == (base + self.cpu.y) % 65536 && ay.2 == (base / 256 != ay.1 / 256)
                &&& ay.0.cpu.pc == (pc + 2) % 65536
            }),
    {
        reveal(Machine::fetch);
        reveal(Machine::resolve);
        let (m1, b) = self.fetch();
        let hi = m1.fetch().1;
        lemma_word_value(b, hi);
        let w = word(b, hi);
        lemma_same_page(w, add16(w, self.cpu.x as u16));
        lemma_same_page(w, add16(w, self.cpu.y as u16));
    }

    /// Indirect addressing law. With `b` the byte after the opcode,
    /// (indirect,X) takes its address from the zero-page bytes `b + X` and
    /// `b + X + 1` (both mod 256, low byte first); (indirect),Y reads a
    /// pointer from the zero-page bytes `b` and `b + 1` (mod 256) and adds Y
    /// modulo 64K, reporting a page crossing exactly when the high byte
    /// changes. Both leave PC one past the operand byte.
    #[verifier::rlimit(40)]
    pub proof fn lemma_indirect_modes(self)
        ensures
            ({
                let pc = self.cpu.pc;
                let (m1, b) = self.fetch();
                let zx = (b + self.cpu.x) % 256;
                let (mx1, xlo) = m1.read(zx as u16);
                let xhi = mx1.read(((zx + 1) % 256) as u16).1;
                let (my1, ylo) = m1.read(b as u16);
                let yhi = my1.read(((b + 1) % 256) as u16).1;
                let ibase = ylo + 256 * yhi;
                let ix = self.resolve(Mode::IndX);
                let iy = self.resolve(Mode::IndY);
                &&& ix.1 == xlo + 256 * xhi && ix.0.cpu.pc == (pc + 1) % 65536 && !ix.2
                &&& iy.1 == (ibase + self.cpu.y) % 65536 && iy.2 == (ibase / 256 != iy.1 / 256)
                &&& iy.0.cpu.pc == (pc + 1) % 65536
            }),
    {
        reveal(Machine::fetch);
        reveal(Machine::resolve);
        reveal(Machine::read16_zp);
        let (m1, b) = self.fetch();
        let zx = add8(b, self.cpu.x);
        let (mx1, xlo) = m1.read(zx as u16);
        let xhi = mx1.read(add8(zx, 1) as u16).1;
        lemma_word_value(xlo, xhi);
        let (my1, ylo) = m1.read(b as u16);
        let yhi = my1.read(add8(b, 1) as u16).1;
        lemma_word_value(ylo, yhi);
        let iw = word(ylo, yhi);
        lemma_same_page(iw, add16(iw, self.cpu.y as u16));
    }

    /// Stack law: the byte a push stores is the byte the next pull returns,
    /// and the pull leaves the CPU as it was before the push.
    pub proof fn lemma_push_pop(self, val: u8)
        requires
            self.wf(),
        ensures
            self.push(val).pop().1 == val,
            self.push(val).pop().0.cpu == self.cpu,
            self.push(val).pop().0.bus == self.push(val).bus,
    {
        reveal(Machine::push);
        reveal(Machine::pop);
        reveal(BusView::read);
        reveal(BusView::write);
        let sp = self.cpu.sp;
        let a = 0x0100u16 | (sp as u16);
        assert(a <= 0x1FFF && (a & 0x07FFu16) < 2048) by (bit_vector)
            requires
                a == 0x0100u16 | (sp as u16),
        ;
    }

    /// Stack-instruction law: PHA (3 cycles) followed by PLA (4 cycles)
    /// gives A back, with Z and N set from it and SP where it was; PHP
    /// followed by PLP gives the status register back with B clear and U
    /// set, the other registers unchanged.
    pub proof fn lemma_stack_instrs(self)
        requires
            self.wf(),
        ensures
            ({
                let (m1, c1) = self.spec_pha();
                let (m2, c2) = m1.spec_pla();
                &&& c1 == 3 && c2 == 4
                &&& m2.cpu.a == self.cpu.a && m2.cpu.sp == self.cpu.sp
                &&& m2.cpu.x == self.cpu.x && m2.cpu.y == self.cpu.y && m2.cpu.pc == self.cpu.pc
                &&& (m2.cpu.p & FLAG_Z != 0) == (self.cpu.a == 0)
                &&& (m2.cpu.p & FLAG_N != 0) == (self.cpu.a >= 128)
                &&& m2.cpu.p & 0x7Du8 == self.cpu.p & 0x7Du8
            }),
            ({
                let (m1, c1) = self.spec_php();
                let (m2, c2) = m1.spec_plp();
                &&& c1 == 3 && c2 == 4
                &&& m2.cpu.p & 0xCFu8 == self.cpu.p & 0xCFu8
                &&& m2.cpu.p & FLAG_B == 0 && m2.cpu.p & FLAG_U != 0
                &&& m2.cpu.a == self.cpu.a && m2.cpu.sp == self.cpu.sp
                &&& m2.cpu.x == self.cpu.x && m2.cpu.y == self.cpu.y && m2.cpu.pc == self.cpu.pc
            }),
    {
        reveal(Machine::spec_pha);
        reveal(Machine::spec_pla);
        reveal(Machine::spec_php);
        reveal(Machine::spec_plp);
        self.lemma_push_pop(self.cpu.a);
        self.lemma_push_pop(self.cpu.p | FLAG_B | FLAG_U);
        lemma_zn_bits(self.cpu.p, self.cpu.a);
        lemma_plp_jmp_bits(self.cpu.p, 0, 0);
    }

    /// Indirect-jump law: JMP ($hhll) loads PC from the byte at `$hhll` (low)
    /// and the byte after it (high), except that the high byte is read
    /// from the same page: for a pointer $hhFF it comes from $hh00. It takes
    /// five cycles.
    pub proof fn lemma_jmp_ind(self)
        ensures
            ({
                let (m1, lo) = self.fetch();
                let (m2, hi) = m1.fetch();
                let ptr = lo + 256 * hi;
                let (m3, tlo) = m2.read(ptr as u16);
                let thi = m3.read((if lo == 255 { 256 * hi } else { ptr + 1 }) as u16).1;
                &&& self.spec_jmp_ind().0.cpu.pc == tlo + 256 * thi
                &&& self.spec_jmp_ind().1 == 5
            }),
    {
        reveal(Machine::spec_jmp_ind);
        reveal(Machine::fetch);
        let (m1, lo) = self.fetch();
        let (m2, hi) = m1.fetch();
        lemma_plp_jmp_bits(0, lo, hi);
        lemma_word_value(lo, hi);
        lemma_word_value(0, hi);
        if lo < 255 {
            lemma_word_value((lo + 1) as u8, hi);
        }
        let ptr = word(lo, hi);
        let (m3, tlo) = m2.read(ptr);
        let thi = m3.read((ptr & 0xFF00u16) | (add16(ptr, 1) & 0x00FFu16)).1;
        lemma_word_value(tlo, thi);
    }

    /// Interrupt-return law: entering a handler through a vector in
    /// cartridge space (as $FFFA for NMI and $FFFE for IRQ are) sets the I
    /// flag, moves SP down by three and loads PC from the vector (low byte
    /// first); RTI then returns to the interrupted PC with SP and the status
    /// register as they were (B clear, U set), taking six cycles.
    #[verifier::rlimit(40)]
    pub proof fn lemma_interrupt_rti(self, vector: u16)
        requires
            self.wf(),
            0x4020 <= vector < 0xFFFF,
        ensures
            ({
                let m = self.spec_interrupt(vector);
                let (r, c) = m.spec_rti();
                &&& m.cpu.p & FLAG_I != 0
                &&& m.cpu.pc == word(self.bus.cart.cpu_read(vector), self.bus.cart.cpu_read((vector + 1) as u16))
                &&& m.cpu.sp == (self.cpu.sp - 3) % 256
                &&& r.cpu.pc == self.cpu.pc
                &&& r.cpu.sp == self.cpu.sp
                &&& r.cpu.p & 0xCFu8 == self.cpu.p & 0xCFu8
                &&& r.cpu.p & FLAG_B == 0 && r.cpu.p & FLAG_U != 0
                &&& c == 6
            }),
    {
        reveal(Machine::spec_interrupt);
        reveal(Machine::spec_rti);
        reveal(Machine::push_word);
        reveal(Machine::pop_word);
        reveal(Machine::push);
        reveal(Machine::pop);
        reveal(Machine::read16);
        reveal(BusView::read);
        reveal(BusView::write);
        let sp = self.cpu.sp;
        let sp1 = sub8(sp, 1);
        let sp2 = sub8(sp1, 1);
        lemma_interrupt_frame(sp, sp1, sp2, self.cpu.p);
        lemma_word_split(self.cpu.pc);
        let m1 = self.push_word(self.cpu.pc);
        assert(m1.cpu.sp == sp2 && m1.cpu.p == self.cpu.p && m1.cpu.pc == self.cpu.pc);
        let m2 = m1.push((m1.cpu.p | FLAG_U) & !FLAG_B);
        assert(m2.bus.cart == self.bus.cart);
        assert(m2.cpu.sp == (self.cpu.sp - 3) % 256);
    }

    /// BRK law: with PC just past the BRK opcode, BRK (7 cycles) enters the
    /// handler whose address is stored at $FFFE/$FFFF, with I set and SP
    /// three lower; RTI then resumes one byte further on (past BRK's padding
    /// byte) with SP and the status register as they were (B clear, U set).
    #[verifier::rlimit(40)]
    pub proof fn lemma_brk_rti(self)
        requires
            self.wf(),
        ensures
            ({
                let (m, c) = self.spec_brk();
                let (r, _) = m.spec_rti();
                &&& c == 7
                &&& m.cpu.p & FLAG_I != 0
                &&& m.cpu.pc == word(self.bus.cart.cpu_read(0xFFFE), self.bus.cart.cpu_read(0xFFFF))
                &&& m.cpu.sp == (self.cpu.sp - 3) % 256
                &&& r.cpu.pc == (self.cpu.pc + 1) % 65536
                &&& r.cpu.sp == self.cpu.sp
                &&& r.cpu.p & 0xCFu8 == self.cpu.p & 0xCFu8
                &&& r.cpu.p & FLAG_B == 0 && r.cpu.p & FLAG_U != 0
            }),
    {
        reveal(Machine::spec_brk);
        reveal(Machine::spec_rti);
        reveal(Machine::push_word);
        reveal(Machine::pop_word);
        reveal(Machine::push);
        reveal(Machine::pop);
        reveal(Machine::read16);
        reveal(BusView::read);
        reveal(BusView::write);
        let sp = self.cpu.sp;
        let sp1 = sub8(sp, 1);
        let sp2 = sub8(sp1, 1);
        lemma_interrupt_frame(sp, sp1, sp2, self.cpu.p);
        lemma_plp_jmp_bits(self.cpu.p, 0, 0);
        let pc1 = add16(self.cpu.pc, 1);
        lemma_word_split(pc1);
        let m0 = self.with_cpu(Cpu { pc: pc1, ..self.cpu });
        let m1 = m0.push_word(pc1);
        assert(m1.cpu.sp == sp2 && m1.cpu.p == self.cpu.p);
        let m2 = m1.push(m1.cpu.p | FLAG_B | FLAG_U);
        assert(m2.bus.cart == self.bus.cart);
        assert(m2.cpu.sp == (self.cpu.sp - 3) % 256);
    }

    /// Store law: STA, STX and STY write A, X or Y to `addr`; SAX writes
    /// A AND X. None changes a register or a flag.
    pub proof fn lemma_store(self, op: WriteOp, addr: u16)
        ensures
            ({
                let v = match op {
                    WriteOp::Sta => self.cpu.a,
                    WriteOp::Stx => self.cpu.x,
                    WriteOp::Sty => self.cpu.y,
                    WriteOp::Sax => self.cpu.a & self.cpu.x,
                };
                &&& self.spec_write_op(op, addr) == self.write(addr, v)
                &&& self.spec_write_op(op, addr).cpu == self.cpu
            }),
    {
        reveal(Machine::spec_write_op);
    }

    /// Stack law for words (as JSR/RTS and interrupts/RTI use it): the word a
    /// `push_word` stores is the word the next `pop_word` returns, and the
    /// CPU is left as it was before the push.
    pub proof fn lemma_push_pop_word(self, val: u16)
        requires
            self.wf(),
        ensures
            self.push_word(val).pop_word().1 == val,
            self.push_word(val).pop_word().0.cpu == self.cpu,
    {
        reveal(Machine::push_word);
        reveal(Machine::pop_word);
        reveal(Machine::push);
        reveal(Machine::pop);
        reveal(BusView::read);
        reveal(BusView::write);
        let sp = self.cpu.sp;
        let sp1 = sub8(sp, 1);
        let hi = (val >> 8u16) as u8;
        let lo = val as u8;
        let a0 = 0x0100u16 | (sp as u16);
        let a1 = 0x0100u16 | (sp1 as u16);
        assert(a0 <= 0x1FFF && a1 <= 0x1FFF && (a0 & 0x07FFu16) < 2048 && (a1 & 0x07FFu16) < 2048
            && (a0 & 0x07FFu16) != (a1 & 0x07FFu16)) by (bit_vector)
            requires
                a0 == 0x0100u16 | (sp as u16),
                a1 == 0x0100u16 | (sp1 as u16),
                sp1 == (if sp == 0 { 255u8 } else { (sp - 1) as u8 }),
        ;
        assert(word(lo, hi) == val) by (bit_vector)
            requires
                hi == (val >> 8u16) as u8,
                lo == val as u8,
        ;
    }

    /// Power-on/reset: clear A, X, Y, SP = $FD, P = U | I, PC from $FFFC.
    #[verifier::opaque]
    pub open spec fn spec_reset(self) -> Machine {
        let m0 = self.with_cpu(Cpu { a: 0, x: 0, y: 0, sp: 0xFD, p: FLAG_U | FLAG_I, ..self.cpu });
        let (m1, lo) = m0.read(0xFFFC);
        let (m2, hi) = m1.read(0xFFFD);
        m2.with_cpu(Cpu { pc: word(lo, hi), cycles: 8, ..m2.cpu })
    }
}

impl Cpu {
    pub open spec fn spec_new() -> Cpu {
        Cpu {
            a: 0,
            x: 0,
            y: 0,
            sp: 0xFD,
            pc: 0,
            p: FLAG_U | FLAG_I,
            cycles: 0,
            nmi_pending: false,
            irq_pending: false,
        }
    }
}

} // verus!
