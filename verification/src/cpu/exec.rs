//! The executable CPU: each function is proved to perform exactly the bus
//! accesses and register updates that its `Machine` specification lists.
use vstd::prelude::*;

use super::decode::{decode, decode_op, ImpliedOp, Instr, Mode, ReadOp, RmwOp, WriteOp};
use super::{
    mach, shift_result, spec_adc, spec_cmp, spec_implied, with_flag, with_zn, Cpu, Machine, FLAG_B,
    FLAG_C, FLAG_D, FLAG_I, FLAG_N, FLAG_U, FLAG_V, FLAG_Z,
};
use crate::bus::Bus;

verus! {

impl Cpu {
    pub fn new() -> (c: Self)
        ensures
            c == Cpu::spec_new(),
    {
        Cpu {
            a: 0,
            x: 0,
            y: 0,
            sp: 0xFD,
            pc: 0,
            p: FLAG_U | FLAG_I,
            cycles: 0,
            nmi_pending: false,
            irq_pending: false,
        }
    }

    /// Load the reset vector and put the registers in their power-on state.
    pub fn reset(&mut self, bus: &mut Bus)
        requires
            old(bus).wf(),
        ensures
            mach(*final(self), final(bus)@) == mach(*old(self), old(bus)@).spec_reset(),
            final(bus).wf(),
            final(bus)@.same_clock(old(bus)@),
    {
        reveal(Machine::spec_reset);
        self.a = 0;
        self.x = 0;
        self.y = 0;
        self.sp = 0xFD;
        self.p = FLAG_U | FLAG_I;
        let lo = bus.cpu_read(0xFFFC) as u16;
        let hi = bus.cpu_read(0xFFFD) as u16;
        self.pc = (hi << 8) | lo;
        self.cycles = 8;
    }

    /// Execute one instruction, or enter a pending interrupt. Returns the CPU cycles used.
    pub fn step(&mut self, bus: &mut Bus) -> (cycles: u8)
        requires
            old(bus).wf(),
        ensures
            (mach(*final(self), final(bus)@), cycles) == mach(*old(self), old(bus)@).spec_step(),
            final(bus).wf(),
            final(bus)@.same_clock(old(bus)@),
            2 <= cycles <= 8,
    {
        if self.nmi_pending {
            self.nmi_pending = false;
            self.handle_nmi(bus);
            return 7;
        }
        if self.irq_pending && self.p & FLAG_I == 0 {
            self.irq_pending = false;
            self.handle_irq(bus);
            return 7;
        }
        let opcode = self.read_pc(bus);
        self.execute(opcode, bus)
    }

    fn handle_nmi(&mut self, bus: &mut Bus)
        requires
            old(bus).wf(),
        ensures
            mach(*final(self), final(bus)@) == mach(*old(self), old(bus)@).spec_interrupt(0xFFFA),
            final(bus).wf(),
            final(bus)@.same_clock(old(bus)@),
    {
        reveal(Machine::spec_interrupt);
        self.push_word(bus, self.pc);
        self.push(bus, (self.p | FLAG_U) & !FLAG_B);
        self.p |= FLAG_I;
        self.pc = self.read16(bus, 0xFFFA);
    }

    fn handle_irq(&mut self, bus: &mut Bus)
        requires
            old(bus).wf(),
        ensures
            mach(*final(self), final(bus)@) == mach(*old(self), old(bus)@).spec_interrupt(0xFFFE),
            final(bus).wf(),
            final(bus)@.same_clock(old(bus)@),
    {
        reveal(Machine::spec_interrupt);
        self.push_word(bus, self.pc);
        self.push(bus, (self.p | FLAG_U) & !FLAG_B);
        self.p |= FLAG_I;
        self.pc = self.read16(bus, 0xFFFE);
    }

    // ---- Memory helpers ----

    fn read_pc(&mut self, bus: &mut Bus) -> (val: u8)
        requires
            old(bus).wf(),
        ensures
            (mach(*final(self), final(bus)@), val) == mach(*old(self), old(bus)@).fetch(),
            *final(self) == (Cpu { pc: super::add16(old(self).pc, 1), ..*old(self) }),
            final(bus).wf(),
            final(bus)@.same_clock(old(bus)@),
    {
        reveal(Machine::fetch);
        let val = bus.cpu_read(self.pc);
        self.pc = self.pc.wrapping_add(1);
        val
    }

    fn read16(&mut self, bus: &mut Bus, addr: u16) -> (val: u16)
        requires
            old(bus).wf(),
        ensures
            (mach(*final(self), final(bus)@), val) == mach(*old(self), old(bus)@).read16(addr),
            *final(self) == *old(self),
            final(bus).wf(),
            final(bus)@.same_clock(old(bus)@),
    {
        reveal(Machine::read16);
        let lo = bus.cpu_read(addr) as u16;
        let hi = bus.cpu_read(addr.wrapping_add(1)) as u16;
        (hi << 8) | lo
    }

    fn read16_zp(&mut self, bus: &mut Bus, addr: u8) -> (val: u16)
        requires
            old(bus).wf(),
        ensures
            (mach(*final(self), final(bus)@), val) == mach(*old(self), old(bus)@).read16_zp(addr),
            *final(self) == *old(self),
            final(bus).wf(),
            final(bus)@.same_clock(old(bus)@),
    {
        reveal(Machine::read16_zp);
        let lo = bus.cpu_read(addr as u16) as u16;
        let hi = bus.cpu_read(addr.wrapping_add(1) as u16) as u16;
        (hi << 8) | lo
    }

    fn push(&mut self, bus: &mut Bus, val: u8)
        requires
            old(bus).wf(),
        ensures
            mach(*final(self), final(bus)@) == mach(*old(self), old(bus)@).push(val),
            *final(self) == (Cpu { sp: super::sub8(old(self).sp, 1), ..*old(self) }),
            final(bus).wf(),
            final(bus)@.same_clock(old(bus)@),
    {
        reveal(Machine::push);
        bus.cpu_write(0x0100 | self.sp as u16, val);
        self.sp = self.sp.wrapping_sub(1);
    }

    fn pop(&mut self, bus: &mut Bus) -> (val: u8)
        requires
            old(bus).wf(),
        ensures
            (mach(*final(self), final(bus)@), val) == mach(*old(self), old(bus)@).pop(),
            *final(self) == (Cpu { sp: super::add8(old(self).sp, 1), ..*old(self) }),
            final(bus).wf(),
            final(bus)@.same_clock(old(bus)@),
    {
        reveal(Machine::pop);
        self.sp = self.sp.wrapping_add(1);
        bus.cpu_read(0x0100 | self.sp as u16)
    }

    fn push_word(&mut self, bus: &mut Bus, val: u16)
        requires
            old(bus).wf(),
        ensures
            mach(*final(self), final(bus)@) == mach(*old(self), old(bus)@).push_word(val),
            *final(self) == (Cpu { sp: super::sub8(super::sub8(old(self).sp, 1), 1), ..*old(self) }),
            final(bus).wf(),
            final(bus)@.same_clock(old(bus)@),
    {
        reveal(Machine::push_word);
        self.push(bus, (val >> 8) as u8);
        self.push(bus, val as u8);
    }

    fn pop_word(&mut self, bus: &mut Bus) -> (val: u16)
        requires
            old(bus).wf(),
        ensures
            (mach(*final(self), final(bus)@), val) == mach(*old(self), old(bus)@).pop_word(),
            *final(self) == (Cpu { sp: super::add8(super::add8(old(self).sp, 1), 1), ..*old(self) }),
            final(bus).wf(),
            final(bus)@.same_clock(old(bus)@),
    {
        reveal(Machine::pop_word);
        let lo = self.pop(bus) as u16;
        let hi = self.pop(bus) as u16;
        (hi << 8) | lo
    }

    // ---- Flag helpers ----

    fn set_flag(&mut self, flag: u8, val: bool)
        ensures
            *final(self) == (Cpu { p: with_flag(old(self).p, flag, val), ..*old(self) }),
    {
        if val {
            self.p |= flag;
        } else {
            self.p &= !flag;
        }
    }

    fn set_zn(&mut self, val: u8)
        ensures
            *final(self) == (Cpu { p: with_zn(old(self).p, val), ..*old(self) }),
    {
        self.set_flag(FLAG_Z, val == 0);
        self.set_flag(FLAG_N, val & 0x80 != 0);
    }

    // ---- Addressing modes ----

    fn addr_imm(&mut self, _bus: &mut Bus) -> (r: (u16, bool))
        requires
            old(_bus).wf(),
        ensures
            (mach(*final(self), final(_bus)@), r.0, r.1) == mach(*old(self), old(_bus)@).resolve(Mode::Imm),
            final(_bus).wf(),
            final(_bus)@.same_clock(old(_bus)@),
    {
        reveal(Machine::resolve);
        let a = self.pc;
        self.pc = self.pc.wrapping_add(1);
        (a, false)
    }

    fn addr_zpg(&mut self, bus: &mut Bus) -> (r: (u16, bool))
        requires
            old(bus).wf(),
        ensures
            (mach(*final(self), final(bus)@), r.0, r.1) == mach(*old(self), old(bus)@).resolve(Mode::Zpg),
            final(bus).wf(),
            final(bus)@.same_clock(old(bus)@),
    {
        reveal(Machine::resolve);
        let a = self.read_pc(bus) as u16;
        (a, false)
    }

    fn addr_zpgx(&mut self, bus: &mut Bus) -> (r: (u16, bool))
        requires
            old(bus).wf(),
        ensures
            (mach(*final(self), final(bus)@), r.0, r.1) == mach(*old(self), old(bus)@).resolve(Mode::ZpgX),
            final(bus).wf(),
            final(bus)@.same_clock(old(bus)@),
    {
        reveal(Machine::resolve);
        let a = (self.read_pc(bus).wrapping_add(self.x)) as u16;
        (a, false)
    }

    fn addr_zpgy(&mut self, bus: &mut Bus) -> (r: (u16, bool))
        requires
            old(bus).wf(),
        ensures
            (mach(*final(self), final(bus)@), r.0, r.1) == mach(*old(self), old(bus)@).resolve(Mode::ZpgY),
            final(bus).wf(),
            final(bus)@.same_clock(old(bus)@),
    {
        reveal(Machine::resolve);
        let a = (self.read_pc(bus).wrapping_add(self.y)) as u16;
        (a, false)
    }

    fn addr_abs(&mut self, bus: &mut Bus) -> (r: (u16, bool))
        requires
            old(bus).wf(),
        ensures
            (mach(*final(self), final(bus)@), r.0, r.1) == mach(*old(self), old(bus)@).resolve(Mode::Abs),
            final(bus).wf(),
            final(bus)@.same_clock(old(bus)@),
    {
        reveal(Machine::resolve);
        let lo = self.read_pc(bus) as u16;
        let hi = self.read_pc(bus) as u16;
        ((hi << 8) | lo, false)
    }

    fn addr_absx(&mut self, bus: &mut Bus) -> (r: (u16, bool))
        requires
            old(bus).wf(),
        ensures
            (mach(*final(self), final(bus)@), r.0, r.1) == mach(*old(self), old(bus)@).resolve(Mode::AbsX),
            final(bus).wf(),
            final(bus)@.same_clock(old(bus)@),
    {
        reveal(Machine::resolve);
        let lo = self.read_pc(bus) as u16;
        let hi = self.read_pc(bus) as u16;
        let base = (hi << 8) | lo;
        let addr = base.wrapping_add(self.x as u16);
        let crossed = (base & 0xFF00) != (addr & 0xFF00);
        (addr, crossed)
    }

    fn addr_absy(&mut self, bus: &mut Bus) -> (r: (u16, bool))
        requires
            old(bus).wf(),
        ensures
            (mach(*final(self), final(bus)@), r.0, r.1) == mach(*old(self), old(bus)@).resolve(Mode::AbsY),
            final(bus).wf(),
            final(bus)@.same_clock(old(bus)@),
    {
        reveal(Machine::resolve);
        let lo = self.read_pc(bus) as u16;
        let hi = self.read_pc(bus) as u16;
        let base = (hi << 8) | lo;
        let addr = base.wrapping_add(self.y as u16);
        let crossed = (base & 0xFF00) != (addr & 0xFF00);
        (addr, crossed)
    }

    fn addr_indx(&mut self, bus: &mut Bus) -> (r: (u16, bool))
        requires
            old(bus).wf(),
        ensures
            (mach(*final(self), final(bus)@), r.0, r.1) == mach(*old(self), old(bus)@).resolve(Mode::IndX),
            final(bus).wf(),
            final(bus)@.same_clock(old(bus)@),
    {
        reveal(Machine::resolve);
        let zp = self.read_pc(bus).wrapping_add(self.x);
        let addr = self.read16_zp(bus, zp);
        (addr, false)
    }

    fn addr_indy(&mut self, bus: &mut Bus) -> (r: (u16, bool))
        requires
            old(bus).wf(),
        ensures
            (mach(*final(self), final(bus)@), r.0, r.1) == mach(*old(self), old(bus)@).resolve(Mode::IndY),
            final(bus).wf(),
            final(bus)@.same_clock(old(bus)@),
    {
        reveal(Machine::resolve);
        let zp = self.read_pc(bus);
        let base = self.read16_zp(bus, zp);
        let addr = base.wrapping_add(self.y as u16);
        let crossed = (base & 0xFF00) != (addr & 0xFF00);
        (addr, crossed)
    }

    /// Effective address for `mode`.
    fn resolve(&mut self, bus: &mut Bus, mode: Mode) -> (r: (u16, bool))
        requires
            old(bus).wf(),
        ensures
            (mach(*final(self), final(bus)@), r.0, r.1) == mach(*old(self), old(bus)@).resolve(mode),
            final(bus).wf(),
            final(bus)@.same_clock(old(bus)@),
    {
        match mode {
            Mode::Imm => self.addr_imm(bus),
            Mode::Zpg => self.addr_zpg(bus),
            Mode::ZpgX => self.addr_zpgx(bus),
            Mode::ZpgY => self.addr_zpgy(bus),
            Mode::Abs => self.addr_abs(bus),
            Mode::AbsX => self.addr_absx(bus),
            Mode::AbsY => self.addr_absy(bus),
            Mode::IndX => self.addr_indx(bus),
            Mode::IndY => self.addr_indy(bus),
        }
    }

    /// JMP (indirect), with the 6502 bug: the pointer's high byte is read
    /// from the start of the same page when the low byte is at $xxFF.
    fn addr_ind(&mut self, bus: &mut Bus) -> (r: (u16, bool))
        requires
            old(bus).wf(),
        ensures
            ({
                let (m1, lo) = mach(*old(self), old(bus)@).fetch();
                let (m2, hi) = m1.fetch();
                let ptr = super::word(lo, hi);
                let (m3, tlo) = m2.read(ptr);
                let (m4, thi) = m3.read((ptr & 0xFF00u16) | (super::add16(ptr, 1) & 0x00FFu16));
                mach(*final(self), final(bus)@) == m4 && r == (super::word(tlo, thi), false)
            }),
            final(bus).wf(),
            final(bus)@.same_clock(old(bus)@),
    {
        let lo = self.read_pc(bus) as u16;
        let hi = self.read_pc(bus) as u16;
        let ptr = (hi << 8) | lo;
        let addr_lo = bus.cpu_read(ptr) as u16;
        let addr_hi = bus.cpu_read((ptr & 0xFF00) | (ptr.wrapping_add(1) & 0x00FF)) as u16;
        ((addr_hi << 8) | addr_lo, false)
    }

    // ---- Branch helper ----

    /// Relative addressing: fetch the signed offset and add it to the PC
    /// after the operand; also whether the target is on another page.
    fn addr_rel(&mut self, bus: &mut Bus) -> (r: (u16, bool))
        requires
            old(bus).wf(),
        ensures
            ({
                let (m, off) = mach(*old(self), old(bus)@).fetch();
                &&& mach(*final(self), final(bus)@) == m
                &&& r.0 == super::rel_target(m.cpu.pc, off)
                &&& r.1 == super::page_crossed(m.cpu.pc, r.0)
            }),
            final(bus).wf(),
            final(bus)@.same_clock(old(bus)@),
    {
        let off = self.read_pc(bus);
        let pc = self.pc;
        let addr = if off < 128 { pc.wrapping_add(off as u16) } else { pc.wrapping_sub((256 - off as u16) as u16) };
        let crossed = (pc & 0xFF00) != (addr & 0xFF00);
        (addr, crossed)
    }

    fn branch(&mut self, bus: &mut Bus, condition: bool) -> (extra: u8)
        requires
            old(bus).wf(),
        ensures
            (mach(*final(self), final(bus)@), extra) == mach(*old(self), old(bus)@).spec_branch(condition),
            final(bus).wf(),
            final(bus)@.same_clock(old(bus)@),
            extra <= 2,
    {
        reveal(Machine::spec_branch);
        let (addr, crossed) = self.addr_rel(bus);
        if condition {
            self.pc = addr;
            if crossed { 2 } else { 1 }
        } else {
            0
        }
    }

    // ---- ALU helpers ----

    fn adc_impl(&mut self, val: u8)
        ensures
            *final(self) == spec_adc(*old(self), val),
    {
        let a = self.a as u16;
        let v = val as u16;
        let p = self.p;
        proof {
            crate::bits::lemma_byte_fields();
            assert(p & 0x01u8 <= 1);
        }
        let c = (self.p & FLAG_C) as u16;
        let result = a + v + c;
        self.set_flag(FLAG_C, result > 0xFF);
        self.set_flag(FLAG_V, (!(a ^ v) & (a ^ result) & 0x80) != 0);
        self.a = result as u8;
        self.set_zn(self.a);
    }

    fn cmp(&mut self, reg: u8, val: u8)
        ensures
            *final(self) == spec_cmp(*old(self), reg, val),
    {
        let result = reg.wrapping_sub(val);
        self.set_flag(FLAG_C, reg >= val);
        self.set_zn(result);
    }

    fn implied(&mut self, op: ImpliedOp)
        ensures
            *final(self) == spec_implied(*old(self), op),
    {
        match op {
            ImpliedOp::Tax => {
                self.x = self.a;
                self.set_zn(self.x);
            },
            ImpliedOp::Tay => {
                self.y = self.a;
                self.set_zn(self.y);
            },
            ImpliedOp::Tsx => {
                self.x = self.sp;
                self.set_zn(self.x);
            },
            ImpliedOp::Txa => {
                self.a = self.x;
                self.set_zn(self.a);
            },
            ImpliedOp::Txs => {
                self.sp = self.x;
            },
            ImpliedOp::Tya => {
                self.a = self.y;
                self.set_zn(self.a);
            },
            ImpliedOp::Inx => {
                self.x = self.x.wrapping_add(1);
                self.set_zn(self.x);
            },
            ImpliedOp::Iny => {
                self.y = self.y.wrapping_add(1);
                self.set_zn(self.y);
            },
            ImpliedOp::Dex => {
                self.x = self.x.wrapping_sub(1);
                self.set_zn(self.x);
            },
            ImpliedOp::Dey => {
                self.y = self.y.wrapping_sub(1);
                self.set_zn(self.y);
            },
            ImpliedOp::AslA => {
                self.set_flag(FLAG_C, self.a & 0x80 != 0);
                self.a = self.a << 1;
                self.set_zn(self.a);
            },
            ImpliedOp::LsrA => {
                self.set_flag(FLAG_C, self.a & 1 != 0);
                self.a = self.a >> 1;
                self.set_zn(self.a);
            },
            ImpliedOp::RolA => {
                let c = self.p & FLAG_C;
                self.set_flag(FLAG_C, self.a & 0x80 != 0);
                self.a = (self.a << 1) | c;
                self.set_zn(self.a);
            },
            ImpliedOp::RorA => {
                let c = (self.p & FLAG_C) << 7;
                self.set_flag(FLAG_C, self.a & 1 != 0);
                self.a = (self.a >> 1) | c;
                self.set_zn(self.a);
            },
            ImpliedOp::Clc => {
                self.p &= !FLAG_C;
            },
            ImpliedOp::Sec => {
                self.p |= FLAG_C;
            },
            ImpliedOp::Cli => {
                self.p &= !FLAG_I;
            },
            ImpliedOp::Sei => {
                self.p |= FLAG_I;
            },
            ImpliedOp::Clv => {
                self.p &= !FLAG_V;
            },
            ImpliedOp::Cld => {
                self.p &= !FLAG_D;
            },
            ImpliedOp::Sed => {
                self.p |= FLAG_D;
            },
            ImpliedOp::Nop => {},
        }
    }

    fn read_op(&mut self, bus: &mut Bus, op: ReadOp, addr: u16)
        requires
            old(bus).wf(),
        ensures
            mach(*final(self), final(bus)@) == mach(*old(self), old(bus)@).spec_read_op(op, addr),
            final(bus).wf(),
            final(bus)@.same_clock(old(bus)@),
    {
        reveal(Machine::spec_read_op);
        let v = bus.cpu_read(addr);
        match op {
            ReadOp::Lda => {
                self.a = v;
                self.set_zn(v);
            },
            ReadOp::Ldx => {
                self.x = v;
                self.set_zn(v);
            },
            ReadOp::Ldy => {
                self.y = v;
                self.set_zn(v);
            },
            ReadOp::Lax => {
                self.a = v;
                self.x = v;
                self.set_zn(v);
            },
            ReadOp::Adc => self.adc_impl(v),
            ReadOp::Sbc => self.adc_impl(v ^ 0xFF),
            ReadOp::And => {
                self.a &= v;
                self.set_zn(self.a);
            },
            ReadOp::Eor => {
                self.a ^= v;
                self.set_zn(self.a);
            },
            ReadOp::Ora => {
                self.a |= v;
                self.set_zn(self.a);
            },
            ReadOp::Cmp => self.cmp(self.a, v),
            ReadOp::Cpx => self.cmp(self.x, v),
            ReadOp::Cpy => self.cmp(self.y, v),
            ReadOp::Bit => {
                self.set_flag(FLAG_Z, self.a & v == 0);
                self.p = (self.p & 0x3F) | (v & 0xC0);
            },
        }
    }

    fn write_op(&mut self, bus: &mut Bus, op: WriteOp, addr: u16)
        requires
            old(bus).wf(),
        ensures
            mach(*final(self), final(bus)@) == mach(*old(self), old(bus)@).spec_write_op(op, addr),
            final(bus).wf(),
            final(bus)@.same_clock(old(bus)@),
    {
        reveal(Machine::spec_write_op);
        let v = match op {
            WriteOp::Sta => self.a,
            WriteOp::Stx => self.x,
            WriteOp::Sty => self.y,
            WriteOp::Sax => self.a & self.x,
        };
        bus.cpu_write(addr, v);
    }

    /// ASL, LSR, ROL or ROR on memory.
    fn shift_mem(&mut self, bus: &mut Bus, op: RmwOp, addr: u16)
        requires
            old(bus).wf(),
            op == RmwOp::Asl || op == RmwOp::Lsr || op == RmwOp::Rol || op == RmwOp::Ror,
        ensures
            mach(*final(self), final(bus)@) == mach(*old(self), old(bus)@).spec_rmw_op(op, addr),
            final(bus).wf(),
            final(bus)@.same_clock(old(bus)@),
    {
        match op {
            RmwOp::Asl => self.asl_mem(bus, addr),
            RmwOp::Lsr => self.lsr_mem(bus, addr),
            RmwOp::Rol => self.rol_mem(bus, addr),
            _ => self.ror_mem(bus, addr),
        }
    }

    fn rmw_op(&mut self, bus: &mut Bus, op: RmwOp, addr: u16)
        requires
            old(bus).wf(),
        ensures
            mach(*final(self), final(bus)@) == mach(*old(self), old(bus)@).spec_rmw_op(op, addr),
            final(bus).wf(),
            final(bus)@.same_clock(old(bus)@),
    {
        reveal(Machine::spec_rmw_op);
        match op {
            RmwOp::Inc => {
                let v = bus.cpu_read(addr).wrapping_add(1);
                bus.cpu_write(addr, v);
                self.set_zn(v);
            },
            RmwOp::Dec => {
                let v = bus.cpu_read(addr).wrapping_sub(1);
                bus.cpu_write(addr, v);
                self.set_zn(v);
            },
            RmwOp::Dcp => {
                let v = bus.cpu_read(addr).wrapping_sub(1);
                bus.cpu_write(addr, v);
                self.cmp(self.a, v);
            },
            RmwOp::Isb => {
                let v = bus.cpu_read(addr).wrapping_add(1);
                bus.cpu_write(addr, v);
                self.adc_impl(v ^ 0xFF);
            },
            RmwOp::Asl => self.asl_mem(bus, addr),
            RmwOp::Lsr => self.lsr_mem(bus, addr),
            RmwOp::Rol => self.rol_mem(bus, addr),
            RmwOp::Ror => self.ror_mem(bus, addr),
            RmwOp::Slo => self.slo(bus, addr),
            RmwOp::Rla => self.rla(bus, addr),
            RmwOp::Sre => self.sre(bus, addr),
            RmwOp::Rra => self.rra(bus, addr),
        }
    }

    fn asl_mem(&mut self, bus: &mut Bus, addr: u16)
        requires
            old(bus).wf(),
        ensures
            mach(*final(self), final(bus)@) == mach(*old(self), old(bus)@).spec_rmw_op(RmwOp::Asl, addr),
            final(bus).wf(),
            final(bus)@.same_clock(old(bus)@),
    {
        reveal(Machine::spec_rmw_op);
        let v = bus.cpu_read(addr);
        self.set_flag(FLAG_C, v & 0x80 != 0);
        let r = v << 1;
        bus.cpu_write(addr, r);
        self.set_zn(r);
    }

    fn lsr_mem(&mut self, bus: &mut Bus, addr: u16)
        requires
            old(bus).wf(),
        ensures
            mach(*final(self), final(bus)@) == mach(*old(self), old(bus)@).spec_rmw_op(RmwOp::Lsr, addr),
            final(bus).wf(),
            final(bus)@.same_clock(old(bus)@),
    {
        reveal(Machine::spec_rmw_op);
        let v = bus.cpu_read(addr);
        self.set_flag(FLAG_C, v & 1 != 0);
        let r = v >> 1;
        bus.cpu_write(addr, r);
        self.set_zn(r);
    }

    fn rol_mem(&mut self, bus: &mut Bus, addr: u16)
        requires
            old(bus).wf(),
        ensures
            mach(*final(self), final(bus)@) == mach(*old(self), old(bus)@).spec_rmw_op(RmwOp::Rol, addr),
            final(bus).wf(),
            final(bus)@.same_clock(old(bus)@),
    {
        reveal(Machine::spec_rmw_op);
        let v = bus.cpu_read(addr);
        let c = self.p & FLAG_C;
        self.set_flag(FLAG_C, v & 0x80 != 0);
        let r = (v << 1) | c;
        bus.cpu_write(addr, r);
        self.set_zn(r);
    }

    fn ror_mem(&mut self, bus: &mut Bus, addr: u16)
        requires
            old(bus).wf(),
        ensures
            mach(*final(self), final(bus)@) == mach(*old(self), old(bus)@).spec_rmw_op(RmwOp::Ror, addr),
            final(bus).wf(),
            final(bus)@.same_clock(old(bus)@),
    {
        reveal(Machine::spec_rmw_op);
        let v = bus.cpu_read(addr);
        let c = (self.p & FLAG_C) << 7;
        self.set_flag(FLAG_C, v & 1 != 0);
        let r = (v >> 1) | c;
        bus.cpu_write(addr, r);
        self.set_zn(r);
    }

    fn slo(&mut self, bus: &mut Bus, addr: u16)
        requires
            old(bus).wf(),
        ensures
            mach(*final(self), final(bus)@) == mach(*old(self), old(bus)@).spec_rmw_op(RmwOp::Slo, addr),
            final(bus).wf(),
            final(bus)@.same_clock(old(bus)@),
    {
        reveal(Machine::spec_rmw_op);
        self.asl_mem(bus, addr);
        self.a |= bus.cpu_read(addr);
        self.set_zn(self.a);
    }

    fn rla(&mut self, bus: &mut Bus, addr: u16)
        requires
            old(bus).wf(),
        ensures
            mach(*final(self), final(bus)@) == mach(*old(self), old(bus)@).spec_rmw_op(RmwOp::Rla, addr),
            final(bus).wf(),
            final(bus)@.same_clock(old(bus)@),
    {
        reveal(Machine::spec_rmw_op);
        self.rol_mem(bus, addr);
        self.a &= bus.cpu_read(addr);
        self.set_zn(self.a);
    }

    fn sre(&mut self, bus: &mut Bus, addr: u16)
        requires
            old(bus).wf(),
        ensures
            mach(*final(self), final(bus)@) == mach(*old(self), old(bus)@).spec_rmw_op(RmwOp::Sre, addr),
            final(bus).wf(),
            final(bus)@.same_clock(old(bus)@),
    {
        reveal(Machine::spec_rmw_op);
        self.lsr_mem(bus, addr);
        self.a ^= bus.cpu_read(addr);
        self.set_zn(self.a);
    }

    fn rra(&mut self, bus: &mut Bus, addr: u16)
        requires
            old(bus).wf(),
        ensures
            mach(*final(self), final(bus)@) == mach(*old(self), old(bus)@).spec_rmw_op(RmwOp::Rra, addr),
            final(bus).wf(),
            final(bus)@.same_clock(old(bus)@),
    {
        reveal(Machine::spec_rmw_op);
        self.ror_mem(bus, addr);
        let v = bus.cpu_read(addr);
        self.adc_impl(v);
    }

    // ---- Dispatch ----

    fn execute(&mut self, op: u8, bus: &mut Bus) -> (cycles: u8)
        requires
            old(bus).wf(),
        ensures
            (mach(*final(self), final(bus)@), cycles) == mach(*old(self), old(bus)@).spec_execute(decode(op)),
            final(bus).wf(),
            final(bus)@.same_clock(old(bus)@),
            2 <= cycles <= 8,
    {
        let instr = decode_op(op);
        match instr {
            Instr::Read(..) | Instr::Write(..) | Instr::Rmw(..) | Instr::Implied(..) => self.execute_data(bus, instr),
            _ => self.execute_control(bus, instr),
        }
    }

    /// Loads, stores, ALU and read-modify-write instructions.
    fn execute_data(&mut self, bus: &mut Bus, instr: Instr) -> (cycles: u8)
        requires
            old(bus).wf(),
            instr is Read || instr is Write || instr is Rmw || instr is Implied,
            instr matches Instr::Read(_, _, c) ==> 2 <= c <= 6,
            instr matches Instr::Write(_, _, c) ==> 3 <= c <= 6,
            instr matches Instr::Rmw(_, _, c) ==> 5 <= c <= 8,
        ensures
            (mach(*final(self), final(bus)@), cycles) == mach(*old(self), old(bus)@).spec_execute(instr),
            final(bus).wf(),
            final(bus)@.same_clock(old(bus)@),
            2 <= cycles <= 8,
    {
        match instr {
            Instr::Read(o, mode, cycles) => {
                let (a, crossed) = self.resolve(bus, mode);
                self.read_op(bus, o, a);
                if crossed { cycles + 1 } else { cycles }
            },
            Instr::Write(o, mode, cycles) => {
                let (a, _) = self.resolve(bus, mode);
                self.write_op(bus, o, a);
                cycles
            },
            Instr::Rmw(o, mode, cycles) => {
                let (a, _) = self.resolve(bus, mode);
                self.rmw_op(bus, o, a);
                cycles
            },
            Instr::Implied(o) => {
                self.implied(o);
                2
            },
            _ => 2,
        }
    }

    /// Stack operations, branches, jumps and the NOP forms.
    fn execute_control(&mut self, bus: &mut Bus, instr: Instr) -> (cycles: u8)
        requires
            old(bus).wf(),
            !(instr is Read || instr is Write || instr is Rmw || instr is Implied),
            instr matches Instr::Skip(_, c) ==> 2 <= c <= 4,
        ensures
            (mach(*final(self), final(bus)@), cycles) == mach(*old(self), old(bus)@).spec_execute(instr),
            final(bus).wf(),
            final(bus)@.same_clock(old(bus)@),
            2 <= cycles <= 8,
    {
        match instr {
            Instr::Pha => self.op_pha(bus),
            Instr::Php => self.op_php(bus),
            Instr::Pla => self.op_pla(bus),
            Instr::Plp => self.op_plp(bus),
            Instr::Branch(flag, set) => self.op_branch(bus, flag, set),
            Instr::JmpAbs => self.op_jmpabs(bus),
            Instr::JmpInd => self.op_jmpind(bus),
            Instr::Jsr => self.op_jsr(bus),
            Instr::Rts => self.op_rts(bus),
            Instr::Rti => self.op_rti(bus),
            Instr::Brk => self.op_brk(bus),
            Instr::Skip(bytes, cycles) => self.op_skip(bytes, cycles),
            _ => 2,
        }
    }

    fn op_branch(&mut self, bus: &mut Bus, flag: u8, set: bool) -> (cycles: u8)
        requires
            old(bus).wf(),
        ensures
            (mach(*final(self), final(bus)@), cycles) == mach(*old(self), old(bus)@).spec_execute(Instr::Branch(flag, set)),
            final(bus).wf(),
            final(bus)@.same_clock(old(bus)@),
            2 <= cycles <= 4,
    {
        reveal(Machine::spec_branch_instr);
        2 + self.branch(bus, (self.p & flag != 0) == set)
    }

    fn op_skip(&mut self, bytes: u16, cycles: u8) -> (r: u8)
        ensures
            forall|b: crate::bus::BusView| (#[trigger] mach(*final(self), b), r) == mach(*old(self), b).spec_execute(Instr::Skip(bytes, cycles)),
            r == cycles,
    {
        self.pc = self.pc.wrapping_add(bytes);
        cycles
    }

    /// push A.
    fn op_pha(&mut self, bus: &mut Bus) -> (cycles: u8)
        requires
            old(bus).wf(),
        ensures
            (mach(*final(self), final(bus)@), cycles) == mach(*old(self), old(bus)@).spec_execute(Instr::Pha),
            final(bus).wf(),
            final(bus)@.same_clock(old(bus)@),
            2 <= cycles <= 8,
    {
        reveal(Machine::spec_pha);
        self.push(bus, self.a);
        3
    }

    /// push P with B and U set.
    fn op_php(&mut self, bus: &mut Bus) -> (cycles: u8)
        requires
            old(bus).wf(),
        ensures
            (mach(*final(self), final(bus)@), cycles) == mach(*old(self), old(bus)@).spec_execute(Instr::Php),
            final(bus).wf(),
            final(bus)@.same_clock(old(bus)@),
            2 <= cycles <= 8,
    {
        reveal(Machine::spec_php);
        self.push(bus, self.p | FLAG_B | FLAG_U);
        3
    }

    /// pull A.
    fn op_pla(&mut self, bus: &mut Bus) -> (cycles: u8)
        requires
            old(bus).wf(),
        ensures
            (mach(*final(self), final(bus)@), cycles) == mach(*old(self), old(bus)@).spec_execute(Instr::Pla),
            final(bus).wf(),
            final(bus)@.same_clock(old(bus)@),
            2 <= cycles <= 8,
    {
        reveal(Machine::spec_pla);
        self.a = self.pop(bus);
        self.set_zn(self.a);
        4
    }

    /// pull P (B cleared, U set).
    fn op_plp(&mut self, bus: &mut Bus) -> (cycles: u8)
        requires
            old(bus).wf(),
        ensures
            (mach(*final(self), final(bus)@), cycles) == mach(*old(self), old(bus)@).spec_execute(Instr::Plp),
            final(bus).wf(),
            final(bus)@.same_clock(old(bus)@),
            2 <= cycles <= 8,
    {
        reveal(Machine::spec_plp);
        self.p = (self.pop(bus) | FLAG_U) & !FLAG_B;
        4
    }

    /// JMP absolute.
    fn op_jmpabs(&mut self, bus: &mut Bus) -> (cycles: u8)
        requires
            old(bus).wf(),
        ensures
            (mach(*final(self), final(bus)@), cycles) == mach(*old(self), old(bus)@).spec_execute(Instr::JmpAbs),
            final(bus).wf(),
            final(bus)@.same_clock(old(bus)@),
            2 <= cycles <= 8,
    {
        reveal(Machine::spec_jmp_abs);
        let (a, _) = self.addr_abs(bus);
        self.pc = a;
        3
    }

    /// JMP indirect.
    fn op_jmpind(&mut self, bus: &mut Bus) -> (cycles: u8)
        requires
            old(bus).wf(),
        ensures
            (mach(*final(self), final(bus)@), cycles) == mach(*old(self), old(bus)@).spec_execute(Instr::JmpInd),
            final(bus).wf(),
            final(bus)@.same_clock(old(bus)@),
            2 <= cycles <= 8,
    {
        reveal(Machine::spec_jmp_ind);
        let (a, _) = self.addr_ind(bus);
        self.pc = a;
        5
    }

    /// JSR: push the address of the operand's high byte, then jump.
    fn op_jsr(&mut self, bus: &mut Bus) -> (cycles: u8)
        requires
            old(bus).wf(),
        ensures
            (mach(*final(self), final(bus)@), cycles) == mach(*old(self), old(bus)@).spec_execute(Instr::Jsr),
            final(bus).wf(),
            final(bus)@.same_clock(old(bus)@),
            2 <= cycles <= 8,
    {
        reveal(Machine::spec_jsr);
        let lo = self.read_pc(bus) as u16;
        self.push_word(bus, self.pc);
        let hi = bus.cpu_read(self.pc) as u16;
        self.pc = (hi << 8) | lo;
        6
    }

    /// RTS.
    fn op_rts(&mut self, bus: &mut Bus) -> (cycles: u8)
        requires
            old(bus).wf(),
        ensures
            (mach(*final(self), final(bus)@), cycles) == mach(*old(self), old(bus)@).spec_execute(Instr::Rts),
            final(bus).wf(),
            final(bus)@.same_clock(old(bus)@),
            2 <= cycles <= 8,
    {
        reveal(Machine::spec_rts);
        let a = self.pop_word(bus);
        self.pc = a.wrapping_add(1);
        6
    }

    /// RTI.
    fn op_rti(&mut self, bus: &mut Bus) -> (cycles: u8)
        requires
            old(bus).wf(),
        ensures
            (mach(*final(self), final(bus)@), cycles) == mach(*old(self), old(bus)@).spec_execute(Instr::Rti),
            final(bus).wf(),
            final(bus)@.same_clock(old(bus)@),
            2 <= cycles <= 8,
    {
        reveal(Machine::spec_rti);
        self.p = self.pop(bus) | FLAG_U;
        self.p &= !FLAG_B;
        let a = self.pop_word(bus);
        self.pc = a;
        6
    }

    /// BRK.
    fn op_brk(&mut self, bus: &mut Bus) -> (cycles: u8)
        requires
            old(bus).wf(),
        ensures
            (mach(*final(self), final(bus)@), cycles) == mach(*old(self), old(bus)@).spec_execute(Instr::Brk),
            final(bus).wf(),
            final(bus)@.same_clock(old(bus)@),
            2 <= cycles <= 8,
    {
        reveal(Machine::spec_brk);
        self.pc = self.pc.wrapping_add(1);
        self.push_word(bus, self.pc);
        self.push(bus, self.p | FLAG_B | FLAG_U);
        self.p |= FLAG_I;
        self.pc = self.read16(bus, 0xFFFE);
        7
    }

}

impl Default for Cpu {
    fn default() -> (c: Self)
        ensures
            c == Cpu::spec_new(),
    {
        Self::new()
    }
}

} // verus!
