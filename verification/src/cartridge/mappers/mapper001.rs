use vstd::prelude::*;

use super::{MappedAddr, Mapper};
use crate::cartridge::Mirroring;

verus! {

/// MMC1: a 5-bit serial shift register loads four internal registers that
/// select PRG and CHR banks and the nametable mirroring.
pub struct Mapper001 {
    pub shift: u8,
    pub shift_count: u8,
    pub control: u8,
    pub chr_bank0: u8,
    pub chr_bank1: u8,
    pub prg_bank: u8,
    pub prg_banks: u8,
    pub chr_banks: u8,
    pub base_mirroring: Mirroring,
}

/// The offsets within their 16 KB halves of $8000 + o and $C000 + o.
proof fn lemma_prg_offsets(o: u16)
    by (bit_vector)
    requires
        o < 0x4000,
    ensures
        ((0x8000 + o) as u16 & 0x3FFFu16) == o,
        ((0xC000 + o) as u16 & 0x3FFFu16) == o,
        ((0x8000 + o) as u16) >= 0x8000,
        ((0x8000 + o) as u16) < 0xC000,
        ((0xC000 + o) as u16) >= 0xC000,
{
}

impl Mapper001 {
    /// Fewer than five bits have been shifted in.
    pub open spec fn wf(self) -> bool {
        self.shift_count < 5
    }

    pub open spec fn spec_new(prg_banks: u8, chr_banks: u8, mirroring: Mirroring) -> Mapper001 {
        Mapper001 {
            shift: 0x10,
            shift_count: 0,
            control: 0x0C,
            chr_bank0: 0,
            chr_bank1: 0,
            prg_bank: 0,
            prg_banks,
            chr_banks,
            base_mirroring: mirroring,
        }
    }

    /// A serial write to $8000-$FFFF. Bit 7 set resets the shift register and
    /// selects the fix-last PRG mode; otherwise bit 0 is shifted in, and the
    /// fifth write stores the collected value in the register that address
    /// bits 13-14 select.
    pub open spec fn spec_write_register(self, addr: u16, val: u8) -> Mapper001 {
        if val & 0x80u8 != 0 {
            Mapper001 { shift: 0x10, shift_count: 0, control: self.control | 0x0Cu8, ..self }
        } else {
            let shift = (self.shift >> 1u8) | ((val & 1u8) << 4u8);
            let count = self.shift_count + 1;
            if count == 5 {
                let reg = (addr >> 13u16) & 0x3u16;
                let m = Mapper001 { shift: 0x10, shift_count: 0, ..self };
                if reg == 0 {
                    Mapper001 { control: shift & 0x1Fu8, ..m }
                } else if reg == 1 {
                    Mapper001 { chr_bank0: shift & 0x1Fu8, ..m }
                } else if reg == 2 {
                    Mapper001 { chr_bank1: shift & 0x1Fu8, ..m }
                } else {
                    Mapper001 { prg_bank: shift & 0x0Fu8, ..m }
                }
            } else {
                Mapper001 { shift, shift_count: count as u8, ..self }
            }
        }
    }

    pub open spec fn spec_prg_mode(self) -> u8 {
        (self.control >> 2u8) & 0x3u8
    }

    pub open spec fn spec_chr_mode(self) -> u8 {
        (self.control >> 4u8) & 0x1u8
    }

    /// The PRG bank mapped at `addr` ($8000-$FFFF).
    pub open spec fn spec_prg_bank_at(self, addr: u16) -> int {
        let last = (if self.prg_banks == 0 { 255 } else { self.prg_banks - 1 }) as int;
        let mode = self.spec_prg_mode();
        if mode == 0 || mode == 1 {
            let b = (self.prg_bank & 0xFEu8) as int;
            if addr < 0xC000 { b } else { b + 1 }
        } else if mode == 2 {
            if addr < 0xC000 { 0 } else { self.prg_bank as int }
        } else {
            if addr < 0xC000 { self.prg_bank as int } else { last }
        }
    }

    /// Serial-load law: from an empty shift register, five writes with bit 7
    /// clear load the register that the write address selects with the five
    /// written bit-0 values, the first write's in bit 0 (PRG bank: the low four
    /// bits), and leave the shift register empty again.
    pub proof fn lemma_serial_load(self, addr: u16, v0: u8, v1: u8, v2: u8, v3: u8, v4: u8)
        requires
            self.shift == 0x10,
            self.shift_count == 0,
            v0 & 0x80u8 == 0,
            v1 & 0x80u8 == 0,
            v2 & 0x80u8 == 0,
            v3 & 0x80u8 == 0,
            v4 & 0x80u8 == 0,
        ensures
            ({
                let m = self.spec_write_register(addr, v0).spec_write_register(addr, v1)
                    .spec_write_register(addr, v2).spec_write_register(addr, v3)
                    .spec_write_register(addr, v4);
                let value = (v0 & 1u8) | ((v1 & 1u8) << 1u8) | ((v2 & 1u8) << 2u8) | ((v3 & 1u8) << 3u8)
                    | ((v4 & 1u8) << 4u8);
                let reg = (addr >> 13u16) & 0x3u16;
                &&& m.shift == 0x10 && m.shift_count == 0
                &&& reg == 0 ==> m.control == value
                &&& reg == 1 ==> m.chr_bank0 == value
                &&& reg == 2 ==> m.chr_bank1 == value
                &&& reg == 3 ==> m.prg_bank == value & 0x0Fu8
            }),
    {
        let s1 = (0x10u8 >> 1u8) | ((v0 & 1u8) << 4u8);
        let s2 = (s1 >> 1u8) | ((v1 & 1u8) << 4u8);
        let s3 = (s2 >> 1u8) | ((v2 & 1u8) << 4u8);
        let s4 = (s3 >> 1u8) | ((v3 & 1u8) << 4u8);
        let s5 = (s4 >> 1u8) | ((v4 & 1u8) << 4u8);
        let value = (v0 & 1u8) | ((v1 & 1u8) << 1u8) | ((v2 & 1u8) << 2u8) | ((v3 & 1u8) << 3u8)
            | ((v4 & 1u8) << 4u8);
        assert(s5 & 0x1Fu8 == value && value & 0x0Fu8 == s5 & 0x0Fu8) by (bit_vector)
            requires
                s1 == (0x10u8 >> 1u8) | ((v0 & 1u8) << 4u8),
                s2 == (s1 >> 1u8) | ((v1 & 1u8) << 4u8),
                s3 == (s2 >> 1u8) | ((v2 & 1u8) << 4u8),
                s4 == (s3 >> 1u8) | ((v3 & 1u8) << 4u8),
                s5 == (s4 >> 1u8) | ((v4 & 1u8) << 4u8),
                value == (v0 & 1u8) | ((v1 & 1u8) << 1u8) | ((v2 & 1u8) << 2u8) | ((v3 & 1u8) << 3u8)
                    | ((v4 & 1u8) << 4u8),
        ;
    }

    /// Reset law: a write with bit 7 set empties the shift register and fixes
    /// the last PRG bank at $C000-$FFFF.
    pub proof fn lemma_reset_fixes_last_bank(self, addr: u16, val: u8, at: u16)
        requires
            val & 0x80u8 != 0,
            at >= 0xC000,
        ensures
            self.spec_write_register(addr, val).shift_count == 0,
            self.spec_write_register(addr, val).shift == 0x10,
            self.spec_write_register(addr, val).spec_prg_bank_at(at)
                == (if self.prg_banks == 0 { 255 } else { self.prg_banks - 1 }),
    {
        let c = self.control;
        assert((((c | 0x0Cu8) >> 2u8) & 0x3u8) == 3u8) by (bit_vector);
    }

    /// PRG banking law. With `o` an offset within 16 KB:
    /// - in modes 0 and 1 (control bits 2-3), $8000-$FFFF is one contiguous
    ///   32 KB window: $8000 + o reads PRG byte `(prg_bank & !1) * 16K + o` and
    ///   $C000 + o the byte 16 KB after it;
    /// - in mode 2, $8000 + o reads bank 0 and $C000 + o the selected bank;
    /// - in mode 3, $8000 + o reads the selected bank and $C000 + o the last.
    pub proof fn lemma_prg_banking(self, o: u16)
        requires
            o < 0x4000,
        ensures
            ({
                let mode = (self.control >> 2u8) & 0x3u8;
                let lo = self.spec_cpu_map_read((0x8000 + o) as u16);
                let hi = self.spec_cpu_map_read((0xC000 + o) as u16);
                let last = if self.prg_banks == 0 { 255 } else { self.prg_banks - 1 };
                let b = (self.prg_bank & 0xFEu8) as int;
                &&& mode <= 1 ==> lo == MappedAddr::PrgRom((b * 0x4000 + o) as usize)
                &&& mode <= 1 ==> hi == MappedAddr::PrgRom((b * 0x4000 + 0x4000 + o) as usize)
                &&& mode == 2 ==> lo == MappedAddr::PrgRom(o as usize)
                &&& mode == 2 ==> hi == MappedAddr::PrgRom((self.prg_bank * 0x4000 + o) as usize)
                &&& mode == 3 ==> lo == MappedAddr::PrgRom((self.prg_bank * 0x4000 + o) as usize)
                &&& mode == 3 ==> hi == MappedAddr::PrgRom((last * 0x4000 + o) as usize)
            }),
    {
        lemma_prg_offsets(o);
        let c = self.control;
        assert((c >> 2u8) & 0x3u8 <= 3) by {
            crate::bits::lemma_byte_fields();
        }
    }

    /// CHR banking law. With `o` an offset within 4 KB:
    /// - with CHR RAM (no CHR banks) the pattern tables are not banked:
    ///   $0000 + o and $1000 + o map to themselves;
    /// - with control bit 4 clear, $0000-$1FFF is one contiguous 8 KB window
    ///   at `(chr_bank0 & !1) * 8K`;
    /// - with control bit 4 set, $0000 + o reads the 4 KB bank `chr_bank0`
    ///   and $1000 + o the 4 KB bank `chr_bank1`.
    /// PPU addresses repeat every 8 KB.
    pub proof fn lemma_chr_banking(self, o: u16, addr: u16)
        requires
            o < 0x1000,
        ensures
            ({
                let lo = self.spec_ppu_map_read(o) as int;
                let hi = self.spec_ppu_map_read((0x1000 + o) as u16) as int;
                let b = (self.chr_bank0 & 0xFEu8) as int;
                &&& self.chr_banks == 0 ==> lo == o && hi == 0x1000 + o
                &&& (self.chr_banks != 0 && self.control & 0x10u8 == 0) ==> lo == b * 0x2000 + o
                    && hi == b * 0x2000 + 0x1000 + o
                &&& (self.chr_banks != 0 && self.control & 0x10u8 != 0) ==> lo == self.chr_bank0 * 0x1000 + o
                    && hi == self.chr_bank1 * 0x1000 + o
            }),
            self.spec_ppu_map_read(addr) == self.spec_ppu_map_read(addr & 0x1FFFu16),
    {
        let c = self.control;
        assert(((c >> 4u8) & 0x1u8 == 0) == (c & 0x10u8 == 0)) by (bit_vector);
        assert(o & 0x1FFFu16 == o && ((0x1000 + o) as u16) & 0x1FFFu16 == 0x1000 + o
            && (((0x1000 + o) as u16) & 0x1FFFu16) & 0x0FFFu16 == o && ((0x1000 + o) as u16) >= 0x1000)
            by (bit_vector)
            requires
                o < 0x1000,
        ;
        assert((addr & 0x1FFFu16) & 0x1FFFu16 == addr & 0x1FFFu16) by (bit_vector);
    }

    /// Mirroring law: control bits 0-1 select the name-table arrangement:
    /// 0 one screen (lower bank), 1 one screen (upper bank), 2 vertical,
    /// 3 horizontal.
    pub proof fn lemma_mirroring_select(self)
        ensures
            (self.control & 0x3u8 == 0) ==> self.spec_mirroring() == Mirroring::SingleScreenLow,
            (self.control & 0x3u8 == 1) ==> self.spec_mirroring() == Mirroring::SingleScreenHigh,
            (self.control & 0x3u8 == 2) ==> self.spec_mirroring() == Mirroring::Vertical,
            (self.control & 0x3u8 == 3) ==> self.spec_mirroring() == Mirroring::Horizontal,
    {
    }

    pub fn new(prg_banks: u8, chr_banks: u8, mirroring: Mirroring) -> (m: Self)
        ensures
            m == Mapper001::spec_new(prg_banks, chr_banks, mirroring),
            m.wf(),
    {
        Mapper001 {
            shift: 0x10,
            shift_count: 0,
            control: 0x0C,
            chr_bank0: 0,
            chr_bank1: 0,
            prg_bank: 0,
            prg_banks,
            chr_banks,
            base_mirroring: mirroring,
        }
    }

    fn write_register(&mut self, addr: u16, val: u8)
        requires
            old(self).wf(),
        ensures
            *final(self) == old(self).spec_write_register(addr, val),
            final(self).wf(),
    {
        if val & 0x80 != 0 {
            self.shift = 0x10;
            self.shift_count = 0;
            self.control |= 0x0C;
            return;
        }
        self.shift = (self.shift >> 1) | ((val & 1) << 4);
        self.shift_count += 1;
        if self.shift_count == 5 {
            let reg = (addr >> 13) & 0x3;
            if reg == 0 {
                self.control = self.shift & 0x1F;
            } else if reg == 1 {
                self.chr_bank0 = self.shift & 0x1F;
            } else if reg == 2 {
                self.chr_bank1 = self.shift & 0x1F;
            } else {
                self.prg_bank = self.shift & 0x0F;
            }
            self.shift = 0x10;
            self.shift_count = 0;
        }
    }

    fn prg_mode(&self) -> (m: u8)
        ensures
            m == self.spec_prg_mode(),
    {
        (self.control >> 2) & 0x3
    }

    fn chr_mode(&self) -> (m: u8)
        ensures
            m == self.spec_chr_mode(),
    {
        (self.control >> 4) & 0x1
    }
}

impl Mapper for Mapper001 {
    open spec fn spec_cpu_map_read(&self, addr: u16) -> MappedAddr {
        if addr >= 0x6000 && addr < 0x8000 {
            MappedAddr::PrgRam((addr & 0x1FFFu16) as usize)
        } else if addr < 0x8000 {
            MappedAddr::Unmapped
        } else {
            MappedAddr::PrgRom((self.spec_prg_bank_at(addr) * 0x4000 + (addr & 0x3FFFu16)) as usize)
        }
    }

    open spec fn spec_cpu_map_write(&self, addr: u16, val: u8) -> (Mapper001, MappedAddr) {
        if addr >= 0x6000 && addr < 0x8000 {
            (*self, MappedAddr::PrgRam((addr & 0x1FFFu16) as usize))
        } else if addr >= 0x8000 {
            (self.spec_write_register(addr, val), MappedAddr::Unmapped)
        } else {
            (*self, MappedAddr::Unmapped)
        }
    }

    open spec fn spec_ppu_map_read(&self, addr: u16) -> usize {
        let a = addr & 0x1FFFu16;
        if self.chr_banks == 0 {
            a as usize
        } else if self.spec_chr_mode() == 0 {
            ((self.chr_bank0 & 0xFEu8) as int * 0x2000 + a) as usize
        } else if a < 0x1000 {
            (self.chr_bank0 as int * 0x1000 + a) as usize
        } else {
            (self.chr_bank1 as int * 0x1000 + (a & 0x0FFFu16)) as usize
        }
    }

    open spec fn spec_ppu_map_write(&self, addr: u16) -> (Mapper001, usize) {
        (*self, (addr & 0x1FFFu16) as usize)
    }

    open spec fn spec_mirroring(&self) -> Mirroring {
        let c = self.control & 0x3u8;
        if c == 0 {
            Mirroring::SingleScreenLow
        } else if c == 1 {
            Mirroring::SingleScreenHigh
        } else if c == 2 {
            Mirroring::Vertical
        } else {
            Mirroring::Horizontal
        }
    }

    open spec fn spec_irq_active(&self) -> bool {
        false
    }

    open spec fn spec_irq_clear(&self) -> Mapper001 {
        *self
    }

    open spec fn inv(&self) -> bool {
        self.wf()
    }

    fn cpu_map_read(&self, addr: u16) -> (r: MappedAddr) {
        if addr >= 0x6000 && addr < 0x8000 {
            return MappedAddr::PrgRam((addr & 0x1FFF) as usize);
        }
        if addr < 0x8000 {
            return MappedAddr::Unmapped;
        }
        let last = self.prg_banks.wrapping_sub(1) as usize;
        let mode = self.prg_mode();
        let bank: usize = if mode == 0 || mode == 1 {
            let b = (self.prg_bank & 0xFE) as usize;
            if addr < 0xC000 { b } else { b + 1 }
        } else if mode == 2 {
            if addr < 0xC000 { 0 } else { self.prg_bank as usize }
        } else {
            proof {
                let c = self.control;
                crate::bits::lemma_byte_fields();
                assert((c >> 2u8) & 0x3u8 <= 3);
            }
            if addr < 0xC000 { self.prg_bank as usize } else { last }
        };
        let offset = (addr & 0x3FFF) as usize;
        MappedAddr::PrgRom((bank * 0x4000) + offset)
    }

    fn cpu_map_write(&mut self, addr: u16, val: u8) -> (r: MappedAddr) {
        if addr >= 0x6000 && addr < 0x8000 {
            return MappedAddr::PrgRam((addr & 0x1FFF) as usize);
        }
        if addr >= 0x8000 {
            self.write_register(addr, val);
        }
        MappedAddr::Unmapped
    }

    fn ppu_map_read(&self, addr: u16) -> (r: usize) {
        let addr = addr & 0x1FFF;
        if self.chr_banks == 0 {
            return addr as usize;
        }
        if self.chr_mode() == 0 {
            let bank = (self.chr_bank0 & 0xFE) as usize;
            (bank * 0x2000) + addr as usize
        } else {
            if addr < 0x1000 {
                (self.chr_bank0 as usize * 0x1000) + addr as usize
            } else {
                (self.chr_bank1 as usize * 0x1000) + (addr & 0x0FFF) as usize
            }
        }
    }

    fn ppu_map_write(&mut self, addr: u16) -> (r: usize) {
        (addr & 0x1FFF) as usize
    }

    fn mirroring(&self) -> (m: Mirroring) {
        let c = self.control & 0x3;
        proof {
            let cc = self.control;
            crate::bits::lemma_byte_fields();
            assert(cc & 0x3u8 <= 3);
        }
        if c == 0 {
            Mirroring::SingleScreenLow
        } else if c == 1 {
            Mirroring::SingleScreenHigh
        } else if c == 2 {
            Mirroring::Vertical
        } else {
            Mirroring::Horizontal
        }
    }

    fn irq_active(&self) -> (b: bool) {
        false
    }

    fn irq_clear(&mut self) {
    }
}

} // verus!
