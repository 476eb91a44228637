use vstd::prelude::*;

use super::{MappedAddr, Mapper};
use crate::cartridge::Mirroring;

verus! {

/// NROM: no bank switching. 16 KB of PRG ROM is mirrored into both halves
/// of $8000-$FFFF; 32 KB fills it.
pub struct Mapper000 {
    /// 1 = 16 KB mirrored, 2 = 32 KB.
    pub prg_banks: u8,
    pub mirroring: Mirroring,
}

impl Mapper000 {
    pub fn new(prg_banks: u8, _chr_banks: u8, mirroring: Mirroring) -> (m: Self)
        ensures
            m == (Mapper000 { prg_banks, mirroring }),
    {
        Mapper000 { prg_banks, mirroring }
    }

    /// Mirroring law: with a single 16 KB PRG bank, $C000-$FFFF shows the
    /// same bytes as $8000-$BFFF.
    pub proof fn lemma_prg_mirror(self, offset: u16)
        requires
            self.prg_banks <= 1,
            offset < 0x4000,
        ensures
            self.spec_cpu_map_read((0x8000 + offset) as u16) == self.spec_cpu_map_read((0xC000 + offset) as u16),
    {
        let o = offset;
        assert(((0x8000 + o) as u16 & 0x3FFFu16) == ((0xC000 + o) as u16 & 0x3FFFu16)) by (bit_vector)
            requires
                o < 0x4000u16,
        ;
    }
}

impl Mapper for Mapper000 {
    open spec fn spec_cpu_map_read(&self, addr: u16) -> MappedAddr {
        if addr >= 0x8000 {
            if self.prg_banks > 1 {
                MappedAddr::PrgRom((addr & 0x7FFFu16) as usize)
            } else {
                MappedAddr::PrgRom((addr & 0x3FFFu16) as usize)
            }
        } else if addr >= 0x6000 {
            MappedAddr::PrgRam((addr & 0x1FFFu16) as usize)
        } else {
            MappedAddr::Unmapped
        }
    }

    open spec fn spec_cpu_map_write(&self, addr: u16, val: u8) -> (Mapper000, MappedAddr) {
        if addr >= 0x6000 && addr < 0x8000 {
            (*self, MappedAddr::PrgRam((addr & 0x1FFFu16) as usize))
        } else {
            (*self, MappedAddr::Unmapped)
        }
    }

    open spec fn spec_ppu_map_read(&self, addr: u16) -> usize {
        (addr & 0x1FFFu16) as usize
    }

    open spec fn spec_ppu_map_write(&self, addr: u16) -> (Mapper000, usize) {
        (*self, (addr & 0x1FFFu16) as usize)
    }

    open spec fn spec_mirroring(&self) -> Mirroring {
        self.mirroring
    }

    open spec fn spec_irq_active(&self) -> bool {
        false
    }

    open spec fn spec_irq_clear(&self) -> Mapper000 {
        *self
    }

    open spec fn inv(&self) -> bool {
        true
    }

    fn cpu_map_read(&self, addr: u16) -> (r: MappedAddr) {
        if addr >= 0x8000 {
            let mask: u16 = if self.prg_banks > 1 { 0x7FFF } else { 0x3FFF };
            MappedAddr::PrgRom((addr & mask) as usize)
        } else if addr >= 0x6000 {
            MappedAddr::PrgRam((addr & 0x1FFF) as usize)
        } else {
            MappedAddr::Unmapped
        }
    }

    fn cpu_map_write(&mut self, addr: u16, _val: u8) -> (r: MappedAddr) {
        if addr >= 0x6000 && addr < 0x8000 {
            MappedAddr::PrgRam((addr & 0x1FFF) as usize)
        } else {
            MappedAddr::Unmapped
        }
    }

    fn ppu_map_read(&self, addr: u16) -> (r: usize) {
        (addr & 0x1FFF) as usize
    }

    fn ppu_map_write(&mut self, addr: u16) -> (r: usize) {
        (addr & 0x1FFF) as usize
    }

    fn mirroring(&self) -> (m: Mirroring) {
        self.mirroring
    }

    fn irq_active(&self) -> (b: bool) {
        false
    }

    fn irq_clear(&mut self) {
    }
}

} // verus!
