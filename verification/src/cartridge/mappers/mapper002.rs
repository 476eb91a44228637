use vstd::prelude::*;

use super::{MappedAddr, Mapper};
use crate::cartridge::Mirroring;

verus! {

/// UxROM: a switchable 16 KB PRG bank at $8000 and the last bank fixed at $C000.
pub struct Mapper002 {
    pub prg_banks: u8,
    pub selected_bank: u8,
    pub mirroring: Mirroring,
}

impl Mapper002 {
    pub fn new(prg_banks: u8, mirroring: Mirroring) -> (m: Self)
        ensures
            m == (Mapper002 { prg_banks, selected_bank: 0, mirroring }),
    {
        Mapper002 { prg_banks, selected_bank: 0, mirroring }
    }

    /// Bank-switching law: a write to $8000-$FFFF selects the bank at
    /// $8000-$BFFF (low four bits of the value) and leaves $C000-$FFFF on the
    /// last bank (bank count minus one, modulo 256), before and after.
    pub proof fn lemma_bank_switch(self, addr: u16, val: u8, at: u16)
        requires
            addr >= 0x8000,
        ensures
            0x8000 <= at <= 0xBFFF ==> self.spec_cpu_map_write(addr, val).0.spec_cpu_map_read(at)
                == MappedAddr::PrgRom(((val & 0x0Fu8) as int * 0x4000 + (at & 0x3FFFu16)) as usize),
            0xC000 <= at ==> self.spec_cpu_map_write(addr, val).0.spec_cpu_map_read(at)
                == self.spec_cpu_map_read(at),
            0xC000 <= at ==> self.spec_cpu_map_read(at) == MappedAddr::PrgRom(
                (((self.prg_banks + 255) % 256) * 0x4000 + (at & 0x3FFFu16)) as usize,
            ),
    {
    }

    /// Index of the last PRG bank (the bank count minus one, modulo 256).
    pub open spec fn spec_last_bank(self) -> int {
        if self.prg_banks == 0 { 255 } else { self.prg_banks - 1 }
    }
}

impl Mapper for Mapper002 {
    open spec fn spec_cpu_map_read(&self, addr: u16) -> MappedAddr {
        if 0x8000 <= addr <= 0xBFFF {
            MappedAddr::PrgRom((self.selected_bank as int * 0x4000 + (addr & 0x3FFFu16)) as usize)
        } else if 0xC000 <= addr {
            MappedAddr::PrgRom((self.spec_last_bank() * 0x4000 + (addr & 0x3FFFu16)) as usize)
        } else if 0x6000 <= addr <= 0x7FFF {
            MappedAddr::PrgRam((addr & 0x1FFFu16) as usize)
        } else {
            MappedAddr::Unmapped
        }
    }

    open spec fn spec_cpu_map_write(&self, addr: u16, val: u8) -> (Mapper002, MappedAddr) {
        if addr >= 0x8000 {
            (Mapper002 { selected_bank: val & 0x0Fu8, ..*self }, MappedAddr::Unmapped)
        } else if addr >= 0x6000 {
            (*self, MappedAddr::PrgRam((addr & 0x1FFFu16) as usize))
        } else {
            (*self, MappedAddr::Unmapped)
        }
    }

    open spec fn spec_ppu_map_read(&self, addr: u16) -> usize {
        (addr & 0x1FFFu16) as usize
    }

    open spec fn spec_ppu_map_write(&self, addr: u16) -> (Mapper002, usize) {
        (*self, (addr & 0x1FFFu16) as usize)
    }

    open spec fn spec_mirroring(&self) -> Mirroring {
        self.mirroring
    }

    open spec fn spec_irq_active(&self) -> bool {
        false
    }

    open spec fn spec_irq_clear(&self) -> Mapper002 {
        *self
    }

    open spec fn inv(&self) -> bool {
        true
    }

    fn cpu_map_read(&self, addr: u16) -> (r: MappedAddr) {
        if addr >= 0x8000 && addr <= 0xBFFF {
            let offset = (addr & 0x3FFF) as usize;
            MappedAddr::PrgRom(self.selected_bank as usize * 0x4000 + offset)
        } else if addr >= 0xC000 {
            let last = self.prg_banks.wrapping_sub(1) as usize;
            let offset = (addr & 0x3FFF) as usize;
            MappedAddr::PrgRom(last * 0x4000 + offset)
        } else if addr >= 0x6000 && addr <= 0x7FFF {
            MappedAddr::PrgRam((addr & 0x1FFF) as usize)
        } else {
            MappedAddr::Unmapped
        }
    }

    fn cpu_map_write(&mut self, addr: u16, val: u8) -> (r: MappedAddr) {
        if addr >= 0x8000 {
            self.selected_bank = val & 0x0F;
        } else if addr >= 0x6000 {
            return MappedAddr::PrgRam((addr & 0x1FFF) as usize);
        }
        MappedAddr::Unmapped
    }

    fn ppu_map_read(&self, addr: u16) -> (r: usize) {
        (addr & 0x1FFF) as usize
    }

    fn ppu_map_write(&mut self, addr: u16) -> (r: usize) {
        (addr & 0x1FFF) as usize
    }

    fn mirroring(&self) -> (m: Mirroring) {
        self.mirroring
    }

    fn irq_active(&self) -> (b: bool) {
        false
    }

    fn irq_clear(&mut self) {
    }
}

} // verus!
