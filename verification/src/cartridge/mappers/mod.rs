//! Cartridge mappers: how CPU and PPU addresses reach PRG/CHR memory.
pub mod mapper000;
pub mod mapper001;
pub mod mapper002;

use vstd::prelude::*;

pub use mapper000::Mapper000;
pub use mapper001::Mapper001;
pub use mapper002::Mapper002;

use crate::cartridge::Mirroring;

verus! {

/// Where a CPU access lands in cartridge memory.
#[derive(Clone, Copy, Debug, PartialEq, Eq, Structural)]
pub enum MappedAddr {
    /// Byte offset into PRG ROM.
    PrgRom(usize),
    /// Byte offset into PRG RAM.
    PrgRam(usize),
    /// Not backed by cartridge memory (reads give 0, writes are dropped).
    Unmapped,
}

/// The interface every mapper implements. Each operation is described by a
/// spec function of the mapper's state; `inv` is the mapper's own invariant.
pub trait Mapper: Sized {
    spec fn spec_cpu_map_read(&self, addr: u16) -> MappedAddr;

    spec fn spec_cpu_map_write(&self, addr: u16, val: u8) -> (Self, MappedAddr);

    spec fn spec_ppu_map_read(&self, addr: u16) -> usize;

    spec fn spec_ppu_map_write(&self, addr: u16) -> (Self, usize);

    spec fn spec_mirroring(&self) -> Mirroring;

    spec fn spec_irq_active(&self) -> bool;

    spec fn spec_irq_clear(&self) -> Self;

    spec fn inv(&self) -> bool;

    fn cpu_map_read(&self, addr: u16) -> (r: MappedAddr)
        requires
            self.inv(),
        ensures
            r == self.spec_cpu_map_read(addr),
    ;

    fn cpu_map_write(&mut self, addr: u16, val: u8) -> (r: MappedAddr)
        requires
            old(self).inv(),
        ensures
            (*final(self), r) == old(self).spec_cpu_map_write(addr, val),
            final(self).inv(),
    ;

    fn ppu_map_read(&self, addr: u16) -> (r: usize)
        requires
            self.inv(),
        ensures
            r == self.spec_ppu_map_read(addr),
    ;

    fn ppu_map_write(&mut self, addr: u16) -> (r: usize)
        requires
            old(self).inv(),
        ensures
            (*final(self), r) == old(self).spec_ppu_map_write(addr),
            final(self).inv(),
    ;

    fn mirroring(&self) -> (m: Mirroring)
        requires
            self.inv(),
        ensures
            m == self.spec_mirroring(),
    ;

    fn irq_active(&self) -> (b: bool)
        requires
            self.inv(),
        ensures
            b == self.spec_irq_active(),
    ;

    fn irq_clear(&mut self)
        requires
            old(self).inv(),
        ensures
            *final(self) == old(self).spec_irq_clear(),
            final(self).inv(),
    ;
}

/// The mappers this emulator supports.
pub enum MapperEnum {
    M000(Mapper000),
    M001(Mapper001),
    M002(Mapper002),
}

impl From<Mapper000> for MapperEnum {
    fn from(m: Mapper000) -> (r: MapperEnum) {
        MapperEnum::M000(m)
    }
}

impl vstd::std_specs::convert::FromSpecImpl<Mapper000> for MapperEnum {
    open spec fn obeys_from_spec() -> bool {
        true
    }

    open spec fn from_spec(m: Mapper000) -> MapperEnum {
        MapperEnum::M000(m)
    }
}

impl From<Mapper001> for MapperEnum {
    fn from(m: Mapper001) -> (r: MapperEnum) {
        MapperEnum::M001(m)
    }
}

impl vstd::std_specs::convert::FromSpecImpl<Mapper001> for MapperEnum {
    open spec fn obeys_from_spec() -> bool {
        true
    }

    open spec fn from_spec(m: Mapper001) -> MapperEnum {
        MapperEnum::M001(m)
    }
}

impl From<Mapper002> for MapperEnum {
    fn from(m: Mapper002) -> (r: MapperEnum) {
        MapperEnum::M002(m)
    }
}

impl vstd::std_specs::convert::FromSpecImpl<Mapper002> for MapperEnum {
    open spec fn obeys_from_spec() -> bool {
        true
    }

    open spec fn from_spec(m: Mapper002) -> MapperEnum {
        MapperEnum::M002(m)
    }
}

impl MapperEnum {
    pub open spec fn wf(self) -> bool {
        match self {
            MapperEnum::M000(m) => m.inv(),
            MapperEnum::M001(m) => m.inv(),
            MapperEnum::M002(m) => m.inv(),
        }
    }

    pub open spec fn spec_cpu_map_read(self, addr: u16) -> MappedAddr {
        match self {
            MapperEnum::M000(m) => m.spec_cpu_map_read(addr),
            MapperEnum::M001(m) => m.spec_cpu_map_read(addr),
            MapperEnum::M002(m) => m.spec_cpu_map_read(addr),
        }
    }

    pub open spec fn spec_cpu_map_write(self, addr: u16, val: u8) -> (MapperEnum, MappedAddr) {
        match self {
            MapperEnum::M000(m) => {
                let (m2, r) = m.spec_cpu_map_write(addr, val);
                (MapperEnum::M000(m2), r)
            },
            MapperEnum::M001(m) => {
                let (m2, r) = m.spec_cpu_map_write(addr, val);
                (MapperEnum::M001(m2), r)
            },
            MapperEnum::M002(m) => {
                let (m2, r) = m.spec_cpu_map_write(addr, val);
                (MapperEnum::M002(m2), r)
            },
        }
    }

    pub open spec fn spec_ppu_map_read(self, addr: u16) -> usize {
        match self {
            MapperEnum::M000(m) => m.spec_ppu_map_read(addr),
            MapperEnum::M001(m) => m.spec_ppu_map_read(addr),
            MapperEnum::M002(m) => m.spec_ppu_map_read(addr),
        }
    }

    pub open spec fn spec_ppu_map_write(self, addr: u16) -> (MapperEnum, usize) {
        match self {
            MapperEnum::M000(m) => {
                let (m2, r) = m.spec_ppu_map_write(addr);
                (MapperEnum::M000(m2), r)
            },
            MapperEnum::M001(m) => {
                let (m2, r) = m.spec_ppu_map_write(addr);
                (MapperEnum::M001(m2), r)
            },
            MapperEnum::M002(m) => {
                let (m2, r) = m.spec_ppu_map_write(addr);
                (MapperEnum::M002(m2), r)
            },
        }
    }

    pub open spec fn spec_mirroring(self) -> Mirroring {
        match self {
            MapperEnum::M000(m) => m.spec_mirroring(),
            MapperEnum::M001(m) => m.spec_mirroring(),
            MapperEnum::M002(m) => m.spec_mirroring(),
        }
    }

    pub open spec fn spec_irq_active(self) -> bool {
        match self {
            MapperEnum::M000(m) => m.spec_irq_active(),
            MapperEnum::M001(m) => m.spec_irq_active(),
            MapperEnum::M002(m) => m.spec_irq_active(),
        }
    }

    pub open spec fn spec_irq_clear(self) -> MapperEnum {
        match self {
            MapperEnum::M000(m) => MapperEnum::M000(m.spec_irq_clear()),
            MapperEnum::M001(m) => MapperEnum::M001(m.spec_irq_clear()),
            MapperEnum::M002(m) => MapperEnum::M002(m.spec_irq_clear()),
        }
    }

    pub fn cpu_map_read(&self, addr: u16) -> (r: MappedAddr)
        requires
            self.wf(),
        ensures
            r == self.spec_cpu_map_read(addr),
    {
        match self {
            MapperEnum::M000(m) => m.cpu_map_read(addr),
            MapperEnum::M001(m) => m.cpu_map_read(addr),
            MapperEnum::M002(m) => m.cpu_map_read(addr),
        }
    }

    pub fn cpu_map_write(&mut self, addr: u16, val: u8) -> (r: MappedAddr)
        requires
            old(self).wf(),
        ensures
            (*final(self), r) == old(self).spec_cpu_map_write(addr, val),
            final(self).wf(),
    {
        match self {
            MapperEnum::M000(m) => m.cpu_map_write(addr, val),
            MapperEnum::M001(m) => m.cpu_map_write(addr, val),
            MapperEnum::M002(m) => m.cpu_map_write(addr, val),
        }
    }

    pub fn ppu_map_read(&self, addr: u16) -> (r: usize)
        requires
            self.wf(),
        ensures
            r == self.spec_ppu_map_read(addr),
    {
        match self {
            MapperEnum::M000(m) => m.ppu_map_read(addr),
            MapperEnum::M001(m) => m.ppu_map_read(addr),
            MapperEnum::M002(m) => m.ppu_map_read(addr),
        }
    }

    pub fn ppu_map_write(&mut self, addr: u16) -> (r: usize)
        requires
            old(self).wf(),
        ensures
            (*final(self), r) == old(self).spec_ppu_map_write(addr),
            final(self).wf(),
    {
        match self {
            MapperEnum::M000(m) => m.ppu_map_write(addr),
            MapperEnum::M001(m) => m.ppu_map_write(addr),
            MapperEnum::M002(m) => m.ppu_map_write(addr),
        }
    }

    pub fn mirroring(&self) -> (m: Mirroring)
        requires
            self.wf(),
        ensures
            m == self.spec_mirroring(),
    {
        match self {
            MapperEnum::M000(m) => m.mirroring(),
            MapperEnum::M001(m) => m.mirroring(),
            MapperEnum::M002(m) => m.mirroring(),
        }
    }

    pub fn irq_active(&self) -> (b: bool)
        requires
            self.wf(),
        ensures
            b == self.spec_irq_active(),
    {
        match self {
            MapperEnum::M000(m) => m.irq_active(),
            MapperEnum::M001(m) => m.irq_active(),
            MapperEnum::M002(m) => m.irq_active(),
        }
    }

    pub fn irq_clear(&mut self)
        requires
            old(self).wf(),
        ensures
            *final(self) == old(self).spec_irq_clear(),
            final(self).wf(),
    {
        match self {
            MapperEnum::M000(m) => m.irq_clear(),
            MapperEnum::M001(m) => m.irq_clear(),
            MapperEnum::M002(m) => m.irq_clear(),
        }
    }
}

} // verus!
