//! iNES cartridge images and the memory behind them.
pub mod mappers;

use vstd::prelude::*;

use mappers::{MappedAddr, Mapper000, Mapper001, Mapper002, MapperEnum};

verus! {

/// Nametable mirroring arrangement.
#[derive(Clone, Copy, Debug, PartialEq, Eq, Structural)]
pub enum Mirroring {
    Horizontal,
    Vertical,
    FourScreen,
    SingleScreenLow,
    SingleScreenHigh,
}

/// Why an iNES image was rejected.
#[derive(Clone, Copy, Debug, PartialEq, Eq, Structural)]
pub enum CartridgeError {
    InvalidHeader,
    UnsupportedMapper(u8),
    TooShort,
}

/// A loaded cartridge.
pub struct Cartridge {
    pub prg_rom: Vec<u8>,
    pub chr_rom: Vec<u8>,
    pub chr_ram: Vec<u8>,
    pub prg_ram: Vec<u8>,
    pub has_battery: bool,
    pub mapper: MapperEnum,
    pub base_mirroring: Mirroring,
}

/// The abstract contents of a cartridge.
#[verifier::ext_equal]
pub struct CartridgeView {
    pub prg_rom: Seq<u8>,
    pub chr_rom: Seq<u8>,
    pub chr_ram: Seq<u8>,
    pub prg_ram: Seq<u8>,
    pub has_battery: bool,
    pub mapper: MapperEnum,
    pub base_mirroring: Mirroring,
}

impl View for Cartridge {
    type V = CartridgeView;

    open spec fn view(&self) -> CartridgeView {
        CartridgeView {
            prg_rom: self.prg_rom@,
            chr_rom: self.chr_rom@,
            chr_ram: self.chr_ram@,
            prg_ram: self.prg_ram@,
            has_battery: self.has_battery,
            mapper: self.mapper,
            base_mirroring: self.base_mirroring,
        }
    }
}

/// Byte `i` of `s`, or 0 when `i` is out of range.
pub open spec fn byte_or_zero(s: Seq<u8>, i: int) -> u8 {
    if 0 <= i < s.len() { s[i] } else { 0 }
}

/// The four magic bytes "NES\x1A".
pub open spec fn ines_magic(data: Seq<u8>) -> bool {
    data[0] == 0x4Eu8 && data[1] == 0x45u8 && data[2] == 0x53u8 && data[3] == 0x1Au8
}

pub open spec fn header_mirroring(flags6: u8) -> Mirroring {
    if flags6 & 0x08u8 != 0 {
        Mirroring::FourScreen
    } else if flags6 & 0x01u8 != 0 {
        Mirroring::Vertical
    } else {
        Mirroring::Horizontal
    }
}

/// Offset of PRG ROM in the image: the 16-byte header, plus a 512-byte trainer if present.
pub open spec fn prg_start(data: Seq<u8>) -> int {
    16 + if data[6] & 0x04u8 != 0 { 512int } else { 0int }
}

pub open spec fn prg_size(data: Seq<u8>) -> int {
    data[4] * 16384
}

pub open spec fn chr_start(data: Seq<u8>) -> int {
    prg_start(data) + prg_size(data)
}

pub open spec fn chr_size(data: Seq<u8>) -> int {
    data[5] * 8192
}

pub open spec fn mapper_id(data: Seq<u8>) -> u8 {
    (data[7] & 0xF0u8) | (data[6] >> 4u8)
}

/// The cartridge an iNES image describes, or the reason it is rejected.
pub open spec fn spec_from_ines(data: Seq<u8>) -> Result<CartridgeView, CartridgeError> {
    if data.len() < 16 {
        Err(CartridgeError::TooShort)
    } else if !ines_magic(data) {
        Err(CartridgeError::InvalidHeader)
    } else if data.len() < chr_start(data) + chr_size(data) {
        Err(CartridgeError::TooShort)
    } else {
        let prg_banks = data[4];
        let chr_banks = data[5];
        let mirroring = header_mirroring(data[6]);
        let id = mapper_id(data);
        let view = CartridgeView {
            prg_rom: data.subrange(prg_start(data), chr_start(data)),
            chr_rom: data.subrange(chr_start(data), chr_start(data) + chr_size(data)),
            chr_ram: if chr_banks == 0 { Seq::new(8192, |i: int| 0u8) } else { Seq::empty() },
            prg_ram: Seq::new(8192, |i: int| 0u8),
            has_battery: data[6] & 0x02u8 != 0,
            mapper: MapperEnum::M000(Mapper000 { prg_banks, mirroring }),
            base_mirroring: mirroring,
        };
        if id == 0 {
            Ok(view)
        } else if id == 1 {
            Ok(CartridgeView { mapper: MapperEnum::M001(Mapper001::spec_new(prg_banks, chr_banks, mirroring)), ..view })
        } else if id == 2 {
            Ok(CartridgeView { mapper: MapperEnum::M002(Mapper002 { prg_banks, selected_bank: 0, mirroring }), ..view })
        } else {
            Err(CartridgeError::UnsupportedMapper(id))
        }
    }
}

/// $6000-$7FFF map one-to-one onto the 8 KB of PRG RAM.
proof fn lemma_ram_offset(a: u16)
    by (bit_vector)
    requires
        0x6000 <= a < 0x8000,
    ensures
        (a & 0x1FFFu16) + 0x6000 == a,
{
}

/// $8000 + i lands on PRG ROM offset i in a 32 KB window, and $8000 + i and
/// $C000 + i both on offset i in a 16 KB one.
proof fn lemma_rom_offsets(i: u16)
    by (bit_vector)
    requires
        i < 0x8000,
    ensures
        ((0x8000 + i) as u16 & 0x7FFFu16) == i,
        i < 0x4000 ==> ((0x8000 + i) as u16 & 0x3FFFu16) == i,
        i < 0x4000 ==> ((0xC000 + i) as u16 & 0x3FFFu16) == i,
        (0x8000 + i) as u16 >= 0x8000,
        i < 0x4000 ==> (0xC000 + i) as u16 >= 0x8000,
{
}

/// NROM loading law: for an iNES image accepted with mapper 0 and no
/// trainer, a CPU read of $8000 + i returns image byte 16 + i (PRG ROM byte
/// i): with two or more 16 KB PRG banks for every i below 32 KB; with one
/// bank for every i below 16 KB, and $C000 + i returns the same byte.
pub proof fn lemma_nrom_image(data: Seq<u8>, i: u16)
    requires
        spec_from_ines(data) is Ok,
        mapper_id(data) == 0,
        data[6] & 0x04u8 == 0,
        i < 0x8000,
    ensures
        ({
            let c = spec_from_ines(data)->Ok_0;
            &&& data[4] >= 2 ==> c.cpu_read((0x8000 + i) as u16) == data[16 + i]
            &&& (data[4] == 1 && i < 0x4000) ==> c.cpu_read((0x8000 + i) as u16) == data[16 + i]
                && c.cpu_read((0xC000 + i) as u16) == data[16 + i]
        }),
{
    lemma_rom_offsets(i);
}

impl CartridgeView {
    pub open spec fn wf(self) -> bool {
        self.mapper.wf()
    }

    /// PRG RAM law: whatever the mapper, a CPU write of `val` to an address
    /// in $6000-$7FFF stores it in PRG RAM byte `addr - $6000`, a following
    /// CPU read of that address returns it, and reads of the other
    /// addresses of the range are unchanged.
    pub proof fn lemma_prg_ram_round_trip(self, addr: u16, val: u8, other: u16)
        requires
            self.wf(),
            self.prg_ram.len() == 8192,
            0x6000 <= addr < 0x8000,
            0x6000 <= other < 0x8000,
            other != addr,
        ensures
            self.cpu_write(addr, val).prg_ram[addr - 0x6000] == val,
            self.cpu_write(addr, val).cpu_read(addr) == val,
            self.cpu_write(addr, val).cpu_read(other) == self.cpu_read(other),
    {
        lemma_ram_offset(addr);
        lemma_ram_offset(other);
    }

    /// The byte a CPU read of `addr` returns.
    pub open spec fn cpu_read(self, addr: u16) -> u8 {
        match self.mapper.spec_cpu_map_read(addr) {
            MappedAddr::PrgRom(i) => byte_or_zero(self.prg_rom, i as int),
            MappedAddr::PrgRam(i) => byte_or_zero(self.prg_ram, i as int),
            MappedAddr::Unmapped => 0,
        }
    }

    /// The cartridge after a CPU write of `val` to `addr`.
    pub open spec fn cpu_write(self, addr: u16, val: u8) -> CartridgeView {
        let (m, target) = self.mapper.spec_cpu_map_write(addr, val);
        let prg_ram = match target {
            MappedAddr::PrgRam(i) => if i < self.prg_ram.len() { self.prg_ram.update(i as int, val) } else { self.prg_ram },
            _ => self.prg_ram,
        };
        CartridgeView { mapper: m, prg_ram, ..self }
    }

    /// The byte a PPU read of pattern memory at `addr` returns.
    pub open spec fn ppu_read(self, addr: u16) -> u8 {
        let i = self.mapper.spec_ppu_map_read(addr & 0x1FFFu16) as int;
        if self.chr_rom.len() == 0 { byte_or_zero(self.chr_ram, i) } else { byte_or_zero(self.chr_rom, i) }
    }

    /// The cartridge after a PPU write; only CHR RAM (present when there is no CHR ROM) is writable.
    pub open spec fn ppu_write(self, addr: u16, val: u8) -> CartridgeView {
        let (m, i) = self.mapper.spec_ppu_map_write(addr & 0x1FFFu16);
        let chr_ram = if self.chr_rom.len() == 0 && i < self.chr_ram.len() {
            self.chr_ram.update(i as int, val)
        } else {
            self.chr_ram
        };
        CartridgeView { mapper: m, chr_ram, ..self }
    }

    pub open spec fn mirroring(self) -> Mirroring {
        self.mapper.spec_mirroring()
    }

    pub open spec fn irq_active(self) -> bool {
        self.mapper.spec_irq_active()
    }

    pub open spec fn irq_clear(self) -> CartridgeView {
        CartridgeView { mapper: self.mapper.spec_irq_clear(), ..self }
    }
}

impl Cartridge {
    pub open spec fn wf(&self) -> bool {
        self@.wf()
    }

    /// Parse an iNES image.
    pub fn from_ines(data: &[u8]) -> (r: Result<Self, CartridgeError>)
        ensures
            match (r, spec_from_ines(data@)) {
                (Ok(c), Ok(v)) => c@ == v && c.wf(),
                (Err(e), Err(f)) => e == f,
                _ => false,
            },
    {
        if data.len() < 16 {
            return Err(CartridgeError::TooShort);
        }
        if !(data[0] == 0x4E && data[1] == 0x45 && data[2] == 0x53 && data[3] == 0x1A) {
            return Err(CartridgeError::InvalidHeader);
        }
        let prg_banks = data[4] as usize;
        let chr_banks = data[5] as usize;
        let flags6 = data[6];
        let flags7 = data[7];
        let mirroring = if flags6 & 0x08 != 0 {
            Mirroring::FourScreen
        } else if flags6 & 0x01 != 0 {
            Mirroring::Vertical
        } else {
            Mirroring::Horizontal
        };
        let has_battery = flags6 & 0x02 != 0;
        let has_trainer = flags6 & 0x04 != 0;
        let mapper_id = (flags7 & 0xF0) | (flags6 >> 4);
        let trainer_offset: usize = if has_trainer { 512 } else { 0 };
        let prg_start: usize = 16 + trainer_offset;
        let prg_size: usize = prg_banks * 16384;
        let chr_start: usize = prg_start + prg_size;
        let chr_size: usize = chr_banks * 8192;
        if data.len() < chr_start + chr_size {
            return Err(CartridgeError::TooShort);
        }
        let prg_rom = vstd::slice::slice_to_vec(&data[prg_start..prg_start + prg_size]);
        let chr_rom = vstd::slice::slice_to_vec(&data[chr_start..chr_start + chr_size]);
        let chr_ram = if chr_banks == 0 { vec![0u8; 8192] } else { Vec::new() };
        let prg_ram = vec![0u8; 8192];
        let mapper: MapperEnum = if mapper_id == 0 {
            MapperEnum::M000(Mapper000::new(prg_banks as u8, chr_banks as u8, mirroring))
        } else if mapper_id == 1 {
            MapperEnum::M001(Mapper001::new(prg_banks as u8, chr_banks as u8, mirroring))
        } else if mapper_id == 2 {
            MapperEnum::M002(Mapper002::new(prg_banks as u8, mirroring))
        } else {
            return Err(CartridgeError::UnsupportedMapper(mapper_id));
        };
        let c = Cartridge {
            prg_rom,
            chr_rom,
            chr_ram,
            prg_ram,
            has_battery,
            mapper,
            base_mirroring: mirroring,
        };
        proof {
            assert(c@.chr_ram =~= spec_from_ines(data@)->Ok_0.chr_ram);
            assert(c@.prg_ram =~= spec_from_ines(data@)->Ok_0.prg_ram);
        }
        Ok(c)
    }

    pub fn cpu_read(&self, addr: u16) -> (val: u8)
        requires
            self.wf(),
        ensures
            val == self@.cpu_read(addr),
    {
        match self.mapper.cpu_map_read(addr) {
            MappedAddr::PrgRom(i) => if i < self.prg_rom.len() { self.prg_rom[i] } else { 0 },
            MappedAddr::PrgRam(i) => if i < self.prg_ram.len() { self.prg_ram[i] } else { 0 },
            MappedAddr::Unmapped => 0,
        }
    }

    pub fn cpu_write(&mut self, addr: u16, val: u8)
        requires
            old(self).wf(),
        ensures
            final(self)@ == old(self)@.cpu_write(addr, val),
            final(self).wf(),
    {
        match self.mapper.cpu_map_write(addr, val) {
            MappedAddr::PrgRam(i) => {
                if i < self.prg_ram.len() {
                    self.prg_ram[i] = val;
                }
            },
            _ => {},
        }
    }

    pub fn ppu_read(&self, addr: u16) -> (val: u8)
        requires
            self.wf(),
        ensures
            val == self@.ppu_read(addr),
    {
        let addr = addr & 0x1FFF;
        let i = self.mapper.ppu_map_read(addr);
        if self.chr_rom.len() == 0 {
            if i < self.chr_ram.len() { self.chr_ram[i] } else { 0 }
        } else {
            if i < self.chr_rom.len() { self.chr_rom[i] } else { 0 }
        }
    }

    pub fn ppu_write(&mut self, addr: u16, val: u8)
        requires
            old(self).wf(),
        ensures
            final(self)@ == old(self)@.ppu_write(addr, val),
            final(self).wf(),
    {
        let addr = addr & 0x1FFF;
        let i = self.mapper.ppu_map_write(addr);
        if self.chr_rom.len() == 0 && i < self.chr_ram.len() {
            self.chr_ram[i] = val;
        }
    }

    pub fn mirroring(&self) -> (m: Mirroring)
        requires
            self.wf(),
        ensures
            m == self@.mirroring(),
    {
        self.mapper.mirroring()
    }

    pub fn irq_active(&self) -> (b: bool)
        requires
            self.wf(),
        ensures
            b == self@.irq_active(),
    {
        self.mapper.irq_active()
    }

    pub fn irq_clear(&mut self)
        requires
            old(self).wf(),
        ensures
            final(self)@ == old(self)@.irq_clear(),
            final(self).wf(),
    {
        self.mapper.irq_clear();
    }
}

} // verus!
