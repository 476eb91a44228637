//! Picture processing unit: CPU-visible registers, VRAM, and the dot-by-dot
//! renderer (Loopy scrolling, background and sprite pipelines) writing an
//! ARGB8888 frame buffer.
pub mod render;

use vstd::prelude::*;

use crate::cartridge::{Cartridge, CartridgeView, Mirroring};

verus! {

pub const SCREEN_WIDTH: usize = 256;
pub const SCREEN_HEIGHT: usize = 240;
/// Bytes in the frame buffer: four (B, G, R, A) per pixel.
pub const FRAME_BYTES: usize = 245760;
/// Bytes of nametable RAM: four 1 KB tables (two are used except in four-screen mode).
pub const NAMETABLE_BYTES: usize = 4096;

/// The NES master palette: 64 colours, three bytes (R, G, B) each.
#[verifier::opaque]
pub open spec fn master_palette() -> Seq<u8> {
    seq![
        84u8, 84, 84, 0, 30, 116, 8, 16, 144, 48, 0, 136, 68, 0, 100, 92, 0, 48, 84, 4, 0, 60, 24, 0,
        32, 42, 0, 8, 58, 0, 0, 64, 0, 0, 60, 0, 0, 50, 60, 0, 0, 0, 0, 0, 0, 0, 0, 0,
        152, 150, 152, 8, 76, 196, 48, 50, 236, 92, 30, 228, 136, 20, 176, 160, 20, 100, 152, 34, 32, 120, 60, 0,
        84, 90, 0, 40, 114, 0, 8, 124, 0, 0, 118, 40, 0, 102, 120, 0, 0, 0, 0, 0, 0, 0, 0, 0,
        236, 238, 236, 76, 154, 236, 120, 124, 236, 176, 98, 236, 228, 84, 236, 236, 88, 180, 236, 106, 100, 212, 136, 32,
        160, 170, 0, 116, 196, 0, 76, 208, 32, 56, 204, 108, 56, 180, 204, 60, 60, 60, 0, 0, 0, 0, 0, 0,
        236, 238, 236, 168, 204, 236, 188, 188, 236, 212, 178, 236, 236, 174, 236, 236, 174, 212, 236, 180, 176, 228, 196, 144,
        204, 210, 120, 180, 222, 120, 168, 226, 144, 152, 226, 180, 160, 214, 228, 160, 162, 160, 0, 0, 0, 0, 0, 0,
    ]
}

pub fn master_palette_exec() -> (t: [u8; 192])
    ensures
        t@ == master_palette(),
{
    let t: [u8; 192] = [
        84, 84, 84, 0, 30, 116, 8, 16, 144, 48, 0, 136, 68, 0, 100, 92, 0, 48, 84, 4, 0, 60, 24, 0,
        32, 42, 0, 8, 58, 0, 0, 64, 0, 0, 60, 0, 0, 50, 60, 0, 0, 0, 0, 0, 0, 0, 0, 0,
        152, 150, 152, 8, 76, 196, 48, 50, 236, 92, 30, 228, 136, 20, 176, 160, 20, 100, 152, 34, 32, 120, 60, 0,
        84, 90, 0, 40, 114, 0, 8, 124, 0, 0, 118, 40, 0, 102, 120, 0, 0, 0, 0, 0, 0, 0, 0, 0,
        236, 238, 236, 76, 154, 236, 120, 124, 236, 176, 98, 236, 228, 84, 236, 236, 88, 180, 236, 106, 100, 212, 136, 32,
        160, 170, 0, 116, 196, 0, 76, 208, 32, 56, 204, 108, 56, 180, 204, 60, 60, 60, 0, 0, 0, 0, 0, 0,
        236, 238, 236, 168, 204, 236, 188, 188, 236, 212, 178, 236, 236, 174, 236, 236, 174, 212, 236, 180, 176, 228, 196, 144,
        204, 210, 120, 180, 222, 120, 168, 226, 144, 152, 226, 180, 160, 214, 228, 160, 162, 160, 0, 0, 0, 0, 0, 0,
    ];
    reveal(master_palette);
    assert(t@ =~= master_palette());
    t
}

/// The PPU.
pub struct Ppu {
    /// $2000
    pub ctrl: u8,
    /// $2001
    pub mask: u8,
    /// $2002
    pub status: u8,
    /// $2003
    pub oam_addr: u8,
    /// Current VRAM address.
    pub v: u16,
    /// Temporary VRAM address.
    pub t: u16,
    /// Fine X scroll (3 bits).
    pub x: u8,
    /// Write toggle for $2005/$2006.
    pub w: bool,
    /// Read buffer for $2007.
    pub data_buf: u8,
    pub name_table: Vec<u8>,
    pub palette_ram: Vec<u8>,
    pub oam: Vec<u8>,
    pub oam2: Vec<u8>,
    pub bg_pattern_lo: u16,
    pub bg_pattern_hi: u16,
    pub bg_attrib_lo: u16,
    pub bg_attrib_hi: u16,
    pub bg_at_latch_lo: bool,
    pub bg_at_latch_hi: bool,
    pub next_nt: u8,
    pub next_at: u8,
    pub next_lo: u8,
    pub next_hi: u8,
    pub sprite_count: u8,
    pub sprite_patterns_lo: Vec<u8>,
    pub sprite_patterns_hi: Vec<u8>,
    pub sprite_attribs: Vec<u8>,
    pub sprite_x: Vec<u8>,
    pub sprite_zero_hit_possible: bool,
    pub sprite_zero_being_rendered: bool,
    pub scanline: i16,
    pub dot: u16,
    pub frame: u64,
    pub nmi_occurred: bool,
    pub nmi_output: bool,
    pub nmi_prev: bool,
    /// ARGB8888 frame buffer, stored B, G, R, A per pixel.
    pub frame_buffer: Vec<u8>,
}

/// The abstract state of the PPU.
#[verifier::ext_equal]
pub struct PpuView {
    pub ctrl: u8,
    pub mask: u8,
    pub status: u8,
    pub oam_addr: u8,
    pub v: u16,
    pub t: u16,
    pub x: u8,
    pub w: bool,
    pub data_buf: u8,
    pub name_table: Seq<u8>,
    pub palette_ram: Seq<u8>,
    pub oam: Seq<u8>,
    pub oam2: Seq<u8>,
    pub bg_pattern_lo: u16,
    pub bg_pattern_hi: u16,
    pub bg_attrib_lo: u16,
    pub bg_attrib_hi: u16,
    pub bg_at_latch_lo: bool,
    pub bg_at_latch_hi: bool,
    pub next_nt: u8,
    pub next_at: u8,
    pub next_lo: u8,
    pub next_hi: u8,
    pub sprite_count: u8,
    pub sprite_patterns_lo: Seq<u8>,
    pub sprite_patterns_hi: Seq<u8>,
    pub sprite_attribs: Seq<u8>,
    pub sprite_x: Seq<u8>,
    pub sprite_zero_hit_possible: bool,
    pub sprite_zero_being_rendered: bool,
    pub scanline: i16,
    pub dot: u16,
    pub frame: u64,
    pub nmi_occurred: bool,
    pub nmi_output: bool,
    pub nmi_prev: bool,
    pub frame_buffer: Seq<u8>,
}

impl View for Ppu {
    type V = PpuView;

    open spec fn view(&self) -> PpuView {
        PpuView {
            ctrl: self.ctrl,
            mask: self.mask,
            status: self.status,
            oam_addr: self.oam_addr,
            v: self.v,
            t: self.t,
            x: self.x,
            w: self.w,
            data_buf: self.data_buf,
            name_table: self.name_table@,
            palette_ram: self.palette_ram@,
            oam: self.oam@,
            oam2: self.oam2@,
            bg_pattern_lo: self.bg_pattern_lo,
            bg_pattern_hi: self.bg_pattern_hi,
            bg_attrib_lo: self.bg_attrib_lo,
            bg_attrib_hi: self.bg_attrib_hi,
            bg_at_latch_lo: self.bg_at_latch_lo,
            bg_at_latch_hi: self.bg_at_latch_hi,
            next_nt: self.next_nt,
            next_at: self.next_at,
            next_lo: self.next_lo,
            next_hi: self.next_hi,
            sprite_count: self.sprite_count,
            sprite_patterns_lo: self.sprite_patterns_lo@,
            sprite_patterns_hi: self.sprite_patterns_hi@,
            sprite_attribs: self.sprite_attribs@,
            sprite_x: self.sprite_x@,
            sprite_zero_hit_possible: self.sprite_zero_hit_possible,
            sprite_zero_being_rendered: self.sprite_zero_being_rendered,
            scanline: self.scanline,
            dot: self.dot,
            frame: self.frame,
            nmi_occurred: self.nmi_occurred,
            nmi_output: self.nmi_output,
            nmi_prev: self.nmi_prev,
            frame_buffer: self.frame_buffer@,
        }
    }
}

/// Index into nametable RAM for a nametable address under a mirroring mode.
pub open spec fn spec_mirror_nt_addr(addr: u16, mirroring: Mirroring) -> usize {
    let a = (addr & 0x0FFFu16) as usize;
    match mirroring {
        Mirroring::Horizontal => ((a >> 1usize) & 0x400usize) | (a & 0x3FFusize),
        Mirroring::Vertical => a & 0x7FFusize,
        Mirroring::SingleScreenLow => a & 0x3FFusize,
        Mirroring::SingleScreenHigh => (a & 0x3FFusize) | 0x400usize,
        Mirroring::FourScreen => a & 0xFFFusize,
    }
}

/// Palette RAM index: $3F10/$3F14/$3F18/$3F1C mirror $3F00/$3F04/$3F08/$3F0C.
pub open spec fn palette_index(addr: u16) -> usize {
    let i = (addr & 0x1Fu16) as usize;
    if i & 0x13usize == 0x10usize { i & !0x10usize } else { i }
}

/// Every mirrored name-table address lies in name-table memory.
pub proof fn lemma_mirror_in_range(addr: u16, m: Mirroring)
    ensures
        spec_mirror_nt_addr(addr, m) < NAMETABLE_BYTES,
{
    let a = (addr & 0x0FFFu16) as usize;
    assert(((a >> 1usize) & 0x400usize) | (a & 0x3FFusize) < 4096usize
        && a & 0x7FFusize < 4096usize
        && a & 0x3FFusize < 4096usize
        && (a & 0x3FFusize) | 0x400usize < 4096usize
        && a & 0xFFFusize < 4096usize) by (bit_vector)
        requires
            a == (addr & 0x0FFFu16) as usize,
    ;
}

/// How the status read and the register writes place their fields: a
/// PPUSTATUS read returns the top three status bits and clears bit 7; a
/// PPUCTRL write copies the name-table select into bits 10-11 of `t`; the
/// two PPUSCROLL writes fill coarse X, then fine Y and coarse Y.
proof fn lemma_register_bits(status: u8, buf: u8, t: u16, val: u8)
    by (bit_vector)
    ensures
        ((status & 0xE0u8) | (buf & 0x1Fu8)) & 0xE0u8 == status & 0xE0u8,
        (status & !0x80u8) & 0x80u8 == 0,
        (status & !0x80u8) & 0x7Fu8 == status & 0x7Fu8,
        ((((t & 0xF3FFu16) | ((val as u16 & 0x03u16) << 10u16)) >> 10u16) & 0x3u16) == (val & 0x3u8) as u16,
        ((t & 0xF3FFu16) | ((val as u16 & 0x03u16) << 10u16)) & 0xF3FFu16 == t & 0xF3FFu16,
        ((t & 0xFFE0u16) | (val as u16 >> 3u16)) & 0x001Fu16 == (val >> 3u8) as u16,
        ((t & 0xFFE0u16) | (val as u16 >> 3u16)) & 0xFFE0u16 == t & 0xFFE0u16,
        ((((t & 0x8C1Fu16) | ((val as u16 & 0x07u16) << 12u16) | ((val as u16 & 0xF8u16) << 2u16)) >> 12u16) & 0x7u16)
            == (val & 0x07u8) as u16,
        ((((t & 0x8C1Fu16) | ((val as u16 & 0x07u16) << 12u16) | ((val as u16 & 0xF8u16) << 2u16)) >> 5u16) & 0x1Fu16)
            == (val >> 3u8) as u16,
        ((t & 0x8C1Fu16) | ((val as u16 & 0x07u16) << 12u16) | ((val as u16 & 0xF8u16) << 2u16)) & 0x8C1Fu16
            == t & 0x8C1Fu16,
{
}

/// The address the two PPUADDR writes `hi`, `lo` select.
pub open spec fn ppuaddr_value(hi: u8, lo: u8) -> u16 {
    ((hi as u16 & 0x3Fu16) << 8u16) | lo as u16
}

/// How the PPUADDR writes combine into the temporary address: the low 14
/// bits are the selected address whatever `t` held, and when `t`'s top bit
/// is clear the whole register is.
proof fn lemma_latch_bits(t: u16, hi: u8, lo: u8)
    by (bit_vector)
    ensures
        ((((t & 0x80FFu16) | ((hi as u16 & 0x3Fu16) << 8u16)) & 0xFF00u16) | lo as u16) & 0x3FFFu16
            == ppuaddr_value(hi, lo),
        t < 0x8000 ==> (((t & 0x80FFu16) | ((hi as u16 & 0x3Fu16) << 8u16)) & 0xFF00u16) | lo as u16
            == ppuaddr_value(hi, lo),
        ppuaddr_value(hi, lo) < 0x4000,
        ppuaddr_value(hi, lo) & 0x3FFFu16 == ppuaddr_value(hi, lo),
{
}

/// $3F10 + 4k and $3F00 + 4k (k < 4) are palette addresses of entry 4k.
proof fn lemma_palette_mirror_index(k: u16)
    by (bit_vector)
    requires
        k < 4,
    ensures
        ((0x3F10 + 4 * k) as u16 & 0x3FFFu16) > 0x3EFF,
        ((0x3F00 + 4 * k) as u16 & 0x3FFFu16) > 0x3EFF,
        palette_index((0x3F10 + 4 * k) as u16 & 0x3FFFu16) == 4 * k,
        palette_index((0x3F00 + 4 * k) as u16 & 0x3FFFu16) == 4 * k,
{
}

/// Every palette address lies in palette memory.
pub proof fn lemma_palette_in_range(addr: u16)
    ensures
        palette_index(addr) < 32,
{
    let i = (addr & 0x1Fu16) as usize;
    assert(i < 32usize && i & !0x10usize < 32usize) by (bit_vector)
        requires
            i == (addr & 0x1Fu16) as usize,
    ;
}

/// Name-table mirroring law: with vertical mirroring $2000 and $2800 (and
/// $2400 and $2C00) show the same table and $2000 and $2400 different
/// ones; with horizontal mirroring $2000 and $2400 (and $2800 and $2C00)
/// show the same table and $2000 and $2800 different ones.
pub proof fn lemma_nametable_mirroring(offset: u16)
    requires
        offset < 0x400,
    ensures
        spec_mirror_nt_addr((0x2000 + offset) as u16, Mirroring::Vertical)
            == spec_mirror_nt_addr((0x2800 + offset) as u16, Mirroring::Vertical),
        spec_mirror_nt_addr((0x2400 + offset) as u16, Mirroring::Vertical)
            == spec_mirror_nt_addr((0x2C00 + offset) as u16, Mirroring::Vertical),
        spec_mirror_nt_addr((0x2000 + offset) as u16, Mirroring::Vertical)
            != spec_mirror_nt_addr((0x2400 + offset) as u16, Mirroring::Vertical),
        spec_mirror_nt_addr((0x2000 + offset) as u16, Mirroring::Horizontal)
            == spec_mirror_nt_addr((0x2400 + offset) as u16, Mirroring::Horizontal),
        spec_mirror_nt_addr((0x2800 + offset) as u16, Mirroring::Horizontal)
            == spec_mirror_nt_addr((0x2C00 + offset) as u16, Mirroring::Horizontal),
        spec_mirror_nt_addr((0x2000 + offset) as u16, Mirroring::Horizontal)
            != spec_mirror_nt_addr((0x2800 + offset) as u16, Mirroring::Horizontal),
{
    let o = offset;
    let a0 = ((0x2000 + o) as u16 & 0x0FFFu16) as usize;
    let a1 = ((0x2400 + o) as u16 & 0x0FFFu16) as usize;
    let a2 = ((0x2800 + o) as u16 & 0x0FFFu16) as usize;
    let a3 = ((0x2C00 + o) as u16 & 0x0FFFu16) as usize;
    assert(a0 == o as usize && a1 == o as usize + 0x400 && a2 == o as usize + 0x800 && a3 == o as usize + 0xC00)
        by (bit_vector)
        requires
            o < 0x400u16,
            a0 == ((0x2000 + o) as u16 & 0x0FFFu16) as usize,
            a1 == ((0x2400 + o) as u16 & 0x0FFFu16) as usize,
            a2 == ((0x2800 + o) as u16 & 0x0FFFu16) as usize,
            a3 == ((0x2C00 + o) as u16 & 0x0FFFu16) as usize,
    ;
    assert(
        (a0 & 0x7FFusize) == (a2 & 0x7FFusize)
        && (a1 & 0x7FFusize) == (a3 & 0x7FFusize)
        && (a0 & 0x7FFusize) != (a1 & 0x7FFusize)
        && (((a0 >> 1usize) & 0x400usize) | (a0 & 0x3FFusize)) == (((a1 >> 1usize) & 0x400usize) | (a1 & 0x3FFusize))
        && (((a2 >> 1usize) & 0x400usize) | (a2 & 0x3FFusize)) == (((a3 >> 1usize) & 0x400usize) | (a3 & 0x3FFusize))
        && (((a0 >> 1usize) & 0x400usize) | (a0 & 0x3FFusize)) != (((a2 >> 1usize) & 0x400usize) | (a2 & 0x3FFusize))
    ) by (bit_vector)
        requires
            a0 < 0x400usize,
            a1 == a0 + 0x400usize,
            a2 == a0 + 0x800usize,
            a3 == a0 + 0xC00usize,
    ;
}

impl PpuView {
    /// Sizes of the memories and ranges of the counters.
    pub open spec fn wf(self) -> bool {
        &&& self.name_table.len() == NAMETABLE_BYTES
        &&& self.palette_ram.len() == 32
        &&& self.oam.len() == 256
        &&& self.oam2.len() == 32
        &&& self.sprite_patterns_lo.len() == 8
        &&& self.sprite_patterns_hi.len() == 8
        &&& self.sprite_attribs.len() == 8
        &&& self.sprite_x.len() == 8
        &&& self.frame_buffer.len() == FRAME_BYTES
        &&& self.x < 8
        &&& self.sprite_count <= 8
        &&& -1 <= self.scanline <= 260
        &&& self.dot <= 340
    }

    /// The fields that the per-dot rendering steps leave alone.
    pub open spec fn same_timing(self, other: PpuView) -> bool {
        &&& self.scanline == other.scanline
        &&& self.dot == other.dot
        &&& self.frame == other.frame
        &&& self.ctrl == other.ctrl
        &&& self.mask == other.mask
        &&& self.oam == other.oam
    }

    pub open spec fn initial() -> PpuView {
        PpuView {
            ctrl: 0,
            mask: 0,
            status: 0,
            oam_addr: 0,
            v: 0,
            t: 0,
            x: 0,
            w: false,
            data_buf: 0,
            name_table: Seq::new(NAMETABLE_BYTES as nat, |i: int| 0u8),
            palette_ram: Seq::new(32, |i: int| 0u8),
            oam: Seq::new(256, |i: int| 0u8),
            oam2: Seq::new(32, |i: int| 0u8),
            bg_pattern_lo: 0,
            bg_pattern_hi: 0,
            bg_attrib_lo: 0,
            bg_attrib_hi: 0,
            bg_at_latch_lo: false,
            bg_at_latch_hi: false,
            next_nt: 0,
            next_at: 0,
            next_lo: 0,
            next_hi: 0,
            sprite_count: 0,
            sprite_patterns_lo: Seq::new(8, |i: int| 0u8),
            sprite_patterns_hi: Seq::new(8, |i: int| 0u8),
            sprite_attribs: Seq::new(8, |i: int| 0u8),
            sprite_x: Seq::new(8, |i: int| 0u8),
            sprite_zero_hit_possible: false,
            sprite_zero_being_rendered: false,
            scanline: 0,
            dot: 0,
            frame: 0,
            nmi_occurred: false,
            nmi_output: false,
            nmi_prev: false,
            frame_buffer: Seq::new(FRAME_BYTES as nat, |i: int| 0u8),
        }
    }

    pub open spec fn spec_reset(self) -> PpuView {
        PpuView { ctrl: 0, mask: 0, v: 0, t: 0, x: 0, w: false, scanline: 0, dot: 0, frame: 0, ..self }
    }

    /// NMI edge detector: an NMI is raised when (NMI enabled and in vblank) rises.
    pub open spec fn spec_update_nmi(self) -> PpuView {
        let nmi = self.nmi_output && (self.status & 0x80u8 != 0);
        PpuView {
            nmi_occurred: if nmi && !self.nmi_prev { true } else { self.nmi_occurred },
            nmi_prev: nmi,
            ..self
        }
    }

    /// $2007 accesses step v by 32 when ctrl bit 2 is set, else by 1 (wrapping).
    pub open spec fn spec_increment_v(self) -> PpuView {
        let step: int = if self.ctrl & 0x04u8 != 0 { 32 } else { 1 };
        PpuView { v: ((self.v + step) % 0x10000) as u16, ..self }
    }

    /// A read of PPU address space.
    #[verifier::opaque]
    pub open spec fn mem_read(self, cart: CartridgeView, addr: u16) -> u8 {
        let a = addr & 0x3FFFu16;
        if a <= 0x1FFF {
            cart.ppu_read(a)
        } else if a <= 0x3EFF {
            self.name_table[spec_mirror_nt_addr(a, cart.mirroring()) as int]
        } else {
            self.palette_ram[palette_index(a) as int]
        }
    }

    /// A write to PPU address space; pattern memory belongs to the cartridge.
    #[verifier::opaque]
    pub open spec fn mem_write(self, cart: CartridgeView, addr: u16, val: u8) -> (PpuView, CartridgeView) {
        let a = addr & 0x3FFFu16;
        if a <= 0x1FFF {
            (self, cart.ppu_write(a, val))
        } else if a <= 0x3EFF {
            (PpuView { name_table: self.name_table.update(spec_mirror_nt_addr(a, cart.mirroring()) as int, val), ..self }, cart)
        } else {
            (PpuView { palette_ram: self.palette_ram.update(palette_index(a) as int, val), ..self }, cart)
        }
    }

    /// A CPU read of register `reg` ($2000 + reg): the new state and the value read.
    pub open spec fn spec_cpu_read(self, reg: u16, cart: CartridgeView) -> (PpuView, u8) {
        if reg == 2 {
            let val = (self.status & 0xE0u8) | (self.data_buf & 0x1Fu8);
            let p = PpuView { status: self.status & !0x80u8, w: false, ..self };
            (p.spec_update_nmi(), val)
        } else if reg == 4 {
            (self, self.oam[self.oam_addr as int])
        } else if reg == 7 {
            let fetched = self.mem_read(cart, self.v);
            let val = if self.v >= 0x3F00 { fetched } else { self.data_buf };
            (PpuView { data_buf: fetched, ..self }.spec_increment_v(), val)
        } else {
            (self, 0)
        }
    }

    /// A CPU write of `val` to register `reg` ($2000 + reg).
    pub open spec fn spec_cpu_write(self, reg: u16, val: u8, cart: CartridgeView) -> (PpuView, CartridgeView) {
        let v16 = val as u16;
        if reg == 0 {
            let p = PpuView {
                ctrl: val,
                nmi_output: val & 0x80u8 != 0,
                t: (self.t & 0xF3FFu16) | ((v16 & 0x03u16) << 10u16),
                ..self
            };
            (p.spec_update_nmi(), cart)
        } else if reg == 1 {
            (PpuView { mask: val, ..self }, cart)
        } else if reg == 3 {
            (PpuView { oam_addr: val, ..self }, cart)
        } else if reg == 4 {
            (PpuView {
                oam: self.oam.update(self.oam_addr as int, val),
                oam_addr: ((self.oam_addr + 1) % 256) as u8,
                ..self
            }, cart)
        } else if reg == 5 {
            if !self.w {
                (PpuView { x: val & 0x07u8, t: (self.t & 0xFFE0u16) | (v16 >> 3u16), w: true, ..self }, cart)
            } else {
                (PpuView {
                    t: (self.t & 0x8C1Fu16) | ((v16 & 0x07u16) << 12u16) | ((v16 & 0xF8u16) << 2u16),
                    w: false,
                    ..self
                }, cart)
            }
        } else if reg == 6 {
            if !self.w {
                (PpuView { t: (self.t & 0x80FFu16) | ((v16 & 0x3Fu16) << 8u16), w: true, ..self }, cart)
            } else {
                let t = (self.t & 0xFF00u16) | v16;
                (PpuView { t, v: t, w: false, ..self }, cart)
            }
        } else if reg == 7 {
            let (p, c) = self.mem_write(cart, self.v, val);
            (p.spec_increment_v(), c)
        } else {
            (self, cart)
        }
    }

    /// PPUCTRL law: a write of `val` to $2000 stores it as the control
    /// register, enables the vblank NMI exactly when bit 7 is set, copies the
    /// base name-table select (bits 0-1) into bits 10-11 of `t` and leaves
    /// the other bits of `t` and the cartridge alone.
    pub proof fn lemma_ppuctrl(self, val: u8, cart: CartridgeView)
        ensures
            ({
                let (p, c) = self.spec_cpu_write(0, val, cart);
                &&& p.ctrl == val
                &&& p.nmi_output == (val & 0x80u8 != 0)
                &&& (p.t >> 10u16) & 0x3u16 == (val & 0x3u8) as u16
                &&& p.t & 0xF3FFu16 == self.t & 0xF3FFu16
                &&& c == cart
            }),
    {
        lemma_register_bits(self.status, self.data_buf, self.t, val);
    }

    /// PPUSCROLL law: the first write of `val` to $2005 (write toggle clear)
    /// sets fine X to its low three bits and coarse X (bits 0-4 of `t`) to
    /// its top five bits; the second sets fine Y (bits 12-14 of `t`) to its
    /// low three bits and coarse Y (bits 5-9) to its top five bits. Each
    /// leaves the other bits of `t` alone and flips the toggle.
    pub proof fn lemma_ppuscroll(self, val: u8, cart: CartridgeView)
        ensures
            ({
                let (p, c) = self.spec_cpu_write(5, val, cart);
                &&& c == cart
                &&& p.w == !self.w
                &&& p.v == self.v
                &&& !self.w ==> p.x == val & 0x07u8 && p.t & 0x001Fu16 == (val >> 3u8) as u16
                    && p.t & 0xFFE0u16 == self.t & 0xFFE0u16
                &&& self.w ==> p.x == self.x && (p.t >> 12u16) & 0x7u16 == (val & 0x07u8) as u16
                    && (p.t >> 5u16) & 0x1Fu16 == (val >> 3u8) as u16 && p.t & 0x8C1Fu16 == self.t & 0x8C1Fu16
            }),
    {
        lemma_register_bits(self.status, self.data_buf, self.t, val);
    }

    /// OAM port law: a write to OAMADDR ($2003) selects the OAM byte; a write
    /// to OAMDATA ($2004) stores `val` there, leaves the other 255 bytes
    /// alone and moves on to the next byte (wrapping after 255); a read of
    /// OAMDATA returns the selected byte and changes nothing.
    pub proof fn lemma_oam_port(self, val: u8, cart: CartridgeView, i: int)
        requires
            self.wf(),
            0 <= i < 256,
        ensures
            self.spec_cpu_write(3, val, cart).0.oam_addr == val,
            self.spec_cpu_write(3, val, cart).0.oam == self.oam,
            ({
                let p = self.spec_cpu_write(4, val, cart).0;
                &&& p.oam.len() == self.oam.len()
                &&& p.oam[self.oam_addr as int] == val
                &&& i != self.oam_addr ==> p.oam[i] == self.oam[i]
                &&& p.oam_addr == (self.oam_addr + 1) % 256
            }),
            self.spec_cpu_read(4, cart) == (self, self.oam[self.oam_addr as int]),
    {
    }

    /// PPUSTATUS law: a read of $2002 returns the vblank, sprite-0-hit and
    /// overflow flags in its top three bits, clears the vblank flag (keeping
    /// the others), resets the write toggle, and leaves VRAM, OAM and the
    /// addresses alone.
    pub proof fn lemma_ppustatus(self, cart: CartridgeView)
        ensures
            ({
                let (p, val) = self.spec_cpu_read(2, cart);
                &&& val & 0xE0u8 == self.status & 0xE0u8
                &&& p.status & 0x80u8 == 0
                &&& p.status & 0x7Fu8 == self.status & 0x7Fu8
                &&& !p.w
                &&& p.v == self.v && p.t == self.t
                &&& p.name_table == self.name_table && p.palette_ram == self.palette_ram && p.oam == self.oam
            }),
    {
        lemma_register_bits(self.status, self.data_buf, self.t, 0);
    }

    /// PPUDATA increment law: every read or write of $2007 advances the VRAM
    /// address by 32 when PPUCTRL bit 2 is set and by 1 otherwise (modulo
    /// 64K), and leaves PPUCTRL alone.
    pub proof fn lemma_ppudata_increment(self, cart: CartridgeView, val: u8)
        ensures
            ({
                let step = if self.ctrl & 0x04u8 != 0 { 32int } else { 1int };
                let w = self.spec_cpu_write(7, val, cart).0;
                let r = self.spec_cpu_read(7, cart).0;
                &&& w.v == (self.v + step) % 65536 && w.ctrl == self.ctrl
                &&& r.v == (self.v + step) % 65536 && r.ctrl == self.ctrl
            }),
    {
        reveal(PpuView::mem_write);
    }

    /// PPUADDR law: after a read of PPUSTATUS (which resets the write
    /// toggle), writing `hi` and then `lo` to PPUADDR ($2006) points the VRAM
    /// address at `((hi & 0x3F) << 8) | lo` in the 14-bit PPU address space.
    pub proof fn lemma_ppuaddr(self, cart: CartridgeView, hi: u8, lo: u8)
        ensures
            ({
                let p1 = self.spec_cpu_read(2, cart).0;
                let (p2, c2) = p1.spec_cpu_write(6, hi, cart);
                let (p3, c3) = p2.spec_cpu_write(6, lo, c2);
                &&& p3.v & 0x3FFFu16 == ppuaddr_value(hi, lo)
                &&& !p3.w
                &&& c3 == cart
            }),
    {
        lemma_latch_bits(self.spec_cpu_read(2, cart).0.t, hi, lo);
    }

    /// PPUDATA law: with the write toggle clear, pointing PPUADDR at a
    /// name-table address, writing `val` through PPUDATA ($2007), pointing
    /// PPUADDR at the same address again and reading PPUDATA twice gives
    /// `val` on the second read (the first returns the old read buffer).
    pub proof fn lemma_ppudata_round_trip(self, cart: CartridgeView, hi: u8, lo: u8, val: u8)
        requires
            self.wf(),
            !self.w,
            self.t < 0x8000,
            0x2000 <= ppuaddr_value(hi, lo) < 0x3EE0,
        ensures
            ({
                let (p1, c1) = self.spec_cpu_write(6, hi, cart);
                let (p2, c2) = p1.spec_cpu_write(6, lo, c1);
                let (p3, c3) = p2.spec_cpu_write(7, val, c2);
                let (p4, c4) = p3.spec_cpu_write(6, hi, c3);
                let (p5, c5) = p4.spec_cpu_write(6, lo, c4);
                let p6 = p5.spec_cpu_read(7, c5).0;
                &&& p6.spec_cpu_read(7, c5).1 == val
                &&& c5 == cart
            }),
    {
        let a = ppuaddr_value(hi, lo);
        lemma_latch_bits(self.t, hi, lo);
        let (p1, c1) = self.spec_cpu_write(6, hi, cart);
        let (p2, c2) = p1.spec_cpu_write(6, lo, c1);
        assert(p2.v == a && p2.t == a && !p2.w && c2 == cart);
        self.lemma_vram_read_after_write(cart, a, val);
        reveal(PpuView::mem_write);
        reveal(PpuView::mem_read);
        let (p3, c3) = p2.spec_cpu_write(7, val, c2);
        assert(c3 == cart);
        lemma_latch_bits(p3.t, hi, lo);
        let (p4, c4) = p3.spec_cpu_write(6, hi, c3);
        let (p5, c5) = p4.spec_cpu_write(6, lo, c4);
        assert(p5.v == a && p5.name_table == p3.name_table && p5.palette_ram == p3.palette_ram);
        lemma_mirror_in_range(a & 0x3FFFu16, cart.mirroring());
        assert(a & 0x3FFFu16 == a) by {
            lemma_latch_bits(0, hi, lo);
        }
    }

    /// Palette mirror law: a write to $3F10, $3F14, $3F18 or $3F1C (`k` = 0..3)
    /// stores into the palette entry of $3F00, $3F04, $3F08 or $3F0C, so a
    /// later read of either address gives the byte back; the other palette
    /// entries (among them entry $10 + 4k), the name tables and the cartridge
    /// are left as they were. `mem_write` and `mem_read` are exactly what
    /// `ppu_write` and `ppu_read` do.
    pub proof fn lemma_palette_mirror(self, cart: CartridgeView, k: u16, val: u8)
        requires
            self.wf(),
            k < 4,
        ensures
            ({
                let (p, c) = self.mem_write(cart, (0x3F10 + 4 * k) as u16, val);
                &&& c == cart
                &&& p.palette_ram[4 * k] == val
                &&& p.mem_read(cart, (0x3F00 + 4 * k) as u16) == val
                &&& p.mem_read(cart, (0x3F10 + 4 * k) as u16) == val
                &&& forall|i: int| 0 <= i < 32 && i != 4 * k ==> p.palette_ram[i] == self.palette_ram[i]
                &&& p.palette_ram.len() == 32
                &&& p.name_table == self.name_table
            }),
    {
        reveal(PpuView::mem_read);
        reveal(PpuView::mem_write);
        lemma_palette_mirror_index(k);
    }

    /// VRAM law: a byte written to a name-table or palette address is what a
    /// later read of that address returns (the same mirroring applies to
    /// both), and such a write leaves the cartridge alone.
    pub proof fn lemma_vram_read_after_write(self, cart: CartridgeView, addr: u16, val: u8)
        requires
            self.wf(),
            addr & 0x3FFFu16 >= 0x2000,
        ensures
            self.mem_write(cart, addr, val).1 == cart,
            self.mem_write(cart, addr, val).0.mem_read(cart, addr) == val,
    {
        reveal(PpuView::mem_read);
        reveal(PpuView::mem_write);
        lemma_mirror_in_range(addr & 0x3FFFu16, cart.mirroring());
        lemma_palette_in_range(addr & 0x3FFFu16);
    }

}

impl Ppu {
    pub open spec fn wf(&self) -> bool {
        self@.wf()
    }

    /// Store a byte into OAM directly, as OAM DMA does.
    pub fn write_oam(&mut self, index: u8, val: u8)
        requires
            old(self).wf(),
        ensures
            final(self)@ == (PpuView { oam: old(self)@.oam.update(index as int, val), ..old(self)@ }),
            final(self).wf(),
    {
        self.oam.set(index as usize, val);
    }

    pub fn new() -> (p: Self)
        ensures
            p@ == PpuView::initial(),
            p.wf(),
    {
        let p = Ppu {
            ctrl: 0,
            mask: 0,
            status: 0,
            oam_addr: 0,
            v: 0,
            t: 0,
            x: 0,
            w: false,
            data_buf: 0,
            name_table: vec![0u8; NAMETABLE_BYTES],
            palette_ram: vec![0u8; 32],
            oam: vec![0u8; 256],
            oam2: vec![0u8; 32],
            bg_pattern_lo: 0,
            bg_pattern_hi: 0,
            bg_attrib_lo: 0,
            bg_attrib_hi: 0,
            bg_at_latch_lo: false,
            bg_at_latch_hi: false,
            next_nt: 0,
            next_at: 0,
            next_lo: 0,
            next_hi: 0,
            sprite_count: 0,
            sprite_patterns_lo: vec![0u8; 8],
            sprite_patterns_hi: vec![0u8; 8],
            sprite_attribs: vec![0u8; 8],
            sprite_x: vec![0u8; 8],
            sprite_zero_hit_possible: false,
            sprite_zero_being_rendered: false,
            scanline: 0,
            dot: 0,
            frame: 0,
            nmi_occurred: false,
            nmi_output: false,
            nmi_prev: false,
            frame_buffer: vec![0u8; FRAME_BYTES],
        };
        proof {
            let i = PpuView::initial();
            assert(p@.name_table =~= i.name_table);
            assert(p@.palette_ram =~= i.palette_ram);
            assert(p@.oam =~= i.oam);
            assert(p@.oam2 =~= i.oam2);
            assert(p@.sprite_patterns_lo =~= i.sprite_patterns_lo);
            assert(p@.sprite_patterns_hi =~= i.sprite_patterns_hi);
            assert(p@.sprite_attribs =~= i.sprite_attribs);
            assert(p@.sprite_x =~= i.sprite_x);
            assert(p@.frame_buffer =~= i.frame_buffer);
        }
        p
    }

    pub fn reset(&mut self)
        requires
            old(self).wf(),
        ensures
            final(self)@ == old(self)@.spec_reset(),
            final(self).wf(),
    {
        self.ctrl = 0;
        self.mask = 0;
        self.v = 0;
        self.t = 0;
        self.x = 0;
        self.w = false;
        self.scanline = 0;
        self.dot = 0;
        self.frame = 0;
    }

    /// CPU read of $2000 + reg.
    pub fn cpu_read(&mut self, reg: u16, cart: &mut Cartridge) -> (val: u8)
        requires
            old(self).wf(),
            old(cart).wf(),
        ensures
            (final(self)@, val) == old(self)@.spec_cpu_read(reg, old(cart)@),
            final(self).scanline == old(self).scanline,
            final(self).dot == old(self).dot,
            final(self).frame == old(self).frame,
            final(cart)@ == old(cart)@,
            final(self).wf(),
            final(cart).wf(),
    {
        if reg == 2 {
            let val = (self.status & 0xE0) | (self.data_buf & 0x1F);
            self.status &= !0x80;
            self.w = false;
            self.update_nmi();
            val
        } else if reg == 4 {
            self.oam[self.oam_addr as usize]
        } else if reg == 7 {
            let mut val = self.data_buf;
            self.data_buf = self.ppu_read(self.v, cart);
            if self.v >= 0x3F00 {
                val = self.data_buf;
            }
            self.increment_v();
            val
        } else {
            0
        }
    }

    /// CPU write of $2000 + reg.
    pub fn cpu_write(&mut self, reg: u16, val: u8, cart: &mut Cartridge)
        requires
            old(self).wf(),
            old(cart).wf(),
        ensures
            (final(self)@, final(cart)@) == old(self)@.spec_cpu_write(reg, val, old(cart)@),
            final(self).scanline == old(self).scanline,
            final(self).dot == old(self).dot,
            final(self).frame == old(self).frame,
            final(self).wf(),
            final(cart).wf(),
    {
        if reg == 0 {
            self.ctrl = val;
            self.nmi_output = val & 0x80 != 0;
            self.t = (self.t & 0xF3FF) | (((val as u16) & 0x03) << 10);
            self.update_nmi();
        } else if reg == 1 {
            self.mask = val;
        } else if reg == 3 {
            self.oam_addr = val;
        } else if reg == 4 {
            let a = self.oam_addr as usize;
            self.oam.set(a, val);
            self.oam_addr = self.oam_addr.wrapping_add(1);
        } else if reg == 5 {
            if !self.w {
                proof {
                    crate::bits::lemma_byte_fields();
                    assert(val & 0x07u8 < 8);
                }
                self.x = val & 0x07;
                self.t = (self.t & 0xFFE0) | ((val as u16) >> 3);
            } else {
                self.t = (self.t & 0x8C1F) | (((val as u16) & 0x07) << 12) | (((val as u16) & 0xF8) << 2);
            }
            self.w = !self.w;
        } else if reg == 6 {
            if !self.w {
                self.t = (self.t & 0x80FF) | (((val as u16) & 0x3F) << 8);
            } else {
                self.t = (self.t & 0xFF00) | val as u16;
                self.v = self.t;
            }
            self.w = !self.w;
        } else if reg == 7 {
            let v = self.v;
            self.ppu_write(v, val, cart);
            self.increment_v();
        }
    }

    fn increment_v(&mut self)
        requires
            old(self).wf(),
        ensures
            final(self)@ == old(self)@.spec_increment_v(),
            final(self).wf(),
    {
        if self.ctrl & 0x04 != 0 {
            self.v = self.v.wrapping_add(32);
        } else {
            self.v = self.v.wrapping_add(1);
        }
    }

    fn update_nmi(&mut self)
        requires
            old(self).wf(),
        ensures
            final(self)@ == old(self)@.spec_update_nmi(),
            final(self).wf(),
    {
        let nmi = self.nmi_output && (self.status & 0x80 != 0);
        if nmi && !self.nmi_prev {
            self.nmi_occurred = true;
        }
        self.nmi_prev = nmi;
    }

    fn ppu_read(&self, addr: u16, cart: &Cartridge) -> (val: u8)
        requires
            self.wf(),
            cart.wf(),
        ensures
            val == self@.mem_read(cart@, addr),
    {
        reveal(PpuView::mem_read);
        let addr = addr & 0x3FFF;
        if addr <= 0x1FFF {
            cart.ppu_read(addr)
        } else if addr <= 0x3EFF {
            let idx = self.mirror_nt_addr(addr, cart.mirroring());
            self.name_table[idx]
        } else {
            let idx = Self::palette_idx(addr);
            self.palette_ram[idx]
        }
    }

    fn ppu_write(&mut self, addr: u16, val: u8, cart: &mut Cartridge)
        requires
            old(self).wf(),
            old(cart).wf(),
        ensures
            (final(self)@, final(cart)@) == old(self)@.mem_write(old(cart)@, addr, val),
            final(self).scanline == old(self).scanline,
            final(self).dot == old(self).dot,
            final(self).frame == old(self).frame,
            final(self).wf(),
            final(cart).wf(),
    {
        reveal(PpuView::mem_write);
        let addr = addr & 0x3FFF;
        if addr <= 0x1FFF {
            cart.ppu_write(addr, val);
        } else if addr <= 0x3EFF {
            let idx = self.mirror_nt_addr(addr, cart.mirroring());
            self.name_table.set(idx, val);
        } else {
            let idx = Self::palette_idx(addr);
            self.palette_ram.set(idx, val);
        }
    }

    fn palette_idx(addr: u16) -> (idx: usize)
        ensures
            idx == palette_index(addr),
            idx < 32,
    {
        let idx = (addr & 0x1F) as usize;
        proof {
            lemma_palette_in_range(addr);
        }
        if idx & 0x13 == 0x10 { idx & !0x10 } else { idx }
    }

    fn mirror_nt_addr(&self, addr: u16, mirroring: Mirroring) -> (idx: usize)
        ensures
            idx == spec_mirror_nt_addr(addr, mirroring),
            idx < NAMETABLE_BYTES,
    {
        let a16 = addr & 0x0FFF;
        proof {
            lemma_mirror_in_range(addr, mirroring);
        }
        let addr = a16 as usize;
        match mirroring {
            Mirroring::Horizontal => ((addr >> 1) & 0x400) | (addr & 0x3FF),
            Mirroring::Vertical => addr & 0x7FF,
            Mirroring::SingleScreenLow => addr & 0x3FF,
            Mirroring::SingleScreenHigh => (addr & 0x3FF) | 0x400,
            Mirroring::FourScreen => addr & 0xFFF,
        }
    }
}

impl Default for Ppu {
    fn default() -> (p: Self)
        ensures
            p@ == PpuView::initial(),
            p.wf(),
    {
        Self::new()
    }
}

} // verus!
