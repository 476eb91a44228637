//! The PPU's dot clock: background fetches, sprite evaluation, pixel output
//! and the scanline/frame counters.
use vstd::prelude::*;

use super::{master_palette, master_palette_exec, Ppu, PpuView, FRAME_BYTES, SCREEN_WIDTH};
use crate::cartridge::{Cartridge, CartridgeView};

verus! {

/// Bit-reversal of a byte (bit 7 becomes bit 0 and so on).
pub open spec fn spec_reverse_u8(b: u8) -> u8 {
    ((b & 0x01u8) << 7u8) | ((b & 0x02u8) << 5u8) | ((b & 0x04u8) << 3u8) | ((b & 0x08u8) << 1u8)
        | ((b >> 1u8) & 0x08u8) | ((b >> 3u8) & 0x04u8) | ((b >> 5u8) & 0x02u8) | ((b >> 7u8) & 0x01u8)
}

/// Reverse the bits of a byte, as `u8::reverse_bits` does.
pub fn reverse_u8(b: u8) -> (r: u8)
    ensures
        r == spec_reverse_u8(b),
        forall|i: u8| i < 8 ==> #[trigger] ((r >> i) & 1u8) == (b >> (7 - i) as u8) & 1u8,
{
    let r = ((b & 0x01) << 7) | ((b & 0x02) << 5) | ((b & 0x04) << 3) | ((b & 0x08) << 1) | ((b >> 1) & 0x08)
        | ((b >> 3) & 0x04) | ((b >> 5) & 0x02) | ((b >> 7) & 0x01);
    proof {
        assert forall|i: u8| i < 8 implies #[trigger] ((r >> i) & 1u8) == (b >> (7 - i) as u8) & 1u8 by {
            assert(((r >> i) & 1u8) == (b >> (7 - i) as u8) & 1u8) by (bit_vector)
                requires
                    i < 8,
                    r == ((b & 0x01u8) << 7u8) | ((b & 0x02u8) << 5u8) | ((b & 0x04u8) << 3u8) | ((b & 0x08u8) << 1u8)
                        | ((b >> 1u8) & 0x08u8) | ((b >> 3u8) & 0x04u8) | ((b >> 5u8) & 0x02u8) | ((b >> 7u8) & 0x01u8);
        }
    }
    r
}

/// The bits of `v` that the coarse-X step changes.
proof fn lemma_coarse_x_bits(v: u16)
    by (bit_vector)
    ensures
        v & 0x001Fu16 < 32,
        v & 0x001Fu16 == 31 ==> {
            let v2 = (v & !0x001Fu16) ^ 0x0400u16;
            &&& v2 & 0x1Fu16 == 0
            &&& v2 & 0x400u16 == (v & 0x400u16) ^ 0x400u16
            &&& v2 & 0xFBE0u16 == v & 0xFBE0u16
        },
        v & 0x001Fu16 != 31 ==> {
            let v2 = (v + 1) as u16;
            &&& v2 & 0x1Fu16 == (v & 0x1Fu16) + 1
            &&& v2 & 0x400u16 == v & 0x400u16
            &&& v2 & 0xFBE0u16 == v & 0xFBE0u16
        },
{
}

/// The bits of `v` that the fine-Y step changes.
proof fn lemma_fine_y_bits(v: u16)
    by (bit_vector)
    ensures
        (v & 0x7000u16 == 0x7000u16) == ((v >> 12u16) & 7u16 == 7),
        (v >> 12u16) & 7u16 < 8,
        (v >> 5u16) & 31u16 < 32,
        v & 0x7000u16 != 0x7000u16 ==> {
            let v2 = (v + 0x1000) as u16;
            &&& (v2 >> 12u16) & 7u16 == ((v >> 12u16) & 7u16) + 1
            &&& v2 & 0x0BE0u16 == v & 0x0BE0u16
            &&& v2 & 0x041Fu16 == v & 0x041Fu16
            &&& v2 & 0x8000u16 == v & 0x8000u16
        },
        v & 0x7000u16 == 0x7000u16 ==> {
            let v1 = v & !0x7000u16;
            let y = (v1 & 0x03E0u16) >> 5u16;
            let v2 = if y == 29 { v1 ^ 0x0800u16 } else { v1 };
            let y2: u16 = if y == 29 || y == 31 { 0 } else { (y + 1) as u16 };
            let r = (v2 & !0x03E0u16) | (y2 << 5u16);
            &&& (v >> 12u16) & 7u16 == 7
            &&& y == (v >> 5u16) & 31u16
            &&& y < 32
            &&& (r >> 12u16) & 7u16 == 0
            &&& (r >> 5u16) & 31u16 == y2
            &&& r & 0x0800u16 == (if y == 29 { (v & 0x0800u16) ^ 0x0800u16 } else { v & 0x0800u16 })
            &&& r & 0x041Fu16 == v & 0x041Fu16
            &&& r & 0x8000u16 == v & 0x8000u16
        },
{
}

/// Testing bit `15 - fx` of a shift register, and joining two such bits
/// into a 2-bit value.
proof fn lemma_fine_x_bit(v: u16, fx: u8, a: bool, b: bool)
    by (bit_vector)
    requires
        fx < 8,
    ensures
        (v & (0x8000u16 >> (fx as u16)) != 0) == ((v >> ((15u16 - fx as u16) as u16)) & 1u16 == 1u16),
        ((if a { 2u8 } else { 0u8 }) | (if b { 1u8 } else { 0u8 })) == (if a { 2u8 } else { 0u8 }) + (if b { 1u8 } else { 0u8 }),
{
}

/// How many of the OAM entries from `i` to 63 lie on the scanline after
/// `scanline`, for sprites `height` rows tall.
pub open spec fn sprites_on_next_line(oam: Seq<u8>, scanline: int, height: int, i: int) -> nat
    decreases 64 - i,
{
    if i >= 64 || i < 0 {
        0
    } else {
        (if 0 <= scanline + 1 - oam[i * 4] < height { 1nat } else { 0nat }) + sprites_on_next_line(
            oam,
            scanline,
            height,
            i + 1,
        )
    }
}

impl PpuView {
    pub open spec fn rendering_enabled(self) -> bool {
        self.mask & 0x18u8 != 0
    }

    /// Step coarse X, wrapping into the horizontally adjacent nametable.
    pub open spec fn spec_incr_coarse_x(self) -> PpuView {
        if !self.rendering_enabled() {
            self
        } else if self.v & 0x001Fu16 == 31 {
            PpuView { v: (self.v & !0x001Fu16) ^ 0x0400u16, ..self }
        } else {
            PpuView { v: (self.v + 1) as u16, ..self }
        }
    }

    /// Coarse-X law: with rendering on, stepping coarse X adds one to bits
    /// 0-4 of `v`; from 31 it wraps to 0 and switches the horizontal
    /// name table (bit 10). The other bits of `v` are unchanged. With
    /// rendering off nothing changes.
    pub proof fn lemma_incr_coarse_x(self)
        ensures
            ({
                let v = self.v;
                let v2 = self.spec_incr_coarse_x().v;
                &&& !self.rendering_enabled() ==> v2 == v
                &&& self.rendering_enabled() ==> {
                    &&& v2 & 0x1Fu16 == ((v & 0x1Fu16) + 1) % 32
                    &&& v2 & 0x400u16 == (if v & 0x1Fu16 == 31 { (v & 0x400u16) ^ 0x400u16 } else { v & 0x400u16 })
                    &&& v2 & 0xFBE0u16 == v & 0xFBE0u16
                }
            }),
    {
        lemma_coarse_x_bits(self.v);
    }

    /// Fine-Y law: with rendering on, stepping fine Y adds one to bits 12-14
    /// of `v`; from 7 it wraps to 0 and steps coarse Y (bits 5-9): row 29
    /// wraps to 0 and switches the vertical name table (bit 11), row 31 wraps
    /// to 0 without switching, other rows add one. Coarse X and bit 10 are
    /// unchanged. With rendering off nothing changes.
    pub proof fn lemma_incr_fine_y(self)
        ensures
            ({
                let v = self.v;
                let v2 = self.spec_incr_fine_y().v;
                let fy = (v >> 12u16) & 7u16;
                let cy = (v >> 5u16) & 31u16;
                &&& !self.rendering_enabled() ==> v2 == v
                &&& self.rendering_enabled() ==> {
                    &&& v2 & 0x041Fu16 == v & 0x041Fu16
                    &&& v2 & 0x8000u16 == v & 0x8000u16
                    &&& fy < 7 ==> (v2 >> 12u16) & 7u16 == fy + 1 && v2 & 0x0BE0u16 == v & 0x0BE0u16
                    &&& fy == 7 ==> (v2 >> 12u16) & 7u16 == 0
                    &&& fy == 7 ==> (v2 >> 5u16) & 31u16 == (if cy == 29 || cy == 31 { 0 } else { cy + 1 })
                    &&& fy == 7 ==> v2 & 0x0800u16 == (if cy == 29 { (v & 0x0800u16) ^ 0x0800u16 } else { v & 0x0800u16 })
                }
            }),
    {
        lemma_fine_y_bits(self.v);
    }

    /// Step fine Y, carrying into coarse Y and the vertical nametable bit
    /// (row 29 wraps to 0 and switches nametable; row 31 wraps without switching).
    pub open spec fn spec_incr_fine_y(self) -> PpuView {
        if !self.rendering_enabled() {
            self
        } else if self.v & 0x7000u16 != 0x7000u16 {
            PpuView { v: (self.v + 0x1000) as u16, ..self }
        } else {
            let v1 = self.v & !0x7000u16;
            let y = (v1 & 0x03E0u16) >> 5u16;
            let v2 = if y == 29 { v1 ^ 0x0800u16 } else { v1 };
            let y2: u16 = if y == 29 || y == 31 { 0 } else { (y + 1) as u16 };
            PpuView { v: (v2 & !0x03E0u16) | (y2 << 5u16), ..self }
        }
    }

    pub open spec fn spec_copy_horiz(self) -> PpuView {
        if !self.rendering_enabled() {
            self
        } else {
            PpuView { v: (self.v & !0x041Fu16) | (self.t & 0x041Fu16), ..self }
        }
    }

    pub open spec fn spec_copy_vert(self) -> PpuView {
        if !self.rendering_enabled() {
            self
        } else {
            PpuView { v: (self.v & !0x7BE0u16) | (self.t & 0x7BE0u16), ..self }
        }
    }

    pub open spec fn spec_shift_bg(self) -> PpuView {
        PpuView {
            bg_pattern_lo: self.bg_pattern_lo << 1u16,
            bg_pattern_hi: self.bg_pattern_hi << 1u16,
            bg_attrib_lo: (self.bg_attrib_lo << 1u16) | (if self.bg_at_latch_lo { 1u16 } else { 0u16 }),
            bg_attrib_hi: (self.bg_attrib_hi << 1u16) | (if self.bg_at_latch_hi { 1u16 } else { 0u16 }),
            ..self
        }
    }

    /// Pattern-table base selected by a control-register bit.
    pub open spec fn bg_pattern_base(self) -> u16 {
        if self.ctrl & 0x10u8 != 0 { 0x1000u16 } else { 0u16 }
    }

    /// The background fetch performed on the current dot (eight-dot cycle:
    /// nametable, attribute, pattern low, pattern high, then coarse-X step).
    #[verifier::opaque]
    pub open spec fn spec_fetch_bg_tile(self, cart: CartridgeView) -> PpuView {
        let d = self.dot % 8;
        let v = self.v;
        let p = if d == 1 {
            PpuView {
                bg_pattern_lo: (self.bg_pattern_lo & 0xFF00u16) | (self.next_lo as u16),
                bg_pattern_hi: (self.bg_pattern_hi & 0xFF00u16) | (self.next_hi as u16),
                bg_at_latch_lo: self.next_at & 1u8 != 0,
                bg_at_latch_hi: self.next_at & 2u8 != 0,
                next_nt: self.mem_read(cart, 0x2000u16 | (v & 0x0FFFu16)),
                ..self
            }
        } else if d == 3 {
            let addr = 0x23C0u16 | (v & 0x0C00u16) | ((v >> 4u16) & 0x38u16) | ((v >> 2u16) & 0x07u16);
            let shift = ((v >> 4u16) & 0x04u16) | (v & 0x02u16);
            PpuView { next_at: (self.mem_read(cart, addr) >> shift) & 0x03u8, ..self }
        } else if d == 5 {
            let addr = self.bg_pattern_base() | ((self.next_nt as u16) << 4u16) | ((v >> 12u16) & 0x07u16);
            PpuView { next_lo: self.mem_read(cart, addr), ..self }
        } else if d == 7 {
            let addr = self.bg_pattern_base() | ((self.next_nt as u16) << 4u16) | ((v >> 12u16) & 0x07u16) | 8u16;
            PpuView { next_hi: self.mem_read(cart, addr), ..self }
        } else if d == 0 {
            self.spec_incr_coarse_x()
        } else {
            self
        };
        if self.dot == 256 { p.spec_incr_fine_y() } else { p }
    }

    /// Whether sprite slot `i` covers screen column `x`.
    pub open spec fn sprite_covers(self, x: int, i: int) -> bool {
        0 <= x - self.sprite_x[i] <= 7
    }

    /// The 2-bit pattern value of sprite slot `i` at screen column `x`.
    pub open spec fn sprite_pixel(self, x: int, i: int) -> u8 {
        let bp = (7 - (x - self.sprite_x[i])) as u8;
        (((self.sprite_patterns_hi[i] >> bp) & 1u8) << 1u8) | ((self.sprite_patterns_lo[i] >> bp) & 1u8)
    }

    /// The first loaded sprite slot at or after `i` that has an opaque pixel at column `x`.
    pub open spec fn sprite_hit_from(self, x: int, i: int) -> Option<int>
        decreases 8 - i,
    {
        if i >= self.sprite_count || i >= 8 || i < 0 {
            None
        } else if self.sprite_covers(x, i) && self.sprite_pixel(x, i) != 0 {
            Some(i)
        } else {
            self.sprite_hit_from(x, i + 1)
        }
    }

    /// Sprite priority law: the sprite chosen for column `x` among the
    /// loaded slots from `j` on is the lowest-numbered one that covers `x`
    /// with an opaque pixel; when no slot does, none is chosen.
    pub proof fn lemma_sprite_hit(self, x: int, j: int)
        requires
            0 <= j,
        ensures
            match self.sprite_hit_from(x, j) {
                Some(i) => {
                    &&& j <= i < 8
                    &&& i < self.sprite_count
                    &&& self.sprite_covers(x, i)
                    &&& self.sprite_pixel(x, i) != 0
                    &&& forall|k: int| j <= k < i ==> !(#[trigger] self.sprite_covers(x, k) && self.sprite_pixel(x, k) != 0)
                },
                None => forall|k: int|
                    j <= k < 8 && k < self.sprite_count ==> !(#[trigger] self.sprite_covers(x, k) && self.sprite_pixel(x, k) != 0),
            },
        decreases 8 - j,
    {
        if j >= self.sprite_count || j >= 8 {
        } else if self.sprite_covers(x, j) && self.sprite_pixel(x, j) != 0 {
        } else {
            self.lemma_sprite_hit(x, j + 1);
        }
    }

    /// Sprite-versus-background priority law: where the background pixel
    /// and the chosen sprite's pixel at column `x` are both opaque, the
    /// (palette, pattern value) pair drawn is the sprite's (palette 4 + the
    /// low two attribute bits) exactly when the sprite's attribute bit 5 is
    /// clear, and the background's otherwise; rendering the dot for column
    /// `x` stores the master-palette colour of that pair, as B, G, R, A.
    pub proof fn lemma_sprite_priority(self, x: int)
        requires
            self.wf(),
            self.bg_pixel(x).0 != 0,
            self.sp_pixel(x).0 != 0,
        ensures
            self.sprite_hit_from(x, 0) is Some,
            ({
                let i = self.sprite_hit_from(x, 0)->Some_0;
                let a = self.sprite_attribs[i];
                let drawn: (u8, u8) = if a & 0x20u8 == 0 {
                    (((a & 0x03u8) + 4) as u8, self.sprite_pixel(x, i))
                } else {
                    (self.bg_pixel(x).1, self.bg_pixel(x).0)
                };
                &&& PpuView::compose(self.bg_pixel(x), self.sp_pixel(x)) == drawn
                &&& (self.dot == x + 1 && 1 <= self.dot <= 256 && 0 <= self.scanline < 240) ==> {
                    let color = (self.palette_ram[(((drawn.0 << 2u8) | drawn.1) & 0x1Fu8) as int] & 0x3Fu8) as int;
                    let off = (self.scanline * 256 + x) * 4;
                    let fb = self.spec_render_pixel().frame_buffer;
                    &&& fb[off] == master_palette()[color * 3 + 2]
                    &&& fb[off + 1] == master_palette()[color * 3 + 1]
                    &&& fb[off + 2] == master_palette()[color * 3]
                    &&& fb[off + 3] == 0xFFu8
                }
            }),
    {
        reveal(PpuView::sp_pixel);
        reveal(PpuView::spec_render_pixel);
        self.lemma_sprite_hit(x, 0);
        if self.dot == x + 1 && 1 <= self.dot <= 256 && 0 <= self.scanline < 240 {
            assert(0 <= (self.scanline * 256 + x) * 4 && (self.scanline * 256 + x) * 4 + 3 < FRAME_BYTES);
        }
    }

    /// Sprite-zero-hit law: drawing the pixel for column `x` (dot `x + 1`)
    /// sets the sprite-0-hit flag (status bit 6) when the sprite pixel shown
    /// there comes from OAM entry 0, both it and the background pixel are
    /// opaque and `x` is not 255; otherwise the flag keeps its value. No
    /// other status bit changes.
    pub proof fn lemma_sprite_zero_hit(self)
        requires
            1 <= self.dot <= 256,
        ensures
            ({
                let x = self.dot - 1;
                let p = self.spec_render_pixel();
                let sp = self.sp_pixel(x);
                &&& (p.status & 0x40u8 != 0) == (self.status & 0x40u8 != 0 || (sp.3 && self.sprite_zero_being_rendered
                    && self.bg_pixel(x).0 != 0 && sp.0 != 0 && x != 255))
                &&& p.status & 0xBFu8 == self.status & 0xBFu8
            }),
    {
        reveal(PpuView::spec_render_pixel);
        let s = self.status;
        assert(((s | 0x40u8) & 0x40u8 != 0) && ((s | 0x40u8) & 0xBFu8 == s & 0xBFu8)) by (bit_vector);
    }

    /// Background-pixel law: with fine X scroll `fx`, the background pixel
    /// is bit `15 - fx` of the pattern shift registers (high plane worth 2,
    /// low plane worth 1), and its palette the same bit of the attribute
    /// shift registers. It is transparent (0, palette 0) when background
    /// rendering is off (PPUMASK bit 3), and in columns 0-7 when the
    /// left-column background is hidden (PPUMASK bit 1 clear).
    pub proof fn lemma_bg_pixel(self, x: int)
        requires
            self.wf(),
        ensures
            ({
                let (pix, pal) = self.bg_pixel(x);
                let f = (15 - self.x) as u16;
                let bit = |r: u16| ((r >> f) & 1u16) as int;
                &&& (self.mask & 0x08u8 == 0 || (x < 8 && self.mask & 0x02u8 == 0)) ==> pix == 0 && pal == 0
                &&& (self.mask & 0x08u8 != 0 && (x >= 8 || self.mask & 0x02u8 != 0)) ==> {
                    &&& pix == 2 * bit(self.bg_pattern_hi) + bit(self.bg_pattern_lo)
                    &&& pal == 2 * bit(self.bg_attrib_hi) + bit(self.bg_attrib_lo)
                }
            }),
    {
        reveal(PpuView::bg_pixel);
        let fx = self.x;
        let b = 0x8000u16 >> (fx as u16);
        let ph = self.bg_pattern_hi & b != 0;
        let pl = self.bg_pattern_lo & b != 0;
        let ah = self.bg_attrib_hi & b != 0;
        let al = self.bg_attrib_lo & b != 0;
        lemma_fine_x_bit(self.bg_pattern_hi, fx, ph, pl);
        lemma_fine_x_bit(self.bg_pattern_lo, fx, ph, pl);
        lemma_fine_x_bit(self.bg_attrib_hi, fx, ah, al);
        lemma_fine_x_bit(self.bg_attrib_lo, fx, ah, al);
        let f = (15 - fx) as u16;
        assert(f == (15u16 - fx as u16) as u16);
        crate::bits::lemma_word_fields();
        assert(((self.bg_pattern_hi >> f) & 1u16) <= 1);
        assert(((self.bg_pattern_lo >> f) & 1u16) <= 1);
        assert(((self.bg_attrib_hi >> f) & 1u16) <= 1);
        assert(((self.bg_attrib_lo >> f) & 1u16) <= 1);
    }

    /// The background pixel (2-bit pattern value, 2-bit palette) at column `x`.
    #[verifier::opaque]
    pub open spec fn bg_pixel(self, x: int) -> (u8, u8) {
        let bit = 0x8000u16 >> (self.x as u16);
        if self.mask & 0x08u8 != 0 && (self.mask & 0x02u8 != 0 || x >= 8) {
            (
                (if self.bg_pattern_hi & bit != 0 { 2u8 } else { 0u8 }) | (if self.bg_pattern_lo & bit != 0 { 1u8 } else { 0u8 }),
                (if self.bg_attrib_hi & bit != 0 { 2u8 } else { 0u8 }) | (if self.bg_attrib_lo & bit != 0 { 1u8 } else { 0u8 }),
            )
        } else {
            (0u8, 0u8)
        }
    }

    /// The sprite pixel at column `x`: (pattern value, palette, in front of background, from slot 0).
    #[verifier::opaque]
    pub open spec fn sp_pixel(self, x: int) -> (u8, u8, bool, bool) {
        if self.mask & 0x10u8 != 0 && (self.mask & 0x04u8 != 0 || x >= 8) {
            match self.sprite_hit_from(x, 0) {
                Some(i) => (
                    self.sprite_pixel(x, i),
                    ((self.sprite_attribs[i] & 0x03u8) + 4) as u8,
                    self.sprite_attribs[i] & 0x20u8 == 0,
                    i == 0,
                ),
                None => (0u8, 0u8, false, false),
            }
        } else {
            (0u8, 0u8, false, false)
        }
    }

    /// The (palette, pixel) pair that wins priority between background and sprite.
    pub open spec fn compose(bg: (u8, u8), sp: (u8, u8, bool, bool)) -> (u8, u8) {
        if bg.0 == 0 && sp.0 == 0 {
            (0u8, 0u8)
        } else if bg.0 == 0 {
            (sp.1, sp.0)
        } else if sp.0 == 0 {
            (bg.1, bg.0)
        } else if sp.2 {
            (sp.1, sp.0)
        } else {
            (bg.1, bg.0)
        }
    }

    /// Output the pixel for the current dot: pick background or sprite, set the
    /// sprite-zero hit flag, and store the colour (B, G, R, 0xFF) in the frame buffer.
    #[verifier::opaque]
    pub open spec fn spec_render_pixel(self) -> PpuView {
        if self.dot == 0 || self.dot > 256 {
            self
        } else {
            let x = self.dot - 1;
            let y = self.scanline as int;
            let bg = self.bg_pixel(x);
            let sp = self.sp_pixel(x);
            let hit = sp.3 && self.sprite_zero_being_rendered && bg.0 != 0 && sp.0 != 0 && x != 255;
            let (palette, pixel) = PpuView::compose(bg, sp);
            let color = (self.palette_ram[(((palette << 2u8) | pixel) & 0x1Fu8) as int] & 0x3Fu8) as int;
            let off = (y * 256 + x) * 4;
            PpuView {
                status: if hit { self.status | 0x40u8 } else { self.status },
                frame_buffer: self.frame_buffer
                    .update(off, master_palette()[color * 3 + 2])
                    .update(off + 1, master_palette()[color * 3 + 1])
                    .update(off + 2, master_palette()[color * 3])
                    .update(off + 3, 0xFFu8),
                ..self
            }
        }
    }

    pub open spec fn sprite_height(self) -> int {
        if self.ctrl & 0x20u8 != 0 { 16 } else { 8 }
    }

    /// Whether OAM entry `i` lies on the next scanline.
    pub open spec fn sprite_in_range(self, i: int) -> bool {
        let dy = self.scanline + 1 - self.oam[i * 4];
        0 <= dy < self.sprite_height()
    }

    /// The pattern address of the row of OAM entry `i` that the next scanline shows.
    pub open spec fn sprite_row_addr(self, i: int) -> u16 {
        let dy = self.scanline + 1 - self.oam[i * 4];
        let tile = self.oam[i * 4 + 1];
        let attrib = self.oam[i * 4 + 2];
        let row = if attrib & 0x80u8 != 0 { self.sprite_height() - 1 - dy } else { dy };
        if self.sprite_height() == 16 {
            let bank = ((tile as u16) & 1u16) << 12u16;
            let tile_num = (tile as u16) & !1u16;
            let t = if row >= 8 { (tile_num + 1) as u16 } else { tile_num };
            ((bank | (t << 4u16)) + row % 8) as u16
        } else {
            let bank = if self.ctrl & 0x08u8 != 0 { 0x1000u16 } else { 0u16 };
            ((bank | ((tile as u16) << 4u16)) + row) as u16
        }
    }

    /// Load OAM entry `i` into sprite slot `c`.
    #[verifier::opaque]
    pub open spec fn spec_load_slot(self, cart: CartridgeView, i: int, c: int) -> PpuView {
        let attrib = self.oam[i * 4 + 2];
        let addr = self.sprite_row_addr(i);
        let lo0 = self.mem_read(cart, addr);
        let hi0 = self.mem_read(cart, (addr + 8) as u16);
        let flip_h = attrib & 0x40u8 != 0;
        let lo = if flip_h { spec_reverse_u8(lo0) } else { lo0 };
        let hi = if flip_h { spec_reverse_u8(hi0) } else { hi0 };
        PpuView {
            sprite_zero_hit_possible: if i == 0 { true } else { self.sprite_zero_hit_possible },
            sprite_zero_being_rendered: if i == 0 { true } else { self.sprite_zero_being_rendered },
            sprite_patterns_lo: self.sprite_patterns_lo.update(c, lo),
            sprite_patterns_hi: self.sprite_patterns_hi.update(c, hi),
            sprite_attribs: self.sprite_attribs.update(c, attrib),
            sprite_x: self.sprite_x.update(c, self.oam[i * 4 + 3]),
            ..self
        }
    }

    /// Sprite evaluation from OAM entry `i` on, with `count` slots filled:
    /// entries on the next scanline fill the slots in OAM order; a ninth such
    /// entry sets the overflow flag and stops the scan.
    pub open spec fn spec_load_from(self, cart: CartridgeView, i: int, count: int) -> PpuView
        decreases 64 - i,
    {
        if i >= 64 || i < 0 {
            PpuView { sprite_count: count as u8, ..self }
        } else if !self.sprite_in_range(i) {
            self.spec_load_from(cart, i + 1, count)
        } else if count >= 8 {
            PpuView { status: self.status | 0x20u8, sprite_count: count as u8, ..self }
        } else {
            self.spec_load_slot(cart, i, count).spec_load_from(cart, i + 1, count + 1)
        }
    }

    #[verifier::opaque]
    pub open spec fn spec_load_sprites(self, cart: CartridgeView) -> PpuView {
        PpuView {
            sprite_count: 0,
            sprite_zero_hit_possible: false,
            sprite_zero_being_rendered: false,
            ..self
        }.spec_load_from(cart, 0, 0)
    }

    /// Sprite evaluation from entry `i` on, with `count` slots filled, keeps
    /// at most eight and flags an overflow when more are on the line.
    proof fn lemma_load_from_count(self, cart: CartridgeView, i: int, count: int)
        requires
            0 <= i <= 64,
            0 <= count <= 8,
        ensures
            ({
                let n = count + sprites_on_next_line(self.oam, self.scanline as int, self.sprite_height(), i);
                let r = self.spec_load_from(cart, i, count);
                &&& r.sprite_count == (if n > 8 { 8 } else { n })
                &&& r.status == (if n > 8 { self.status | 0x20u8 } else { self.status })
            }),
        decreases 64 - i,
    {
        if i >= 64 {
        } else if !self.sprite_in_range(i) {
            self.lemma_load_from_count(cart, i + 1, count);
        } else if count >= 8 {
        } else {
            reveal(PpuView::spec_load_slot);
            let q = self.spec_load_slot(cart, i, count);
            q.lemma_load_from_count(cart, i + 1, count + 1);
        }
    }

    /// Sprite-evaluation law: of the OAM entries on the next scanline, at
    /// most eight are loaded for it; the sprite-overflow flag (status bit 5)
    /// is raised exactly when more than eight are on the line, and the
    /// status register is otherwise left as it was.
    pub proof fn lemma_sprite_evaluation(self, cart: CartridgeView)
        ensures
            ({
                let n = sprites_on_next_line(self.oam, self.scanline as int, self.sprite_height(), 0);
                let r = self.spec_load_sprites(cart);
                &&& r.sprite_count == (if n > 8 { 8 } else { n })
                &&& r.status == (if n > 8 { self.status | 0x20u8 } else { self.status })
            }),
    {
        reveal(PpuView::spec_load_sprites);
        let p0 = PpuView {
            sprite_count: 0,
            sprite_zero_hit_possible: false,
            sprite_zero_being_rendered: false,
            ..self
        };
        p0.lemma_load_from_count(cart, 0, 0);
    }

    /// The pre-render scanline.
    #[verifier::opaque]
    pub open spec fn spec_tick_prerender(self, cart: CartridgeView) -> PpuView {
        let dot = self.dot;
        let p0 = if dot == 1 { PpuView { status: self.status & !0xE0u8, ..self }.spec_update_nmi() } else { self };
        let p1 = if p0.rendering_enabled() {
            let a = if (1 <= dot <= 256) || (321 <= dot <= 336) { p0.spec_fetch_bg_tile(cart) } else { p0 };
            let b = if 1 <= dot <= 336 { a.spec_shift_bg() } else { a };
            let c = if dot == 257 { b.spec_copy_horiz() } else { b };
            if 280 <= dot <= 304 { c.spec_copy_vert() } else { c }
        } else {
            p0
        };
        if dot == 339 && p1.frame % 2 == 1 && p1.rendering_enabled() {
            PpuView { dot: 340, ..p1 }
        } else {
            p1
        }
    }

    /// A visible scanline.
    #[verifier::opaque]
    pub open spec fn spec_tick_visible(self, cart: CartridgeView) -> PpuView {
        let dot = self.dot;
        if dot == 0 || !self.rendering_enabled() {
            self
        } else if dot <= 256 {
            self.spec_fetch_bg_tile(cart).spec_render_pixel().spec_shift_bg()
        } else if dot == 257 {
            self.spec_copy_horiz().spec_load_sprites(cart)
        } else if 321 <= dot <= 336 {
            self.spec_fetch_bg_tile(cart).spec_shift_bg()
        } else {
            self
        }
    }

    /// The work one dot does on the current scanline: pre-render, visible,
    /// or setting the vblank flag at scanline 241, dot 1.
    #[verifier::opaque]
    pub open spec fn spec_tick_work(self, cart: CartridgeView) -> PpuView {
        if self.scanline == -1 || self.scanline == 261 {
            self.spec_tick_prerender(cart)
        } else if 0 <= self.scanline <= 239 {
            self.spec_tick_visible(cart)
        } else if self.scanline == 241 && self.dot == 1 {
            PpuView { status: self.status | 0x80u8, ..self }.spec_update_nmi()
        } else {
            self
        }
    }

    /// One PPU dot: the scanline's work, then the dot/scanline/frame counters.
    /// The boolean is true when this dot completed a frame.
    #[verifier::opaque]
    pub open spec fn spec_tick(self, cart: CartridgeView) -> (PpuView, bool) {
        let p = self.spec_tick_work(cart);
        if p.dot + 1 > 340 {
            if p.scanline + 1 > 260 {
                (PpuView { dot: 0, scanline: -1i16, frame: (p.frame + 1) as u64, ..p }, true)
            } else {
                (PpuView { dot: 0, scanline: (p.scanline + 1) as i16, ..p }, false)
            }
        } else {
            (PpuView { dot: (p.dot + 1) as u16, ..p }, false)
        }
    }

    /// Vertical-blank law: the dot at scanline 241, dot 1 sets the vblank
    /// flag (status bit 7), keeps the other status bits, and raises an NMI
    /// when NMIs are enabled (PPUCTRL bit 7) and none was already signalled
    /// for this vblank; with NMIs disabled no NMI is raised. The pre-render
    /// line's dot 1 clears the vblank, sprite-0-hit and overflow flags
    /// (bits 5-7), keeps bits 0-4 and raises no NMI.
    pub proof fn lemma_vblank(self, cart: CartridgeView)
        ensures
            (self.scanline == 241 && self.dot == 1) ==> {
                let p = self.spec_tick(cart).0;
                &&& p.status & 0x80u8 != 0
                &&& p.status & 0x7Fu8 == self.status & 0x7Fu8
                &&& (self.nmi_output && !self.nmi_prev) ==> p.nmi_occurred
                &&& !self.nmi_output ==> p.nmi_occurred == self.nmi_occurred
                &&& p.scanline == 241 && p.dot == 2
            },
            (self.scanline == -1 && self.dot == 1) ==> {
                let p = self.spec_tick(cart).0;
                &&& p.status & 0xE0u8 == 0
                &&& p.status & 0x1Fu8 == self.status & 0x1Fu8
                &&& p.nmi_occurred == self.nmi_occurred
            },
    {
        reveal(PpuView::spec_tick);
        reveal(PpuView::spec_tick_work);
        reveal(PpuView::spec_tick_prerender);
        reveal(PpuView::spec_fetch_bg_tile);
        let s = self.status;
        assert(((s | 0x80u8) & 0x80u8 != 0) && ((s | 0x80u8) & 0x7Fu8 == s & 0x7Fu8)
            && ((s & !0xE0u8) & 0xE0u8 == 0) && ((s & !0xE0u8) & 0x1Fu8 == s & 0x1Fu8)
            && ((s & !0xE0u8) & 0x80u8 == 0)) by (bit_vector);
    }

    /// Whether this dot is the one skipped on odd frames: the pre-render
    /// line's dot 339 jumps straight to the next line when rendering is on.
    pub open spec fn skips_dot(self) -> bool {
        self.scanline == -1 && self.dot == 339 && self.frame % 2 == 1 && self.rendering_enabled()
    }

    /// Sprite evaluation leaves the dot counters, the control registers and
    /// OAM alone.
    proof fn lemma_load_from_timing(self, cart: CartridgeView, i: int, count: int)
        requires
            0 <= i <= 64,
        ensures
            self.spec_load_from(cart, i, count).same_timing(self),
        decreases 64 - i,
    {
        if i >= 64 {
        } else if !self.sprite_in_range(i) {
            self.lemma_load_from_timing(cart, i + 1, count);
        } else if count >= 8 {
        } else {
            reveal(PpuView::spec_load_slot);
            self.spec_load_slot(cart, i, count).lemma_load_from_timing(cart, i + 1, count + 1);
        }
    }

    /// A dot's work leaves the dot counters alone, except for the skipped
    /// dot of odd frames, which moves the dot to 340.
    proof fn lemma_tick_work_timing(self, cart: CartridgeView)
        requires
            self.wf(),
        ensures
            !self.skips_dot() ==> self.spec_tick_work(cart).same_timing(self),
            self.skips_dot() ==> self.spec_tick_work(cart).dot == 340 && self.spec_tick_work(cart).scanline
                == self.scanline && self.spec_tick_work(cart).frame == self.frame,
    {
        reveal(PpuView::spec_tick_work);
        reveal(PpuView::spec_tick_prerender);
        reveal(PpuView::spec_tick_visible);
        reveal(PpuView::spec_fetch_bg_tile);
        reveal(PpuView::spec_render_pixel);
        reveal(PpuView::spec_load_sprites);
        let h = self.spec_copy_horiz();
        let p0 = PpuView { sprite_count: 0, sprite_zero_hit_possible: false, sprite_zero_being_rendered: false, ..h };
        p0.lemma_load_from_timing(cart, 0, 0);
    }

    /// Dot-clock law: each PPU dot moves to the next dot of the scanline;
    /// after dot 340 it moves to dot 0 of the next scanline, and after dot
    /// 340 of scanline 260 to dot 0 of the pre-render line (-1) of the next
    /// frame, which is the only dot that reports a completed frame. On odd
    /// frames with rendering on, the pre-render line's dot 339 goes straight
    /// to dot 0 of scanline 0. A frame is thus 341 dots by 262 lines, one
    /// dot shorter on odd rendered frames.
    pub proof fn lemma_dot_clock(self, cart: CartridgeView)
        requires
            self.wf(),
            self.frame < u64::MAX,
        ensures
            ({
                let (p, done) = self.spec_tick(cart);
                &&& done == (self.scanline == 260 && self.dot == 340)
                &&& (self.dot < 340 && !self.skips_dot()) ==> p.dot == self.dot + 1 && p.scanline == self.scanline
                    && p.frame == self.frame
                &&& (self.dot == 340 && self.scanline < 260) ==> p.dot == 0 && p.scanline == self.scanline + 1
                    && p.frame == self.frame
                &&& (self.dot == 340 && self.scanline == 260) ==> p.dot == 0 && p.scanline == -1
                    && p.frame == self.frame + 1
                &&& self.skips_dot() ==> p.dot == 0 && p.scanline == 0 && p.frame == self.frame
            }),
    {
        reveal(PpuView::spec_tick);
        self.lemma_tick_work_timing(cart);
    }

    /// Dots left before the current frame completes.
    pub open spec fn dots_to_frame_end(self) -> int {
        (260 - self.scanline) * 341 + (340 - self.dot)
    }
}

impl Ppu {
    /// Advance the PPU by one dot. Returns true when a frame is complete.
    #[verifier::rlimit(60)]
    pub fn tick(&mut self, cart: &mut Cartridge) -> (frame_done: bool)
        requires
            old(self).wf(),
            old(cart).wf(),
            old(self).frame < u64::MAX,
        ensures
            (final(self)@, frame_done) == old(self)@.spec_tick(old(cart)@),
            final(cart)@ == old(cart)@,
            final(self).wf(),
            final(cart).wf(),
            !frame_done ==> final(self)@.dots_to_frame_end() < old(self)@.dots_to_frame_end(),
            !frame_done ==> final(self).frame == old(self).frame,
            frame_done ==> final(self).frame == old(self).frame + 1,
            final(self)@.dots_to_frame_end() >= 0,
            frame_done == (old(self)@.dots_to_frame_end() == 0),
            !frame_done ==> final(self)@.dots_to_frame_end()
                == old(self)@.dots_to_frame_end() - (if old(self)@.skips_dot() { 2int } else { 1int }),
            frame_done ==> final(self).scanline == -1 && final(self).dot == 0,
    {
        reveal(PpuView::spec_tick);
        self.tick_work(cart);
        let mut frame_done = false;
        self.dot += 1;
        if self.dot > 340 {
            self.dot = 0;
            self.scanline += 1;
            if self.scanline > 260 {
                self.scanline = -1;
                self.frame += 1;
                frame_done = true;
            }
        }
        frame_done
    }

    fn tick_work(&mut self, cart: &Cartridge)
        requires
            old(self).wf(),
            cart.wf(),
        ensures
            final(self)@ == old(self)@.spec_tick_work(cart@),
            final(self).wf(),
            final(self).scanline == old(self).scanline,
            final(self).frame == old(self).frame,
            final(self).dot == (if old(self)@.skips_dot() { 340 } else { old(self).dot }),
    {
        reveal(PpuView::spec_tick_work);
        if self.scanline == -1 || self.scanline == 261 {
            self.tick_prerender(cart);
        } else if self.scanline >= 0 && self.scanline <= 239 {
            self.tick_visible(cart);
        } else if self.scanline == 241 {
            if self.dot == 1 {
                self.status |= 0x80;
                self.update_nmi();
            }
        }
    }

    fn rendering_enabled(&self) -> (b: bool)
        ensures
            b == self@.rendering_enabled(),
    {
        self.mask & 0x18 != 0
    }

    fn tick_prerender(&mut self, cart: &Cartridge)
        requires
            old(self).wf(),
            cart.wf(),
            old(self).scanline == -1,
        ensures
            final(self)@ == old(self)@.spec_tick_prerender(cart@),
            final(self).wf(),
            final(self).scanline == -1,
            final(self).frame == old(self).frame,
            final(self).dot == (if old(self)@.skips_dot() { 340 } else { old(self).dot }),
    {
        reveal(PpuView::spec_tick_prerender);
        let dot = self.dot;
        if dot == 1 {
            self.status &= !0xE0;
            self.update_nmi();
        }
        if self.rendering_enabled() {
            if dot >= 1 && dot <= 256 || dot >= 321 && dot <= 336 {
                self.fetch_bg_tile(cart);
            }
            if dot >= 1 && dot <= 336 {
                self.shift_bg();
            }
            if dot == 257 {
                self.copy_horiz();
            }
            if dot >= 280 && dot <= 304 {
                self.copy_vert();
            }
        }
        if dot == 339 && self.frame & 1 == 1 && self.rendering_enabled() {
            proof {
                let f = self.frame;
                crate::bits::lemma_parity();
                assert((f & 1u64 == 1u64) == (f % 2 == 1));
            }
            self.dot = 340;
        } else {
            proof {
                let f = self.frame;
                crate::bits::lemma_parity();
                assert((f & 1u64 == 1u64) == (f % 2 == 1));
            }
        }
    }

    fn tick_visible(&mut self, cart: &Cartridge)
        requires
            old(self).wf(),
            cart.wf(),
            0 <= old(self).scanline <= 239,
        ensures
            final(self)@ == old(self)@.spec_tick_visible(cart@),
            final(self).wf(),
            final(self).scanline == old(self).scanline,
            final(self).dot == old(self).dot,
            final(self).frame == old(self).frame,
    {
        reveal(PpuView::spec_tick_visible);
        if self.dot == 0 {
            return;
        }
        if self.rendering_enabled() {
            if self.dot <= 256 {
                self.fetch_bg_tile(cart);
                self.render_pixel(cart);
                self.shift_bg();
            } else if self.dot == 257 {
                self.copy_horiz();
                self.load_sprites(cart);
            } else if self.dot >= 321 && self.dot <= 336 {
                self.fetch_bg_tile(cart);
                self.shift_bg();
            }
        }
    }

    #[verifier::rlimit(60)]
    fn fetch_bg_tile(&mut self, cart: &Cartridge)
        requires
            old(self).wf(),
            cart.wf(),
        ensures
            final(self)@ == old(self)@.spec_fetch_bg_tile(cart@),
            final(self)@.same_timing(old(self)@),
            final(self).wf(),
            final(self).dot == old(self).dot,
            final(self).scanline == old(self).scanline,
            final(self).frame == old(self).frame,
    {
        reveal(PpuView::spec_fetch_bg_tile);
        let d = self.dot % 8;
        if d == 1 {
            let nt = self.ppu_read(0x2000 | (self.v & 0x0FFF), cart);
            self.bg_pattern_lo = (self.bg_pattern_lo & 0xFF00) | self.next_lo as u16;
            self.bg_pattern_hi = (self.bg_pattern_hi & 0xFF00) | self.next_hi as u16;
            self.bg_at_latch_lo = self.next_at & 1 != 0;
            self.bg_at_latch_hi = self.next_at & 2 != 0;
            self.next_nt = nt;
        } else if d == 3 {
            let v = self.v;
            let addr = 0x23C0 | (v & 0x0C00) | ((v >> 4) & 0x38) | ((v >> 2) & 0x07);
            let shift = ((v >> 4) & 0x04) | (v & 0x02);
            proof {
                crate::bits::lemma_word_fields();
                assert(((v >> 4u16) & 0x04u16) | (v & 0x02u16) < 8);
            }
            self.next_at = (self.ppu_read(addr, cart) >> shift) & 0x03;
        } else if d == 5 {
            let base: u16 = if self.ctrl & 0x10 != 0 { 0x1000 } else { 0 };
            let fine_y = (self.v >> 12) & 0x07;
            let addr = base | ((self.next_nt as u16) << 4) | fine_y;
            self.next_lo = self.ppu_read(addr, cart);
        } else if d == 7 {
            let base: u16 = if self.ctrl & 0x10 != 0 { 0x1000 } else { 0 };
            let fine_y = (self.v >> 12) & 0x07;
            let addr = base | ((self.next_nt as u16) << 4) | fine_y | 8;
            self.next_hi = self.ppu_read(addr, cart);
        } else if d == 0 {
            self.incr_coarse_x();
        }
        if self.dot == 256 {
            self.incr_fine_y();
        }
    }

    fn shift_bg(&mut self)
        requires
            old(self).wf(),
        ensures
            final(self)@ == old(self)@.spec_shift_bg(),
            final(self)@.same_timing(old(self)@),
            final(self).wf(),
    {
        self.bg_pattern_lo = self.bg_pattern_lo << 1;
        self.bg_pattern_hi = self.bg_pattern_hi << 1;
        self.bg_attrib_lo = self.bg_attrib_lo << 1;
        self.bg_attrib_hi = self.bg_attrib_hi << 1;
        if self.bg_at_latch_lo {
            self.bg_attrib_lo = self.bg_attrib_lo | 1;
        } else {
            proof {
                let a = self.bg_attrib_lo;
                crate::bits::lemma_word_fields();
                assert(a | 0u16 == a);
            }
        }
        if self.bg_at_latch_hi {
            self.bg_attrib_hi = self.bg_attrib_hi | 1;
        } else {
            proof {
                let a = self.bg_attrib_hi;
                crate::bits::lemma_word_fields();
                assert(a | 0u16 == a);
            }
        }
    }

    /// The first loaded sprite slot with an opaque pixel at column `x`.
    fn find_sprite(&self, x: usize) -> (r: Option<usize>)
        requires
            self.wf(),
            x < 256,
        ensures
            match r {
                Some(i) => self@.sprite_hit_from(x as int, 0) == Some(i as int) && i < 8,
                None => self@.sprite_hit_from(x as int, 0) is None,
            },
    {
        let count = self.sprite_count as usize;
        let mut i: usize = 0;
        while i < count
            invariant
                self.wf(),
                count == self.sprite_count,
                i <= count,
                x < 256,
                self@.sprite_hit_from(x as int, 0) == self@.sprite_hit_from(x as int, i as int),
            decreases count - i,
        {
            let sx = self.sprite_x[i] as usize;
            if x >= sx && x - sx <= 7 {
                let bit_pos = (7 - (x - sx)) as u8;
                let lo = (self.sprite_patterns_lo[i] >> bit_pos) & 1;
                let hi = (self.sprite_patterns_hi[i] >> bit_pos) & 1;
                let pixel = (hi << 1) | lo;
                if pixel != 0 {
                    return Some(i);
                }
            }
            i += 1;
        }
        None
    }

    fn bg_pixel_at(&self, x: usize) -> (r: (u8, u8))
        requires
            self.wf(),
        ensures
            r == self@.bg_pixel(x as int),
            r.0 != 0 ==> r.0 <= 3,
            r.1 <= 3,
    {
        reveal(PpuView::bg_pixel);
        let bit: u16 = 0x8000u16 >> self.x;
        if self.mask & 0x08 != 0 && (self.mask & 0x02 != 0 || x >= 8) {
            let ph: u8 = if self.bg_pattern_hi & bit != 0 { 2 } else { 0 };
            let pl: u8 = if self.bg_pattern_lo & bit != 0 { 1 } else { 0 };
            let ah: u8 = if self.bg_attrib_hi & bit != 0 { 2 } else { 0 };
            let al: u8 = if self.bg_attrib_lo & bit != 0 { 1 } else { 0 };
            proof {
                crate::bits::lemma_byte_fields();
                assert((ph == 0 || ph == 2) && (pl == 0 || pl == 1) ==> ph | pl <= 3);
                assert((ah == 0 || ah == 2) && (al == 0 || al == 1) ==> ah | al <= 3);
            }
            (ph | pl, ah | al)
        } else {
            (0, 0)
        }
    }

    fn sprite_pixel_at(&self, x: usize) -> (r: (u8, u8, bool, bool))
        requires
            self.wf(),
            x < 256,
        ensures
            r == self@.sp_pixel(x as int),
            r.0 <= 3,
            r.1 <= 7,
    {
        reveal(PpuView::sp_pixel);
        if self.mask & 0x10 != 0 && (self.mask & 0x04 != 0 || x >= 8) {
            match self.find_sprite(x) {
                Some(i) => {
                    proof {
                        self@.lemma_sprite_hit(x as int, 0);
                    }
                    let sx = self.sprite_x[i] as usize;
                    let bit_pos = (7 - (x - sx)) as u8;
                    let plo = self.sprite_patterns_lo[i];
                    let phi = self.sprite_patterns_hi[i];
                    let lo = (plo >> bit_pos) & 1;
                    let hi = (phi >> bit_pos) & 1;
                    let a = self.sprite_attribs[i];
                    proof {
                        crate::bits::lemma_byte_fields();
                        assert((plo >> bit_pos) & 1u8 <= 1);
                        assert((phi >> bit_pos) & 1u8 <= 1);
                        assert((a & 0x03u8) + 4 <= 7);
                        assert(lo <= 1 && hi <= 1 ==> (hi << 1u8) | lo <= 3);
                        assert(lo == (self.sprite_patterns_lo@[i as int] >> bit_pos) & 1u8);
                    }
                    ((hi << 1) | lo, (a & 0x03) + 4, a & 0x20 == 0, i == 0)
                },
                None => (0, 0, false, false),
            }
        } else {
            (0, 0, false, false)
        }
    }

    #[verifier::rlimit(80)]
    fn render_pixel(&mut self, _cart: &Cartridge)
        requires
            old(self).wf(),
            0 <= old(self).scanline <= 239,
        ensures
            final(self)@ == old(self)@.spec_render_pixel(),
            final(self)@.same_timing(old(self)@),
            final(self).wf(),
    {
        reveal(PpuView::spec_render_pixel);
        if self.dot == 0 || self.dot > 256 {
            return;
        }
        let x = (self.dot - 1) as usize;
        let y = self.scanline as usize;
        let (bg_pixel, bg_palette) = self.bg_pixel_at(x);
        let (sp_pixel, sp_palette, sp_priority, sprite_zero_rendered) = self.sprite_pixel_at(x);
        if sprite_zero_rendered && self.sprite_zero_being_rendered && bg_pixel != 0 && sp_pixel != 0 && x != 255 {
            self.status |= 0x40;
        }
        let (palette, pixel) = if bg_pixel == 0 && sp_pixel == 0 {
            (0u8, 0u8)
        } else if bg_pixel == 0 {
            (sp_palette, sp_pixel)
        } else if sp_pixel == 0 {
            (bg_palette, bg_pixel)
        } else if sp_priority {
            (sp_palette, sp_pixel)
        } else {
            (bg_palette, bg_pixel)
        };
        let pidx = ((palette << 2) | pixel) & 0x1F;
        proof {
            crate::bits::lemma_byte_fields();
            assert(((palette << 2u8) | pixel) & 0x1Fu8 < 32);
        }
        let raw = self.palette_ram[pidx as usize];
        let color = (raw & 0x3F) as usize;
        proof {
            crate::bits::lemma_byte_fields();
            assert(raw & 0x3Fu8 < 64);
        }
        let table = master_palette_exec();
        let r = table[color * 3];
        let g = table[color * 3 + 1];
        let b = table[color * 3 + 2];
        let off = (y * SCREEN_WIDTH + x) * 4;
        assert(off + 3 < FRAME_BYTES) by (nonlinear_arith)
            requires
                y <= 239,
                x <= 255,
                off == (y * 256 + x) * 4,
        ;
        self.frame_buffer.set(off, b);
        self.frame_buffer.set(off + 1, g);
        self.frame_buffer.set(off + 2, r);
        self.frame_buffer.set(off + 3, 0xFF);
    }

    fn sprite_row_address(&self, i: usize) -> (a: u16)
        requires
            self.wf(),
            i < 64,
            0 <= self.scanline <= 239,
            self@.sprite_in_range(i as int),
        ensures
            a == self@.sprite_row_addr(i as int),
            a <= 0x1FF7,
    {
        let next_y: i16 = self.scanline + 1;
        let sprite_height: i16 = if self.ctrl & 0x20 != 0 { 16 } else { 8 };
        let sy = self.oam[i * 4] as i16;
        let dy = next_y - sy;
        let tile = self.oam[i * 4 + 1];
        let attrib = self.oam[i * 4 + 2];
        let flip_v = attrib & 0x80 != 0;
        let row: u8 = if flip_v { (sprite_height - 1 - dy) as u8 } else { dy as u8 };
        if sprite_height == 16 {
            let bank = ((tile as u16) & 1) << 12;
            let tile_num = (tile as u16) & !1;
            proof {
                let tt = tile as u16;
                crate::bits::lemma_word_fields();
                assert(tt < 256 ==> (tt & !1u16) <= 254);
                assert(tt < 256 ==> (tt & 1u16) <= 1);
            }
            let t = if row >= 8 { tile_num + 1 } else { tile_num };
            proof {
                let bb = (tile as u16) & 1u16;
                crate::bits::lemma_word_fields();
                assert(t <= 255 && bb <= 1 ==> (bb << 12u16) | (t << 4u16) <= 0x1FF0);
            }
            (bank | (t << 4)) + (row % 8) as u16
        } else {
            let bank: u16 = if self.ctrl & 0x08 != 0 { 0x1000 } else { 0 };
            proof {
                let tt = tile as u16;
                crate::bits::lemma_word_fields();
                assert(tt < 256 ==> 0x1000u16 | (tt << 4u16) <= 0x1FF0);
                assert(tt < 256 ==> 0u16 | (tt << 4u16) <= 0x1FF0);
            }
            (bank | ((tile as u16) << 4)) + row as u16
        }
    }

    fn load_slot(&mut self, cart: &Cartridge, i: usize, c: usize)
        requires
            old(self).wf(),
            cart.wf(),
            i < 64,
            c < 8,
            0 <= old(self).scanline <= 239,
            old(self)@.sprite_in_range(i as int),
        ensures
            final(self)@ == old(self)@.spec_load_slot(cart@, i as int, c as int),
            final(self)@.same_timing(old(self)@),
            final(self).wf(),
    {
        reveal(PpuView::spec_load_slot);
        let attrib = self.oam[i * 4 + 2];
        let sx = self.oam[i * 4 + 3];
        let a = self.sprite_row_address(i);
        let mut lo = self.ppu_read(a, cart);
        let mut hi = self.ppu_read(a + 8, cart);
        if attrib & 0x40 != 0 {
            lo = reverse_u8(lo);
            hi = reverse_u8(hi);
        }
        if i == 0 {
            self.sprite_zero_hit_possible = true;
        }
        self.sprite_patterns_lo.set(c, lo);
        self.sprite_patterns_hi.set(c, hi);
        self.sprite_attribs.set(c, attrib);
        self.sprite_x.set(c, sx);
        if i == 0 && self.sprite_zero_hit_possible {
            self.sprite_zero_being_rendered = true;
        }
    }

    #[verifier::rlimit(60)]
    fn load_sprites(&mut self, cart: &Cartridge)
        requires
            old(self).wf(),
            cart.wf(),
            0 <= old(self).scanline <= 239,
        ensures
            final(self)@ == old(self)@.spec_load_sprites(cart@),
            final(self)@.same_timing(old(self)@),
            final(self).wf(),
            final(self).scanline == old(self).scanline,
            final(self).dot == old(self).dot,
            final(self).frame == old(self).frame,
    {
        reveal(PpuView::spec_load_sprites);
        let next_y: i16 = self.scanline + 1;
        self.sprite_count = 0;
        self.sprite_zero_hit_possible = false;
        self.sprite_zero_being_rendered = false;
        let ghost start = self@;
        let sprite_height: i16 = if self.ctrl & 0x20 != 0 { 16 } else { 8 };
        let mut count: u8 = 0;
        let mut i: usize = 0;
        while i < 64
            invariant
                self.wf(),
                cart.wf(),
                i <= 64,
                count <= 8,
                next_y == self.scanline + 1,
                0 <= self.scanline <= 239,
                sprite_height == self@.sprite_height(),
                self.scanline == start.scanline,
                self.dot == start.dot,
                self.frame == start.frame,
                self.ctrl == start.ctrl,
                self.mask == start.mask,
                self.oam@ == start.oam,
                self@.spec_load_from(cart@, i as int, count as int) == start.spec_load_from(cart@, 0, 0),
            decreases 64 - i,
        {
            let sy = self.oam[i * 4] as i16;
            let dy = next_y - sy;
            if dy < 0 || dy >= sprite_height {
                i += 1;
            } else if count >= 8 {
                self.status |= 0x20;
                self.sprite_count = count;
                i = 64;
            } else {
                self.load_slot(cart, i, count as usize);
                count += 1;
                i += 1;
            }
        }
        self.sprite_count = count;
    }

    fn incr_coarse_x(&mut self)
        requires
            old(self).wf(),
        ensures
            final(self)@ == old(self)@.spec_incr_coarse_x(),
            final(self)@.same_timing(old(self)@),
            final(self).wf(),
    {
        if !self.rendering_enabled() {
            return;
        }
        let v = self.v;
        if v & 0x001F == 31 {
            self.v = (v & !0x001F) ^ 0x0400;
        } else {
            proof {
                crate::bits::lemma_word_fields();
                assert(v & 0x001Fu16 != 31 ==> v < 0xFFFF);
            }
            self.v = v + 1;
        }
    }

    fn incr_fine_y(&mut self)
        requires
            old(self).wf(),
        ensures
            final(self)@ == old(self)@.spec_incr_fine_y(),
            final(self)@.same_timing(old(self)@),
            final(self).wf(),
    {
        if !self.rendering_enabled() {
            return;
        }
        let v = self.v;
        if (v & 0x7000) != 0x7000 {
            proof {
                crate::bits::lemma_word_fields();
                assert((v & 0x7000u16) != 0x7000u16 ==> v < 0xF000);
            }
            self.v = v + 0x1000;
        } else {
            let v1 = v & !0x7000;
            let y = (v1 & 0x03E0) >> 5;
            proof {
                crate::bits::lemma_word_fields();
                assert((v1 & 0x03E0u16) >> 5u16 < 32);
            }
            let v2 = if y == 29 { v1 ^ 0x0800 } else { v1 };
            let y2: u16 = if y == 29 || y == 31 { 0 } else { y + 1 };
            self.v = (v2 & !0x03E0) | (y2 << 5);
        }
    }

    fn copy_horiz(&mut self)
        requires
            old(self).wf(),
        ensures
            final(self)@ == old(self)@.spec_copy_horiz(),
            final(self)@.same_timing(old(self)@),
            final(self).wf(),
    {
        if !self.rendering_enabled() {
            return;
        }
        self.v = (self.v & !0x041F) | (self.t & 0x041F);
    }

    fn copy_vert(&mut self)
        requires
            old(self).wf(),
        ensures
            final(self)@ == old(self)@.spec_copy_vert(),
            final(self)@.same_timing(old(self)@),
            final(self).wf(),
    {
        if !self.rendering_enabled() {
            return;
        }
        self.v = (self.v & !0x7BE0) | (self.t & 0x7BE0);
    }
}

} // verus!
