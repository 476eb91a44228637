//! Status bar renderer: pure pixel operations on a BGRA byte buffer of
//! `BAR_W` x `BAR_H` pixels, with an embedded 3x5 digit font.
//!
//! The model of a buffer is its byte sequence; byte `i` belongs to pixel
//! `(pix_x(i), pix_y(i))` and is its blue, green, red or alpha channel as
//! `i % 4` is 0, 1, 2 or 3. Every drawing operation is specified as the
//! buffer it leaves, built from `painted`, so a whole frame of the status bar
//! is the composition of its drawing steps in order.
use vstd::prelude::*;

use crate::controller::buttons;

verus! {

/// Width of the status bar in pixels.
pub const BAR_W: usize = 292;
/// Height of the status bar in pixels.
pub const BAR_H: usize = 18;
/// Bytes of a status bar buffer (four per pixel).
pub const BAR_BYTES: usize = BAR_W * BAR_H * 4;

/// Column of the pixel that byte `i` belongs to.
pub open spec fn pix_x(i: int) -> int {
    (i / 4) % (BAR_W as int)
}

/// Row of the pixel that byte `i` belongs to.
pub open spec fn pix_y(i: int) -> int {
    (i / 4) / (BAR_W as int)
}

/// The value of byte channel `c` of a pixel of colour (`r`, `g`, `b`).
pub open spec fn channel(c: int, r: u8, g: u8, b: u8) -> u8 {
    if c == 0 {
        b
    } else if c == 1 {
        g
    } else if c == 2 {
        r
    } else {
        255
    }
}

/// Whether byte `i` belongs to a pixel of the bar inside the rectangle at
/// (`x`, `y`) of `w` x `h` pixels.
pub open spec fn on_rect(i: int, x: int, y: int, w: int, h: int) -> bool {
    &&& 0 <= i < BAR_BYTES
    &&& x <= pix_x(i) < x + w
    &&& y <= pix_y(i) < y + h
}

/// `buf` with the part of the rectangle that lies on the bar filled with
/// colour (`r`, `g`, `b`) at full alpha; every other byte is kept.
pub open spec fn painted(buf: Seq<u8>, x: int, y: int, w: int, h: int, r: u8, g: u8, b: u8) -> Seq<u8> {
    Seq::new(buf.len(), |i: int| if on_rect(i, x, y, w, h) { channel(i % 4, r, g, b) } else { buf[i] })
}

/// The red, green and blue values of pixel (`x`, `y`) of a buffer.
pub open spec fn pixel_rgb(buf: Seq<u8>, x: int, y: int) -> (u8, u8, u8) {
    let o = (y * BAR_W as int + x) * 4;
    (buf[o + 2], buf[o + 1], buf[o])
}

/// Every byte of the bar belongs to a pixel inside it.
proof fn lemma_pixel_bounds(i: int)
    requires
        0 <= i < BAR_BYTES,
    ensures
        0 <= pix_x(i) < BAR_W,
        0 <= pix_y(i) < BAR_H,
{
}

/// The bytes of pixel (`x`, `y`) are the four from `4 * (y * BAR_W + x)`.
proof fn lemma_pixel_of(i: int, x: int, y: int)
    requires
        0 <= i < BAR_BYTES,
        0 <= x < BAR_W,
        0 <= y < BAR_H,
    ensures
        (pix_x(i) == x && pix_y(i) == y) == (4 * (y * BAR_W + x) <= i < 4 * (y * BAR_W + x) + 4),
        (pix_x(i) == x && pix_y(i) == y) ==> i % 4 == i - 4 * (y * BAR_W + x),
{
}

/// Set one pixel; a pixel outside the bar is ignored.
fn px(buf: &mut Vec<u8>, x: usize, y: usize, r: u8, g: u8, b: u8)
    requires
        old(buf).len() >= BAR_BYTES,
    ensures
        final(buf)@ == painted(old(buf)@, x as int, y as int, 1, 1, r, g, b),
        final(buf).len() == old(buf).len(),
{
    if x >= BAR_W || y >= BAR_H {
        proof {
            assert forall|i: int| 0 <= i < buf.len() implies !on_rect(i, x as int, y as int, 1, 1) by {
                if 0 <= i < BAR_BYTES {
                    lemma_pixel_bounds(i);
                }
            }
            assert(buf@ =~= painted(old(buf)@, x as int, y as int, 1, 1, r, g, b));
        }
        return;
    }
    let o = (y * BAR_W + x) * 4;
    buf.set(o, b);
    buf.set(o + 1, g);
    buf.set(o + 2, r);
    buf.set(o + 3, 255);
    proof {
        assert forall|i: int| 0 <= i < buf.len() implies buf@[i] == painted(old(buf)@, x as int, y as int, 1, 1, r, g, b)[i] by {
            if 0 <= i < BAR_BYTES {
                lemma_pixel_of(i, x as int, y as int);
            }
        }
        assert(buf@ =~= painted(old(buf)@, x as int, y as int, 1, 1, r, g, b));
    }
}

/// Fill a rectangle, clipped to the bar.
fn fill_rect(buf: &mut Vec<u8>, x: usize, y: usize, w: usize, h: usize, r: u8, g: u8, b: u8)
    requires
        old(buf).len() >= BAR_BYTES,
        x + w <= usize::MAX,
        y + h <= usize::MAX,
    ensures
        final(buf)@ == painted(old(buf)@, x as int, y as int, w as int, h as int, r, g, b),
        final(buf).len() == old(buf).len(),
{
    let ghost start = buf@;
    let mut dy: usize = 0;
    assert(buf@ =~= painted(start, x as int, y as int, w as int, 0, r, g, b));
    while dy < h
        invariant
            dy <= h,
            x + w <= usize::MAX,
            y + h <= usize::MAX,
            start.len() >= BAR_BYTES,
            buf@ == painted(start, x as int, y as int, w as int, dy as int, r, g, b),
        decreases h - dy,
    {
        let ghost rows = buf@;
        let mut dx: usize = 0;
        assert(buf@ =~= painted(rows, x as int, (y + dy) as int, 0, 1, r, g, b));
        while dx < w
            invariant
                dy < h,
                dx <= w,
                x + w <= usize::MAX,
                y + h <= usize::MAX,
                rows.len() >= BAR_BYTES,
                buf@ == painted(rows, x as int, (y + dy) as int, dx as int, 1, r, g, b),
            decreases w - dx,
        {
            px(buf, x + dx, y + dy, r, g, b);
            assert(buf@ =~= painted(rows, x as int, (y + dy) as int, (dx + 1) as int, 1, r, g, b));
            dx += 1;
        }
        assert(buf@ =~= painted(start, x as int, y as int, w as int, (dy + 1) as int, r, g, b));
        dy += 1;
    }
}

/// The 3x5 digit font: five rows per digit, row `k` of digit `d` at
/// `5 * d + k`; bit 7 is the left pixel, bit 6 the middle, bit 5 the right.
pub open spec fn digit_font() -> Seq<u8> {
    seq![
        0xE0u8, 0xA0, 0xA0, 0xA0, 0xE0,
        0x40, 0xC0, 0x40, 0x40, 0xE0,
        0xC0, 0x20, 0x40, 0x80, 0xE0,
        0xE0, 0x20, 0x60, 0x20, 0xE0,
        0xA0, 0xA0, 0xE0, 0x20, 0x20,
        0xE0, 0x80, 0xE0, 0x20, 0xC0,
        0x60, 0x80, 0xE0, 0xA0, 0xE0,
        0xE0, 0x20, 0x40, 0x40, 0x40,
        0xE0, 0xA0, 0xE0, 0xA0, 0xE0,
        0xE0, 0xA0, 0xE0, 0x20, 0xC0,
    ]
}

fn digit_font_exec() -> (t: [u8; 50])
    ensures
        t@ == digit_font(),
{
    let t: [u8; 50] = [
        0xE0, 0xA0, 0xA0, 0xA0, 0xE0,
        0x40, 0xC0, 0x40, 0x40, 0xE0,
        0xC0, 0x20, 0x40, 0x80, 0xE0,
        0xE0, 0x20, 0x60, 0x20, 0xE0,
        0xA0, 0xA0, 0xE0, 0x20, 0x20,
        0xE0, 0x80, 0xE0, 0x20, 0xC0,
        0x60, 0x80, 0xE0, 0xA0, 0xE0,
        0xE0, 0x20, 0x40, 0x40, 0x40,
        0xE0, 0xA0, 0xE0, 0xA0, 0xE0,
        0xE0, 0xA0, 0xE0, 0x20, 0xC0,
    ];
    assert(t@ =~= digit_font());
    t
}

/// Whether the glyph of digit `d` lights the pixel at `row`, `col` of its cell.
pub open spec fn glyph_bit(d: int, row: int, col: int) -> bool {
    digit_font()[5 * d + row] & (0x80u8 >> (col as u8)) != 0
}

/// Whether byte `i` lies in rows `row0 .. row0 + rows` and columns
/// `0 .. cols` of the glyph cell at (`x`, `y`) on a pixel that digit `d` lights.
pub open spec fn on_glyph(i: int, x: int, y: int, d: int, row0: int, rows: int, cols: int) -> bool {
    &&& on_rect(i, x, y + row0, cols, rows)
    &&& glyph_bit(d, pix_y(i) - y, pix_x(i) - x)
}

/// `buf` with the part of digit `d`'s glyph at (`x`, `y`) that lies in the
/// given rows and columns drawn in colour (`r`, `g`, `b`).
pub open spec fn glyph_painted(
    buf: Seq<u8>, x: int, y: int, d: int, row0: int, rows: int, cols: int, r: u8, g: u8, b: u8,
) -> Seq<u8> {
    Seq::new(buf.len(), |i: int| if on_glyph(i, x, y, d, row0, rows, cols) { channel(i % 4, r, g, b) } else { buf[i] })
}

/// `buf` with digit `d % 10` drawn with its top-left corner at (`x`, `y`).
pub open spec fn digit_painted(buf: Seq<u8>, x: int, y: int, d: int, r: u8, g: u8, b: u8) -> Seq<u8> {
    glyph_painted(buf, x, y, d % 10, 0, 5, 3, r, g, b)
}

/// Draw digit `d % 10` with its top-left corner at (`x`, `y`).
fn draw_digit_at(buf: &mut Vec<u8>, x: usize, y: usize, d: usize, r: u8, g: u8, b: u8)
    requires
        old(buf).len() >= BAR_BYTES,
        x + 3 <= usize::MAX,
        y + 5 <= usize::MAX,
    ensures
        final(buf)@ == digit_painted(old(buf)@, x as int, y as int, d as int, r, g, b),
        final(buf).len() == old(buf).len(),
{
    let font = digit_font_exec();
    let dd = d % 10;
    let ghost start = buf@;
    let mut row: usize = 0;
    assert(buf@ =~= glyph_painted(start, x as int, y as int, dd as int, 0, 0, 3, r, g, b));
    while row < 5
        invariant
            row <= 5,
            dd < 10,
            x + 3 <= usize::MAX,
            y + 5 <= usize::MAX,
            font@ == digit_font(),
            start.len() >= BAR_BYTES,
            buf@ == glyph_painted(start, x as int, y as int, dd as int, 0, row as int, 3, r, g, b),
        decreases 5 - row,
    {
        let bits = font[dd * 5 + row];
        let ghost rows = buf@;
        let mut col: u8 = 0;
        assert(buf@ =~= glyph_painted(rows, x as int, y as int, dd as int, row as int, 1, 0, r, g, b));
        while col < 3
            invariant
                row < 5,
                col <= 3,
                dd < 10,
                x + 3 <= usize::MAX,
                y + 5 <= usize::MAX,
                bits == digit_font()[5 * dd + row],
                rows.len() >= BAR_BYTES,
                buf@ == glyph_painted(rows, x as int, y as int, dd as int, row as int, 1, col as int, r, g, b),
            decreases 3 - col,
        {
            if bits & (0x80u8 >> col) != 0 {
                px(buf, x + col as usize, y + row, r, g, b);
            }
            assert(buf@ =~= glyph_painted(rows, x as int, y as int, dd as int, row as int, 1, (col + 1) as int, r, g, b));
            col += 1;
        }
        assert(buf@ =~= glyph_painted(start, x as int, y as int, dd as int, 0, (row + 1) as int, 3, r, g, b));
        row += 1;
    }
}

/// A darkened colour: each component divided by six.
pub open spec fn dim(c: u8) -> u8 {
    c / 6
}

/// `buf` with an indicator drawn: the rectangle in full colour when `on`,
/// dimmed when not, and when `on` a brightened pixel at its top-left corner.
pub open spec fn indicator_painted(
    buf: Seq<u8>, x: int, y: int, w: int, h: int, on: bool, r: u8, g: u8, b: u8,
) -> Seq<u8> {
    if on {
        let s = painted(buf, x, y, w, h, r, g, b);
        painted(s, x, y, 1, 1, sat_add(r, 60), sat_add(g, 60), sat_add(b, 60))
    } else {
        painted(buf, x, y, w, h, dim(r), dim(g), dim(b))
    }
}

/// Saturating addition of bytes.
pub open spec fn sat_add(a: u8, b: u8) -> u8 {
    if a + b > 255 { 255 } else { (a + b) as u8 }
}

/// Draw a button indicator.
fn indicator(buf: &mut Vec<u8>, x: usize, y: usize, w: usize, h: usize, on: bool, r: u8, g: u8, b: u8)
    requires
        old(buf).len() >= BAR_BYTES,
        x + w <= usize::MAX,
        y + h <= usize::MAX,
    ensures
        final(buf)@ == indicator_painted(old(buf)@, x as int, y as int, w as int, h as int, on, r, g, b),
        final(buf).len() == old(buf).len(),
{
    let (dr, dg, db) = if on { (r, g, b) } else { (r / 6, g / 6, b / 6) };
    fill_rect(buf, x, y, w, h, dr, dg, db);
    if on {
        let hr = r.saturating_add(60);
        let hg = g.saturating_add(60);
        let hb = b.saturating_add(60);
        px(buf, x, y, hr, hg, hb);
    }
}

/// `buf` with a round button drawn at (`x`, `y`): a 5x5 square with its
/// corners trimmed, in full colour when `on` (its top row brightened) and
/// dimmed when not.
pub open spec fn circle_button_painted(buf: Seq<u8>, x: int, y: int, on: bool, r: u8, g: u8, b: u8) -> Seq<u8> {
    let (dr, dg, db) = if on { (r, g, b) } else { (dim(r), dim(g), dim(b)) };
    let (tr, tg, tb) = if on { (sat_add(r, 50), sat_add(g, 50), sat_add(b, 50)) } else { (dr, dg, db) };
    let s1 = painted(buf, x + 1, y, 3, 1, tr, tg, tb);
    let s2 = painted(s1, x, y + 1, 5, 3, dr, dg, db);
    painted(s2, x + 1, y + 4, 3, 1, dr, dg, db)
}

/// Draw a round button: the top row, the three full middle rows, then the
/// bottom row, each with its corners left out.
fn draw_circle_button(buf: &mut Vec<u8>, x: usize, y: usize, on: bool, r: u8, g: u8, b: u8)
    requires
        old(buf).len() >= BAR_BYTES,
        x + 5 <= usize::MAX,
        y + 5 <= usize::MAX,
    ensures
        final(buf)@ == circle_button_painted(old(buf)@, x as int, y as int, on, r, g, b),
        final(buf).len() == old(buf).len(),
{
    let (dr, dg, db) = if on { (r, g, b) } else { (r / 6, g / 6, b / 6) };
    let (tr, tg, tb) = if on {
        (r.saturating_add(50), g.saturating_add(50), b.saturating_add(50))
    } else {
        (dr, dg, db)
    };
    fill_rect(buf, x + 1, y, 3, 1, tr, tg, tb);
    fill_rect(buf, x, y + 1, 5, 3, dr, dg, db);
    fill_rect(buf, x + 1, y + 4, 3, 1, dr, dg, db);
}

/// The colour of the FPS counter: green from 58 up, yellow from 45, red below.
pub open spec fn spec_fps_color(fps: u32) -> (u8, u8, u8) {
    if fps >= 58 {
        (100, 210, 80)
    } else if fps >= 45 {
        (220, 180, 60)
    } else {
        (220, 70, 70)
    }
}

/// The colour of the FPS counter for a frame rate.
fn fps_color(fps: u32) -> (c: (u8, u8, u8))
    ensures
        c == spec_fps_color(fps),
{
    if fps >= 58 {
        (100, 210, 80)
    } else if fps >= 45 {
        (220, 180, 60)
    } else {
        (220, 70, 70)
    }
}

/// Column of the first volume bar segment.
pub const VOLUME_X: usize = 170;
/// Number of volume bar segments; each stands for a tenth of full volume.
pub const VOLUME_SEGMENTS: usize = 10;

/// `buf` with the first `n` volume bar segments drawn: segment `k` is lit
/// when `k < level`.
pub open spec fn volume_bar_painted(buf: Seq<u8>, level: u8, n: nat) -> Seq<u8>
    decreases n,
{
    if n == 0 {
        buf
    } else {
        let k = n - 1;
        indicator_painted(volume_bar_painted(buf, level, k as nat), VOLUME_X + 5 * k, 7, 4, 5, k < level, 40, 190, 180)
    }
}

/// `buf` with the frame-rate counter drawn: `fps` capped at 999, right-aligned
/// in three digit cells that end at column 152 (leading zeros left out), in
/// the colour `spec_fps_color` gives, followed by a small tick mark.
pub open spec fn fps_painted(buf: Seq<u8>, fps: u32) -> Seq<u8> {
    let v = if fps > 999 { 999 } else { fps };
    let (r, g, b) = spec_fps_color(v);
    let s1 = digit_painted(buf, 148, 7, (v % 10) as int, r, g, b);
    let s2 = if v >= 10 { digit_painted(s1, 144, 7, ((v / 10) % 10) as int, r, g, b) } else { s1 };
    let s3 = if v >= 100 { digit_painted(s2, 140, 7, (v / 100) as int, r, g, b) } else { s2 };
    let s4 = painted(s3, 153, 11, 1, 1, 90, 130, 60);
    let s5 = painted(s4, 154, 10, 1, 1, 90, 130, 60);
    painted(s5, 155, 9, 1, 1, 90, 130, 60)
}

/// Whether button bit `mask` is set in `buttons`.
pub open spec fn pressed(buttons: u8, mask: u8) -> bool {
    buttons & mask != 0
}

/// `buf` with the left part of the status bar drawn: background and top
/// separator, the D-pad cross, and the Select and Start pads with their label
/// dots.
pub open spec fn controls_painted(buf: Seq<u8>, buttons: u8) -> Seq<u8> {
    let bg = painted(buf, 0, 0, BAR_W as int, BAR_H as int, 16, 16, 22);
    let top = painted(bg, 0, 0, BAR_W as int, 1, 80, 60, 60);
    let up = indicator_painted(top, 7, 4, 3, 3, pressed(buttons, 0x10), 80, 110, 220);
    let down = indicator_painted(up, 7, 10, 3, 3, pressed(buttons, 0x20), 80, 110, 220);
    let left = indicator_painted(down, 4, 7, 3, 3, pressed(buttons, 0x40), 80, 110, 220);
    let right = indicator_painted(left, 10, 7, 3, 3, pressed(buttons, 0x80), 80, 110, 220);
    let pip = painted(right, 7, 7, 3, 3, 45, 45, 70);
    let sel_on = pressed(buttons, 0x04);
    let start_on = pressed(buttons, 0x08);
    let sel = indicator_painted(pip, 18, 8, 7, 3, sel_on, 150, 150, 150);
    let start = indicator_painted(sel, 28, 8, 7, 3, start_on, 230, 210, 120);
    let (sr, sg, sb) = if sel_on { (200u8, 200u8, 200u8) } else { (40u8, 40u8, 40u8) };
    let (tr, tg, tb) = if start_on { (255u8, 240u8, 140u8) } else { (40u8, 40u8, 30u8) };
    let l1 = painted(start, 20, 6, 1, 1, sr, sg, sb);
    let l2 = painted(l1, 30, 6, 1, 1, tr, tg, tb);
    let l3 = painted(l2, 22, 6, 1, 1, sr, sg, sb);
    painted(l3, 32, 6, 1, 1, tr, tg, tb)
}

/// The status bar for one frame, drawn over `buf`: the controls part, the
/// frame-rate counter, the volume bar, and the A and B buttons.
pub open spec fn status_image(buf: Seq<u8>, buttons: u8, fps: u32, volume: u8) -> Seq<u8> {
    let counter = fps_painted(controls_painted(buf, buttons), fps);
    let vol = volume_bar_painted(counter, volume, VOLUME_SEGMENTS as nat);
    let a = circle_button_painted(vol, 282, 5, pressed(buttons, 0x01), 220, 60, 60);
    circle_button_painted(a, 273, 5, pressed(buttons, 0x02), 60, 200, 100)
}

/// Draw the frame-rate counter.
fn draw_fps(buf: &mut Vec<u8>, fps: u32)
    requires
        old(buf).len() >= BAR_BYTES,
    ensures
        final(buf)@ == fps_painted(old(buf)@, fps),
        final(buf).len() == old(buf).len(),
{
    let fps_val = if fps > 999 { 999 } else { fps };
    let cy = (BAR_H - 5) / 2 + 1;
    let fps_end_x = BAR_W / 2 + 6;
    let (r, g, b) = fps_color(fps_val);
    let mut cx = fps_end_x - 4;
    draw_digit_at(buf, cx, cy, (fps_val % 10) as usize, r, g, b);
    if fps_val >= 10 {
        cx -= 4;
        draw_digit_at(buf, cx, cy, ((fps_val / 10) % 10) as usize, r, g, b);
    }
    if fps_val >= 100 {
        cx -= 4;
        draw_digit_at(buf, cx, cy, (fps_val / 100) as usize, r, g, b);
    }
    px(buf, fps_end_x + 1, cy + 4, 90, 130, 60);
    px(buf, fps_end_x + 2, cy + 3, 90, 130, 60);
    px(buf, fps_end_x + 3, cy + 2, 90, 130, 60);
}

/// Draw the volume bar for `level` tenths of full volume.
fn draw_volume(buf: &mut Vec<u8>, level: u8)
    requires
        old(buf).len() >= BAR_BYTES,
    ensures
        final(buf)@ == volume_bar_painted(old(buf)@, level, VOLUME_SEGMENTS as nat),
        final(buf).len() == old(buf).len(),
{
    let cy = (BAR_H - 5) / 2 + 1;
    let mut k: usize = 0;
    while k < VOLUME_SEGMENTS
        invariant
            k <= VOLUME_SEGMENTS,
            cy == 7,
            buf.len() == old(buf).len(),
            buf.len() >= BAR_BYTES,
            buf@ == volume_bar_painted(old(buf)@, level, k as nat),
        decreases VOLUME_SEGMENTS - k,
    {
        let lit = k < level as usize;
        indicator(buf, VOLUME_X + 5 * k, cy, 4, 5, lit, 40, 190, 180);
        k += 1;
    }
}

/// Fill `buf` (BGRA, `BAR_W` x `BAR_H` pixels) with the status bar for this
/// frame: the pressed `buttons` (controller bit layout), the frame rate
/// `fps` and the volume in tenths `volume`.
pub fn render_status(buf: &mut Vec<u8>, buttons: u8, fps: u32, volume: u8)
    requires
        old(buf).len() >= BAR_BYTES,
    ensures
        final(buf)@ == status_image(old(buf)@, buttons, fps, volume),
        final(buf).len() == old(buf).len(),
{
    // Background, then the brighter separator line along the top.
    fill_rect(buf, 0, 0, BAR_W, BAR_H, 16, 16, 22);
    fill_rect(buf, 0, 0, BAR_W, 1, 80, 60, 60);

    let cy = (BAR_H - 5) / 2 + 1;

    // D-pad: a 9x9 cross at the left.
    let dpx: usize = 4;
    let dpy = (BAR_H - 9) / 2;
    let up = buttons & 0x10 != 0;
    let down = buttons & 0x20 != 0;
    let left = buttons & 0x40 != 0;
    let right = buttons & 0x80 != 0;
    indicator(buf, dpx + 3, dpy, 3, 3, up, 80, 110, 220);
    indicator(buf, dpx + 3, dpy + 6, 3, 3, down, 80, 110, 220);
    indicator(buf, dpx, dpy + 3, 3, 3, left, 80, 110, 220);
    indicator(buf, dpx + 6, dpy + 3, 3, 3, right, 80, 110, 220);
    fill_rect(buf, dpx + 3, dpy + 3, 3, 3, 45, 45, 70);

    // Select and Start pads, each with two label dots above it.
    let sel_on = buttons & 0x04 != 0;
    let start_on = buttons & 0x08 != 0;
    let ss_x = dpx + 9 + 5;
    let ss_y = cy + 1;
    indicator(buf, ss_x, ss_y, 7, 3, sel_on, 150, 150, 150);
    indicator(buf, ss_x + 10, ss_y, 7, 3, start_on, 230, 210, 120);
    let ly = ss_y - 2;
    let (sr, sg, sb) = if sel_on { (200u8, 200u8, 200u8) } else { (40u8, 40u8, 40u8) };
    let (tr, tg, tb) = if start_on { (255u8, 240u8, 140u8) } else { (40u8, 40u8, 30u8) };
    px(buf, ss_x + 2, ly, sr, sg, sb);
    px(buf, ss_x + 12, ly, tr, tg, tb);
    px(buf, ss_x + 4, ly, sr, sg, sb);
    px(buf, ss_x + 14, ly, tr, tg, tb);

    // Frame-rate counter in the centre, volume bar to its right.
    draw_fps(buf, fps);
    draw_volume(buf, volume);

    // A and B buttons at the right.
    let a_on = buttons & 0x01 != 0;
    let b_on = buttons & 0x02 != 0;
    let ab_y = (BAR_H - 7) / 2;
    draw_circle_button(buf, BAR_W - 10, ab_y, a_on, 220, 60, 60);
    draw_circle_button(buf, BAR_W - 19, ab_y, b_on, 60, 200, 100);
}

proof fn lemma_volume_bar_len(buf: Seq<u8>, level: u8, n: nat)
    ensures
        volume_bar_painted(buf, level, n).len() == buf.len(),
    decreases n,
{
    if n > 0 {
        lemma_volume_bar_len(buf, level, (n - 1) as nat);
    }
}

/// The volume bar leaves every byte outside its segments as it was.
proof fn lemma_volume_bar_outside(buf: Seq<u8>, level: u8, n: nat, i: int)
    requires
        0 <= i < buf.len(),
        pix_x(i) < VOLUME_X || pix_x(i) >= VOLUME_X + 5 * n || pix_y(i) < 7 || pix_y(i) >= 12,
    ensures
        volume_bar_painted(buf, level, n)[i] == buf[i],
    decreases n,
{
    if n > 0 {
        lemma_volume_bar_len(buf, level, (n - 1) as nat);
        lemma_volume_bar_outside(buf, level, (n - 1) as nat, i);
    }
}

/// Inside segment `k` (below its top-left corner) the volume bar has the
/// segment colour: lit when `k < level`, dimmed otherwise.
proof fn lemma_volume_segment(buf: Seq<u8>, level: u8, n: nat, k: nat, i: int)
    requires
        k < n,
        0 <= i < BAR_BYTES,
        buf.len() >= BAR_BYTES,
        pix_x(i) == VOLUME_X + 5 * k + 1,
        pix_y(i) == 8,
    ensures
        volume_bar_painted(buf, level, n)[i] == if k < level {
            channel(i % 4, 40, 190, 180)
        } else {
            channel(i % 4, dim(40), dim(190), dim(180))
        },
    decreases n,
{
    lemma_volume_bar_len(buf, level, (n - 1) as nat);
    if k + 1 < n {
        lemma_volume_segment(buf, level, (n - 1) as nat, k, i);
    }
}

/// The frame-rate counter leaves every byte left of its first digit cell.
proof fn lemma_fps_outside(buf: Seq<u8>, fps: u32, i: int)
    requires
        0 <= i < buf.len(),
        pix_x(i) < 140,
    ensures
        fps_painted(buf, fps)[i] == buf[i],
        fps_painted(buf, fps).len() == buf.len(),
{
}

/// A byte of a pixel left of the counter keeps the value the controls part
/// gave it.
proof fn lemma_probe(buf: Seq<u8>, held: u8, fps: u32, volume: u8, x: int, y: int, c: int)
    requires
        buf.len() >= BAR_BYTES,
        0 <= x < 140,
        0 <= y < BAR_H,
        0 <= c < 4,
    ensures
        pix_x((y * BAR_W + x) * 4 + c) == x,
        pix_y((y * BAR_W + x) * 4 + c) == y,
        ((y * BAR_W + x) * 4 + c) % 4 == c,
        status_image(buf, held, fps, volume)[(y * BAR_W + x) * 4 + c]
            == controls_painted(buf, held)[(y * BAR_W + x) * 4 + c],
{
    let i = (y * BAR_W + x) * 4 + c;
    lemma_pixel_of(i, x, y);
    let ctl = controls_painted(buf, held);
    lemma_fps_outside(ctl, fps, i);
    let counter = fps_painted(ctl, fps);
    lemma_volume_bar_outside(counter, volume, VOLUME_SEGMENTS as nat, i);
    lemma_volume_bar_len(counter, volume, VOLUME_SEGMENTS as nat);
}

/// The status bar shows each controller button: the middle pixel of the
/// button's indicator has its full colour while the button is held and its
/// dimmed colour while it is not.
pub proof fn lemma_status_shows_buttons(buf: Seq<u8>, held: u8, fps: u32, volume: u8)
    requires
        buf.len() >= BAR_BYTES,
    ensures
        pixel_rgb(status_image(buf, held, fps, volume), 8, 5)
            == if pressed(held, buttons::UP) { (80u8, 110u8, 220u8) } else { (dim(80), dim(110), dim(220)) },
        pixel_rgb(status_image(buf, held, fps, volume), 8, 11)
            == if pressed(held, buttons::DOWN) { (80u8, 110u8, 220u8) } else { (dim(80), dim(110), dim(220)) },
        pixel_rgb(status_image(buf, held, fps, volume), 5, 8)
            == if pressed(held, buttons::LEFT) { (80u8, 110u8, 220u8) } else { (dim(80), dim(110), dim(220)) },
        pixel_rgb(status_image(buf, held, fps, volume), 11, 8)
            == if pressed(held, buttons::RIGHT) { (80u8, 110u8, 220u8) } else { (dim(80), dim(110), dim(220)) },
        pixel_rgb(status_image(buf, held, fps, volume), 21, 9)
            == if pressed(held, buttons::SELECT) { (150u8, 150u8, 150u8) } else { (dim(150), dim(150), dim(150)) },
        pixel_rgb(status_image(buf, held, fps, volume), 31, 9)
            == if pressed(held, buttons::START) { (230u8, 210u8, 120u8) } else { (dim(230), dim(210), dim(120)) },
        pixel_rgb(status_image(buf, held, fps, volume), 284, 7)
            == if pressed(held, buttons::A) { (220u8, 60u8, 60u8) } else { (dim(220), dim(60), dim(60)) },
        pixel_rgb(status_image(buf, held, fps, volume), 275, 7)
            == if pressed(held, buttons::B) { (60u8, 200u8, 100u8) } else { (dim(60), dim(200), dim(100)) },
{
    lemma_probe_rgb(buf, held, fps, volume, 8, 5);
    lemma_probe_rgb(buf, held, fps, volume, 8, 11);
    lemma_probe_rgb(buf, held, fps, volume, 5, 8);
    lemma_probe_rgb(buf, held, fps, volume, 11, 8);
    lemma_probe_rgb(buf, held, fps, volume, 21, 9);
    lemma_probe_rgb(buf, held, fps, volume, 31, 9);
    lemma_pixel_bytes(284, 7);
    lemma_pixel_bytes(275, 7);
    let counter = fps_painted(controls_painted(buf, held), fps);
    lemma_volume_bar_len(counter, volume, VOLUME_SEGMENTS as nat);
}

/// The three colour bytes of pixel (`x`, `y`) of the bar.
proof fn lemma_pixel_bytes(x: int, y: int)
    requires
        0 <= x < BAR_W,
        0 <= y < BAR_H,
    ensures
        pix_x((y * BAR_W + x) * 4) == x,
        pix_y((y * BAR_W + x) * 4) == y,
        ((y * BAR_W + x) * 4) % 4 == 0,
        pix_x((y * BAR_W + x) * 4 + 1) == x,
        pix_y((y * BAR_W + x) * 4 + 1) == y,
        ((y * BAR_W + x) * 4 + 1) % 4 == 1,
        pix_x((y * BAR_W + x) * 4 + 2) == x,
        pix_y((y * BAR_W + x) * 4 + 2) == y,
        ((y * BAR_W + x) * 4 + 2) % 4 == 2,
        (y * BAR_W + x) * 4 + 2 < BAR_BYTES,
{
    lemma_pixel_of((y * BAR_W + x) * 4, x, y);
    lemma_pixel_of((y * BAR_W + x) * 4 + 1, x, y);
    lemma_pixel_of((y * BAR_W + x) * 4 + 2, x, y);
}

/// A pixel left of the counter has the colour the controls part gave it.
proof fn lemma_probe_rgb(buf: Seq<u8>, held: u8, fps: u32, volume: u8, x: int, y: int)
    requires
        buf.len() >= BAR_BYTES,
        0 <= x < 140,
        0 <= y < BAR_H,
    ensures
        pixel_rgb(status_image(buf, held, fps, volume), x, y) == pixel_rgb(controls_painted(buf, held), x, y),
        pix_x((y * BAR_W + x) * 4) == x,
        pix_y((y * BAR_W + x) * 4) == y,
        ((y * BAR_W + x) * 4) % 4 == 0,
        pix_x((y * BAR_W + x) * 4 + 1) == x,
        pix_y((y * BAR_W + x) * 4 + 1) == y,
        ((y * BAR_W + x) * 4 + 1) % 4 == 1,
        pix_x((y * BAR_W + x) * 4 + 2) == x,
        pix_y((y * BAR_W + x) * 4 + 2) == y,
        ((y * BAR_W + x) * 4 + 2) % 4 == 2,
{
    lemma_probe(buf, held, fps, volume, x, y, 0);
    lemma_probe(buf, held, fps, volume, x, y, 1);
    lemma_probe(buf, held, fps, volume, x, y, 2);
}

/// The status bar shows the volume: volume bar segment `k` has the lit teal
/// colour when `k` is below the volume level in tenths and the dimmed colour
/// otherwise.
pub proof fn lemma_status_shows_volume(buf: Seq<u8>, held: u8, fps: u32, volume: u8, k: nat)
    requires
        buf.len() >= BAR_BYTES,
        k < VOLUME_SEGMENTS,
    ensures
        pixel_rgb(status_image(buf, held, fps, volume), VOLUME_X + 5 * k + 1, 8)
            == if k < volume { (40u8, 190u8, 180u8) } else { (dim(40), dim(190), dim(180)) },
{
    let x = VOLUME_X + 5 * k + 1;
    lemma_pixel_bytes(x, 8);
    let counter = fps_painted(controls_painted(buf, held), fps);
    lemma_fps_len(controls_painted(buf, held), fps);
    lemma_volume_bar_len(counter, volume, VOLUME_SEGMENTS as nat);
    let o = (8 * BAR_W + x) * 4;
    lemma_volume_segment(counter, volume, VOLUME_SEGMENTS as nat, k, o);
    lemma_volume_segment(counter, volume, VOLUME_SEGMENTS as nat, k, o + 1);
    lemma_volume_segment(counter, volume, VOLUME_SEGMENTS as nat, k, o + 2);
}

proof fn lemma_fps_len(buf: Seq<u8>, fps: u32)
    ensures
        fps_painted(buf, fps).len() == buf.len(),
{
}

/// A byte of a pixel in the counter's area keeps the value the counter gave
/// it, drawn over the plain background.
proof fn lemma_counter_byte(buf: Seq<u8>, held: u8, fps: u32, volume: u8, x: int, y: int, c: int)
    requires
        buf.len() >= BAR_BYTES,
        140 <= x < 156,
        1 <= y < BAR_H,
        0 <= c < 4,
    ensures
        pix_x((y * BAR_W + x) * 4 + c) == x,
        pix_y((y * BAR_W + x) * 4 + c) == y,
        ((y * BAR_W + x) * 4 + c) % 4 == c,
        status_image(buf, held, fps, volume)[(y * BAR_W + x) * 4 + c]
            == fps_painted(controls_painted(buf, held), fps)[(y * BAR_W + x) * 4 + c],
        controls_painted(buf, held)[(y * BAR_W + x) * 4 + c] == channel(c, 16, 16, 22),
        fps_painted(controls_painted(buf, held), fps).len() == buf.len(),
{
    let i = (y * BAR_W + x) * 4 + c;
    lemma_pixel_of(i, x, y);
    let ctl = controls_painted(buf, held);
    lemma_fps_len(ctl, fps);
    let counter = fps_painted(ctl, fps);
    lemma_volume_bar_outside(counter, volume, VOLUME_SEGMENTS as nat, i);
    lemma_volume_bar_len(counter, volume, VOLUME_SEGMENTS as nat);
}

/// The colour of a counter pixel: the counter colour where a glyph is lit,
/// the background elsewhere.
pub open spec fn counter_rgb(lit: bool, v: u32) -> (u8, u8, u8) {
    if lit { spec_fps_color(v) } else { (16u8, 16u8, 22u8) }
}

/// The status bar shows the frame rate: with `v` the rate capped at 999, a
/// pixel at column `x`, row `y` of the ones cell (columns 148-150, rows 7-11)
/// has the counter colour exactly where the glyph of `v % 10` is lit and the
/// background colour elsewhere; the tens cell (columns 144-146) likewise
/// shows `(v / 10) % 10` when `v >= 10`, and the hundreds cell (columns
/// 140-142) `v / 100` when `v >= 100`; a cell not used is background.
pub proof fn lemma_status_shows_fps(buf: Seq<u8>, held: u8, fps: u32, volume: u8, x: int, y: int)
    requires
        buf.len() >= BAR_BYTES,
        0 <= x < 3,
        0 <= y < 5,
    ensures
        ({
            let v = if fps > 999 { 999u32 } else { fps };
            &&& pixel_rgb(status_image(buf, held, fps, volume), 148 + x, 7 + y)
                == counter_rgb(glyph_bit((v % 10) as int, y, x), v)
            &&& pixel_rgb(status_image(buf, held, fps, volume), 144 + x, 7 + y)
                == counter_rgb(v >= 10 && glyph_bit(((v / 10) % 10) as int, y, x), v)
            &&& pixel_rgb(status_image(buf, held, fps, volume), 140 + x, 7 + y)
                == counter_rgb(v >= 100 && glyph_bit((v / 100) as int, y, x), v)
        }),
{
    let v = if fps > 999 { 999u32 } else { fps };
    assert((v % 10) % 10 == v % 10 && ((v / 10) % 10) % 10 == (v / 10) % 10 && (v / 100) % 10 == v / 100);
    lemma_counter_byte(buf, held, fps, volume, 148 + x, 7 + y, 0);
    lemma_counter_byte(buf, held, fps, volume, 148 + x, 7 + y, 1);
    lemma_counter_byte(buf, held, fps, volume, 148 + x, 7 + y, 2);
    lemma_counter_byte(buf, held, fps, volume, 144 + x, 7 + y, 0);
    lemma_counter_byte(buf, held, fps, volume, 144 + x, 7 + y, 1);
    lemma_counter_byte(buf, held, fps, volume, 144 + x, 7 + y, 2);
    lemma_counter_byte(buf, held, fps, volume, 140 + x, 7 + y, 0);
    lemma_counter_byte(buf, held, fps, volume, 140 + x, 7 + y, 1);
    lemma_counter_byte(buf, held, fps, volume, 140 + x, 7 + y, 2);
}

} // verus!
