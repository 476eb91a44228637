//! Presentation of the PPU's frame: alternate rows are dimmed for a CRT
//! scanline look before the frame is shown.
use vstd::prelude::*;

use crate::ppu::{FRAME_BYTES, SCREEN_WIDTH};

verus! {

/// Brightness (out of 255) of row `y`: even rows are dimmed by 20%.
pub open spec fn row_brightness(y: int) -> int {
    if y % 2 == 0 { 205 } else { 255 }
}

/// Byte `i` of the displayed frame made from the PPU frame `src`: the
/// colour channels scaled by their row's brightness (rounded down), alpha
/// opaque.
pub open spec fn displayed_byte(src: Seq<u8>, i: int) -> u8 {
    let y = (i / 4) / (SCREEN_WIDTH as int);
    if i % 4 == 3 {
        0xFF
    } else {
        (src[i] * row_brightness(y) / 255) as u8
    }
}

/// The bytes of row `y`, column `x` are the four from `4 * (256 * y + x)`.
proof fn lemma_frame_index(y: int, x: int, c: int)
    requires
        0 <= x < SCREEN_WIDTH,
        0 <= y,
        0 <= c < 4,
    ensures
        ((y * SCREEN_WIDTH as int + x) * 4 + c) % 4 == c,
        (((y * SCREEN_WIDTH as int + x) * 4 + c) / 4) / (SCREEN_WIDTH as int) == y,
{
}

/// A scaled channel stays a byte.
proof fn lemma_scaled_byte(v: u8, b: u32)
    requires
        b <= 255,
    ensures
        (v as u32) * b <= 65025,
        (v as u32) * b / 255 <= 255,
{
    assert((v as u32) * b <= 65025) by (nonlinear_arith)
        requires
            v <= 255,
            b <= 255,
    ;
}

/// Copy the PPU frame `src` into `dst` with the scanline effect applied.
pub fn apply_scanlines(src: &Vec<u8>, dst: &mut Vec<u8>)
    requires
        src.len() >= FRAME_BYTES,
        old(dst).len() >= FRAME_BYTES,
    ensures
        final(dst).len() == old(dst).len(),
        forall|i: int| 0 <= i < FRAME_BYTES ==> #[trigger] final(dst)@[i] == displayed_byte(src@, i),
        forall|i: int| FRAME_BYTES <= i < old(dst).len() ==> #[trigger] final(dst)@[i] == old(dst)@[i],
{
    let mut y: usize = 0;
    while y < 240
        invariant
            y <= 240,
            src.len() >= FRAME_BYTES,
            dst.len() == old(dst).len(),
            dst.len() >= FRAME_BYTES,
            forall|i: int| 0 <= i < (y * SCREEN_WIDTH * 4) ==> #[trigger] dst@[i] == displayed_byte(src@, i),
            forall|i: int| (y * SCREEN_WIDTH * 4) <= i < dst.len() ==> #[trigger] dst@[i] == old(dst)@[i],
        decreases 240 - y,
    {
        let dim: u32 = if y % 2 == 0 { 205 } else { 255 };
        let mut x: usize = 0;
        while x < SCREEN_WIDTH
            invariant
                y < 240,
                x <= SCREEN_WIDTH,
                src.len() >= FRAME_BYTES,
                dst.len() == old(dst).len(),
                dst.len() >= FRAME_BYTES,
                dim == row_brightness(y as int),
                forall|i: int| 0 <= i < ((y * SCREEN_WIDTH + x) * 4) ==> #[trigger] dst@[i] == displayed_byte(src@, i),
                forall|i: int| ((y * SCREEN_WIDTH + x) * 4) <= i < dst.len() ==> #[trigger] dst@[i] == old(dst)@[i],
            decreases SCREEN_WIDTH - x,
        {
            let i = (y * SCREEN_WIDTH + x) * 4;
            proof {
                lemma_frame_index(y as int, x as int, 0);
                lemma_frame_index(y as int, x as int, 1);
                lemma_frame_index(y as int, x as int, 2);
                lemma_frame_index(y as int, x as int, 3);
                lemma_scaled_byte(src@[i as int], dim);
                lemma_scaled_byte(src@[i + 1], dim);
                lemma_scaled_byte(src@[i + 2], dim);
            }
            dst.set(i, (src[i] as u32 * dim / 255) as u8);
            dst.set(i + 1, (src[i + 1] as u32 * dim / 255) as u8);
            dst.set(i + 2, (src[i + 2] as u32 * dim / 255) as u8);
            dst.set(i + 3, 0xFF);
            proof {
                assert forall|j: int| 0 <= j < ((y * SCREEN_WIDTH + x + 1) * 4) implies #[trigger] dst@[j]
                    == displayed_byte(src@, j) by {
                    if j >= i {
                        lemma_frame_index(y as int, x as int, j - i);
                    }
                }
            }
            x += 1;
        }
        y += 1;
    }
}

} // verus!
