use nes::display::apply_scanlines;
use nes::ppu::{FRAME_BYTES, SCREEN_WIDTH};

#[test]
fn even_rows_are_dimmed_and_alpha_is_opaque() {
    let mut src = vec![0u8; FRAME_BYTES];
    for (i, b) in src.iter_mut().enumerate() {
        *b = (i % 251) as u8;
    }
    let mut dst = vec![9u8; FRAME_BYTES];
    apply_scanlines(&src, &mut dst);
    // Row 0 (even): 205/255 of each channel, rounded down.
    assert_eq!(dst[0], 0);
    assert_eq!(dst[1], (1u32 * 205 / 255) as u8);
    assert_eq!(dst[2], (2u32 * 205 / 255) as u8);
    assert_eq!(dst[3], 0xFF);
    let i = 4 * 10 + 1;
    assert_eq!(dst[i], (src[i] as u32 * 205 / 255) as u8);
    // Row 1 (odd): unchanged colours.
    let j = SCREEN_WIDTH * 4 + 4 * 7;
    assert_eq!(&dst[j..j + 3], &src[j..j + 3]);
    assert_eq!(dst[j + 3], 0xFF);
}

#[test]
fn full_white_row_values() {
    let src = vec![255u8; FRAME_BYTES];
    let mut dst = vec![0u8; FRAME_BYTES];
    apply_scanlines(&src, &mut dst);
    assert_eq!(&dst[0..4], &[205, 205, 205, 255]);
    let j = SCREEN_WIDTH * 4;
    assert_eq!(&dst[j..j + 4], &[255, 255, 255, 255]);
}
