use nes::cartridge::Cartridge;
use nes::ppu::render::reverse_u8;
use nes::ppu::{Ppu, FRAME_BYTES, SCREEN_HEIGHT, SCREEN_WIDTH};

fn cart() -> Cartridge {
    let mut v = vec![0x4E, 0x45, 0x53, 0x1A, 1, 0, 0x01, 0, 0, 0, 0, 0, 0, 0, 0, 0];
    v.extend(std::iter::repeat(0u8).take(16384));
    match Cartridge::from_ines(&v) {
        Ok(c) => c,
        Err(_) => panic!("test image rejected"),
    }
}

#[test]
fn reverse_u8_mirrors_bit_order() {
    assert_eq!(reverse_u8(0x01), 0x80);
    assert_eq!(reverse_u8(0x80), 0x01);
    assert_eq!(reverse_u8(0xF0), 0x0F);
    assert_eq!(reverse_u8(0xA5), 0xA5);
    assert_eq!(reverse_u8(0x12), 0x48);
    for b in 0..=255u8 {
        assert_eq!(reverse_u8(reverse_u8(b)), b);
    }
}

#[test]
fn new_ppu_has_full_frame_buffer() {
    let p = Ppu::new();
    assert_eq!(p.frame_buffer.len(), FRAME_BYTES);
    assert_eq!(FRAME_BYTES, SCREEN_WIDTH * SCREEN_HEIGHT * 4);
    assert_eq!(p.frame, 0);
}

#[test]
fn a_frame_takes_262_scanlines_of_341_dots() {
    let mut p = Ppu::new();
    let mut c = cart();
    let mut dots = 0u32;
    loop {
        dots += 1;
        if p.tick(&mut c) {
            break;
        }
    }
    let first = dots;
    dots = 0;
    loop {
        dots += 1;
        if p.tick(&mut c) {
            break;
        }
    }
    assert_eq!(dots, 262 * 341);
    assert!(first <= 262 * 341);
    assert_eq!(p.frame, 2);
    assert_eq!(p.scanline, -1);
    assert_eq!(p.dot, 0);
}

#[test]
fn vblank_sets_status_and_raises_nmi_when_enabled() {
    let mut p = Ppu::new();
    let mut c = cart();
    p.cpu_write(0, 0x80, &mut c);
    while !(p.scanline == 241 && p.dot == 2) {
        p.tick(&mut c);
    }
    assert_eq!(p.status & 0x80, 0x80);
    assert!(p.nmi_occurred);
    let s = p.cpu_read(2, &mut c);
    assert_eq!(s & 0x80, 0x80);
    assert_eq!(p.status & 0x80, 0);
}

#[test]
fn vertical_mirroring_shares_2000_and_2800() {
    let mut p = Ppu::new();
    let mut c = cart();
    p.cpu_write(6, 0x20, &mut c);
    p.cpu_write(6, 0x05, &mut c);
    p.cpu_write(7, 0x9C, &mut c);
    p.cpu_write(6, 0x28, &mut c);
    p.cpu_write(6, 0x05, &mut c);
    p.cpu_read(7, &mut c);
    assert_eq!(p.cpu_read(7, &mut c), 0x9C);
    p.cpu_write(6, 0x24, &mut c);
    p.cpu_write(6, 0x05, &mut c);
    p.cpu_read(7, &mut c);
    assert_eq!(p.cpu_read(7, &mut c), 0x00);
}

#[test]
fn ppuscroll_writes_fine_x_and_coarse_scroll() {
    let mut p = Ppu::new();
    let mut c = cart();
    p.cpu_write(5, 0x7D, &mut c);
    assert_eq!(p.x, 0x5);
    assert_eq!(p.t & 0x1F, 0x0F);
    p.cpu_write(5, 0x5E, &mut c);
    assert_eq!((p.t >> 12) & 0x7, 0x6);
    assert_eq!((p.t >> 5) & 0x1F, 0x0B);
    assert!(!p.w);
}

#[test]
fn rendering_draws_backdrop_colour() {
    let mut p = Ppu::new();
    let mut c = cart();
    // Backdrop colour $21 (light blue), background and sprites on.
    p.cpu_write(6, 0x3F, &mut c);
    p.cpu_write(6, 0x00, &mut c);
    p.cpu_write(7, 0x21, &mut c);
    p.cpu_write(1, 0x1E, &mut c);
    while !p.tick(&mut c) {}
    while !p.tick(&mut c) {}
    // Master palette entry $21 is (76, 154, 236); the buffer is B, G, R, A.
    let i = (100 * SCREEN_WIDTH + 100) * 4;
    assert_eq!(&p.frame_buffer[i..i + 4], &[236, 154, 76, 255]);
}

#[test]
fn odd_frames_skip_a_dot_when_rendering() {
    let mut p = Ppu::new();
    let mut c = cart();
    p.cpu_write(1, 0x08, &mut c);
    let mut lengths = Vec::new();
    for _ in 0..3 {
        let mut dots = 0u32;
        loop {
            dots += 1;
            if p.tick(&mut c) {
                break;
            }
        }
        lengths.push(dots);
    }
    // Power-on starts at scanline 0, so the first frame lacks the pre-render line.
    assert_eq!(lengths, vec![261 * 341, 262 * 341 - 1, 262 * 341]);
}

#[test]
fn horizontal_mirroring_shares_2000_and_2400() {
    let mut v = vec![0x4E, 0x45, 0x53, 0x1A, 1, 0, 0x00, 0, 0, 0, 0, 0, 0, 0, 0, 0];
    v.extend(std::iter::repeat(0u8).take(16384));
    let mut c = match Cartridge::from_ines(&v) {
        Ok(c) => c,
        Err(_) => panic!("test image rejected"),
    };
    let mut p = Ppu::new();
    p.cpu_write(6, 0x20, &mut c);
    p.cpu_write(6, 0x10, &mut c);
    p.cpu_write(7, 0x3C, &mut c);
    p.cpu_write(6, 0x24, &mut c);
    p.cpu_write(6, 0x10, &mut c);
    p.cpu_read(7, &mut c);
    assert_eq!(p.cpu_read(7, &mut c), 0x3C);
    p.cpu_write(6, 0x28, &mut c);
    p.cpu_write(6, 0x10, &mut c);
    p.cpu_read(7, &mut c);
    assert_eq!(p.cpu_read(7, &mut c), 0x00);
}
