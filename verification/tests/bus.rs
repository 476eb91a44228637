use nes::bus::Bus;
use nes::cartridge::Cartridge;
use nes::controller::buttons;

fn bus() -> Bus {
    let mut v = vec![0x4E, 0x45, 0x53, 0x1A, 1, 0, 0, 0, 0, 0, 0, 0, 0, 0, 0, 0];
    v.extend(std::iter::repeat(0u8).take(16384));
    match Cartridge::from_ines(&v) {
        Ok(c) => Bus::new(c, 44100),
        Err(_) => panic!("test image rejected"),
    }
}

#[test]
fn ram_is_mirrored_every_2k() {
    let mut b = bus();
    b.cpu_write(0x0001, 0x5A);
    assert_eq!(b.cpu_read(0x0801), 0x5A);
    assert_eq!(b.cpu_read(0x1001), 0x5A);
    assert_eq!(b.cpu_read(0x1801), 0x5A);
    b.cpu_write(0x1FFF, 0x11);
    assert_eq!(b.cpu_read(0x07FF), 0x11);
    assert_eq!(b.cpu_read(0x0002), 0x00);
}

#[test]
fn unmapped_io_reads_zero() {
    let mut b = bus();
    assert_eq!(b.cpu_read(0x4018), 0);
    assert_eq!(b.cpu_read(0x4000), 0);
}

#[test]
fn controller_port_reads_buttons_in_order() {
    let mut b = bus();
    b.controller1.buttons = buttons::A | buttons::START | buttons::RIGHT;
    b.cpu_write(0x4016, 1);
    b.cpu_write(0x4016, 0);
    let bits: Vec<u8> = (0..10).map(|_| b.cpu_read(0x4016) & 1).collect();
    assert_eq!(bits, vec![1, 0, 0, 1, 0, 0, 0, 1, 1, 1]);
    assert_eq!(b.cpu_read(0x4017) & 1, 0);
}

#[test]
fn ppu_data_port_reads_back_writes_through_buffer() {
    let mut b = bus();
    b.cpu_write(0x2006, 0x21);
    b.cpu_write(0x2006, 0x08);
    b.cpu_write(0x2007, 0x5A);
    b.cpu_write(0x2007, 0x6B);
    b.cpu_write(0x2006, 0x21);
    b.cpu_write(0x2006, 0x08);
    let _stale = b.cpu_read(0x2007);
    assert_eq!(b.cpu_read(0x2007), 0x5A);
    assert_eq!(b.cpu_read(0x2007), 0x6B);
}

#[test]
fn palette_reads_are_not_buffered_and_mirror() {
    let mut b = bus();
    b.cpu_write(0x2006, 0x3F);
    b.cpu_write(0x2006, 0x10);
    b.cpu_write(0x2007, 0x2C);
    b.cpu_write(0x2006, 0x3F);
    b.cpu_write(0x2006, 0x00);
    assert_eq!(b.cpu_read(0x2007), 0x2C);
}

#[test]
fn ppudata_increment_32_when_ctrl_bit_2_set() {
    let mut b = bus();
    b.cpu_write(0x2000, 0x04);
    b.cpu_write(0x2006, 0x20);
    b.cpu_write(0x2006, 0x00);
    b.cpu_write(0x2007, 0x01);
    b.cpu_write(0x2007, 0x02);
    assert_eq!(b.ppu.v, 0x2040);
}

#[test]
fn oam_data_port_writes_and_reads() {
    let mut b = bus();
    b.cpu_write(0x2003, 0x10);
    b.cpu_write(0x2004, 0x77);
    b.cpu_write(0x2004, 0x88);
    assert_eq!(b.ppu.oam[0x10], 0x77);
    assert_eq!(b.ppu.oam[0x11], 0x88);
    b.cpu_write(0x2003, 0x11);
    assert_eq!(b.cpu_read(0x2004), 0x88);
}

#[test]
fn status_read_clears_vblank_and_write_toggle() {
    let mut b = bus();
    b.ppu.status = 0x80;
    b.cpu_write(0x2006, 0x3F);
    assert!(b.ppu.w);
    let s = b.cpu_read(0x2002);
    assert_eq!(s & 0x80, 0x80);
    assert_eq!(b.ppu.status & 0x80, 0);
    assert!(!b.ppu.w);
}

#[test]
fn apu_status_reports_enabled_lengths() {
    let mut b = bus();
    b.cpu_write(0x4015, 0x01);
    b.cpu_write(0x4003, 0x08);
    assert_eq!(b.cpu_read(0x4015) & 0x01, 0x01);
    b.cpu_write(0x4015, 0x00);
    assert_eq!(b.cpu_read(0x4015) & 0x1F, 0x00);
}

#[test]
fn oam_dma_register_starts_transfer() {
    let mut b = bus();
    b.cpu_write(0x4014, 0x03);
    assert!(b.dma_active);
    assert_eq!(b.dma_page, 0x03);
    assert_eq!(b.dma_addr, 0);
}

#[test]
fn audio_samples_follow_host_rate() {
    let mut b = bus();
    for _ in 0..100_000 {
        b.tick_apu();
    }
    let levels = b.take_audio_levels();
    // 100000 * 44100 / 1789773, rounded down.
    assert_eq!(levels.len(), 2463);
    assert_eq!(b.take_audio_levels().len(), 0);
    assert_eq!(b.apu.cycle, 100_000);
}

#[test]
fn tick_components_runs_three_dots_and_one_apu_cycle() {
    let mut b = bus();
    let done = b.tick_components();
    assert!(!done);
    assert_eq!(b.ppu.dot, 3);
    assert_eq!(b.apu.cycle, 1);
}

#[test]
fn palette_entry_1c_mirrors_0c() {
    let mut b = bus();
    b.cpu_write(0x2006, 0x3F);
    b.cpu_write(0x2006, 0x1C);
    b.cpu_write(0x2007, 0x15);
    assert_eq!(b.ppu.palette_ram[0x0C], 0x15);
    assert_eq!(b.ppu.palette_ram[0x1C], 0x00);
    b.cpu_write(0x2006, 0x3F);
    b.cpu_write(0x2006, 0x0C);
    assert_eq!(b.cpu_read(0x2007), 0x15);
    b.cpu_write(0x2006, 0x3F);
    b.cpu_write(0x2006, 0x1C);
    assert_eq!(b.cpu_read(0x2007), 0x15);
}
