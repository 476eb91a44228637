use nes::cartridge::mappers::{Mapper000, Mapper001, Mapper002, MapperEnum};
use nes::cartridge::{Cartridge, CartridgeError, Mirroring};

/// An iNES image: header, then `prg` banks of 16 KB where bank `k` starts
/// with the byte `0x10 * k + 1`, then `chr` banks of 8 KB.
fn image(prg: u8, chr: u8, flags6: u8, flags7: u8) -> Vec<u8> {
    let mut v = vec![0x4E, 0x45, 0x53, 0x1A, prg, chr, flags6, flags7, 0, 0, 0, 0, 0, 0, 0, 0];
    for k in 0..prg as usize {
        let mut bank = vec![0u8; 16384];
        bank[0] = 0x10 * k as u8 + 1;
        bank[0x3FFF] = 0xE0 + k as u8;
        v.extend_from_slice(&bank);
    }
    v.extend(std::iter::repeat(0x33u8).take(8192 * chr as usize));
    v
}

#[test]
fn rejects_image_shorter_than_header() {
    assert!(matches!(Cartridge::from_ines(&[0x4E, 0x45, 0x53]), Err(CartridgeError::TooShort)));
}

#[test]
fn rejects_bad_magic() {
    let mut data = image(1, 1, 0, 0);
    data[3] = 0x1B;
    assert!(matches!(Cartridge::from_ines(&data), Err(CartridgeError::InvalidHeader)));
}

#[test]
fn rejects_truncated_rom_data() {
    let mut data = image(2, 1, 0, 0);
    data.truncate(16 + 16384);
    assert!(matches!(Cartridge::from_ines(&data), Err(CartridgeError::TooShort)));
}

#[test]
fn rejects_unsupported_mapper() {
    let data = image(1, 1, 0x40, 0x00);
    assert!(matches!(Cartridge::from_ines(&data), Err(CartridgeError::UnsupportedMapper(4))));
    let data = image(1, 1, 0x30, 0x10);
    assert!(matches!(Cartridge::from_ines(&data), Err(CartridgeError::UnsupportedMapper(0x13))));
}

#[test]
fn loads_nrom_with_chr_ram_and_vertical_mirroring() {
    let data = image(1, 0, 0x01, 0);
    let cart = Cartridge::from_ines(&data).ok().unwrap();
    assert_eq!(cart.prg_rom.len(), 16384);
    assert_eq!(cart.chr_rom.len(), 0);
    assert_eq!(cart.chr_ram.len(), 8192);
    assert_eq!(cart.prg_ram.len(), 8192);
    assert!(!cart.has_battery);
    assert_eq!(cart.mirroring(), Mirroring::Vertical);
    assert!(matches!(cart.mapper, MapperEnum::M000(_)));
}

#[test]
fn header_flags_select_four_screen_and_battery() {
    let data = image(1, 1, 0x08 | 0x02, 0);
    let cart = Cartridge::from_ines(&data).ok().unwrap();
    assert_eq!(cart.mirroring(), Mirroring::FourScreen);
    assert!(cart.has_battery);
}

#[test]
fn trainer_is_skipped() {
    let mut data = image(1, 1, 0x04, 0);
    let trainer = vec![0xEEu8; 512];
    let tail = data.split_off(16);
    data.extend_from_slice(&trainer);
    data.extend_from_slice(&tail);
    let cart = Cartridge::from_ines(&data).ok().unwrap();
    assert_eq!(cart.cpu_read(0x8000), 0x01);
}

#[test]
fn nrom_16k_is_mirrored_at_c000() {
    let cart = Cartridge::from_ines(&image(1, 1, 0, 0)).ok().unwrap();
    assert_eq!(cart.cpu_read(0x8000), 0x01);
    assert_eq!(cart.cpu_read(0xC000), 0x01);
    assert_eq!(cart.cpu_read(0xFFFF), 0xE0);
    assert_eq!(cart.cpu_read(0x4020), 0);
}

#[test]
fn nrom_32k_is_not_mirrored() {
    let cart = Cartridge::from_ines(&image(2, 1, 0, 0)).ok().unwrap();
    assert_eq!(cart.cpu_read(0x8000), 0x01);
    assert_eq!(cart.cpu_read(0xC000), 0x11);
}

#[test]
fn prg_ram_reads_back_writes() {
    let mut cart = Cartridge::from_ines(&image(1, 1, 0, 0)).ok().unwrap();
    cart.cpu_write(0x6000, 0x99);
    cart.cpu_write(0x7FFF, 0x42);
    assert_eq!(cart.cpu_read(0x6000), 0x99);
    assert_eq!(cart.cpu_read(0x7FFF), 0x42);
}

#[test]
fn chr_ram_is_writable_but_chr_rom_is_not() {
    let mut ram_cart = Cartridge::from_ines(&image(1, 0, 0, 0)).ok().unwrap();
    ram_cart.ppu_write(0x0123, 0x5A);
    assert_eq!(ram_cart.ppu_read(0x0123), 0x5A);
    let mut rom_cart = Cartridge::from_ines(&image(1, 1, 0, 0)).ok().unwrap();
    rom_cart.ppu_write(0x0123, 0x5A);
    assert_eq!(rom_cart.ppu_read(0x0123), 0x33);
}

#[test]
fn mmc1_serial_writes_select_prg_bank() {
    let mut cart = Cartridge::from_ines(&image(4, 1, 0x10, 0)).ok().unwrap();
    assert!(matches!(cart.mapper, MapperEnum::M001(_)));
    // Power-on control is $0C: bank 0 at $8000, last bank at $C000.
    assert_eq!(cart.cpu_read(0x8000), 0x01);
    assert_eq!(cart.cpu_read(0xC000), 0x31);
    // Five writes to $E000 shift in 2 (bit 0 first).
    for bit in [0u8, 1, 0, 0, 0] {
        cart.cpu_write(0xE000, bit);
    }
    assert_eq!(cart.cpu_read(0x8000), 0x21);
    assert_eq!(cart.cpu_read(0xC000), 0x31);
}

#[test]
fn mmc1_reset_write_clears_partial_load() {
    let mut cart = Cartridge::from_ines(&image(4, 1, 0x10, 0)).ok().unwrap();
    cart.cpu_write(0xE000, 1);
    cart.cpu_write(0xE000, 1);
    cart.cpu_write(0xE000, 0x80);
    for bit in [1u8, 0, 0, 0, 0] {
        cart.cpu_write(0xE000, bit);
    }
    assert_eq!(cart.cpu_read(0x8000), 0x11);
}

#[test]
fn mmc1_control_sets_mirroring() {
    let mut cart = Cartridge::from_ines(&image(2, 1, 0x10, 0)).ok().unwrap();
    // Control value 3: horizontal mirroring; the rest zero.
    for bit in [1u8, 1, 0, 0, 0] {
        cart.cpu_write(0x8000, bit);
    }
    assert_eq!(cart.mirroring(), Mirroring::Horizontal);
    for bit in [0u8, 0, 0, 0, 0] {
        cart.cpu_write(0x8000, bit);
    }
    assert_eq!(cart.mirroring(), Mirroring::SingleScreenLow);
}

#[test]
fn uxrom_switches_low_bank_and_fixes_last() {
    let mut cart = Cartridge::from_ines(&image(4, 0, 0x20, 0)).ok().unwrap();
    assert!(matches!(cart.mapper, MapperEnum::M002(_)));
    assert_eq!(cart.cpu_read(0x8000), 0x01);
    assert_eq!(cart.cpu_read(0xC000), 0x31);
    cart.cpu_write(0x8000, 2);
    assert_eq!(cart.cpu_read(0x8000), 0x21);
    assert_eq!(cart.cpu_read(0xC000), 0x31);
    assert_eq!(cart.cpu_read(0xFFFF), 0xE3);
}

#[test]
fn mappers_convert_into_mapper_enum() {
    let m0: MapperEnum = Mapper000::new(1, 1, Mirroring::Vertical).into();
    assert!(matches!(m0, MapperEnum::M000(_)));
    assert_eq!(m0.mirroring(), Mirroring::Vertical);
    let m1: MapperEnum = Mapper001::new(2, 1, Mirroring::Horizontal).into();
    assert!(matches!(m1, MapperEnum::M001(_)));
    let m2: MapperEnum = Mapper002::new(4, Mirroring::Horizontal).into();
    assert!(matches!(m2, MapperEnum::M002(_)));
    assert_eq!(m2.mirroring(), Mirroring::Horizontal);
}
