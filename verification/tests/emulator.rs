use nes::cartridge::CartridgeError;
use nes::emulator::Emulator;

/// A 16 KB NROM image whose PRG starts with `program` at $8000, with the
/// reset vector at $8000, the NMI vector at `nmi` and the IRQ vector at `irq`.
fn rom(program: &[u8], nmi: u16, irq: u16) -> Vec<u8> {
    let mut v = vec![0x4E, 0x45, 0x53, 0x1A, 1, 1, 0, 0, 0, 0, 0, 0, 0, 0, 0, 0];
    let mut prg = vec![0xEAu8; 16384];
    prg[..program.len()].copy_from_slice(program);
    prg[0x3FFA] = nmi as u8;
    prg[0x3FFB] = (nmi >> 8) as u8;
    prg[0x3FFC] = 0x00;
    prg[0x3FFD] = 0x80;
    prg[0x3FFE] = irq as u8;
    prg[0x3FFF] = (irq >> 8) as u8;
    v.extend_from_slice(&prg);
    v.extend(std::iter::repeat(0u8).take(8192));
    v
}

fn boot(program: &[u8]) -> Emulator {
    match Emulator::new(&rom(program, 0x8000, 0x8000), 44100) {
        Ok(e) => e,
        Err(_) => panic!("test image rejected"),
    }
}

#[test]
fn new_rejects_bad_image() {
    assert!(matches!(Emulator::new(&[1, 2, 3], 44100), Err(CartridgeError::TooShort)));
    let mut bad = rom(&[], 0, 0);
    bad[0] = b'X';
    assert!(matches!(Emulator::new(&bad, 44100), Err(CartridgeError::InvalidHeader)));
}

#[test]
fn power_on_starts_at_reset_vector() {
    let emu = boot(&[]);
    assert_eq!(emu.cpu.pc, 0x8000);
    assert_eq!(emu.cpu.sp, 0xFD);
    assert_eq!(emu.cpu.a, 0);
    assert_eq!(emu.cpu.p & 0x04, 0x04);
}

#[test]
fn runs_load_store_add_and_subroutine() {
    let program = [
        0xA9, 0x42, // LDA #$42
        0x8D, 0x00, 0x02, // STA $0200
        0x69, 0x01, // ADC #$01
        0x8D, 0x01, 0x02, // STA $0201
        0x20, 0x20, 0x80, // JSR $8020
        0x8D, 0x02, 0x02, // STA $0202
        0x4C, 0x10, 0x80, // JMP $8010
        0, 0, 0, 0, 0, 0, 0, 0, 0, 0, 0, 0, 0, // $8013-$801F
        0xA9, 0x77, // $8020: LDA #$77
        0x60, // RTS
    ];
    let mut emu = boot(&program);
    for _ in 0..8 {
        emu.clock();
    }
    assert_eq!(emu.bus.ram[0x200], 0x42);
    assert_eq!(emu.bus.ram[0x201], 0x43);
    assert_eq!(emu.bus.ram[0x202], 0x77);
    assert_eq!(emu.cpu.sp, 0xFD);
    assert_eq!(emu.cpu.pc, 0x8010);
}

#[test]
fn adc_sets_carry_and_overflow() {
    let program = [
        0xA9, 0x7F, // LDA #$7F
        0x69, 0x01, // ADC #$01 -> $80, V set, C clear
        0x85, 0x10, // STA $10
        0x08, // PHP
        0x68, // PLA
        0x85, 0x11, // STA $11
        0xA9, 0xFF, // LDA #$FF
        0x69, 0x01, // ADC #$01 -> $00, C set, Z set
        0x08, // PHP
        0x68, // PLA
        0x85, 0x12, // STA $12
    ];
    let mut emu = boot(&program);
    for _ in 0..11 {
        emu.clock();
    }
    assert_eq!(emu.bus.ram[0x10], 0x80);
    let p1 = emu.bus.ram[0x11];
    assert_eq!(p1 & 0x40, 0x40, "overflow");
    assert_eq!(p1 & 0x80, 0x80, "negative");
    assert_eq!(p1 & 0x01, 0x00, "carry");
    let p2 = emu.bus.ram[0x12];
    assert_eq!(p2 & 0x01, 0x01, "carry");
    assert_eq!(p2 & 0x02, 0x02, "zero");
    assert_eq!(p2 & 0x10, 0x10, "break bit pushed by PHP");
}

#[test]
fn loop_with_branch_counts_down() {
    let program = [
        0xA2, 0x05, // LDX #5
        0xA9, 0x00, // LDA #0
        0x18, // CLC        loop:
        0x69, 0x03, // ADC #3
        0xCA, // DEX
        0xD0, 0xFA, // BNE loop
        0x85, 0x20, // STA $20
        0x4C, 0x0C, 0x80, // JMP $800C
    ];
    let mut emu = boot(&program);
    for _ in 0..40 {
        emu.clock();
    }
    assert_eq!(emu.bus.ram[0x20], 15);
    assert_eq!(emu.cpu.x, 0);
}

#[test]
fn clock_reports_cycle_counts_through_cpu() {
    let mut emu = boot(&[0xEA, 0xEA, 0xAD, 0x00, 0x02]);
    emu.clock();
    assert_eq!(emu.total_cycles, 2);
    // Three PPU dots and one APU cycle per CPU cycle.
    assert_eq!(emu.bus.ppu.dot, 6);
    assert_eq!(emu.bus.apu.cycle, 2);
    emu.clock();
    emu.clock();
    assert_eq!(emu.total_cycles, 8);
    assert_eq!(emu.cpu.pc, 0x8005);
}

#[test]
fn run_frame_completes_one_frame() {
    let mut emu = boot(&[0x4C, 0x00, 0x80]);
    let f0 = emu.bus.ppu.frame;
    emu.run_frame();
    assert_eq!(emu.bus.ppu.frame, f0 + 1);
    emu.run_frame();
    assert_eq!(emu.bus.ppu.frame, f0 + 2);
}

#[test]
fn vblank_nmi_runs_handler() {
    let program = [
        0xA9, 0x80, // LDA #$80
        0x8D, 0x00, 0x20, // STA $2000 (enable NMI)
        0x4C, 0x05, 0x80, // JMP $8005
        0, 0, 0, 0, 0, 0, 0, 0, // $8008-$800F
        0xEE, 0x00, 0x03, // $8010: INC $0300
        0x40, // RTI
    ];
    let mut emu = match Emulator::new(&rom(&program, 0x8010, 0x8000), 44100) {
        Ok(e) => e,
        Err(_) => panic!("test image rejected"),
    };
    emu.run_frame();
    emu.run_frame();
    emu.run_frame();
    let count = emu.bus.ram[0x300];
    assert!(count >= 2 && count <= 3, "NMI count {}", count);
}

#[test]
fn oam_dma_copies_a_page() {
    let program = [
        0xA9, 0x02, // LDA #$02
        0x8D, 0x14, 0x40, // STA $4014
        0x4C, 0x05, 0x80, // JMP $8005
    ];
    let mut emu = boot(&program);
    for i in 0..256usize {
        emu.bus.ram[0x200 + i] = (i as u8) ^ 0xA5;
    }
    for _ in 0..700 {
        emu.clock();
    }
    assert!(!emu.bus.dma_active);
    for i in 0..256usize {
        assert_eq!(emu.bus.ppu.oam[i], (i as u8) ^ 0xA5);
    }
}

#[test]
fn sbc_subtracts_with_borrow() {
    let program = [
        0x38, // SEC
        0xA9, 0x50, // LDA #$50
        0xE9, 0x30, // SBC #$30 -> $20, C set
        0x85, 0x30, // STA $30
        0x08, // PHP
        0x68, // PLA
        0x85, 0x31, // STA $31
        0xA9, 0x10, // LDA #$10
        0xE9, 0x20, // SBC #$20 -> $F0, C clear
        0x85, 0x32, // STA $32
        0x08, // PHP
        0x68, // PLA
        0x85, 0x33, // STA $33
    ];
    let mut emu = boot(&program);
    for _ in 0..14 {
        emu.clock();
    }
    assert_eq!(emu.bus.ram[0x30], 0x20);
    assert_eq!(emu.bus.ram[0x31] & 0x01, 0x01);
    assert_eq!(emu.bus.ram[0x32], 0xF0);
    assert_eq!(emu.bus.ram[0x33] & 0x01, 0x00);
    assert_eq!(emu.bus.ram[0x33] & 0x80, 0x80);
}

#[test]
fn brk_enters_irq_vector_and_rti_returns() {
    let program = [
        0x00, 0xEA, // BRK (skips a padding byte)
        0xA9, 0x11, // LDA #$11
        0x85, 0x40, // STA $40
        0x4C, 0x06, 0x80, // JMP $8006
        0, 0, 0, 0, 0, 0, 0, // $8009-$800F
        0xE6, 0x41, // $8010: INC $41
        0x40, // RTI
    ];
    let mut emu = match Emulator::new(&rom(&program, 0x8000, 0x8010), 44100) {
        Ok(e) => e,
        Err(_) => panic!("test image rejected"),
    };
    for _ in 0..6 {
        emu.clock();
    }
    assert_eq!(emu.bus.ram[0x41], 1);
    assert_eq!(emu.bus.ram[0x40], 0x11);
    assert_eq!(emu.cpu.sp, 0xFD);
}

#[test]
fn apu_frame_interrupt_reaches_cpu() {
    let program = [
        0x58, // CLI
        0x4C, 0x01, 0x80, // JMP $8001
        0, 0, 0, 0, 0, 0, 0, 0, 0, 0, 0, 0, // $8004-$800F
        0xE6, 0x50, // $8010: INC $50
        0xAD, 0x15, 0x40, // LDA $4015
        0x40, // RTI
    ];
    let mut emu = match Emulator::new(&rom(&program, 0x8000, 0x8010), 44100) {
        Ok(e) => e,
        Err(_) => panic!("test image rejected"),
    };
    emu.run_frame();
    emu.run_frame();
    assert!(emu.bus.ram[0x50] >= 1);
    assert!(!emu.bus.apu.frame_irq);
}
