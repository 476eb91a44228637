use nes::apu::dmc::Dmc;
use nes::apu::noise::Noise;
use nes::apu::pulse::Pulse;
use nes::apu::triangle::Triangle;
use nes::apu::Apu;

const LENGTHS: [u8; 32] = [
    10, 254, 20, 2, 40, 4, 80, 6, 160, 8, 60, 10, 14, 12, 26, 14,
    12, 16, 24, 18, 48, 20, 96, 22, 192, 24, 72, 26, 16, 28, 32, 30,
];

#[test]
fn pulse_outputs_constant_volume_on_duty_high_steps() {
    let mut p = Pulse::new(1);
    p.set_enabled(true);
    p.write_ctrl(0x9F); // duty 2, constant volume 15
    p.write_timer_lo(0x10);
    p.write_timer_hi(0x00, &LENGTHS);
    assert_eq!(p.length_counter, 10);
    assert_eq!(p.output(), 0); // duty step 0 is low
    p.clock_timer();
    assert_eq!(p.output(), 15);
    for _ in 0..17 {
        p.clock_timer();
    }
    assert_eq!(p.duty_val, 2);
    assert_eq!(p.output(), 15);
}

#[test]
fn pulse_is_silent_when_disabled_or_period_too_short() {
    let mut p = Pulse::new(1);
    p.write_ctrl(0x9F);
    p.write_timer_lo(0x10);
    p.write_timer_hi(0x00, &LENGTHS);
    assert_eq!(p.length_counter, 0, "disabled channel does not load length");
    p.set_enabled(true);
    p.write_timer_lo(0x07);
    p.write_timer_hi(0x00, &LENGTHS);
    p.clock_timer();
    assert_eq!(p.output(), 0);
}

#[test]
fn pulse_length_counter_runs_out() {
    let mut p = Pulse::new(2);
    p.set_enabled(true);
    p.write_ctrl(0x9F);
    p.write_timer_lo(0x10);
    p.write_timer_hi(0x00, &LENGTHS);
    for _ in 0..10 {
        p.clock_length_sweep();
    }
    assert_eq!(p.length_counter, 0);
    p.clock_timer();
    assert_eq!(p.output(), 0);
}

#[test]
fn pulse_sweep_adjusts_period() {
    let mut up = Pulse::new(1);
    up.write_timer_hi(0x01, &LENGTHS);
    up.write_sweep(0x81); // enabled, period 0, shift 1
    up.clock_length_sweep();
    assert_eq!(up.timer_period, 0x180);

    let mut down1 = Pulse::new(1);
    down1.write_timer_hi(0x01, &LENGTHS);
    down1.write_sweep(0x89); // negate
    down1.clock_length_sweep();
    assert_eq!(down1.timer_period, 0x80);

    let mut down2 = Pulse::new(2);
    down2.write_timer_hi(0x01, &LENGTHS);
    down2.write_sweep(0x89);
    down2.clock_length_sweep();
    assert_eq!(down2.timer_period, 0x7F);
}

#[test]
fn pulse_envelope_decays_and_loops() {
    let mut p = Pulse::new(1);
    p.write_ctrl(0x20); // loop, decaying envelope, period 0
    p.write_timer_hi(0x00, &LENGTHS);
    p.clock_envelope();
    assert_eq!(p.env_val, 15);
    for _ in 0..15 {
        p.clock_envelope();
    }
    assert_eq!(p.env_val, 0);
    p.clock_envelope();
    assert_eq!(p.env_val, 15);
}

#[test]
fn triangle_steps_through_its_sequence() {
    let mut t = Triangle::new();
    t.set_enabled(true);
    t.write_linear(0x7F);
    t.write_timer_lo(0x00);
    t.write_timer_hi(0x08, &LENGTHS);
    assert_eq!(t.length_counter, 254);
    assert_eq!(t.output(), 0); // linear counter not yet loaded
    t.clock_linear();
    assert_eq!(t.output(), 15);
    t.clock_timer();
    assert_eq!(t.output(), 14);
    for _ in 0..14 {
        t.clock_timer();
    }
    assert_eq!(t.output(), 0);
    t.clock_timer();
    assert_eq!(t.output(), 0);
    t.clock_timer();
    assert_eq!(t.output(), 1);
}

#[test]
fn triangle_linear_counter_counts_down() {
    let mut t = Triangle::new();
    t.set_enabled(true);
    t.write_linear(0x02);
    t.write_timer_hi(0x08, &LENGTHS);
    t.clock_linear();
    t.clock_linear();
    t.clock_linear();
    assert_eq!(t.output(), 0);
}

#[test]
fn noise_shift_register_feedback() {
    let mut n = Noise::new();
    n.set_enabled(true);
    n.write_ctrl(0x1F);
    n.write_period(0x00);
    n.write_length(0x08, &LENGTHS);
    assert_eq!(n.length_counter, 254);
    assert_eq!(n.output(), 0); // shift register bit 0 starts set
    n.clock_timer();
    assert_eq!(n.shift, 0x4000);
    assert_eq!(n.output(), 15);
}

#[test]
fn noise_short_mode_uses_bit_six() {
    let mut short = Noise::new();
    short.write_period(0x80);
    short.shift = 0x41;
    short.clock_timer();
    assert_eq!(short.shift, 0x20);
    let mut long = Noise::new();
    long.write_period(0x00);
    long.shift = 0x41;
    long.clock_timer();
    assert_eq!(long.shift, 0x4020);
}

#[test]
fn dmc_direct_load_and_length() {
    let mut d = Dmc::new();
    d.write_direct(0xFF);
    assert_eq!(d.output(), 0x7F);
    d.write_length(0x02);
    d.set_enabled(true);
    assert_eq!(d.bytes_remaining, 0x21);
    d.set_enabled(false);
    assert_eq!(d.bytes_remaining, 0);
}

#[test]
fn dmc_address_register() {
    let mut d = Dmc::new();
    d.write_addr(0x01);
    assert_eq!(d.sample_addr, 0xC040);
}

#[test]
fn apu_frame_irq_in_four_step_mode() {
    let mut a = Apu::new(44100);
    for _ in 0..(7457 * 3 + 1) {
        a.tick();
    }
    assert!(a.frame_irq);
    assert_eq!(a.cpu_read(0x4015) & 0x40, 0x40);
    let mut b = Apu::new(44100);
    b.cpu_write(0x4017, 0x40); // inhibit
    for _ in 0..(7457 * 3 + 1) {
        b.tick();
    }
    assert!(!b.frame_irq);
}

#[test]
fn apu_status_write_disables_channels() {
    let mut a = Apu::new(44100);
    a.cpu_write(0x4015, 0x0F);
    a.cpu_write(0x4003, 0x08);
    a.cpu_write(0x4007, 0x08);
    a.cpu_write(0x400B, 0x08);
    a.cpu_write(0x400F, 0x08);
    assert_eq!(a.cpu_read(0x4015) & 0x0F, 0x0F);
    a.cpu_write(0x4015, 0x05);
    assert_eq!(a.cpu_read(0x4015) & 0x0F, 0x05);
    assert_eq!(a.cpu_read(0x4000), 0);
}

#[test]
fn apu_sample_points_match_rate() {
    let rate: u32 = 447_443;
    let mut a = Apu::new(rate);
    let mut due = 0u64;
    let mut first = 0u64;
    for c in 1..=400u64 {
        a.tick();
        if a.sample_due() {
            due += 1;
            if first == 0 {
                first = c;
            }
        }
    }
    // 400 * 447443 / 1789773, rounded down; the first sample falls due at cycle 5.
    assert_eq!(due, 99);
    assert_eq!(first, 5);
}

#[test]
fn noise_shift_register_never_reaches_zero() {
    for mode in [0x00u8, 0x80] {
        let mut n = Noise::new();
        n.write_period(mode);
        for _ in 0..100_000 {
            n.clock_timer();
            assert_ne!(n.shift, 0);
            assert!(n.shift < 0x8000);
        }
    }
}
