//! Audio processing unit: two pulse channels, triangle, noise and DMC,
//! driven by the frame sequencer. Mixing the channel levels into audio
//! samples is floating-point work and stays with the caller; this module
//! reports the integer level of each channel after every tick.
pub mod dmc;
pub mod noise;
pub mod pulse;
pub mod triangle;

use vstd::prelude::*;

use dmc::Dmc;
use noise::Noise;
use pulse::Pulse;
use triangle::Triangle;

verus! {

/// Length counter load values, indexed by the top five bits of the write.
pub open spec fn length_table() -> Seq<u8> {
    seq![
        10u8, 254, 20, 2, 40, 4, 80, 6, 160, 8, 60, 10, 14, 12, 26, 14,
        12, 16, 24, 18, 48, 20, 96, 22, 192, 24, 72, 26, 16, 28, 32, 30,
    ]
}

fn length_table_exec() -> (t: [u8; 32])
    ensures
        t@ == length_table(),
{
    let t: [u8; 32] = [
        10, 254, 20, 2, 40, 4, 80, 6, 160, 8, 60, 10, 14, 12, 26, 14,
        12, 16, 24, 18, 48, 20, 96, 22, 192, 24, 72, 26, 16, 28, 32, 30,
    ];
    assert(t@ =~= length_table());
    t
}

/// CPU clock rate in Hz; the APU runs one cycle per CPU cycle.
pub const CPU_CLOCK: u64 = 1_789_773;

/// Number of CPU cycles in one frame-sequencer step.
pub const STEP_LEN: u16 = 7457;

/// The output level of each channel at one instant.
#[derive(Clone, Copy, Debug, PartialEq, Eq)]
pub struct ChannelLevels {
    pub pulse1: u8,
    pub pulse2: u8,
    pub triangle: u8,
    pub noise: u8,
    pub dmc: u8,
}

/// The APU's channels and frame sequencer.
pub struct Apu {
    pub pulse1: Pulse,
    pub pulse2: Pulse,
    pub triangle: Triangle,
    pub noise: Noise,
    pub dmc: Dmc,
    pub frame_counter: u16,
    /// `false` = 4-step sequence, `true` = 5-step sequence.
    pub frame_mode: bool,
    pub irq_inhibit: bool,
    pub frame_irq: bool,
    /// Audio output rate the host mixes at.
    pub sample_rate: u32,
    pub cycle: u64,
}

impl Apu {
    pub open spec fn wf(self) -> bool {
        &&& self.pulse1.wf()
        &&& self.pulse2.wf()
        &&& self.triangle.wf()
        &&& self.noise.wf()
        &&& self.dmc.wf()
        &&& self.frame_counter < 5 * STEP_LEN
    }

    pub open spec fn spec_new(sample_rate: u32) -> Apu {
        Apu {
            pulse1: Pulse::spec_new(1),
            pulse2: Pulse::spec_new(2),
            triangle: Triangle::spec_new(),
            noise: Noise::spec_new(),
            dmc: Dmc::spec_new(),
            frame_counter: 0,
            frame_mode: false,
            irq_inhibit: false,
            frame_irq: false,
            sample_rate,
            cycle: 0,
        }
    }

    /// Quarter-frame clock: envelopes and the triangle's linear counter.
    pub open spec fn spec_quarter(self) -> Apu {
        Apu {
            pulse1: self.pulse1.spec_clock_envelope(),
            pulse2: self.pulse2.spec_clock_envelope(),
            triangle: self.triangle.spec_clock_linear(),
            noise: self.noise.spec_clock_envelope(),
            ..self
        }
    }

    /// Half-frame clock: length counters and sweeps.
    pub open spec fn spec_half(self) -> Apu {
        Apu {
            pulse1: self.pulse1.spec_clock_length_sweep(),
            pulse2: self.pulse2.spec_clock_length_sweep(),
            triangle: self.triangle.spec_clock_length(),
            noise: self.noise.spec_clock_length(),
            ..self
        }
    }

    /// One CPU cycle of the APU.
    pub open spec fn spec_tick(self) -> Apu {
        let cycle = (self.cycle + 1) as u64;
        let fc1 = (self.frame_counter + 1) as u16;
        let step = fc1 / STEP_LEN;
        let steps: u16 = if self.frame_mode { 5 } else { 4 };
        let fc = if fc1 >= STEP_LEN * steps { 0u16 } else { fc1 };
        let a0 = Apu { cycle, frame_counter: fc, ..self };
        let boundary = fc % STEP_LEN == 0;
        let a1 = if boundary { a0.spec_quarter() } else { a0 };
        let is_half = step == 1 || (step == 3 && !self.frame_mode) || (step == 4 && self.frame_mode);
        let a2 = if is_half && boundary { a1.spec_half() } else { a1 };
        let a3 = if !self.frame_mode && !self.irq_inhibit && step == 3 {
            Apu { frame_irq: true, ..a2 }
        } else {
            a2
        };
        let a4 = if cycle % 2 == 0 {
            Apu {
                pulse1: a3.pulse1.spec_clock_timer(),
                pulse2: a3.pulse2.spec_clock_timer(),
                noise: a3.noise.spec_clock_timer(),
                ..a3
            }
        } else {
            a3
        };
        Apu {
            triangle: a4.triangle.spec_clock_timer(),
            dmc: a4.dmc.spec_clock_timer(),
            ..a4
        }
    }

    /// The value of the status register $4015 (all other addresses read 0).
    pub open spec fn spec_cpu_read(self, addr: u16) -> u8 {
        if addr == 0x4015 {
            ((if self.pulse1.length_counter > 0 { 0x01u8 } else { 0u8 })
                | (if self.pulse2.length_counter > 0 { 0x02u8 } else { 0u8 })
                | (if self.triangle.length_counter > 0 { 0x04u8 } else { 0u8 })
                | (if self.noise.length_counter > 0 { 0x08u8 } else { 0u8 })
                | (if self.dmc.bytes_remaining > 0 { 0x10u8 } else { 0u8 })
                | (if self.frame_irq { 0x40u8 } else { 0u8 })) as u8
        } else {
            0
        }
    }

    /// The effect of a CPU write to an APU register.
    pub open spec fn spec_cpu_write(self, addr: u16, val: u8) -> Apu {
        let lt = length_table();
        if addr == 0x4000 {
            Apu { pulse1: self.pulse1.spec_write_ctrl(val), ..self }
        } else if addr == 0x4001 {
            Apu { pulse1: self.pulse1.spec_write_sweep(val), ..self }
        } else if addr == 0x4002 {
            Apu { pulse1: self.pulse1.spec_write_timer_lo(val), ..self }
        } else if addr == 0x4003 {
            Apu { pulse1: self.pulse1.spec_write_timer_hi(val, lt), ..self }
        } else if addr == 0x4004 {
            Apu { pulse2: self.pulse2.spec_write_ctrl(val), ..self }
        } else if addr == 0x4005 {
            Apu { pulse2: self.pulse2.spec_write_sweep(val), ..self }
        } else if addr == 0x4006 {
            Apu { pulse2: self.pulse2.spec_write_timer_lo(val), ..self }
        } else if addr == 0x4007 {
            Apu { pulse2: self.pulse2.spec_write_timer_hi(val, lt), ..self }
        } else if addr == 0x4008 {
            Apu { triangle: self.triangle.spec_write_linear(val), ..self }
        } else if addr == 0x400A {
            Apu { triangle: self.triangle.spec_write_timer_lo(val), ..self }
        } else if addr == 0x400B {
            Apu { triangle: self.triangle.spec_write_timer_hi(val, lt), ..self }
        } else if addr == 0x400C {
            Apu { noise: self.noise.spec_write_ctrl(val), ..self }
        } else if addr == 0x400E {
            Apu { noise: self.noise.spec_write_period(val), ..self }
        } else if addr == 0x400F {
            Apu { noise: self.noise.spec_write_length(val, lt), ..self }
        } else if addr == 0x4010 {
            Apu { dmc: self.dmc.spec_write_flags(val), ..self }
        } else if addr == 0x4011 {
            Apu { dmc: self.dmc.spec_write_direct(val), ..self }
        } else if addr == 0x4012 {
            Apu { dmc: self.dmc.spec_write_addr(val), ..self }
        } else if addr == 0x4013 {
            Apu { dmc: self.dmc.spec_write_length(val), ..self }
        } else if addr == 0x4015 {
            Apu {
                pulse1: self.pulse1.spec_set_enabled(val & 0x01u8 != 0),
                pulse2: self.pulse2.spec_set_enabled(val & 0x02u8 != 0),
                triangle: self.triangle.spec_set_enabled(val & 0x04u8 != 0),
                noise: self.noise.spec_set_enabled(val & 0x08u8 != 0),
                dmc: self.dmc.spec_set_enabled(val & 0x10u8 != 0),
                frame_irq: false,
                ..self
            }
        } else if addr == 0x4017 {
            let mode = val & 0x80u8 != 0;
            let inhibit = val & 0x40u8 != 0;
            let a = Apu {
                frame_mode: mode,
                irq_inhibit: inhibit,
                frame_irq: if inhibit { false } else { self.frame_irq },
                frame_counter: 0,
                ..self
            };
            if mode { a.spec_quarter().spec_half() } else { a }
        } else {
            self
        }
    }

    /// Audio samples due at the host's rate by the end of APU cycle `cycle`:
    /// `cycle * sample_rate / CPU_CLOCK`, rounded down.
    pub open spec fn samples_through(self, cycle: int) -> int {
        (cycle * self.sample_rate) / (CPU_CLOCK as int)
    }

    /// Whether the cycle just completed is one at which a sample is taken:
    /// the count of samples due goes up during it. (At most one sample is
    /// taken per cycle.)
    pub open spec fn spec_sample_due(self) -> bool {
        self.cycle >= 1 && self.samples_through(self.cycle as int) != self.samples_through(self.cycle - 1)
    }

    pub open spec fn spec_levels(self) -> ChannelLevels {
        ChannelLevels {
            pulse1: self.pulse1.spec_output(),
            pulse2: self.pulse2.spec_output(),
            triangle: self.triangle.spec_output(),
            noise: self.noise.spec_output(),
            dmc: self.dmc.output_level,
        }
    }

    pub fn new(sample_rate: u32) -> (a: Self)
        ensures
            a == Apu::spec_new(sample_rate),
            a.wf(),
    {
        Apu {
            pulse1: Pulse::new(1),
            pulse2: Pulse::new(2),
            triangle: Triangle::new(),
            noise: Noise::new(),
            dmc: Dmc::new(),
            frame_counter: 0,
            frame_mode: false,
            irq_inhibit: false,
            frame_irq: false,
            sample_rate,
            cycle: 0,
        }
    }

    fn clock_quarter(&mut self)
        requires
            old(self).wf(),
        ensures
            *final(self) == old(self).spec_quarter(),
            final(self).wf(),
    {
        self.pulse1.clock_envelope();
        self.pulse2.clock_envelope();
        self.triangle.clock_linear();
        self.noise.clock_envelope();
    }

    fn clock_half(&mut self)
        requires
            old(self).wf(),
        ensures
            *final(self) == old(self).spec_half(),
            final(self).wf(),
    {
        self.pulse1.clock_length_sweep();
        self.pulse2.clock_length_sweep();
        self.triangle.clock_length();
        self.noise.clock_length();
    }

    /// Advance the APU by one CPU cycle.
    pub fn tick(&mut self)
        requires
            old(self).wf(),
            old(self).cycle < u64::MAX,
        ensures
            *final(self) == old(self).spec_tick(),
            final(self).wf(),
    {
        self.cycle += 1;
        self.frame_counter += 1;
        let step_len: u16 = STEP_LEN;
        let step = self.frame_counter / step_len;
        let steps: u16 = if self.frame_mode { 5 } else { 4 };
        if self.frame_counter >= step_len * steps {
            self.frame_counter = 0;
        }
        if self.frame_counter % step_len == 0 {
            self.clock_quarter();
        }
        let is_half = (step == 1) || (step == 3 && !self.frame_mode) || (step == 4 && self.frame_mode);
        if is_half && self.frame_counter % step_len == 0 {
            self.clock_half();
        }
        if !self.frame_mode && !self.irq_inhibit && step == 3 {
            self.frame_irq = true;
        }
        if self.cycle % 2 == 0 {
            self.pulse1.clock_timer();
            self.pulse2.clock_timer();
            self.noise.clock_timer();
        }
        self.triangle.clock_timer();
        self.dmc.clock_timer();
    }

    /// CPU read of an APU register; only $4015 (status) is readable.
    pub fn cpu_read(&self, addr: u16) -> (val: u8)
        ensures
            val == self.spec_cpu_read(addr),
    {
        if addr == 0x4015 {
            let p1: u8 = if self.pulse1.length_counter > 0 { 0x01 } else { 0 };
            let p2: u8 = if self.pulse2.length_counter > 0 { 0x02 } else { 0 };
            let t: u8 = if self.triangle.length_counter > 0 { 0x04 } else { 0 };
            let n: u8 = if self.noise.length_counter > 0 { 0x08 } else { 0 };
            let d: u8 = if self.dmc.bytes_remaining > 0 { 0x10 } else { 0 };
            let f: u8 = if self.frame_irq { 0x40 } else { 0 };
            let val = p1 | p2 | t | n | d | f;
            val
        } else {
            0
        }
    }

    /// CPU write to an APU register ($4000-$4013, $4015, $4017).
    pub fn cpu_write(&mut self, addr: u16, val: u8)
        requires
            old(self).wf(),
        ensures
            *final(self) == old(self).spec_cpu_write(addr, val),
            final(self).wf(),
            final(self).cycle == old(self).cycle,
    {
        let table = length_table_exec();
        if addr == 0x4000 {
            self.pulse1.write_ctrl(val);
        } else if addr == 0x4001 {
            self.pulse1.write_sweep(val);
        } else if addr == 0x4002 {
            self.pulse1.write_timer_lo(val);
        } else if addr == 0x4003 {
            self.pulse1.write_timer_hi(val, &table);
        } else if addr == 0x4004 {
            self.pulse2.write_ctrl(val);
        } else if addr == 0x4005 {
            self.pulse2.write_sweep(val);
        } else if addr == 0x4006 {
            self.pulse2.write_timer_lo(val);
        } else if addr == 0x4007 {
            self.pulse2.write_timer_hi(val, &table);
        } else if addr == 0x4008 {
            self.triangle.write_linear(val);
        } else if addr == 0x400A {
            self.triangle.write_timer_lo(val);
        } else if addr == 0x400B {
            self.triangle.write_timer_hi(val, &table);
        } else if addr == 0x400C {
            self.noise.write_ctrl(val);
        } else if addr == 0x400E {
            self.noise.write_period(val);
        } else if addr == 0x400F {
            self.noise.write_length(val, &table);
        } else if addr == 0x4010 {
            self.dmc.write_flags(val);
        } else if addr == 0x4011 {
            self.dmc.write_direct(val);
        } else if addr == 0x4012 {
            self.dmc.write_addr(val);
        } else if addr == 0x4013 {
            self.dmc.write_length(val);
        } else if addr == 0x4015 {
            self.pulse1.set_enabled(val & 0x01 != 0);
            self.pulse2.set_enabled(val & 0x02 != 0);
            self.triangle.set_enabled(val & 0x04 != 0);
            self.noise.set_enabled(val & 0x08 != 0);
            self.dmc.set_enabled(val & 0x10 != 0);
            self.frame_irq = false;
        } else if addr == 0x4017 {
            self.frame_mode = val & 0x80 != 0;
            self.irq_inhibit = val & 0x40 != 0;
            if self.irq_inhibit {
                self.frame_irq = false;
            }
            self.frame_counter = 0;
            if self.frame_mode {
                self.clock_quarter();
                self.clock_half();
            }
        }
    }

    /// Whether a sample is due at the cycle just completed.
    pub fn sample_due(&self) -> (due: bool)
        ensures
            due == self.spec_sample_due(),
    {
        if self.cycle == 0 {
            return false;
        }
        let rate = self.sample_rate as u128;
        let c = self.cycle as u128;
        proof {
            assert(c * rate <= (u64::MAX as int) * (u32::MAX as int) && (c - 1) * rate <= c * rate)
                by (nonlinear_arith)
                requires
                    1 <= c <= u64::MAX,
                    rate <= u32::MAX,
            ;
        }
        let now = c * rate / (CPU_CLOCK as u128);
        let before = (c - 1) * rate / (CPU_CLOCK as u128);
        now != before
    }

    /// The current output level of every channel.
    pub fn levels(&self) -> (l: ChannelLevels)
        requires
            self.wf(),
        ensures
            l == self.spec_levels(),
            l.pulse1 < 16 && l.pulse2 < 16 && l.triangle < 16 && l.noise < 16 && l.dmc <= 127,
    {
        ChannelLevels {
            pulse1: self.pulse1.output(),
            pulse2: self.pulse2.output(),
            triangle: self.triangle.output(),
            noise: self.noise.output(),
            dmc: self.dmc.output(),
        }
    }

    /// Status-read law: reading $4015 reports, bit by bit, whether the
    /// length counters of pulse 1 (bit 0), pulse 2 (bit 1), the triangle
    /// (bit 2) and the noise channel (bit 3) are running, whether the DMC
    /// has bytes left (bit 4) and the frame interrupt flag (bit 6); bits 5
    /// and 7 read 0. Every other APU address reads 0.
    pub proof fn lemma_status_read(self, addr: u16)
        ensures
            ({
                let v = self.spec_cpu_read(0x4015);
                &&& (v & 0x01u8 != 0) == (self.pulse1.length_counter > 0)
                &&& (v & 0x02u8 != 0) == (self.pulse2.length_counter > 0)
                &&& (v & 0x04u8 != 0) == (self.triangle.length_counter > 0)
                &&& (v & 0x08u8 != 0) == (self.noise.length_counter > 0)
                &&& (v & 0x10u8 != 0) == (self.dmc.bytes_remaining > 0)
                &&& (v & 0x40u8 != 0) == self.frame_irq
                &&& v & 0xA0u8 == 0
            }),
            addr != 0x4015 ==> self.spec_cpu_read(addr) == 0,
    {
        let p1 = if self.pulse1.length_counter > 0 { 0x01u8 } else { 0u8 };
        let p2 = if self.pulse2.length_counter > 0 { 0x02u8 } else { 0u8 };
        let t = if self.triangle.length_counter > 0 { 0x04u8 } else { 0u8 };
        let n = if self.noise.length_counter > 0 { 0x08u8 } else { 0u8 };
        let d = if self.dmc.bytes_remaining > 0 { 0x10u8 } else { 0u8 };
        let f = if self.frame_irq { 0x40u8 } else { 0u8 };
        assert(self.spec_cpu_read(0x4015) == (p1 | p2 | t | n | d | f));
        let v = p1 | p2 | t | n | d | f;
        assert({
            &&& (v & 0x01u8 != 0) == (p1 != 0)
            &&& (v & 0x02u8 != 0) == (p2 != 0)
            &&& (v & 0x04u8 != 0) == (t != 0)
            &&& (v & 0x08u8 != 0) == (n != 0)
            &&& (v & 0x10u8 != 0) == (d != 0)
            &&& (v & 0x40u8 != 0) == (f != 0)
            &&& v & 0xA0u8 == 0
        }) by (bit_vector)
            requires
                v == p1 | p2 | t | n | d | f,
                p1 == 0u8 || p1 == 0x01u8,
                p2 == 0u8 || p2 == 0x02u8,
                t == 0u8 || t == 0x04u8,
                n == 0u8 || n == 0x08u8,
                d == 0u8 || d == 0x10u8,
                f == 0u8 || f == 0x40u8,
        ;
    }

    /// Frame-sequencer law: each APU cycle advances the frame counter by
    /// one, wrapping after four steps of `STEP_LEN` cycles (five in 5-step
    /// mode). In 4-step mode, unless inhibited, the frame interrupt flag is
    /// raised on every cycle of the fourth step; otherwise ticking never
    /// raises it, and it never clears it.
    pub proof fn lemma_frame_sequencer(self)
        requires
            self.wf(),
            self.frame_counter < STEP_LEN * (if self.frame_mode { 5int } else { 4int }),
        ensures
            ({
                let a = self.spec_tick();
                let steps = if self.frame_mode { 5int } else { 4int };
                &&& a.frame_counter == (self.frame_counter + 1) % (STEP_LEN * steps)
                &&& a.frame_irq == (self.frame_irq || (!self.frame_mode && !self.irq_inhibit && 3 * STEP_LEN
                    <= self.frame_counter + 1 < 4 * STEP_LEN))
                &&& a.frame_mode == self.frame_mode && a.irq_inhibit == self.irq_inhibit
            }),
    {
        let fc1 = self.frame_counter + 1;
        let steps = if self.frame_mode { 5int } else { 4int };
        assert(fc1 / (STEP_LEN as int) == 3 <==> 3 * STEP_LEN <= fc1 < 4 * STEP_LEN) by (nonlinear_arith)
            requires
                0 < fc1,
        ;
        if fc1 < STEP_LEN * steps {
            vstd::arithmetic::div_mod::lemma_small_mod(fc1 as nat, (STEP_LEN * steps) as nat);
        } else {
            assert(fc1 == STEP_LEN * steps);
            vstd::arithmetic::div_mod::lemma_mod_self_0(STEP_LEN * steps);
        }
    }

    /// Sample timing: while the host rate is at most the CPU clock, the count
    /// of samples due never drops and rises by at most one per cycle.
    pub proof fn lemma_samples_step(self, c: int)
        requires
            c >= 1,
            self.sample_rate <= CPU_CLOCK,
        ensures
            self.samples_through(c - 1) <= self.samples_through(c) <= self.samples_through(c - 1) + 1,
    {
        let r = self.sample_rate as int;
        let k = CPU_CLOCK as int;
        let a = (c - 1) * r;
        assert(c * r == a + r && 0 <= a) by (nonlinear_arith)
            requires
                a == (c - 1) * r,
                c >= 1,
                r >= 0,
        ;
        vstd::arithmetic::div_mod::lemma_div_is_ordered(a, a + r, k);
        vstd::arithmetic::div_mod::lemma_div_is_ordered(a + r, k + a, k);
        vstd::arithmetic::div_mod::lemma_div_plus_one(a, k);
    }

    /// Status-register law: after a write of `val` to $4015, bits 0-4 of the
    /// status register can only be set where the same bit of `val` was set
    /// (a disabled channel reports a silent length counter), and the frame
    /// interrupt flag (bit 6) is clear.
    pub proof fn lemma_disable_silences(self, val: u8)
        requires
            self.wf(),
        ensures
            self.spec_cpu_write(0x4015, val).spec_cpu_read(0x4015) & !val & 0x1Fu8 == 0,
            self.spec_cpu_write(0x4015, val).spec_cpu_read(0x4015) & 0x40u8 == 0,
    {
        let a = self.spec_cpu_write(0x4015, val);
        let p1 = if a.pulse1.length_counter > 0 { 0x01u8 } else { 0u8 };
        let p2 = if a.pulse2.length_counter > 0 { 0x02u8 } else { 0u8 };
        let t = if a.triangle.length_counter > 0 { 0x04u8 } else { 0u8 };
        let n = if a.noise.length_counter > 0 { 0x08u8 } else { 0u8 };
        let d = if a.dmc.bytes_remaining > 0 { 0x10u8 } else { 0u8 };
        let f = 0u8;
        assert(p1 == 0x01u8 ==> val & 0x01u8 != 0);
        assert(p2 == 0x02u8 ==> val & 0x02u8 != 0);
        assert(t == 0x04u8 ==> val & 0x04u8 != 0);
        assert(n == 0x08u8 ==> val & 0x08u8 != 0);
        assert(d == 0x10u8 ==> val & 0x10u8 != 0);
        assert(a.spec_cpu_read(0x4015) == (p1 | p2 | t | n | d | f));
        assert(((p1 | p2 | t | n | d | f) & !val & 0x1Fu8 == 0) && ((p1 | p2 | t | n | d | f) & 0x40u8 == 0))
            by (bit_vector)
            requires
                p1 == 0u8 || p1 == 0x01u8,
                p2 == 0u8 || p2 == 0x02u8,
                t == 0u8 || t == 0x04u8,
                n == 0u8 || n == 0x08u8,
                d == 0u8 || d == 0x10u8,
                f == 0u8,
                p1 == 0x01u8 ==> val & 0x01u8 != 0,
                p2 == 0x02u8 ==> val & 0x02u8 != 0,
                t == 0x04u8 ==> val & 0x04u8 != 0,
                n == 0x08u8 ==> val & 0x08u8 != 0,
                d == 0x10u8 ==> val & 0x10u8 != 0;
    }
}

} // verus!
