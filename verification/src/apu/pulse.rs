//! Pulse (square wave) channel with envelope, sweep and length counter.
use vstd::prelude::*;

verus! {

/// The 4 x 8 duty-cycle sequences, flattened: entry `mode * 8 + step`.
pub open spec fn duty_table() -> Seq<u8> {
    seq![
        0u8, 1, 0, 0, 0, 0, 0, 0,
        0, 1, 1, 0, 0, 0, 0, 0,
        0, 1, 1, 1, 1, 0, 0, 0,
        1, 0, 0, 1, 1, 1, 1, 1,
    ]
}

fn duty_table_exec() -> (t: [u8; 32])
    ensures
        t@ == duty_table(),
{
    let t: [u8; 32] = [
        0, 1, 0, 0, 0, 0, 0, 0,
        0, 1, 1, 0, 0, 0, 0, 0,
        0, 1, 1, 1, 1, 0, 0, 0,
        1, 0, 0, 1, 1, 1, 1, 1,
    ];
    assert(t@ =~= duty_table());
    t
}

/// One of the two pulse channels.
pub struct Pulse {
    /// Channel number (1 or 2); channel 1 negates its sweep in ones' complement.
    pub channel: u8,
    pub enabled: bool,
    pub length_counter: u8,
    pub length_halt: bool,
    pub duty_mode: u8,
    pub duty_val: u8,
    pub timer_period: u16,
    pub timer_val: u16,
    pub env_constant: bool,
    pub env_loop: bool,
    pub env_start: bool,
    pub env_period: u8,
    pub env_val: u8,
    pub env_volume: u8,
    pub sweep_enabled: bool,
    pub sweep_negate: bool,
    pub sweep_reload: bool,
    pub sweep_period: u8,
    pub sweep_val: u8,
    pub sweep_shift: u8,
}

impl Pulse {
    /// The ranges that register writes keep every field in.
    pub open spec fn wf(self) -> bool {
        &&& self.duty_mode < 4
        &&& self.duty_val < 8
        &&& self.env_period < 16
        &&& self.env_val < 16
        &&& self.env_volume < 16
        &&& self.sweep_period < 8
        &&& self.sweep_val < 8
        &&& self.sweep_shift < 8
    }

    pub open spec fn spec_new(channel: u8) -> Pulse {
        Pulse {
            channel,
            enabled: false,
            length_counter: 0,
            length_halt: false,
            duty_mode: 0,
            duty_val: 0,
            timer_period: 0,
            timer_val: 0,
            env_constant: false,
            env_loop: false,
            env_start: false,
            env_period: 0,
            env_val: 0,
            env_volume: 0,
            sweep_enabled: false,
            sweep_negate: false,
            sweep_reload: false,
            sweep_period: 0,
            sweep_val: 0,
            sweep_shift: 0,
        }
    }

    /// $4000/$4004: duty, halt/loop, constant volume, envelope period.
    pub open spec fn spec_write_ctrl(self, val: u8) -> Pulse {
        Pulse {
            duty_mode: (val >> 6u8) & 0x03u8,
            length_halt: val & 0x20u8 != 0,
            env_loop: val & 0x20u8 != 0,
            env_constant: val & 0x10u8 != 0,
            env_period: val & 0x0Fu8,
            env_volume: val & 0x0Fu8,
            ..self
        }
    }

    /// $4001/$4005: sweep unit.
    pub open spec fn spec_write_sweep(self, val: u8) -> Pulse {
        Pulse {
            sweep_enabled: val & 0x80u8 != 0,
            sweep_period: (val >> 4u8) & 0x07u8,
            sweep_negate: val & 0x08u8 != 0,
            sweep_shift: val & 0x07u8,
            sweep_reload: true,
            ..self
        }
    }

    /// $4002/$4006: low byte of the timer period.
    pub open spec fn spec_write_timer_lo(self, val: u8) -> Pulse {
        Pulse { timer_period: (self.timer_period & 0xFF00u16) | (val as u16), ..self }
    }

    /// $4003/$4007: high timer bits and length counter load.
    pub open spec fn spec_write_timer_hi(self, val: u8, length_table: Seq<u8>) -> Pulse {
        Pulse {
            timer_period: (self.timer_period & 0x00FFu16) | (((val & 0x07u8) as u16) << 8u16),
            length_counter: if self.enabled {
                length_table[((val >> 3u8) & 0x1Fu8) as int]
            } else {
                self.length_counter
            },
            env_start: true,
            duty_val: 0,
            ..self
        }
    }

    pub open spec fn spec_set_enabled(self, en: bool) -> Pulse {
        Pulse { enabled: en, length_counter: if en { self.length_counter } else { 0 }, ..self }
    }

    pub open spec fn spec_clock_timer(self) -> Pulse {
        if self.timer_val == 0 {
            Pulse { timer_val: self.timer_period, duty_val: ((self.duty_val + 1) % 8) as u8, ..self }
        } else {
            Pulse { timer_val: (self.timer_val - 1) as u16, ..self }
        }
    }

    pub open spec fn spec_clock_envelope(self) -> Pulse {
        if self.env_start {
            Pulse { env_start: false, env_val: 15, env_volume: self.env_period, ..self }
        } else if self.env_val > 0 {
            Pulse { env_val: (self.env_val - 1) as u8, ..self }
        } else {
            Pulse {
                env_val: if self.env_loop { 15 } else { self.env_val },
                env_volume: self.env_period,
                ..self
            }
        }
    }

    /// The sweep's new timer period. The negated change subtracts
    /// `delta + channel - 1` computed in 16-bit wrapping arithmetic.
    pub open spec fn spec_sweep_target(self) -> u16 {
        let delta = self.timer_period >> (self.sweep_shift as u16);
        if self.sweep_negate {
            let amount = ((delta as int + self.channel as int - 1) % 0x10000) as u16;
            if self.timer_period >= amount { (self.timer_period - amount) as u16 } else { 0 }
        } else {
            if self.timer_period + delta > 0xFFFF { 0xFFFFu16 } else { (self.timer_period + delta) as u16 }
        }
    }

    pub open spec fn spec_apply_sweep(self) -> Pulse {
        Pulse { timer_period: self.spec_sweep_target(), ..self }
    }

    pub open spec fn spec_clock_length_sweep(self) -> Pulse {
        let p = if !self.length_halt && self.length_counter > 0 {
            Pulse { length_counter: (self.length_counter - 1) as u8, ..self }
        } else {
            self
        };
        if p.sweep_reload {
            let q = if p.sweep_enabled && p.sweep_val == 0 { p.spec_apply_sweep() } else { p };
            Pulse { sweep_val: q.sweep_period, sweep_reload: false, ..q }
        } else if p.sweep_val > 0 {
            Pulse { sweep_val: (p.sweep_val - 1) as u8, ..p }
        } else {
            let q = if p.sweep_enabled { p.spec_apply_sweep() } else { p };
            Pulse { sweep_val: q.sweep_period, ..q }
        }
    }

    /// The channel's current 4-bit output level.
    pub open spec fn spec_output(self) -> u8 {
        if !self.enabled || self.length_counter == 0
            || duty_table()[self.duty_mode * 8 + self.duty_val] == 0
            || self.timer_period < 8 || self.timer_period > 0x7FF {
            0
        } else if self.env_constant {
            self.env_period
        } else {
            self.env_val
        }
    }

    /// Whether the channel is sounding: enabled, length counter running, the
    /// duty sequence high at the current step, and a timer period in range.
    pub open spec fn audible(self) -> bool {
        &&& self.enabled
        &&& self.length_counter > 0
        &&& duty_table()[self.duty_mode * 8 + self.duty_val] != 0
        &&& 8 <= self.timer_period <= 0x7FF
    }

    /// Duty-cycle law: over the eight sequencer steps, duty mode 0 is high
    /// on step 1 only (12.5%), mode 1 on steps 1-2 (25%), mode 2 on steps
    /// 1-4 (50%), and mode 3 on every step but 1-2 (75%, the 25% wave
    /// inverted). When the timer expires the sequencer moves to the next
    /// step, wrapping after 7, and the timer reloads from the period; before
    /// that the timer counts down and the step holds.
    pub proof fn lemma_duty_cycle(self, m: int, s: int)
        requires
            0 <= m < 4,
            0 <= s < 8,
        ensures
            (duty_table()[m * 8 + s] != 0) == (if m == 0 {
                s == 1
            } else if m == 1 {
                1 <= s <= 2
            } else if m == 2 {
                1 <= s <= 4
            } else {
                !(1 <= s <= 2)
            }),
            (duty_table()[24 + s] != 0) == (duty_table()[8 + s] == 0),
            self.timer_val == 0 ==> self.spec_clock_timer().duty_val == (self.duty_val + 1) % 8
                && self.spec_clock_timer().timer_val == self.timer_period,
            self.timer_val > 0 ==> self.spec_clock_timer().duty_val == self.duty_val
                && self.spec_clock_timer().timer_val == self.timer_val - 1,
    {
        let t = duty_table();
        assert(t =~= Seq::new(32, |i: int| {
            let mm = i / 8;
            let ss = i % 8;
            if (mm == 0 && ss == 1) || (mm == 1 && 1 <= ss <= 2) || (mm == 2 && 1 <= ss <= 4) || (mm == 3 && !(1 <= ss <= 2)) {
                1u8
            } else {
                0u8
            }
        }));
        assert((m * 8 + s) / 8 == m && (m * 8 + s) % 8 == s) by (nonlinear_arith)
            requires
                0 <= s < 8,
        ;
    }

    /// Volume law: a silent step outputs 0. When sounding, after a write of
    /// `val` to $4000/$4004 the output is the low four bits of `val` if bit 4
    /// (constant volume) is set, and otherwise the envelope's decay counter.
    pub proof fn lemma_output_volume(self, val: u8)
        ensures
            !self.audible() ==> self.spec_output() == 0,
            self.spec_write_ctrl(val).audible() ==> self.spec_write_ctrl(val).spec_output()
                == if val & 0x10u8 != 0 { val & 0x0Fu8 } else { self.env_val },
    {
    }

    /// Envelope decay law: while a sounding channel plays with constant
    /// volume off, each envelope clock (after the start step, before the
    /// counter reaches 0) lowers its output by exactly one.
    pub proof fn lemma_envelope_decay(self)
        requires
            self.audible(),
            !self.env_constant,
            !self.env_start,
            self.env_val > 0,
        ensures
            self.spec_clock_envelope().audible(),
            self.spec_clock_envelope().spec_output() == self.spec_output() - 1,
    {
    }

    /// Sweep law: with `delta` the timer period shifted right by the sweep
    /// shift, an upward sweep adds `delta` to the period (capped at $FFFF);
    /// a negated sweep subtracts `delta` on channel 1 and `delta + 1` on
    /// channel 2, stopping at 0.
    pub proof fn lemma_sweep_target(self)
        requires
            self.channel == 1 || self.channel == 2,
            (self.timer_period >> (self.sweep_shift as u16)) + self.channel - 1 <= 0xFFFF,
        ensures
            ({
                let p = self.timer_period as int;
                let delta = (self.timer_period >> (self.sweep_shift as u16)) as int;
                let amount = if self.channel == 1 { delta } else { delta + 1 };
                let t = self.spec_sweep_target() as int;
                &&& !self.sweep_negate ==> t == (if p + delta > 0xFFFF { 0xFFFF } else { p + delta })
                &&& self.sweep_negate ==> t == (if p >= amount { p - amount } else { 0 })
            }),
    {
    }

    pub fn new(channel: u8) -> (p: Self)
        ensures
            p == Pulse::spec_new(channel),
            p.wf(),
    {
        Pulse {
            channel,
            enabled: false,
            length_counter: 0,
            length_halt: false,
            duty_mode: 0,
            duty_val: 0,
            timer_period: 0,
            timer_val: 0,
            env_constant: false,
            env_loop: false,
            env_start: false,
            env_period: 0,
            env_val: 0,
            env_volume: 0,
            sweep_enabled: false,
            sweep_negate: false,
            sweep_reload: false,
            sweep_period: 0,
            sweep_val: 0,
            sweep_shift: 0,
        }
    }

    pub fn write_ctrl(&mut self, val: u8)
        requires
            old(self).wf(),
        ensures
            *final(self) == old(self).spec_write_ctrl(val),
            final(self).wf(),
    {
        proof {
            crate::bits::lemma_byte_fields();
            assert((val >> 6u8) & 0x03u8 < 4);
            assert(val & 0x0Fu8 < 16);
        }
        self.duty_mode = (val >> 6) & 0x03;
        self.length_halt = val & 0x20 != 0;
        self.env_loop = val & 0x20 != 0;
        self.env_constant = val & 0x10 != 0;
        self.env_period = val & 0x0F;
        self.env_volume = val & 0x0F;
    }

    pub fn write_sweep(&mut self, val: u8)
        requires
            old(self).wf(),
        ensures
            *final(self) == old(self).spec_write_sweep(val),
            final(self).wf(),
    {
        proof {
            crate::bits::lemma_byte_fields();
            assert((val >> 4u8) & 0x07u8 < 8);
            assert(val & 0x07u8 < 8);
        }
        self.sweep_enabled = val & 0x80 != 0;
        self.sweep_period = (val >> 4) & 0x07;
        self.sweep_negate = val & 0x08 != 0;
        self.sweep_shift = val & 0x07;
        self.sweep_reload = true;
    }

    pub fn write_timer_lo(&mut self, val: u8)
        requires
            old(self).wf(),
        ensures
            *final(self) == old(self).spec_write_timer_lo(val),
            final(self).wf(),
    {
        self.timer_period = (self.timer_period & 0xFF00) | val as u16;
    }

    pub fn write_timer_hi(&mut self, val: u8, length_table: &[u8; 32])
        requires
            old(self).wf(),
        ensures
            *final(self) == old(self).spec_write_timer_hi(val, length_table@),
            final(self).wf(),
    {
        self.timer_period = (self.timer_period & 0x00FF) | (((val & 0x07) as u16) << 8);
        if self.enabled {
            proof {
                crate::bits::lemma_byte_fields();
                assert((val >> 3u8) & 0x1Fu8 < 32);
            }
            self.length_counter = length_table[((val >> 3) & 0x1F) as usize];
        }
        self.env_start = true;
        self.duty_val = 0;
    }

    pub fn set_enabled(&mut self, en: bool)
        requires
            old(self).wf(),
        ensures
            *final(self) == old(self).spec_set_enabled(en),
            final(self).wf(),
            !en ==> final(self).length_counter == 0,
    {
        self.enabled = en;
        if !en {
            self.length_counter = 0;
        }
    }

    pub fn clock_timer(&mut self)
        requires
            old(self).wf(),
        ensures
            *final(self) == old(self).spec_clock_timer(),
            final(self).wf(),
    {
        if self.timer_val == 0 {
            self.timer_val = self.timer_period;
            self.duty_val = (self.duty_val + 1) % 8;
        } else {
            self.timer_val -= 1;
        }
    }

    pub fn clock_envelope(&mut self)
        requires
            old(self).wf(),
        ensures
            *final(self) == old(self).spec_clock_envelope(),
            final(self).wf(),
    {
        if self.env_start {
            self.env_start = false;
            self.env_val = 15;
            self.env_volume = self.env_period;
        } else if self.env_val > 0 {
            self.env_val -= 1;
        } else {
            if self.env_loop {
                self.env_val = 15;
            }
            self.env_volume = self.env_period;
        }
    }

    pub fn clock_length_sweep(&mut self)
        requires
            old(self).wf(),
        ensures
            *final(self) == old(self).spec_clock_length_sweep(),
            final(self).wf(),
            final(self).length_counter <= old(self).length_counter,
    {
        if !self.length_halt && self.length_counter > 0 {
            self.length_counter -= 1;
        }
        if self.sweep_reload {
            if self.sweep_enabled && self.sweep_val == 0 {
                self.apply_sweep();
            }
            self.sweep_val = self.sweep_period;
            self.sweep_reload = false;
        } else if self.sweep_val > 0 {
            self.sweep_val -= 1;
        } else {
            if self.sweep_enabled {
                self.apply_sweep();
            }
            self.sweep_val = self.sweep_period;
        }
    }

    fn apply_sweep(&mut self)
        requires
            old(self).wf(),
        ensures
            *final(self) == old(self).spec_apply_sweep(),
            final(self).wf(),
    {
        let delta = self.timer_period >> self.sweep_shift;
        if self.sweep_negate {
            let amount = delta.wrapping_add(self.channel as u16).wrapping_sub(1);
            proof {
                let d = delta as int;
                let c = self.channel as int;
                assert(amount == ((d + c - 1) % 0x10000) as u16) by (nonlinear_arith)
                    requires
                        0 <= d < 0x10000,
                        0 <= c < 0x100,
                        amount as int == (if (d + c) % 0x10000 - 1 < 0 { (d + c) % 0x10000 - 1 + 0x10000 } else { (d + c) % 0x10000 - 1 });
            }
            self.timer_period = self.timer_period.saturating_sub(amount);
        } else {
            self.timer_period = self.timer_period.saturating_add(delta);
        }
    }

    pub fn output(&self) -> (out: u8)
        requires
            self.wf(),
        ensures
            out == self.spec_output(),
            out < 16,
    {
        let table = duty_table_exec();
        let idx = (self.duty_mode as usize) * 8 + self.duty_val as usize;
        if !self.enabled || self.length_counter == 0 || table[idx] == 0 || self.timer_period < 8
            || self.timer_period > 0x7FF {
            return 0;
        }
        if self.env_constant {
            self.env_period
        } else {
            self.env_val
        }
    }
}

} // verus!
