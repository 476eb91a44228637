//! Triangle channel: a 32-step sequencer gated by linear and length counters.
use vstd::prelude::*;

verus! {

/// The 32-step triangle waveform.
pub open spec fn triangle_table() -> Seq<u8> {
    seq![
        15u8, 14, 13, 12, 11, 10, 9, 8, 7, 6, 5, 4, 3, 2, 1, 0,
        0, 1, 2, 3, 4, 5, 6, 7, 8, 9, 10, 11, 12, 13, 14, 15,
    ]
}

fn triangle_table_exec() -> (t: [u8; 32])
    ensures
        t@ == triangle_table(),
{
    let t: [u8; 32] = [
        15, 14, 13, 12, 11, 10, 9, 8, 7, 6, 5, 4, 3, 2, 1, 0,
        0, 1, 2, 3, 4, 5, 6, 7, 8, 9, 10, 11, 12, 13, 14, 15,
    ];
    assert(t@ =~= triangle_table());
    t
}

/// The triangle channel.
pub struct Triangle {
    pub enabled: bool,
    pub length_counter: u8,
    pub length_halt: bool,
    pub control: bool,
    pub linear_counter: u8,
    pub linear_period: u8,
    pub linear_reload: bool,
    pub timer_period: u16,
    pub timer_val: u16,
    pub duty_val: u8,
}

impl Triangle {
    /// The sequencer position stays inside the 32-step table.
    pub open spec fn wf(self) -> bool {
        self.duty_val < 32
    }

    pub open spec fn spec_new() -> Triangle {
        Triangle {
            enabled: false,
            length_counter: 0,
            length_halt: false,
            control: false,
            linear_counter: 0,
            linear_period: 0,
            linear_reload: false,
            timer_period: 0,
            timer_val: 0,
            duty_val: 0,
        }
    }

    /// $4008: control flag and linear counter reload value.
    pub open spec fn spec_write_linear(self, val: u8) -> Triangle {
        Triangle {
            control: val & 0x80u8 != 0,
            length_halt: val & 0x80u8 != 0,
            linear_period: val & 0x7Fu8,
            ..self
        }
    }

    pub open spec fn spec_write_timer_lo(self, val: u8) -> Triangle {
        Triangle { timer_period: (self.timer_period & 0xFF00u16) | (val as u16), ..self }
    }

    pub open spec fn spec_write_timer_hi(self, val: u8, length_table: Seq<u8>) -> Triangle {
        Triangle {
            timer_period: (self.timer_period & 0x00FFu16) | (((val & 0x07u8) as u16) << 8u16),
            length_counter: if self.enabled {
                length_table[((val >> 3u8) & 0x1Fu8) as int]
            } else {
                self.length_counter
            },
            linear_reload: true,
            ..self
        }
    }

    pub open spec fn spec_set_enabled(self, en: bool) -> Triangle {
        Triangle { enabled: en, length_counter: if en { self.length_counter } else { 0 }, ..self }
    }

    /// The sequencer advances only while both counters are non-zero.
    pub open spec fn spec_clock_timer(self) -> Triangle {
        if self.timer_val == 0 {
            Triangle {
                timer_val: self.timer_period,
                duty_val: if self.length_counter > 0 && self.linear_counter > 0 {
                    ((self.duty_val + 1) % 32) as u8
                } else {
                    self.duty_val
                },
                ..self
            }
        } else {
            Triangle { timer_val: (self.timer_val - 1) as u16, ..self }
        }
    }

    pub open spec fn spec_clock_linear(self) -> Triangle {
        let counter = if self.linear_reload {
            self.linear_period
        } else if self.linear_counter > 0 {
            (self.linear_counter - 1) as u8
        } else {
            self.linear_counter
        };
        Triangle {
            linear_counter: counter,
            linear_reload: if !self.control { false } else { self.linear_reload },
            ..self
        }
    }

    pub open spec fn spec_clock_length(self) -> Triangle {
        if !self.length_halt && self.length_counter > 0 {
            Triangle { length_counter: (self.length_counter - 1) as u8, ..self }
        } else {
            self
        }
    }

    pub open spec fn spec_output(self) -> u8 {
        if !self.enabled || self.length_counter == 0 || self.linear_counter == 0 {
            0
        } else {
            triangle_table()[self.duty_val as int]
        }
    }

    /// Waveform law: a sounding triangle channel (enabled, both counters
    /// running) outputs the descending ramp 15..0 over steps 0-15 and the
    /// ascending ramp 0..15 over steps 16-31; otherwise it outputs 0. When
    /// its timer expires the step advances by one (wrapping after 31) while
    /// both counters run and holds otherwise; the timer reloads from the
    /// period, and before that it counts down by one.
    pub proof fn lemma_waveform(self)
        requires
            self.wf(),
        ensures
            !(self.enabled && self.length_counter > 0 && self.linear_counter > 0) ==> self.spec_output() == 0,
            (self.enabled && self.length_counter > 0 && self.linear_counter > 0) ==> self.spec_output() == (
            if self.duty_val < 16 {
                15 - self.duty_val
            } else {
                self.duty_val - 16
            }),
            self.timer_val == 0 ==> self.spec_clock_timer().timer_val == self.timer_period,
            (self.timer_val == 0 && self.length_counter > 0 && self.linear_counter > 0) ==> self.spec_clock_timer().duty_val
                == (self.duty_val + 1) % 32,
            (self.timer_val == 0 && (self.length_counter == 0 || self.linear_counter == 0)) ==> self.spec_clock_timer().duty_val
                == self.duty_val,
            self.timer_val > 0 ==> self.spec_clock_timer().timer_val == self.timer_val - 1
                && self.spec_clock_timer().duty_val == self.duty_val,
    {
        let t = triangle_table();
        assert(t =~= Seq::new(32, |i: int| (if i < 16 { 15 - i } else { i - 16 }) as u8));
    }

    pub fn new() -> (t: Self)
        ensures
            t == Triangle::spec_new(),
            t.wf(),
    {
        Triangle {
            enabled: false,
            length_counter: 0,
            length_halt: false,
            control: false,
            linear_counter: 0,
            linear_period: 0,
            linear_reload: false,
            timer_period: 0,
            timer_val: 0,
            duty_val: 0,
        }
    }

    pub fn write_linear(&mut self, val: u8)
        requires
            old(self).wf(),
        ensures
            *final(self) == old(self).spec_write_linear(val),
            final(self).wf(),
    {
        self.control = val & 0x80 != 0;
        self.length_halt = val & 0x80 != 0;
        self.linear_period = val & 0x7F;
    }

    pub fn write_timer_lo(&mut self, val: u8)
        requires
            old(self).wf(),
        ensures
            *final(self) == old(self).spec_write_timer_lo(val),
            final(self).wf(),
    {
        self.timer_period = (self.timer_period & 0xFF00) | val as u16;
    }

    pub fn write_timer_hi(&mut self, val: u8, length_table: &[u8; 32])
        requires
            old(self).wf(),
        ensures
            *final(self) == old(self).spec_write_timer_hi(val, length_table@),
            final(self).wf(),
    {
        self.timer_period = (self.timer_period & 0x00FF) | (((val & 0x07) as u16) << 8);
        if self.enabled {
            proof {
                crate::bits::lemma_byte_fields();
                assert((val >> 3u8) & 0x1Fu8 < 32);
            }
            self.length_counter = length_table[((val >> 3) & 0x1F) as usize];
        }
        self.linear_reload = true;
    }

    pub fn set_enabled(&mut self, en: bool)
        requires
            old(self).wf(),
        ensures
            *final(self) == old(self).spec_set_enabled(en),
            final(self).wf(),
            !en ==> final(self).length_counter == 0,
    {
        self.enabled = en;
        if !en {
            self.length_counter = 0;
        }
    }

    pub fn clock_timer(&mut self)
        requires
            old(self).wf(),
        ensures
            *final(self) == old(self).spec_clock_timer(),
            final(self).wf(),
    {
        if self.timer_val == 0 {
            self.timer_val = self.timer_period;
            if self.length_counter > 0 && self.linear_counter > 0 {
                self.duty_val = (self.duty_val + 1) % 32;
            }
        } else {
            self.timer_val -= 1;
        }
    }

    pub fn clock_linear(&mut self)
        requires
            old(self).wf(),
        ensures
            *final(self) == old(self).spec_clock_linear(),
            final(self).wf(),
    {
        if self.linear_reload {
            self.linear_counter = self.linear_period;
        } else if self.linear_counter > 0 {
            self.linear_counter -= 1;
        }
        if !self.control {
            self.linear_reload = false;
        }
    }

    pub fn clock_length(&mut self)
        requires
            old(self).wf(),
        ensures
            *final(self) == old(self).spec_clock_length(),
            final(self).wf(),
            final(self).length_counter <= old(self).length_counter,
    {
        if !self.length_halt && self.length_counter > 0 {
            self.length_counter -= 1;
        }
    }

    pub fn output(&self) -> (out: u8)
        requires
            self.wf(),
        ensures
            out == self.spec_output(),
            out < 16,
    {
        if !self.enabled || self.length_counter == 0 || self.linear_counter == 0 {
            return 0;
        }
        let table = triangle_table_exec();
        table[self.duty_val as usize]
    }
}

} // verus!
