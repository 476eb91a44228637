//! Noise channel: a 15-bit linear-feedback shift register with envelope.
use vstd::prelude::*;

verus! {

/// Timer periods selected by the low four bits of $400E.
pub open spec fn noise_period_table() -> Seq<u16> {
    seq![4u16, 8, 16, 32, 64, 96, 128, 160, 202, 254, 380, 508, 762, 1016, 2034, 4068]
}

fn noise_period_table_exec() -> (t: [u16; 16])
    ensures
        t@ == noise_period_table(),
{
    let t: [u16; 16] = [4, 8, 16, 32, 64, 96, 128, 160, 202, 254, 380, 508, 762, 1016, 2034, 4068];
    assert(t@ =~= noise_period_table());
    t
}

/// The noise channel.
pub struct Noise {
    pub enabled: bool,
    pub length_counter: u8,
    pub length_halt: bool,
    /// Short mode: feedback from bit 6 instead of bit 1.
    pub mode: bool,
    pub shift: u16,
    pub timer_period: u16,
    pub timer_val: u16,
    pub env_constant: bool,
    pub env_loop: bool,
    pub env_start: bool,
    pub env_period: u8,
    pub env_val: u8,
    pub env_volume: u8,
}

impl Noise {
    pub open spec fn wf(self) -> bool {
        &&& self.env_period < 16
        &&& self.env_val < 16
        &&& self.env_volume < 16
    }

    pub open spec fn spec_new() -> Noise {
        Noise {
            enabled: false,
            length_counter: 0,
            length_halt: false,
            mode: false,
            shift: 1,
            timer_period: 0,
            timer_val: 0,
            env_constant: false,
            env_loop: false,
            env_start: false,
            env_period: 0,
            env_val: 0,
            env_volume: 0,
        }
    }

    pub open spec fn spec_write_ctrl(self, val: u8) -> Noise {
        Noise {
            length_halt: val & 0x20u8 != 0,
            env_loop: val & 0x20u8 != 0,
            env_constant: val & 0x10u8 != 0,
            env_period: val & 0x0Fu8,
            env_volume: val & 0x0Fu8,
            ..self
        }
    }

    pub open spec fn spec_write_period(self, val: u8) -> Noise {
        Noise {
            mode: val & 0x80u8 != 0,
            timer_period: noise_period_table()[(val & 0x0Fu8) as int],
            ..self
        }
    }

    pub open spec fn spec_write_length(self, val: u8, length_table: Seq<u8>) -> Noise {
        Noise {
            length_counter: if self.enabled {
                length_table[((val >> 3u8) & 0x1Fu8) as int]
            } else {
                self.length_counter
            },
            env_start: true,
            ..self
        }
    }

    pub open spec fn spec_set_enabled(self, en: bool) -> Noise {
        Noise { enabled: en, length_counter: if en { self.length_counter } else { 0 }, ..self }
    }

    /// The feedback bit: bit 0 XOR bit 6 (short mode) or bit 1.
    pub open spec fn spec_feedback(self) -> u16 {
        if self.mode {
            (self.shift & 1u16) ^ ((self.shift >> 6u16) & 1u16)
        } else {
            (self.shift & 1u16) ^ ((self.shift >> 1u16) & 1u16)
        }
    }

    pub open spec fn spec_clock_timer(self) -> Noise {
        if self.timer_val == 0 {
            Noise {
                timer_val: self.timer_period,
                shift: (self.shift >> 1u16) | (self.spec_feedback() << 14u16),
                ..self
            }
        } else {
            Noise { timer_val: (self.timer_val - 1) as u16, ..self }
        }
    }

    /// Shift-register law: a register that is not all zeros never becomes
    /// all zeros (so the channel never falls silent for that reason), and it
    /// stays within 15 bits.
    pub proof fn lemma_shift_never_zero(self)
        requires
            self.shift != 0,
            self.shift < 0x8000,
        ensures
            self.spec_clock_timer().shift != 0,
            self.spec_clock_timer().shift < 0x8000,
    {
        let s = self.shift;
        let m = self.mode;
        let f = self.spec_feedback();
        assert(((s >> 1u16) | (f << 14u16)) != 0 && ((s >> 1u16) | (f << 14u16)) < 0x8000) by (bit_vector)
            requires
                s != 0,
                s < 0x8000,
                f == if m { (s & 1u16) ^ ((s >> 6u16) & 1u16) } else { (s & 1u16) ^ ((s >> 1u16) & 1u16) },
        ;
    }

    pub open spec fn spec_clock_envelope(self) -> Noise {
        if self.env_start {
            Noise { env_start: false, env_val: 15, env_volume: self.env_period, ..self }
        } else if self.env_val > 0 {
            Noise { env_val: (self.env_val - 1) as u8, ..self }
        } else {
            Noise {
                env_val: if self.env_loop { 15 } else { self.env_val },
                env_volume: self.env_period,
                ..self
            }
        }
    }

    pub open spec fn spec_clock_length(self) -> Noise {
        if !self.length_halt && self.length_counter > 0 {
            Noise { length_counter: (self.length_counter - 1) as u8, ..self }
        } else {
            self
        }
    }

    pub open spec fn spec_output(self) -> u8 {
        if !self.enabled || self.length_counter == 0 || self.shift & 1u16 != 0 {
            0
        } else if self.env_constant {
            self.env_period
        } else {
            self.env_val
        }
    }

    /// Shift-register step law: when the timer expires, the 15-bit register
    /// shifts right by one, and the bit that enters at bit 14 is bit 0
    /// XOR bit 6 in short mode, bit 0 XOR bit 1 otherwise. Before the timer
    /// expires the register holds.
    pub proof fn lemma_lfsr_step(self)
        requires
            self.shift < 0x8000,
        ensures
            ({
                let s = self.shift;
                let s2 = self.spec_clock_timer().shift;
                let tap: u16 = if self.mode { 6 } else { 1 };
                &&& self.timer_val == 0 ==> s2 & 0x3FFFu16 == s >> 1u16
                &&& self.timer_val == 0 ==> (s2 >> 14u16) == (s & 1u16) ^ ((s >> tap) & 1u16)
                &&& self.timer_val != 0 ==> s2 == s
            }),
    {
        let s = self.shift;
        let f = self.spec_feedback();
        let m = self.mode;
        assert((((s >> 1u16) | (f << 14u16)) & 0x3FFFu16 == s >> 1u16)
            && (((s >> 1u16) | (f << 14u16)) >> 14u16 == f)) by (bit_vector)
            requires
                s < 0x8000,
                f == if m { (s & 1u16) ^ ((s >> 6u16) & 1u16) } else { (s & 1u16) ^ ((s >> 1u16) & 1u16) },
        ;
    }

    /// Output law: the channel is silent while disabled, while its length
    /// counter is 0 or while bit 0 of the shift register is set; otherwise
    /// it outputs the constant volume (low four bits of $400C) or, with
    /// constant volume off, the envelope's decay counter.
    pub proof fn lemma_output(self, val: u8)
        ensures
            (!self.enabled || self.length_counter == 0 || self.shift & 1u16 == 1) ==> self.spec_output() == 0,
            ({
                let n = self.spec_write_ctrl(val);
                (n.enabled && n.length_counter > 0 && n.shift & 1u16 == 0) ==> n.spec_output() == (
                if val & 0x10u8 != 0 {
                    val & 0x0Fu8
                } else {
                    self.env_val
                })
            }),
    {
    }

    pub fn new() -> (n: Self)
        ensures
            n == Noise::spec_new(),
            n.wf(),
    {
        Noise {
            enabled: false,
            length_counter: 0,
            length_halt: false,
            mode: false,
            shift: 1,
            timer_period: 0,
            timer_val: 0,
            env_constant: false,
            env_loop: false,
            env_start: false,
            env_period: 0,
            env_val: 0,
            env_volume: 0,
        }
    }

    pub fn write_ctrl(&mut self, val: u8)
        requires
            old(self).wf(),
        ensures
            *final(self) == old(self).spec_write_ctrl(val),
            final(self).wf(),
    {
        proof {
            crate::bits::lemma_byte_fields();
            assert(val & 0x0Fu8 < 16);
        }
        self.length_halt = val & 0x20 != 0;
        self.env_loop = val & 0x20 != 0;
        self.env_constant = val & 0x10 != 0;
        self.env_period = val & 0x0F;
        self.env_volume = val & 0x0F;
    }

    pub fn write_period(&mut self, val: u8)
        requires
            old(self).wf(),
        ensures
            *final(self) == old(self).spec_write_period(val),
            final(self).wf(),
    {
        proof {
            crate::bits::lemma_byte_fields();
            assert(val & 0x0Fu8 < 16);
        }
        self.mode = val & 0x80 != 0;
        let table = noise_period_table_exec();
        self.timer_period = table[(val & 0x0F) as usize];
    }

    pub fn write_length(&mut self, val: u8, length_table: &[u8; 32])
        requires
            old(self).wf(),
        ensures
            *final(self) == old(self).spec_write_length(val, length_table@),
            final(self).wf(),
    {
        if self.enabled {
            proof {
                crate::bits::lemma_byte_fields();
                assert((val >> 3u8) & 0x1Fu8 < 32);
            }
            self.length_counter = length_table[((val >> 3) & 0x1F) as usize];
        }
        self.env_start = true;
    }

    pub fn set_enabled(&mut self, en: bool)
        requires
            old(self).wf(),
        ensures
            *final(self) == old(self).spec_set_enabled(en),
            final(self).wf(),
            !en ==> final(self).length_counter == 0,
    {
        self.enabled = en;
        if !en {
            self.length_counter = 0;
        }
    }

    pub fn clock_timer(&mut self)
        requires
            old(self).wf(),
        ensures
            *final(self) == old(self).spec_clock_timer(),
            final(self).wf(),
    {
        if self.timer_val == 0 {
            self.timer_val = self.timer_period;
            let s = self.shift;
            let feedback = if self.mode {
                (s & 1) ^ ((s >> 6) & 1)
            } else {
                (s & 1) ^ ((s >> 1) & 1)
            };
            self.shift = (s >> 1) | (feedback << 14);
        } else {
            self.timer_val -= 1;
        }
    }

    pub fn clock_envelope(&mut self)
        requires
            old(self).wf(),
        ensures
            *final(self) == old(self).spec_clock_envelope(),
            final(self).wf(),
    {
        if self.env_start {
            self.env_start = false;
            self.env_val = 15;
            self.env_volume = self.env_period;
        } else if self.env_val > 0 {
            self.env_val -= 1;
        } else {
            if self.env_loop {
                self.env_val = 15;
            }
            self.env_volume = self.env_period;
        }
    }

    pub fn clock_length(&mut self)
        requires
            old(self).wf(),
        ensures
            *final(self) == old(self).spec_clock_length(),
            final(self).wf(),
            final(self).length_counter <= old(self).length_counter,
    {
        if !self.length_halt && self.length_counter > 0 {
            self.length_counter -= 1;
        }
    }

    pub fn output(&self) -> (out: u8)
        requires
            self.wf(),
        ensures
            out == self.spec_output(),
            out < 16,
    {
        if !self.enabled || self.length_counter == 0 || self.shift & 1 != 0 {
            return 0;
        }
        if self.env_constant {
            self.env_period
        } else {
            self.env_val
        }
    }
}

} // verus!
