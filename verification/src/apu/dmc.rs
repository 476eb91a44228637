//! Delta modulation channel: a 7-bit output level moved up or down by two.
use vstd::prelude::*;

verus! {

/// Timer periods selected by the low four bits of $4010.
pub open spec fn dmc_rate_table() -> Seq<u16> {
    seq![428u16, 380, 340, 320, 286, 254, 226, 214, 190, 160, 142, 128, 106, 84, 72, 54]
}

fn dmc_rate_table_exec() -> (t: [u16; 16])
    ensures
        t@ == dmc_rate_table(),
{
    let t: [u16; 16] = [428, 380, 340, 320, 286, 254, 226, 214, 190, 160, 142, 128, 106, 84, 72, 54];
    assert(t@ =~= dmc_rate_table());
    t
}

/// The DMC channel.
pub struct Dmc {
    pub enabled: bool,
    pub irq_enabled: bool,
    pub loop_flag: bool,
    pub timer_period: u16,
    pub timer_val: u16,
    pub output_level: u8,
    pub sample_addr: u16,
    pub sample_len: u16,
    pub bytes_remaining: u16,
    pub shift_reg: u8,
    pub bits_remaining: u8,
    pub silence: bool,
}

impl Dmc {
    /// The output level is a 7-bit value.
    pub open spec fn wf(self) -> bool {
        self.output_level <= 127
    }

    pub open spec fn spec_new() -> Dmc {
        Dmc {
            enabled: false,
            irq_enabled: false,
            loop_flag: false,
            timer_period: 0,
            timer_val: 0,
            output_level: 0,
            sample_addr: 0,
            sample_len: 0,
            bytes_remaining: 0,
            shift_reg: 0,
            bits_remaining: 0,
            silence: true,
        }
    }

    pub open spec fn spec_write_flags(self, val: u8) -> Dmc {
        Dmc {
            irq_enabled: val & 0x80u8 != 0,
            loop_flag: val & 0x40u8 != 0,
            timer_period: dmc_rate_table()[(val & 0x0Fu8) as int],
            ..self
        }
    }

    pub open spec fn spec_write_direct(self, val: u8) -> Dmc {
        Dmc { output_level: val & 0x7Fu8, ..self }
    }

    /// Sample address = $C000 + 64 * val.
    pub open spec fn spec_write_addr(self, val: u8) -> Dmc {
        Dmc { sample_addr: (0xC000 + 64 * val) as u16, ..self }
    }

    /// Sample length = 16 * val + 1 bytes.
    pub open spec fn spec_write_length(self, val: u8) -> Dmc {
        Dmc { sample_len: (16 * val + 1) as u16, ..self }
    }

    pub open spec fn spec_set_enabled(self, en: bool) -> Dmc {
        Dmc {
            enabled: en,
            bytes_remaining: if !en {
                0
            } else if self.bytes_remaining == 0 {
                self.sample_len
            } else {
                self.bytes_remaining
            },
            ..self
        }
    }

    pub open spec fn spec_clock_timer(self) -> Dmc {
        if self.timer_val == 0 {
            let level = if self.silence {
                self.output_level
            } else if self.shift_reg & 1u8 != 0 {
                if self.output_level <= 125 { (self.output_level + 2) as u8 } else { self.output_level }
            } else {
                if self.output_level >= 2 { (self.output_level - 2) as u8 } else { self.output_level }
            };
            let shift = if self.silence { self.shift_reg } else { self.shift_reg >> 1u8 };
            let (bits, silence) = if self.bits_remaining == 0 {
                (8u8, self.bytes_remaining == 0)
            } else {
                (self.bits_remaining, self.silence)
            };
            Dmc {
                timer_val: self.timer_period,
                output_level: level,
                shift_reg: shift,
                bits_remaining: (bits - 1) as u8,
                silence,
                ..self
            }
        } else {
            Dmc { timer_val: (self.timer_val - 1) as u16, ..self }
        }
    }

    /// Delta law: each time the timer expires while a sample is playing, the
    /// output level moves up by 2 when bit 0 of the sample shift register is
    /// set and down by 2 when it is clear, staying put where that would leave
    /// 0..=127; the next bit moves into bit 0. While silent the level holds,
    /// and it always stays within 7 bits.
    pub proof fn lemma_delta_step(self)
        requires
            self.wf(),
        ensures
            ({
                let l = self.output_level as int;
                let l2 = self.spec_clock_timer().output_level as int;
                &&& l2 <= 127
                &&& (self.timer_val != 0 || self.silence) ==> l2 == l
                &&& (self.timer_val == 0 && !self.silence && self.shift_reg & 1u8 != 0) ==> l2 == (if l + 2 <= 127 { l + 2 } else { l })
                &&& (self.timer_val == 0 && !self.silence && self.shift_reg & 1u8 == 0) ==> l2 == (if l >= 2 { l - 2 } else { l })
                &&& (self.timer_val == 0 && !self.silence) ==> self.spec_clock_timer().shift_reg == self.shift_reg / 2
            }),
    {
        let r = self.shift_reg;
        assert(r >> 1u8 == r / 2) by (bit_vector);
    }

    pub fn new() -> (d: Self)
        ensures
            d == Dmc::spec_new(),
            d.wf(),
    {
        Dmc {
            enabled: false,
            irq_enabled: false,
            loop_flag: false,
            timer_period: 0,
            timer_val: 0,
            output_level: 0,
            sample_addr: 0,
            sample_len: 0,
            bytes_remaining: 0,
            shift_reg: 0,
            bits_remaining: 0,
            silence: true,
        }
    }

    pub fn write_flags(&mut self, val: u8)
        requires
            old(self).wf(),
        ensures
            *final(self) == old(self).spec_write_flags(val),
            final(self).wf(),
    {
        proof {
            crate::bits::lemma_byte_fields();
            assert(val & 0x0Fu8 < 16);
        }
        self.irq_enabled = val & 0x80 != 0;
        self.loop_flag = val & 0x40 != 0;
        let table = dmc_rate_table_exec();
        self.timer_period = table[(val & 0x0F) as usize];
    }

    pub fn write_direct(&mut self, val: u8)
        requires
            old(self).wf(),
        ensures
            *final(self) == old(self).spec_write_direct(val),
            final(self).wf(),
    {
        proof {
            crate::bits::lemma_byte_fields();
            assert(val & 0x7Fu8 <= 127);
        }
        self.output_level = val & 0x7F;
    }

    pub fn write_addr(&mut self, val: u8)
        requires
            old(self).wf(),
        ensures
            *final(self) == old(self).spec_write_addr(val),
            final(self).wf(),
    {
        proof {
            let v = val as u16;
            crate::bits::lemma_word_fields();
            assert(0xC000u16 | (v << 6u16) == 0xC000 + 64 * v);
        }
        self.sample_addr = 0xC000 | ((val as u16) << 6);
    }

    pub fn write_length(&mut self, val: u8)
        requires
            old(self).wf(),
        ensures
            *final(self) == old(self).spec_write_length(val),
            final(self).wf(),
    {
        proof {
            let v = val as u16;
            crate::bits::lemma_word_fields();
            assert(v << 4u16 == 16 * v);
        }
        self.sample_len = ((val as u16) << 4) + 1;
    }

    pub fn set_enabled(&mut self, en: bool)
        requires
            old(self).wf(),
        ensures
            *final(self) == old(self).spec_set_enabled(en),
            final(self).wf(),
            !en ==> final(self).bytes_remaining == 0,
    {
        self.enabled = en;
        if !en {
            self.bytes_remaining = 0;
        } else if self.bytes_remaining == 0 {
            self.bytes_remaining = self.sample_len;
        }
    }

    pub fn clock_timer(&mut self)
        requires
            old(self).wf(),
        ensures
            *final(self) == old(self).spec_clock_timer(),
            final(self).wf(),
    {
        if self.timer_val == 0 {
            self.timer_val = self.timer_period;
            if !self.silence {
                if self.shift_reg & 1 != 0 {
                    if self.output_level <= 125 {
                        self.output_level += 2;
                    }
                } else {
                    if self.output_level >= 2 {
                        self.output_level -= 2;
                    }
                }
                self.shift_reg >>= 1;
            }
            if self.bits_remaining == 0 {
                self.bits_remaining = 8;
                self.silence = self.bytes_remaining == 0;
            }
            if self.bits_remaining > 0 {
                self.bits_remaining -= 1;
            }
        } else {
            self.timer_val -= 1;
        }
    }

    pub fn output(&self) -> (out: u8)
        requires
            self.wf(),
        ensures
            out == self.output_level,
            out <= 127,
    {
        self.output_level
    }
}

} // verus!
