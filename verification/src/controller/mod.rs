//! Standard NES controller: an 8-bit parallel-in, serial-out shift register
//! that is latched on the falling edge of the strobe line.
pub mod buttons;

use vstd::prelude::*;

verus! {

/// The state of one NES controller port.
pub struct Controller {
    /// Buttons currently held, one bit each (see `buttons`).
    pub buttons: u8,
    /// Whether the strobe line is high (the register follows the buttons).
    pub strobe: bool,
    /// The serial shift register.
    pub shift: u8,
}

/// Bit `i` (0 = least significant) of a byte, as 0 or 1.
pub open spec fn bit_of(b: u8, i: nat) -> u8 {
    ((b >> (i as u8)) & 1u8) as u8
}

impl Controller {
    /// Whether the strobe line is currently high.
    pub open spec fn strobe_high(self) -> bool {
        self.strobe
    }

    /// The serial shift register.
    pub open spec fn shift_reg(self) -> u8 {
        self.shift
    }

    /// A controller with no button held, strobe low, and a register of all ones.
    pub open spec fn initial() -> Controller {
        Controller { buttons: 0, strobe: false, shift: 0xFF }
    }

    /// State after the CPU writes `val` to the strobe register: on a falling edge
    /// (high to low) the held buttons are latched into the shift register.
    pub open spec fn after_write(self, val: u8) -> Controller {
        let new_strobe = val & 1u8 == 1u8;
        Controller {
            buttons: self.buttons,
            strobe: new_strobe,
            shift: if self.strobe && !new_strobe { self.buttons } else { self.shift },
        }
    }

    /// The bit a CPU read returns: the A button while the strobe is high,
    /// otherwise the low bit of the shift register.
    pub open spec fn read_value(self) -> u8 {
        if self.strobe {
            self.buttons & 1u8
        } else {
            self.shift & 1u8
        }
    }

    /// State after a CPU read: with the strobe low the register shifts right,
    /// filling with a one from the top.
    pub open spec fn after_read(self) -> Controller {
        if self.strobe {
            self
        } else {
            Controller { shift: (self.shift >> 1u8) | 0x80u8, ..self }
        }
    }

    /// A controller with no button held.
    pub fn new() -> (c: Self)
        ensures
            c == Controller::initial(),
    {
        Controller { buttons: 0, strobe: false, shift: 0xFF }
    }

    /// CPU write to $4016.
    pub fn write(&mut self, val: u8)
        ensures
            *final(self) == old(self).after_write(val),
    {
        let new_strobe = val & 1 == 1;
        if self.strobe && !new_strobe {
            self.shift = self.buttons;
        }
        self.strobe = new_strobe;
    }

    /// CPU read of $4016 / $4017: one serial bit.
    pub fn read(&mut self) -> (bit: u8)
        ensures
            bit == old(self).read_value(),
            *final(self) == old(self).after_read(),
            bit <= 1,
    {
        if self.strobe {
            let b = self.buttons;
            let pressed = b & buttons::A != 0;
            proof {
                crate::bits::lemma_byte_fields();
                assert(b & 1u8 <= 1u8);
            }
            return if pressed { 1 } else { 0 };
        }
        let s = self.shift;
        let bit = s & 1;
        proof {
            crate::bits::lemma_byte_fields();
            assert(s & 1u8 <= 1u8);
        }
        self.shift = (self.shift >> 1) | 0x80;
        bit
    }

    /// After a strobe pulse (write 1, then write 0) the shift register holds
    /// exactly the buttons that were held, and the strobe is low.
    pub proof fn lemma_strobe_pulse_latches(self)
        ensures
            self.after_write(1).after_write(0).shift_reg() == self.buttons,
            !self.after_write(1).after_write(0).strobe_high(),
            self.after_write(1).after_write(0).buttons == self.buttons,
    {
        lemma_register_bits(0, 0);
    }

    /// Serial read-out law: with the strobe low, the `k`-th read after a latch of
    /// byte `b` (counting from zero) returns bit `k` of `b` for `k < 8`, and 1 after that.
    pub proof fn lemma_serial_readout(self, k: nat)
        requires
            !self.strobe_high(),
        ensures
            Self::reads_after(self, k).read_value() == (if k < 8 { bit_of(self.shift_reg(), k) } else { 1u8 }),
            !Self::reads_after(self, k).strobe_high(),
            Self::reads_after(self, k).buttons == self.buttons,
        decreases k,
    {
        if k == 0 {
            lemma_register_bits(self.shift, 0);
        } else {
            Self::lemma_serial_readout(self, (k - 1) as nat);
            Self::lemma_shift_after_reads(self, k);
            let s = self.shift;
            let r = Self::reads_after(self, k).shift;
            if k < 8 {
                let kk = k as u8;
                assert(kk < 8);
                assert(r & 1u8 == (s >> kk) & 1u8);
            } else {
                assert(r & 1u8 == 1u8);
            }
        }
    }

    /// State after `k` reads with the strobe low.
    pub open spec fn reads_after(self, k: nat) -> Controller
        decreases k,
    {
        if k == 0 {
            self
        } else {
            Self::reads_after(self, (k - 1) as nat).after_read()
        }
    }

    proof fn lemma_shift_after_reads(self, k: nat)
        requires
            !self.strobe,
        ensures
            !Self::reads_after(self, k).strobe,
            Self::reads_after(self, k).buttons == self.buttons,
            k < 8 ==> Self::reads_after(self, k).shift & 1u8 == (self.shift >> (k as u8)) & 1u8,
            k >= 8 ==> Self::reads_after(self, k).shift & 1u8 == 1u8,
            k <= 8 ==> Self::reads_after(self, k).shift == (self.shift >> (k as u8)) | fill_mask(k as u8),
            k >= 8 ==> Self::reads_after(self, k).shift == 0xFFu8,
        decreases k,
    {
        let s = self.shift;
        if k == 0 {
            lemma_register_bits(s, 0);
        } else {
            Self::lemma_shift_after_reads(self, (k - 1) as nat);
            let p = Self::reads_after(self, (k - 1) as nat).shift;
            let r = Self::reads_after(self, k).shift;
            assert(r == (p >> 1u8) | 0x80u8);
            if k <= 8 {
                let j = (k - 1) as u8;
                lemma_register_bits(s, j);
                if k < 8 {
                    lemma_register_bits(s, k as u8);
                }
            } else {
                lemma_register_bits(s, 0);
            }
        }
    }
}

/// The ones shifted in from the top after `k <= 8` reads.
pub open spec fn fill_mask(k: u8) -> u8 {
    (0xFFu16 << (8 - k) as u16) as u8
}

/// How the shift register evolves: one read of a register holding `s`
/// shifted by `j` with `j` ones filled in from the top shifts once more and
/// fills one more one; its low bit is bit `j` of `s`; after eight reads it
/// holds only ones.
proof fn lemma_register_bits(s: u8, j: u8)
    by (bit_vector)
    requires
        j < 8,
    ensures
        ((((s >> j) | fill_mask(j)) >> 1u8) | 0x80u8) == (s >> (j + 1) as u8) | fill_mask((j + 1) as u8),
        ((s >> j) | fill_mask(j)) & 1u8 == (s >> j) & 1u8,
        (s >> 0u8) | fill_mask(0) == s,
        (s >> 8u8) | fill_mask(8) == 0xFFu8,
        fill_mask(8) == 0xFFu8,
        ((0xFFu8 >> 1u8) | 0x80u8) == 0xFFu8,
        0xFFu8 & 1u8 == 1u8,
        1u8 & 1u8 == 1u8,
        0u8 & 1u8 == 0u8,
{
}

impl Default for Controller {
    fn default() -> (c: Self)
        ensures
            c == Controller::initial(),
    {
        Self::new()
    }
}

} // verus!
