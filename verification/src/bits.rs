//! Bit-level facts about bytes and words that the hardware models rely on,
//! each proved once by the bit-vector solver and used wherever a masked
//! field or a shifted value appears.
use vstd::prelude::*;

verus! {

/// Ranges of the masked fields of a byte.
pub proof fn lemma_byte_fields()
    by (bit_vector)
    ensures
        forall|v: u8| #[trigger] (v & 0x01u8) <= 1,
        forall|v: u8| #[trigger] (v & 0x03u8) <= 3,
        forall|v: u8| #[trigger] (v & 0x07u8) < 8,
        forall|v: u8| #[trigger] (v & 0x0Fu8) < 16,
        forall|v: u8| #[trigger] (v & 0x1Fu8) < 32,
        forall|v: u8| #[trigger] (v & 0x3Fu8) < 64,
        forall|v: u8| #[trigger] (v & 0x7Fu8) <= 127,
        forall|v: u8| #[trigger] ((v >> 2u8) & 0x03u8) <= 3,
        forall|v: u8| #[trigger] ((v >> 3u8) & 0x1Fu8) < 32,
        forall|v: u8| #[trigger] ((v >> 4u8) & 0x07u8) < 8,
        forall|v: u8| #[trigger] ((v >> 6u8) & 0x03u8) < 4,
        forall|v: u8, k: u8| #[trigger] ((v >> k) & 1u8) <= 1,
        forall|p: u8, q: u8| (p == 0 || p == 2) && (q == 0 || q == 1) ==> #[trigger] (p | q) <= 3,
        forall|p: u8, q: u8| p <= 1 && q <= 1 ==> #[trigger] ((p << 1u8) | q) <= 3,
        forall|v: u8| #[trigger] (v ^ 0xFFu8) == 255 - v,
{
}

/// Ranges of the masked fields of a word, and the shifts used to build
/// addresses.
pub proof fn lemma_word_fields()
    by (bit_vector)
    ensures
        forall|a: u16| #[trigger] (a & 0x07FFu16) < 2048,
        forall|a: u16| #[trigger] ((a & 0x07FFu16) & 0x07FFu16) == a & 0x07FFu16,
        forall|a: u16| #[trigger] (a | 0u16) == a,
        forall|v: u16| #[trigger] (((v >> 4u16) & 0x04u16) | (v & 0x02u16)) < 8,
        forall|t: u16| t < 256 ==> #[trigger] (t & !1u16) <= 254,
        forall|t: u16| #[trigger] (t & 1u16) <= 1,
        forall|t: u16, b: u16| t <= 255 && b <= 1 ==> #[trigger] ((b << 12u16) | (t << 4u16)) <= 0x1FF0,
        forall|t: u16| t < 256 ==> #[trigger] (0x1000u16 | (t << 4u16)) <= 0x1FF0,
        forall|t: u16| t < 256 ==> #[trigger] (0u16 | (t << 4u16)) <= 0x1FF0,
        forall|v: u16| #[trigger] (v & 0x001Fu16) != 31 ==> v < 0xFFFF,
        forall|v: u16| #[trigger] (v & 0x7000u16) != 0x7000u16 ==> v < 0xF000,
        forall|v: u16| #[trigger] ((v & 0x03E0u16) >> 5u16) < 32,
        forall|v: u16| v < 256 ==> #[trigger] (0xC000u16 | (v << 6u16)) == 0xC000 + 64 * v,
        forall|v: u16| v < 256 ==> #[trigger] (v << 4u16) == 16 * v,
{
}

/// The low bit of a counter tells odd from even.
pub proof fn lemma_parity()
    by (bit_vector)
    ensures
        forall|f: u64| (#[trigger] (f & 1u64) == 1u64) == (f % 2 == 1),
{
}

} // verus!
