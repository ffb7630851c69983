//! Bit-packing utilities: 7-bit and 14-bit masking, 14-bit MSB/LSB
//! conversion, and status-byte composition and decomposition.

use vstd::prelude::*;

use crate::types::{Channel, U7, U14};

verus! {

/// The low 7 bits of `x`.
pub open spec fn mask7_spec(x: u8) -> u8 {
    x & 0x7f
}

/// The low 14 bits of `x`.
pub open spec fn mask14_spec(x: u16) -> u16 {
    x & 0x3fff
}

/// The upper 7-bit half of the low 14 bits of `x`.
pub open spec fn u14_msb_spec(x: u16) -> u8 {
    ((x >> 7) & 0x7f) as u8
}

/// The lower 7-bit half of `x`.
pub open spec fn u14_lsb_spec(x: u16) -> u8 {
    (x & 0x7f) as u8
}

/// The 14-bit value whose halves are the low 7 bits of `msb` and `lsb`.
pub open spec fn msb_lsb_to_u14_spec(msb: u8, lsb: u8) -> u16 {
    ((msb & 0x7f) as u16 * 128 + (lsb & 0x7f) as u16) as u16
}

/// The status byte for status nibble `status` and channel `ch`: the low
/// nibble of `status` shifted into the high nibble, over the channel's wire
/// value in the low nibble.
pub open spec fn status_byte_spec(status: u8, ch: Channel) -> u8 {
    ((status & 0x0f) * 16 + ch.index_spec()) as u8
}

/// 7 bit mask
pub fn mask7(input: u8) -> (r: U7)
    ensures
        r == mask7_spec(input),
        r <= 127,
{
    proof {
        assert(input & 0x7f <= 127) by (bit_vector);
    }
    input & 0x7f
}

/// 14 bit mask
pub fn mask14(input: u16) -> (r: U14)
    ensures
        r == mask14_spec(input),
        r <= 16383,
{
    proof {
        assert(input & 0x3fff <= 16383) by (bit_vector);
    }
    input & 0x3fff
}

/// Extract the MSB and LSB from a `U14`
pub fn u14_to_msb_lsb(input: U14) -> (r: (U7, U7))
    ensures
        r.0 == u14_msb_spec(input),
        r.1 == u14_lsb_spec(input),
        r.0 <= 127,
        r.1 <= 127,
{
    proof {
        assert(((input >> 7) as u8) & 0x7f == ((input >> 7) & 0x7f) as u8) by (bit_vector);
        assert((input as u8) & 0x7f == (input & 0x7f) as u8) by (bit_vector);
    }
    let msb = mask7((input >> 7) as u8);
    let lsb = mask7(input as u8);
    (msb, lsb)
}

/// Convert an MSB and LSB to a `U14`
pub fn msb_lsb_to_u14(msb: U7, lsb: U7) -> (r: U14)
    ensures
        r == msb_lsb_to_u14_spec(msb, lsb),
        r <= 16383,
{
    let m = mask7(msb) as u16;
    let l = mask7(lsb) as u16;
    proof {
        assert(m <= 127 ==> ((m << 7) == m * 128 && (m << 7) <= 16256)) by (bit_vector);
    }
    (m << 7) + l
}

/// Calculate the status byte for a given channel no.
pub fn status_byte(status: u8, channel: Channel) -> (r: u8)
    ensures
        r == status_byte_spec(status, channel),
{
    proof {
        assert(status & 0x0f <= 15) by (bit_vector);
    }
    (status & 0x0f) * 16 + channel.index()
}

/// Separate the status from the channel no.
pub fn from_status_byte(sb: u8) -> (r: (u8, Channel))
    ensures
        r.0 == sb >> 4,
        r.1 == Channel::from_index_spec(sb & 0x0f),
        r.0 <= 15,
{
    proof {
        assert((sb & 0xf0) >> 4 == sb >> 4 && sb >> 4 <= 15 && sb & 0x0f <= 15) by (bit_vector);
    }
    let status = (sb & 0xf0) >> 4;
    let low = sb & 0x0f;
    let channel = match Channel::from_u64(low as u64) {
        Some(c) => c,
        None => {
            proof {
                assert(false);
            }
            Channel::Ch1
        },
    };
    (status, channel)
}

/// Masking to 7 bits is idempotent.
pub proof fn lemma_mask7_idempotent(x: u8)
    ensures
        mask7_spec(mask7_spec(x)) == mask7_spec(x),
{
    assert((x & 0x7f) & 0x7f == x & 0x7f) by (bit_vector);
}

/// Masking to 14 bits is idempotent.
pub proof fn lemma_mask14_idempotent(x: u16)
    ensures
        mask14_spec(mask14_spec(x)) == mask14_spec(x),
{
    assert((x & 0x3fff) & 0x3fff == x & 0x3fff) by (bit_vector);
}

/// The 7-bit mask keeps values up to 127 and subtracts 128 from the rest.
pub proof fn lemma_mask7_value(x: u8)
    ensures
        x <= 127 ==> mask7_spec(x) == x,
        x > 127 ==> mask7_spec(x) == x - 128,
{
    assert(x <= 127 ==> x & 0x7f == x) by (bit_vector);
    assert(x > 127 ==> x & 0x7f == x - 128) by (bit_vector);
}

/// The 14-bit mask keeps values up to 16383 and changes all larger values.
pub proof fn lemma_mask14_value(x: u16)
    ensures
        x <= 16383 ==> mask14_spec(x) == x,
        x > 16383 ==> mask14_spec(x) != x,
{
    assert(x <= 16383 ==> x & 0x3fff == x) by (bit_vector);
    assert(x > 16383 ==> x & 0x3fff != x) by (bit_vector);
}

/// Splitting any 16-bit value into its 7-bit halves and recombining them
/// yields the low 14 bits; on a value already reduced by `mask14` the round
/// trip is exact.
pub proof fn lemma_msb_lsb_round_trip(x: u16)
    ensures
        msb_lsb_to_u14_spec(u14_msb_spec(x), u14_lsb_spec(x)) == mask14_spec(x),
        msb_lsb_to_u14_spec(
            u14_msb_spec(mask14_spec(x)),
            u14_lsb_spec(mask14_spec(x)),
        ) == mask14_spec(x),
{
    assert(msb_lsb_to_u14_spec(u14_msb_spec(x), u14_lsb_spec(x)) == mask14_spec(x))
        by (bit_vector);
    lemma_mask14_idempotent(x);
    assert(msb_lsb_to_u14_spec(u14_msb_spec(mask14_spec(x)), u14_lsb_spec(mask14_spec(x)))
        == mask14_spec(mask14_spec(x))) by (bit_vector);
}

/// Composing a status byte from a status nibble and a channel and taking it
/// apart again returns the original pair.
pub proof fn lemma_status_byte_round_trip(s: u8, ch: Channel)
    requires
        s <= 15,
    ensures
        status_byte_spec(s, ch) >> 4 == s,
        Channel::from_index_spec(status_byte_spec(s, ch) & 0x0f) == ch,
{
    let i = ch.index_spec();
    assert(i <= 15) by {
        crate::types::lemma_channel_index_bound(ch);
    };
    assert(s <= 15 && i <= 15 ==> ((((s & 0x0f) * 16 + i) as u8) >> 4 == s && (((s & 0x0f) * 16
        + i) as u8) & 0x0f == i)) by (bit_vector);
    crate::types::lemma_channel_index_round_trip(ch);
}

} // verus!
