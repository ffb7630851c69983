//! The MIDI channel enumeration and the 7-/14-bit logical value aliases.

use vstd::prelude::*;

verus! {

/// A logical 7-bit value in [0, 127], held in a wider storage type and
/// reduced by `mask7` at wire-emission time.
pub type U7 = u8;

/// A logical 14-bit value in [0, 16383], held in a wider storage type and
/// reduced by `mask14` at wire-emission time.
pub type U14 = u16;

/// One of the 16 MIDI channels.
///
/// `Ch1` corresponds to wire value 0, `Ch2` to 1, and so on: the protocol is
/// 0-indexed while channels are conventionally named from 1.
#[derive(Debug, Copy, Clone, Eq, PartialEq, Ord, PartialOrd, Hash, Structural)]
pub enum Channel {
    Ch1,
    Ch2,
    Ch3,
    Ch4,
    Ch5,
    Ch6,
    Ch7,
    Ch8,
    Ch9,
    Ch10,
    Ch11,
    Ch12,
    Ch13,
    Ch14,
    Ch15,
    Ch16,
}

impl Channel {
    /// The wire value of the channel: 0 for `Ch1` up to 15 for `Ch16`.
    pub open spec fn index_spec(self) -> u8 {
        match self {
            Channel::Ch1 => 0,
            Channel::Ch2 => 1,
            Channel::Ch3 => 2,
            Channel::Ch4 => 3,
            Channel::Ch5 => 4,
            Channel::Ch6 => 5,
            Channel::Ch7 => 6,
            Channel::Ch8 => 7,
            Channel::Ch9 => 8,
            Channel::Ch10 => 9,
            Channel::Ch11 => 10,
            Channel::Ch12 => 11,
            Channel::Ch13 => 12,
            Channel::Ch14 => 13,
            Channel::Ch15 => 14,
            Channel::Ch16 => 15,
        }
    }

    /// The channel whose wire value is `n`, for `n` in [0, 15].
    pub open spec fn from_index_spec(n: u8) -> Channel
        recommends
            n <= 15,
    {
        if n == 0 {
            Channel::Ch1
        } else if n == 1 {
            Channel::Ch2
        } else if n == 2 {
            Channel::Ch3
        } else if n == 3 {
            Channel::Ch4
        } else if n == 4 {
            Channel::Ch5
        } else if n == 5 {
            Channel::Ch6
        } else if n == 6 {
            Channel::Ch7
        } else if n == 7 {
            Channel::Ch8
        } else if n == 8 {
            Channel::Ch9
        } else if n == 9 {
            Channel::Ch10
        } else if n == 10 {
            Channel::Ch11
        } else if n == 11 {
            Channel::Ch12
        } else if n == 12 {
            Channel::Ch13
        } else if n == 13 {
            Channel::Ch14
        } else if n == 14 {
            Channel::Ch15
        } else {
            Channel::Ch16
        }
    }

    /// The wire value of the channel, as executable code.
    pub fn index(&self) -> (r: u8)
        ensures
            r == self.index_spec(),
            r <= 15,
    {
        match self {
            Channel::Ch1 => 0,
            Channel::Ch2 => 1,
            Channel::Ch3 => 2,
            Channel::Ch4 => 3,
            Channel::Ch5 => 4,
            Channel::Ch6 => 5,
            Channel::Ch7 => 6,
            Channel::Ch8 => 7,
            Channel::Ch9 => 8,
            Channel::Ch10 => 9,
            Channel::Ch11 => 10,
            Channel::Ch12 => 11,
            Channel::Ch13 => 12,
            Channel::Ch14 => 13,
            Channel::Ch15 => 14,
            Channel::Ch16 => 15,
        }
    }

    /// Builds the channel with wire value `n`; fails exactly when `n` is not
    /// a valid channel value, i.e. when `n > 15`.
    pub fn from_u64(n: u64) -> (r: Option<Channel>)
        ensures
            n <= 15 ==> r == Some(Channel::from_index_spec(n as u8)),
            n > 15 ==> r is None,
    {
        if n < 16 {
            Channel::from_i64(n as i64)
        } else {
            None
        }
    }

    /// Builds the channel with wire value `n`; fails exactly when `n` is not
    /// a valid channel value, i.e. when `n` is outside [0, 15].
    pub fn from_i64(n: i64) -> (r: Option<Channel>)
        ensures
            0 <= n <= 15 ==> r == Some(Channel::from_index_spec(n as u8)),
            !(0 <= n <= 15) ==> r is None,
    {
        match n {
            0 => Some(Channel::Ch1),
            1 => Some(Channel::Ch2),
            2 => Some(Channel::Ch3),
            3 => Some(Channel::Ch4),
            4 => Some(Channel::Ch5),
            5 => Some(Channel::Ch6),
            6 => Some(Channel::Ch7),
            7 => Some(Channel::Ch8),
            8 => Some(Channel::Ch9),
            9 => Some(Channel::Ch10),
            10 => Some(Channel::Ch11),
            11 => Some(Channel::Ch12),
            12 => Some(Channel::Ch13),
            13 => Some(Channel::Ch14),
            14 => Some(Channel::Ch15),
            15 => Some(Channel::Ch16),
            _ => None,
        }
    }
}

/// A channel's wire value is at most 15.
pub proof fn lemma_channel_index_bound(c: Channel)
    ensures
        c.index_spec() <= 15,
{
    match c {
        Channel::Ch1 => {},
        Channel::Ch2 => {},
        Channel::Ch3 => {},
        Channel::Ch4 => {},
        Channel::Ch5 => {},
        Channel::Ch6 => {},
        Channel::Ch7 => {},
        Channel::Ch8 => {},
        Channel::Ch9 => {},
        Channel::Ch10 => {},
        Channel::Ch11 => {},
        Channel::Ch12 => {},
        Channel::Ch13 => {},
        Channel::Ch14 => {},
        Channel::Ch15 => {},
        Channel::Ch16 => {},
    }
}

/// Round trip between a channel and its wire value: `from_index_spec`
/// inverts `index_spec`.
pub proof fn lemma_channel_index_round_trip(c: Channel)
    ensures
        Channel::from_index_spec(c.index_spec()) == c,
{
    match c {
        Channel::Ch1 => {},
        Channel::Ch2 => {},
        Channel::Ch3 => {},
        Channel::Ch4 => {},
        Channel::Ch5 => {},
        Channel::Ch6 => {},
        Channel::Ch7 => {},
        Channel::Ch8 => {},
        Channel::Ch9 => {},
        Channel::Ch10 => {},
        Channel::Ch11 => {},
        Channel::Ch12 => {},
        Channel::Ch13 => {},
        Channel::Ch14 => {},
        Channel::Ch15 => {},
        Channel::Ch16 => {},
    }
}

} // verus!
