//! The high-level MIDI event enumeration and its transmission order.

use vstd::prelude::*;

use core::cmp::Ordering;
use crate::manufacturer::Manufacturer;
use crate::types::{Channel, U7, U14};

verus! {

/// Defines the various Midi messages that can be sent
///
/// The variants are ordered such that they may be sorted and sent in a
/// sensible order when they occur at the same time, thus `NoteOff` before
/// `NoteOn`, `Start` before `TimingClock`, `ControlChange` and
/// `ProgramChange` before `NoteOn`, etc, etc
#[derive(Debug, Clone)]
pub enum Message {
    // System realtime
    /// Start. Start the current sequence playing.
    /// (This message will be followed with Timing Clocks).
    Start,
    /// Timing Clock. Sent 24 times per quarter note when synchronization is
    /// required.
    TimingClock,
    /// Continue. Continue at the point the sequence was Stopped.
    Continue,
    /// Stop. Stop the current sequence.
    Stop,
    /// Active Sensing. Sent repeatedly to tell the receiver that the
    /// connection is alive.
    ActiveSensing,
    /// Reset. Reset all receivers in the system to power-up status.
    SystemReset,
    // Channel mode
    /// All Sound Off. All oscillators turn off and their volume envelopes
    /// are set to zero as soon as possible.
    AllSoundOff(Channel),
    /// Reset All Controllers. All controller values are reset to their
    /// default values.
    ResetAllControllers(Channel),
    /// Local Control Off. Devices on the channel respond only to data
    /// received over MIDI; played data is ignored.
    LocalControlOff(Channel),
    /// Local Control On restores the functions of the normal controllers.
    LocalControlOn(Channel),
    /// All Notes Off. All oscillators turn off.
    AllNotesOff(Channel),
    // Channel voice
    /// Note Off event. The second argument is the key (note) number, the
    /// third is the velocity.
    NoteOff(Channel, U7, U7),
    /// Program Change. The second argument is the new program number.
    ProgramChange(Channel, U7),
    /// Control Change. The second argument is the controller number, the
    /// third is the controller value.
    ControlChange(Channel, U7, U7),
    /// 7-bit RPN. The second argument is the RPN, the third is the value.
    RPN7(Channel, U14, U7),
    /// 14-bit RPN. The second argument is the RPN, the third is the value.
    RPN14(Channel, U14, U14),
    /// 7-bit NRPN. The second argument is the NRPN, the third is the value.
    NRPN7(Channel, U14, U7),
    /// 14-bit NRPN. The second argument is the NRPN, the third is the value.
    NRPN14(Channel, U14, U14),
    /// System Exclusive. The first argument names the manufacturer, the
    /// second holds the payload (without the `F0` header or `F7`
    /// terminator).
    SysEx(Manufacturer, Vec<U7>),
    /// Note On event. The second argument is the key (note) number, the
    /// third is the velocity.
    NoteOn(Channel, U7, U7),
    /// Pitch Bend Change. The bender position is a 14-bit value; center (no
    /// pitch change) is 0x2000.
    PitchBend(Channel, U14),
    /// Polyphonic Key Pressure (Aftertouch). The second argument is the key
    /// (note) number, the third is the pressure value.
    PolyphonicPressure(Channel, U7, U7),
    /// Channel Pressure (Aftertouch). The second argument is the single
    /// greatest pressure value of all depressed keys.
    ChannelPressure(Channel, U7),
}

impl Message {
    /// The message's place in the declared priority order: system realtime
    /// cases first, then channel mode, then channel voice, in declaration
    /// order.
    pub open spec fn rank_spec(self) -> int {
        match self {
            Message::Start => 0,
            Message::TimingClock => 1,
            Message::Continue => 2,
            Message::Stop => 3,
            Message::ActiveSensing => 4,
            Message::SystemReset => 5,
            Message::AllSoundOff(..) => 6,
            Message::ResetAllControllers(..) => 7,
            Message::LocalControlOff(..) => 8,
            Message::LocalControlOn(..) => 9,
            Message::AllNotesOff(..) => 10,
            Message::NoteOff(..) => 11,
            Message::ProgramChange(..) => 12,
            Message::ControlChange(..) => 13,
            Message::RPN7(..) => 14,
            Message::RPN14(..) => 15,
            Message::NRPN7(..) => 16,
            Message::NRPN14(..) => 17,
            Message::SysEx(..) => 18,
            Message::NoteOn(..) => 19,
            Message::PitchBend(..) => 20,
            Message::PolyphonicPressure(..) => 21,
            Message::ChannelPressure(..) => 22,
        }
    }

    /// The message's place in the declared priority order, as executable
    /// code.
    pub fn rank(&self) -> (r: u8)
        ensures
            r == self.rank_spec(),
    {
        match self {
            Message::Start => 0,
            Message::TimingClock => 1,
            Message::Continue => 2,
            Message::Stop => 3,
            Message::ActiveSensing => 4,
            Message::SystemReset => 5,
            Message::AllSoundOff(..) => 6,
            Message::ResetAllControllers(..) => 7,
            Message::LocalControlOff(..) => 8,
            Message::LocalControlOn(..) => 9,
            Message::AllNotesOff(..) => 10,
            Message::NoteOff(..) => 11,
            Message::ProgramChange(..) => 12,
            Message::ControlChange(..) => 13,
            Message::RPN7(..) => 14,
            Message::RPN14(..) => 15,
            Message::NRPN7(..) => 16,
            Message::NRPN14(..) => 17,
            Message::SysEx(..) => 18,
            Message::NoteOn(..) => 19,
            Message::PitchBend(..) => 20,
            Message::PolyphonicPressure(..) => 21,
            Message::ChannelPressure(..) => 22,
        }
    }
}

/// Three-way comparison of two integers.
pub open spec fn int_cmp(a: int, b: int) -> Ordering {
    if a < b {
        Ordering::Less
    } else if a == b {
        Ordering::Equal
    } else {
        Ordering::Greater
    }
}

/// Chains two comparison keys: the second decides only where the first ties.
pub open spec fn ord_chain(a: Ordering, b: Ordering) -> Ordering {
    match a {
        Ordering::Equal => b,
        _ => a,
    }
}

/// Lexicographic comparison of two byte sequences; a proper prefix orders
/// before its extensions.
pub open spec fn lex_cmp(a: Seq<u8>, b: Seq<u8>) -> Ordering
    decreases a.len(),
{
    if a.len() == 0 && b.len() == 0 {
        Ordering::Equal
    } else if a.len() == 0 {
        Ordering::Less
    } else if b.len() == 0 {
        Ordering::Greater
    } else if a[0] != b[0] {
        int_cmp(a[0] as int, b[0] as int)
    } else {
        lex_cmp(a.drop_first(), b.drop_first())
    }
}

/// Comparison of channels by wire value.
pub open spec fn channel_cmp(a: Channel, b: Channel) -> Ordering {
    int_cmp(a.index_spec() as int, b.index_spec() as int)
}

/// Comparison of manufacturer IDs: the 1-byte form orders before the 3-byte
/// form, and equal forms compare field-wise.
pub open spec fn manufacturer_cmp(a: Manufacturer, b: Manufacturer) -> Ordering {
    match (a, b) {
        (Manufacturer::OneByte(x), Manufacturer::OneByte(y)) => int_cmp(x as int, y as int),
        (Manufacturer::OneByte(..), Manufacturer::ThreeByte(..)) => Ordering::Less,
        (Manufacturer::ThreeByte(..), Manufacturer::OneByte(..)) => Ordering::Greater,
        (Manufacturer::ThreeByte(x1, x2, x3), Manufacturer::ThreeByte(y1, y2, y3)) => ord_chain(
            int_cmp(x1 as int, y1 as int),
            ord_chain(int_cmp(x2 as int, y2 as int), int_cmp(x3 as int, y3 as int)),
        ),
    }
}

/// The total order over messages: the case rank decides first, and messages
/// of the same case compare field-wise, channel first and payload fields in
/// declaration order.
pub open spec fn message_cmp(a: Message, b: Message) -> Ordering {
    if a.rank_spec() != b.rank_spec() {
        int_cmp(a.rank_spec(), b.rank_spec())
    } else {
        match (a, b) {
            (Message::AllSoundOff(c1), Message::AllSoundOff(c2)) => channel_cmp(c1, c2),
            (Message::ResetAllControllers(c1), Message::ResetAllControllers(c2)) => channel_cmp(
                c1,
                c2,
            ),
            (Message::LocalControlOff(c1), Message::LocalControlOff(c2)) => channel_cmp(c1, c2),
            (Message::LocalControlOn(c1), Message::LocalControlOn(c2)) => channel_cmp(c1, c2),
            (Message::AllNotesOff(c1), Message::AllNotesOff(c2)) => channel_cmp(c1, c2),
            (Message::NoteOff(c1, k1, v1), Message::NoteOff(c2, k2, v2)) => ord_chain(
                channel_cmp(c1, c2),
                ord_chain(int_cmp(k1 as int, k2 as int), int_cmp(v1 as int, v2 as int)),
            ),
            (Message::ProgramChange(c1, p1), Message::ProgramChange(c2, p2)) => ord_chain(
                channel_cmp(c1, c2),
                int_cmp(p1 as int, p2 as int),
            ),
            (Message::ControlChange(c1, n1, v1), Message::ControlChange(c2, n2, v2)) => ord_chain(
                channel_cmp(c1, c2),
                ord_chain(int_cmp(n1 as int, n2 as int), int_cmp(v1 as int, v2 as int)),
            ),
            (Message::RPN7(c1, p1, v1), Message::RPN7(c2, p2, v2)) => ord_chain(
                channel_cmp(c1, c2),
                ord_chain(int_cmp(p1 as int, p2 as int), int_cmp(v1 as int, v2 as int)),
            ),
            (Message::RPN14(c1, p1, v1), Message::RPN14(c2, p2, v2)) => ord_chain(
                channel_cmp(c1, c2),
                ord_chain(int_cmp(p1 as int, p2 as int), int_cmp(v1 as int, v2 as int)),
            ),
            (Message::NRPN7(c1, p1, v1), Message::NRPN7(c2, p2, v2)) => ord_chain(
                channel_cmp(c1, c2),
                ord_chain(int_cmp(p1 as int, p2 as int), int_cmp(v1 as int, v2 as int)),
            ),
            (Message::NRPN14(c1, p1, v1), Message::NRPN14(c2, p2, v2)) => ord_chain(
                channel_cmp(c1, c2),
                ord_chain(int_cmp(p1 as int, p2 as int), int_cmp(v1 as int, v2 as int)),
            ),
            (Message::SysEx(m1, d1), Message::SysEx(m2, d2)) => ord_chain(
                manufacturer_cmp(m1, m2),
                lex_cmp(d1@, d2@),
            ),
            (Message::NoteOn(c1, k1, v1), Message::NoteOn(c2, k2, v2)) => ord_chain(
                channel_cmp(c1, c2),
                ord_chain(int_cmp(k1 as int, k2 as int), int_cmp(v1 as int, v2 as int)),
            ),
            (Message::PitchBend(c1, b1), Message::PitchBend(c2, b2)) => ord_chain(
                channel_cmp(c1, c2),
                int_cmp(b1 as int, b2 as int),
            ),
            (Message::PolyphonicPressure(c1, k1, v1), Message::PolyphonicPressure(c2, k2, v2)) =>
                ord_chain(
                channel_cmp(c1, c2),
                ord_chain(int_cmp(k1 as int, k2 as int), int_cmp(v1 as int, v2 as int)),
            ),
            (Message::ChannelPressure(c1, v1), Message::ChannelPressure(c2, v2)) => ord_chain(
                channel_cmp(c1, c2),
                int_cmp(v1 as int, v2 as int),
            ),
            _ => Ordering::Equal,
        }
    }
}

/// Messages of different case ranks order by rank alone: sorting with this
/// order places the lower-ranked message first, whatever the payloads hold.
pub proof fn lemma_message_order_by_rank(a: Message, b: Message)
    requires
        a.rank_spec() < b.rank_spec(),
    ensures
        message_cmp(a, b) == Ordering::Less,
        message_cmp(b, a) == Ordering::Greater,
{
}

/// Three-way comparison of two bytes.
fn cmp_u8(a: u8, b: u8) -> (r: Ordering)
    ensures
        r == int_cmp(a as int, b as int),
{
    if a < b {
        Ordering::Less
    } else if a == b {
        Ordering::Equal
    } else {
        Ordering::Greater
    }
}

/// Three-way comparison of two 16-bit values.
fn cmp_u16(a: u16, b: u16) -> (r: Ordering)
    ensures
        r == int_cmp(a as int, b as int),
{
    if a < b {
        Ordering::Less
    } else if a == b {
        Ordering::Equal
    } else {
        Ordering::Greater
    }
}

/// Chains two comparison keys, as executable code.
fn ord_chain_exec(a: Ordering, b: Ordering) -> (r: Ordering)
    ensures
        r == ord_chain(a, b),
{
    match a {
        Ordering::Equal => b,
        _ => a,
    }
}

/// Three-way comparison of two channels by wire value.
fn cmp_channel(a: &Channel, b: &Channel) -> (r: Ordering)
    ensures
        r == channel_cmp(*a, *b),
{
    cmp_u8(a.index(), b.index())
}

/// Three-way comparison of two manufacturer IDs.
fn cmp_manufacturer(a: &Manufacturer, b: &Manufacturer) -> (r: Ordering)
    ensures
        r == manufacturer_cmp(*a, *b),
{
    match (a, b) {
        (Manufacturer::OneByte(x), Manufacturer::OneByte(y)) => cmp_u8(*x, *y),
        (Manufacturer::OneByte(..), Manufacturer::ThreeByte(..)) => Ordering::Less,
        (Manufacturer::ThreeByte(..), Manufacturer::OneByte(..)) => Ordering::Greater,
        (Manufacturer::ThreeByte(x1, x2, x3), Manufacturer::ThreeByte(y1, y2, y3)) => {
            ord_chain_exec(
                cmp_u8(*x1, *y1),
                ord_chain_exec(cmp_u8(*x2, *y2), cmp_u8(*x3, *y3)),
            )
        },
    }
}

/// Lexicographic three-way comparison of two byte vectors.
fn cmp_bytes(a: &Vec<u8>, b: &Vec<u8>) -> (r: Ordering)
    ensures
        r == lex_cmp(a@, b@),
{
    let n: usize = if a.len() < b.len() {
        a.len()
    } else {
        b.len()
    };
    proof {
        assert(a@.skip(0) =~= a@);
        assert(b@.skip(0) =~= b@);
    }
    let mut i: usize = 0;
    while i < n
        invariant
            i <= n,
            n <= a@.len(),
            n <= b@.len(),
            n == if a@.len() < b@.len() {
                a@.len()
            } else {
                b@.len()
            },
            lex_cmp(a@, b@) == lex_cmp(a@.skip(i as int), b@.skip(i as int)),
        decreases n - i,
    {
        let x = a[i];
        let y = b[i];
        if x < y {
            return Ordering::Less;
        }
        if x > y {
            return Ordering::Greater;
        }
        proof {
            assert(a@.skip(i as int).drop_first() =~= a@.skip(i as int + 1));
            assert(b@.skip(i as int).drop_first() =~= b@.skip(i as int + 1));
        }
        i = i + 1;
    }
    if a.len() < b.len() {
        Ordering::Less
    } else if a.len() > b.len() {
        Ordering::Greater
    } else {
        Ordering::Equal
    }
}

impl PartialEq for Message {
    fn eq(&self, other: &Message) -> (r: bool) {
        match self.partial_cmp(other) {
            Some(Ordering::Equal) => true,
            _ => false,
        }
    }
}

impl vstd::std_specs::cmp::PartialEqSpecImpl for Message {
    open spec fn obeys_eq_spec() -> bool {
        true
    }

    open spec fn eq_spec(&self, other: &Message) -> bool {
        message_cmp(*self, *other) == Ordering::Equal
    }
}

impl PartialOrd for Message {
    fn partial_cmp(&self, other: &Message) -> (r: Option<Ordering>) {
        let ra = self.rank();
        let rb = other.rank();
        if ra < rb {
            return Some(Ordering::Less);
        }
        if ra > rb {
            return Some(Ordering::Greater);
        }
        let c = match self {
            Message::Start => Ordering::Equal,
            Message::TimingClock => Ordering::Equal,
            Message::Continue => Ordering::Equal,
            Message::Stop => Ordering::Equal,
            Message::ActiveSensing => Ordering::Equal,
            Message::SystemReset => Ordering::Equal,
            Message::AllSoundOff(c1) => match other {
                Message::AllSoundOff(c2) => cmp_channel(c1, c2),
                _ => vstd::pervasive::unreached(),
            },
            Message::ResetAllControllers(c1) => match other {
                Message::ResetAllControllers(c2) => cmp_channel(c1, c2),
                _ => vstd::pervasive::unreached(),
            },
            Message::LocalControlOff(c1) => match other {
                Message::LocalControlOff(c2) => cmp_channel(c1, c2),
                _ => vstd::pervasive::unreached(),
            },
            Message::LocalControlOn(c1) => match other {
                Message::LocalControlOn(c2) => cmp_channel(c1, c2),
                _ => vstd::pervasive::unreached(),
            },
            Message::AllNotesOff(c1) => match other {
                Message::AllNotesOff(c2) => cmp_channel(c1, c2),
                _ => vstd::pervasive::unreached(),
            },
            Message::NoteOff(c1, k1, v1) => match other {
                Message::NoteOff(c2, k2, v2) => ord_chain_exec(
                    cmp_channel(c1, c2),
                    ord_chain_exec(cmp_u8(*k1, *k2), cmp_u8(*v1, *v2)),
                ),
                _ => vstd::pervasive::unreached(),
            },
            Message::ProgramChange(c1, p1) => match other {
                Message::ProgramChange(c2, p2) => ord_chain_exec(
                    cmp_channel(c1, c2),
                    cmp_u8(*p1, *p2),
                ),
                _ => vstd::pervasive::unreached(),
            },
            Message::ControlChange(c1, n1, v1) => match other {
                Message::ControlChange(c2, n2, v2) => ord_chain_exec(
                    cmp_channel(c1, c2),
                    ord_chain_exec(cmp_u8(*n1, *n2), cmp_u8(*v1, *v2)),
                ),
                _ => vstd::pervasive::unreached(),
            },
            Message::RPN7(c1, p1, v1) => match other {
                Message::RPN7(c2, p2, v2) => ord_chain_exec(
                    cmp_channel(c1, c2),
                    ord_chain_exec(cmp_u16(*p1, *p2), cmp_u8(*v1, *v2)),
                ),
                _ => vstd::pervasive::unreached(),
            },
            Message::RPN14(c1, p1, v1) => match other {
                Message::RPN14(c2, p2, v2) => ord_chain_exec(
                    cmp_channel(c1, c2),
                    ord_chain_exec(cmp_u16(*p1, *p2), cmp_u16(*v1, *v2)),
                ),
                _ => vstd::pervasive::unreached(),
            },
            Message::NRPN7(c1, p1, v1) => match other {
                Message::NRPN7(c2, p2, v2) => ord_chain_exec(
                    cmp_channel(c1, c2),
                    ord_chain_exec(cmp_u16(*p1, *p2), cmp_u8(*v1, *v2)),
                ),
                _ => vstd::pervasive::unreached(),
            },
            Message::NRPN14(c1, p1, v1) => match other {
                Message::NRPN14(c2, p2, v2) => ord_chain_exec(
                    cmp_channel(c1, c2),
                    ord_chain_exec(cmp_u16(*p1, *p2), cmp_u16(*v1, *v2)),
                ),
                _ => vstd::pervasive::unreached(),
            },
            Message::SysEx(m1, d1) => match other {
                Message::SysEx(m2, d2) => ord_chain_exec(
                    cmp_manufacturer(m1, m2),
                    cmp_bytes(d1, d2),
                ),
                _ => vstd::pervasive::unreached(),
            },
            Message::NoteOn(c1, k1, v1) => match other {
                Message::NoteOn(c2, k2, v2) => ord_chain_exec(
                    cmp_channel(c1, c2),
                    ord_chain_exec(cmp_u8(*k1, *k2), cmp_u8(*v1, *v2)),
                ),
                _ => vstd::pervasive::unreached(),
            },
            Message::PitchBend(c1, b1) => match other {
                Message::PitchBend(c2, b2) => ord_chain_exec(
                    cmp_channel(c1, c2),
                    cmp_u16(*b1, *b2),
                ),
                _ => vstd::pervasive::unreached(),
            },
            Message::PolyphonicPressure(c1, k1, v1) => match other {
                Message::PolyphonicPressure(c2, k2, v2) => ord_chain_exec(
                    cmp_channel(c1, c2),
                    ord_chain_exec(cmp_u8(*k1, *k2), cmp_u8(*v1, *v2)),
                ),
                _ => vstd::pervasive::unreached(),
            },
            Message::ChannelPressure(c1, v1) => match other {
                Message::ChannelPressure(c2, v2) => ord_chain_exec(
                    cmp_channel(c1, c2),
                    cmp_u8(*v1, *v2),
                ),
                _ => vstd::pervasive::unreached(),
            },
        };
        Some(c)
    }
}

impl vstd::std_specs::cmp::PartialOrdSpecImpl for Message {
    open spec fn obeys_partial_cmp_spec() -> bool {
        true
    }

    open spec fn partial_cmp_spec(&self, other: &Message) -> Option<Ordering> {
        Some(message_cmp(*self, *other))
    }
}

} // verus!
