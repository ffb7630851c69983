//! Lowering of high-level messages into ordered raw byte emissions.

use vstd::prelude::*;

use crate::constants::{ACTIVE_SENSING, CC_ALL_NOTES_OFF, CC_ALL_SOUND_OFF, CC_DATA_ENTRY_LSB};
use crate::constants::{CC_DATA_ENTRY_MSB, CC_LOCAL_CONTROL, CC_NRPN_LSB, CC_NRPN_MSB, CC_RPN_LSB};
use crate::constants::{CC_RPN_MSB, CC_RESET_ALL_CONTROLLERS, CHANNEL_PRESSURE, CONTINUE};
use crate::constants::{CONTROL_CHANGE, NOTE_OFF, NOTE_ON, PITCH_BEND, POLYPHONIC_PRESSURE};
use crate::constants::{PROGRAM_CHANGE, START, STOP, SYSEX, SYSEX_EOX, SYSTEM_RESET, TIMING_CLOCK};
use crate::manufacturer::Manufacturer;
use crate::message::Message;
use crate::raw_message::RawMessage;
use crate::types::{Channel, U7};
use crate::utils::{mask7, mask7_spec, status_byte, status_byte_spec, u14_lsb_spec, u14_msb_spec};
use crate::utils::u14_to_msb_lsb;

verus! {

/// A Control Change emission carrying controller `cc_no` and value `val`,
/// both already reduced to 7 bits by the caller.
pub open spec fn cc_spec(ch: Channel, cc_no: U7, val: U7) -> RawMessage {
    RawMessage::StatusDataData(status_byte_spec(CONTROL_CHANGE, ch), cc_no, val)
}

/// The lowering of a `ControlChange` message: one Control Change emission
/// with the controller number and value each reduced to 7 bits.
pub open spec fn control_change_spec(ch: Channel, no: U7, val: U7) -> Seq<RawMessage> {
    seq![cc_spec(ch, mask7_spec(no), mask7_spec(val))]
}

/// Each byte of `s` wrapped as a free-form raw emission.
pub open spec fn raw_seq(s: Seq<u8>) -> Seq<RawMessage> {
    s.map_values(|b: u8| RawMessage::Raw(b))
}

/// Each byte of `s` reduced to 7 bits and wrapped as a free-form raw
/// emission.
pub open spec fn masked_raw_seq(s: Seq<u8>) -> Seq<RawMessage> {
    s.map_values(|d: u8| RawMessage::Raw(mask7_spec(d)))
}

/// The ordered raw emissions that lowering a message produces, with the
/// exact byte algebra of the MIDI 1.0 specification.
pub open spec fn message_raw_spec(m: Message) -> Seq<RawMessage> {
    match m {
        Message::Start => seq![RawMessage::Status(START)],
        Message::TimingClock => seq![RawMessage::Status(TIMING_CLOCK)],
        Message::Continue => seq![RawMessage::Status(CONTINUE)],
        Message::Stop => seq![RawMessage::Status(STOP)],
        Message::ActiveSensing => seq![RawMessage::Status(ACTIVE_SENSING)],
        Message::SystemReset => seq![RawMessage::Status(SYSTEM_RESET)],
        Message::AllSoundOff(ch) => control_change_spec(ch, CC_ALL_SOUND_OFF, 0),
        Message::ResetAllControllers(ch) => control_change_spec(ch, CC_RESET_ALL_CONTROLLERS, 0),
        Message::LocalControlOff(ch) => control_change_spec(ch, CC_LOCAL_CONTROL, 0),
        Message::LocalControlOn(ch) => control_change_spec(ch, CC_LOCAL_CONTROL, 127),
        Message::AllNotesOff(ch) => control_change_spec(ch, CC_ALL_NOTES_OFF, 0),
        Message::NoteOff(ch, no, vel) => seq![
            RawMessage::StatusDataData(
                status_byte_spec(NOTE_OFF, ch),
                mask7_spec(no),
                mask7_spec(vel),
            ),
        ],
        Message::ProgramChange(ch, no) => seq![
            RawMessage::StatusData(status_byte_spec(PROGRAM_CHANGE, ch), mask7_spec(no)),
        ],
        Message::ControlChange(ch, no, val) => control_change_spec(ch, no, val),
        Message::RPN7(ch, rpn, val) => seq![
            cc_spec(ch, CC_RPN_MSB, u14_msb_spec(rpn)),
            cc_spec(ch, CC_RPN_LSB, u14_lsb_spec(rpn)),
            cc_spec(ch, CC_DATA_ENTRY_MSB, mask7_spec(val)),
        ],
        Message::RPN14(ch, rpn, val) => seq![
            cc_spec(ch, CC_RPN_MSB, u14_msb_spec(rpn)),
            cc_spec(ch, CC_RPN_LSB, u14_lsb_spec(rpn)),
            cc_spec(ch, CC_DATA_ENTRY_MSB, u14_msb_spec(val)),
            cc_spec(ch, CC_DATA_ENTRY_LSB, u14_lsb_spec(val)),
        ],
        Message::NRPN7(ch, nrpn, val) => seq![
            cc_spec(ch, CC_NRPN_MSB, u14_msb_spec(nrpn)),
            cc_spec(ch, CC_NRPN_LSB, u14_lsb_spec(nrpn)),
            cc_spec(ch, CC_DATA_ENTRY_MSB, mask7_spec(val)),
        ],
        Message::NRPN14(ch, nrpn, val) => seq![
            cc_spec(ch, CC_NRPN_MSB, u14_msb_spec(nrpn)),
            cc_spec(ch, CC_NRPN_LSB, u14_lsb_spec(nrpn)),
            cc_spec(ch, CC_DATA_ENTRY_MSB, u14_msb_spec(val)),
            cc_spec(ch, CC_DATA_ENTRY_LSB, u14_lsb_spec(val)),
        ],
        Message::SysEx(manufacturer, data) => seq![RawMessage::Raw(SYSEX)]
            + raw_seq(manufacturer.to_u7s_spec()) + masked_raw_seq(data@) + seq![
            RawMessage::Raw(SYSEX_EOX),
        ],
        Message::NoteOn(ch, no, vel) => seq![
            RawMessage::StatusDataData(
                status_byte_spec(NOTE_ON, ch),
                mask7_spec(no),
                mask7_spec(vel),
            ),
        ],
        Message::PitchBend(ch, bend) => seq![
            RawMessage::StatusDataData(
                status_byte_spec(PITCH_BEND, ch),
                u14_lsb_spec(bend),
                u14_msb_spec(bend),
            ),
        ],
        Message::PolyphonicPressure(ch, no, vel) => seq![
            RawMessage::StatusDataData(
                status_byte_spec(POLYPHONIC_PRESSURE, ch),
                mask7_spec(no),
                mask7_spec(vel),
            ),
        ],
        Message::ChannelPressure(ch, vel) => seq![
            RawMessage::StatusData(status_byte_spec(CHANNEL_PRESSURE, ch), mask7_spec(vel)),
        ],
    }
}

/// No message lowers to an empty emission sequence.
pub proof fn lemma_lowering_nonempty(m: Message)
    ensures
        message_raw_spec(m).len() >= 1,
{
}

/// Convert `self` to `Vec<RawMessage>`
///
/// A `Vec<RawMessage>` represents ordered Midi data that must be sent as a
/// contiguous block, this is useful for representing `Message::SysEx` and
/// `Message::NRPN14`; note that midi clock messages are allowed to interrupt
/// sysex messages as part of the spec.
pub trait ToRawMessages {
    /// The ordered raw emissions that lowering `self` produces.
    spec fn to_raw_messages_spec(&self) -> Seq<RawMessage>;

    /// Lowers `self` into its ordered raw emissions.
    fn to_raw_messages(&self) -> (r: Vec<RawMessage>)
        ensures
            r@ == self.to_raw_messages_spec(),
    ;
}

impl ToRawMessages for RawMessage {
    /// A raw message lowers to itself, as a single emission.
    open spec fn to_raw_messages_spec(&self) -> Seq<RawMessage> {
        seq![*self]
    }

    fn to_raw_messages(&self) -> (r: Vec<RawMessage>) {
        let mut out: Vec<RawMessage> = Vec::new();
        out.push(*self);
        proof {
            assert(out@ =~= seq![*self]);
        }
        out
    }
}

// we need to generate a lot of CC messages...
fn cc(ch: Channel, cc_no: U7, val: U7) -> (r: RawMessage)
    ensures
        r == cc_spec(ch, cc_no, val),
{
    let sb = status_byte(CONTROL_CHANGE, ch);
    RawMessage::StatusDataData(sb, cc_no, val)
}

/// Lowers a Control Change, masking the controller number and value.
fn control_change(ch: Channel, no: U7, val: U7) -> (r: Vec<RawMessage>)
    ensures
        r@ == control_change_spec(ch, no, val),
{
    let mut out: Vec<RawMessage> = Vec::new();
    out.push(cc(ch, mask7(no), mask7(val)));
    proof {
        assert(out@ =~= control_change_spec(ch, no, val));
    }
    out
}

/// A single-emission lowering result.
fn one(m: RawMessage) -> (r: Vec<RawMessage>)
    ensures
        r@ == seq![m],
{
    let mut out: Vec<RawMessage> = Vec::new();
    out.push(m);
    proof {
        assert(out@ =~= seq![m]);
    }
    out
}

/// A three-emission lowering result.
fn three(m1: RawMessage, m2: RawMessage, m3: RawMessage) -> (r: Vec<RawMessage>)
    ensures
        r@ == seq![m1, m2, m3],
{
    let mut out: Vec<RawMessage> = Vec::new();
    out.push(m1);
    out.push(m2);
    out.push(m3);
    proof {
        assert(out@ =~= seq![m1, m2, m3]);
    }
    out
}

/// A four-emission lowering result.
fn four(m1: RawMessage, m2: RawMessage, m3: RawMessage, m4: RawMessage) -> (r: Vec<RawMessage>)
    ensures
        r@ == seq![m1, m2, m3, m4],
{
    let mut out: Vec<RawMessage> = Vec::new();
    out.push(m1);
    out.push(m2);
    out.push(m3);
    out.push(m4);
    proof {
        assert(out@ =~= seq![m1, m2, m3, m4]);
    }
    out
}

impl ToRawMessages for Message {
    /// A message lowers to the byte algebra given by `message_raw_spec`.
    open spec fn to_raw_messages_spec(&self) -> Seq<RawMessage> {
        message_raw_spec(*self)
    }

    fn to_raw_messages(&self) -> (r: Vec<RawMessage>) {
        match self {
            // System realtime
            Message::Start => one(RawMessage::Status(START)),
            Message::TimingClock => one(RawMessage::Status(TIMING_CLOCK)),
            Message::Continue => one(RawMessage::Status(CONTINUE)),
            Message::Stop => one(RawMessage::Status(STOP)),
            Message::ActiveSensing => one(RawMessage::Status(ACTIVE_SENSING)),
            Message::SystemReset => one(RawMessage::Status(SYSTEM_RESET)),
            // Channel mode: each rewrites to a Control Change with a fixed
            // controller number and value.
            Message::AllSoundOff(ch) => control_change(*ch, CC_ALL_SOUND_OFF, 0),
            Message::ResetAllControllers(ch) => control_change(*ch, CC_RESET_ALL_CONTROLLERS, 0),
            Message::LocalControlOff(ch) => control_change(*ch, CC_LOCAL_CONTROL, 0),
            Message::LocalControlOn(ch) => control_change(*ch, CC_LOCAL_CONTROL, 127),
            Message::AllNotesOff(ch) => control_change(*ch, CC_ALL_NOTES_OFF, 0),
            // Channel voice
            Message::NoteOff(ch, no, vel) => {
                let sb = status_byte(NOTE_OFF, *ch);
                one(RawMessage::StatusDataData(sb, mask7(*no), mask7(*vel)))
            },
            Message::ProgramChange(ch, no) => {
                let sb = status_byte(PROGRAM_CHANGE, *ch);
                one(RawMessage::StatusData(sb, mask7(*no)))
            },
            Message::ControlChange(ch, no, val) => control_change(*ch, *no, *val),
            Message::RPN7(ch, rpn, val) => {
                let (rpn_msb, rpn_lsb) = u14_to_msb_lsb(*rpn);
                three(
                    cc(*ch, CC_RPN_MSB, rpn_msb),
                    cc(*ch, CC_RPN_LSB, rpn_lsb),
                    cc(*ch, CC_DATA_ENTRY_MSB, mask7(*val)),
                )
            },
            Message::RPN14(ch, rpn, val) => {
                let (rpn_msb, rpn_lsb) = u14_to_msb_lsb(*rpn);
                let (val_msb, val_lsb) = u14_to_msb_lsb(*val);
                four(
                    cc(*ch, CC_RPN_MSB, rpn_msb),
                    cc(*ch, CC_RPN_LSB, rpn_lsb),
                    cc(*ch, CC_DATA_ENTRY_MSB, val_msb),
                    cc(*ch, CC_DATA_ENTRY_LSB, val_lsb),
                )
            },
            Message::NRPN7(ch, nrpn, val) => {
                let (nrpn_msb, nrpn_lsb) = u14_to_msb_lsb(*nrpn);
                three(
                    cc(*ch, CC_NRPN_MSB, nrpn_msb),
                    cc(*ch, CC_NRPN_LSB, nrpn_lsb),
                    cc(*ch, CC_DATA_ENTRY_MSB, mask7(*val)),
                )
            },
            Message::NRPN14(ch, nrpn, val) => {
                let (nrpn_msb, nrpn_lsb) = u14_to_msb_lsb(*nrpn);
                let (val_msb, val_lsb) = u14_to_msb_lsb(*val);
                four(
                    cc(*ch, CC_NRPN_MSB, nrpn_msb),
                    cc(*ch, CC_NRPN_LSB, nrpn_lsb),
                    cc(*ch, CC_DATA_ENTRY_MSB, val_msb),
                    cc(*ch, CC_DATA_ENTRY_LSB, val_lsb),
                )
            },
            Message::SysEx(manufacturer, data) => {
                let mut out: Vec<RawMessage> = Vec::new();
                out.push(RawMessage::Raw(SYSEX));
                let m = manufacturer.to_u7s();
                let mut i: usize = 0;
                proof {
                    assert(m@.take(0) =~= Seq::<u8>::empty());
                    assert(raw_seq(Seq::<u8>::empty()) =~= Seq::<RawMessage>::empty());
                    assert(out@ =~= seq![RawMessage::Raw(SYSEX)] + raw_seq(m@.take(0)));
                }
                while i < m.len()
                    invariant
                        i <= m@.len(),
                        m@ == manufacturer.to_u7s_spec(),
                        out@ == seq![RawMessage::Raw(SYSEX)] + raw_seq(m@.take(i as int)),
                    decreases m@.len() - i,
                {
                    out.push(RawMessage::Raw(m[i]));
                    proof {
                        assert(raw_seq(m@.take(i as int + 1)) =~= raw_seq(m@.take(i as int)).push(
                            RawMessage::Raw(m@[i as int]),
                        ));
                    }
                    i = i + 1;
                }
                proof {
                    assert(m@.take(m@.len() as int) =~= m@);
                }
                let ghost prefix = seq![RawMessage::Raw(SYSEX)] + raw_seq(
                    manufacturer.to_u7s_spec(),
                );
                let mut j: usize = 0;
                proof {
                    assert(data@.take(0) =~= Seq::<u8>::empty());
                    assert(masked_raw_seq(Seq::<u8>::empty()) =~= Seq::<RawMessage>::empty());
                    assert(out@ =~= prefix + masked_raw_seq(data@.take(0)));
                }
                while j < data.len()
                    invariant
                        j <= data@.len(),
                        out@ == prefix + masked_raw_seq(data@.take(j as int)),
                    decreases data@.len() - j,
                {
                    out.push(RawMessage::Raw(mask7(data[j])));
                    proof {
                        assert(masked_raw_seq(data@.take(j as int + 1)) =~= masked_raw_seq(
                            data@.take(j as int),
                        ).push(RawMessage::Raw(mask7_spec(data@[j as int]))));
                    }
                    j = j + 1;
                }
                proof {
                    assert(data@.take(data@.len() as int) =~= data@);
                }
                out.push(RawMessage::Raw(SYSEX_EOX));
                proof {
                    assert(out@ =~= message_raw_spec(*self));
                }
                out
            },
            Message::NoteOn(ch, no, vel) => {
                let sb = status_byte(NOTE_ON, *ch);
                one(RawMessage::StatusDataData(sb, mask7(*no), mask7(*vel)))
            },
            Message::PitchBend(ch, bend) => {
                let sb = status_byte(PITCH_BEND, *ch);
                let (msb, lsb) = u14_to_msb_lsb(*bend);
                one(RawMessage::StatusDataData(sb, lsb, msb))
            },
            Message::PolyphonicPressure(ch, no, vel) => {
                let sb = status_byte(POLYPHONIC_PRESSURE, *ch);
                one(RawMessage::StatusDataData(sb, mask7(*no), mask7(*vel)))
            },
            Message::ChannelPressure(ch, vel) => {
                let sb = status_byte(CHANNEL_PRESSURE, *ch);
                one(RawMessage::StatusData(sb, mask7(*vel)))
            },
        }
    }
}

} // verus!
