use std::cmp::Ordering;

use midi::Channel;
use midi::Manufacturer::{OneByte, ThreeByte};
use midi::Message;
use midi::Message::{ControlChange, NoteOff, NoteOn, PitchBend, ProgramChange, Start, SysEx,
    TimingClock};
use midi::RawMessage::{Raw, Status, StatusData, StatusDataData};
use midi::ToRawMessages;
use midi::utils::{mask14, mask7, msb_lsb_to_u14, u14_to_msb_lsb};

#[test]
fn test_mask7_idempotent_and_value() {
    for i in 0..=255u8 {
        assert_eq!(mask7(mask7(i)), mask7(i));
        if i <= 127 {
            assert_eq!(mask7(i), i);
        } else {
            assert_eq!(mask7(i), i - 128);
        }
    }
}

#[test]
fn test_mask14_idempotent_and_value() {
    for i in 0..=65535u16 {
        assert_eq!(mask14(mask14(i)), mask14(i));
        if i <= 16383 {
            assert_eq!(mask14(i), i);
        } else {
            assert!(mask14(i) != i);
        }
    }
}

#[test]
fn test_msb_lsb_round_trip_full_range() {
    for i in 0..=65535u16 {
        let (msb, lsb) = u14_to_msb_lsb(mask14(i));
        assert_eq!(msb_lsb_to_u14(msb, lsb), mask14(i));
    }
}

#[test]
fn test_note_on_scenario() {
    assert_eq!(
        NoteOn(Channel::Ch1, 60, 100).to_raw_messages(),
        vec![StatusDataData(0x90, 60, 100)]
    );
}

#[test]
fn test_pitch_bend_scenario() {
    assert_eq!((7, 104), u14_to_msb_lsb(1000));
    assert_eq!(
        PitchBend(Channel::Ch1, 1000).to_raw_messages(),
        vec![StatusDataData(0xE0, 104, 7)]
    );
}

#[test]
fn test_raw_message_to_raw_messages_is_identity() {
    assert_eq!(Status(0xFA).to_raw_messages(), vec![Status(0xFA)]);
    assert_eq!(StatusData(0xC0, 5).to_raw_messages(), vec![StatusData(0xC0, 5)]);
    assert_eq!(StatusDataData(0x90, 60, 100).to_raw_messages(), vec![StatusDataData(0x90, 60, 100)]);
    assert_eq!(Raw(0x42).to_raw_messages(), vec![Raw(0x42)]);
}

#[test]
fn test_channel_construction() {
    assert_eq!(Channel::from_u64(0), Some(Channel::Ch1));
    assert_eq!(Channel::from_u64(15), Some(Channel::Ch16));
    assert_eq!(Channel::from_u64(16), None);
    assert_eq!(Channel::from_u64(u64::MAX), None);
    assert_eq!(Channel::from_i64(11), Some(Channel::Ch12));
    assert_eq!(Channel::from_i64(-1), None);
    assert_eq!(Channel::from_i64(16), None);
    for n in 0..16u64 {
        let c = Channel::from_u64(n).unwrap();
        assert_eq!(c.index() as u64, n);
    }
}

#[test]
fn test_manufacturer_to_u7s() {
    assert_eq!(OneByte(100).to_u7s(), vec![100]);
    assert_eq!(OneByte(128).to_u7s(), vec![0]);
    assert_eq!(ThreeByte(100, 101, 128).to_u7s(), vec![100, 101, 0]);
}

#[test]
fn test_message_ordering_by_rank() {
    // Lower-ranked messages sort first, whatever the payloads hold.
    let a = Start;
    let b = NoteOn(Channel::Ch1, 0, 0);
    let mut batch = vec![b.clone(), a.clone()];
    batch.sort_by(|x, y| x.partial_cmp(y).unwrap());
    assert_eq!(batch, vec![a, b]);

    assert!(Start < TimingClock);
    assert!(NoteOff(Channel::Ch16, 127, 127) < ProgramChange(Channel::Ch1, 0));
    assert!(ProgramChange(Channel::Ch16, 127) < ControlChange(Channel::Ch1, 0, 0));
    assert!(ControlChange(Channel::Ch16, 127, 127) < NoteOn(Channel::Ch1, 0, 0));
    assert!(SysEx(ThreeByte(127, 127, 127), vec![127]) < NoteOn(Channel::Ch1, 0, 0));
}

#[test]
fn test_message_ordering_field_tie_breaks() {
    // Equal ranks compare channel first, then the payload fields in order.
    assert!(NoteOff(Channel::Ch1, 0, 0) < NoteOff(Channel::Ch1, 0, 1));
    assert!(NoteOff(Channel::Ch1, 0, 1) < NoteOff(Channel::Ch1, 1, 0));
    assert!(NoteOff(Channel::Ch1, 1, 1) < NoteOff(Channel::Ch2, 0, 0));
    assert!(SysEx(OneByte(1), vec![1]) < SysEx(OneByte(1), vec![1, 0]));
    assert!(SysEx(OneByte(1), vec![1, 0]) < SysEx(OneByte(1), vec![2]));
    assert!(SysEx(OneByte(2), vec![9]) < SysEx(ThreeByte(0, 0, 0), vec![]));
    assert_eq!(
        NoteOn(Channel::Ch3, 60, 100).partial_cmp(&NoteOn(Channel::Ch3, 60, 100)),
        Some(Ordering::Equal)
    );
    assert!(SysEx(OneByte(1), vec![1, 2]) == SysEx(OneByte(1), vec![1, 2]));
    assert!(SysEx(OneByte(1), vec![1, 2]) != SysEx(OneByte(1), vec![1, 3]));
    assert!(Message::Stop == Message::Stop);
    assert!(Message::Stop != Message::Continue);
}

#[test]
fn test_message_rank_order_is_declaration_order() {
    let ordered: Vec<Message> = vec![
        Message::Start,
        Message::TimingClock,
        Message::Continue,
        Message::Stop,
        Message::ActiveSensing,
        Message::SystemReset,
        Message::AllSoundOff(Channel::Ch1),
        Message::ResetAllControllers(Channel::Ch1),
        Message::LocalControlOff(Channel::Ch1),
        Message::LocalControlOn(Channel::Ch1),
        Message::AllNotesOff(Channel::Ch1),
        Message::NoteOff(Channel::Ch1, 0, 0),
        Message::ProgramChange(Channel::Ch1, 0),
        Message::ControlChange(Channel::Ch1, 0, 0),
        Message::RPN7(Channel::Ch1, 0, 0),
        Message::RPN14(Channel::Ch1, 0, 0),
        Message::NRPN7(Channel::Ch1, 0, 0),
        Message::NRPN14(Channel::Ch1, 0, 0),
        Message::SysEx(OneByte(0), vec![]),
        Message::NoteOn(Channel::Ch1, 0, 0),
        Message::PitchBend(Channel::Ch1, 0),
        Message::PolyphonicPressure(Channel::Ch1, 0, 0),
        Message::ChannelPressure(Channel::Ch1, 0),
    ];
    for (i, m) in ordered.iter().enumerate() {
        assert_eq!(m.rank() as usize, i);
        for later in ordered.iter().skip(i + 1) {
            assert!(m < later);
            assert!(later > m);
        }
    }
}
