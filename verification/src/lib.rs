//! MIDI message types and the lowering of typed messages into wire bytes.
//!
//! The library models the MIDI 1.0 message layer: 16 channels, 7-bit data
//! values, status bytes, and the expansion of high-level events (including
//! RPN/NRPN sequences and System Exclusive framing) into ordered raw byte
//! emissions.

pub mod constants;
pub mod utils;

mod manufacturer;
mod message;
mod raw_message;
mod to_raw_messages;
mod types;

pub use manufacturer::Manufacturer;
pub use message::Message;
pub use message::{channel_cmp, int_cmp, lex_cmp, manufacturer_cmp, message_cmp, ord_chain};
pub use message::lemma_message_order_by_rank;
pub use message::Message::{Start, TimingClock, Continue, Stop, ActiveSensing, SystemReset};
pub use message::Message::{AllSoundOff, ResetAllControllers, LocalControlOff, LocalControlOn};
pub use message::Message::{AllNotesOff, NoteOff, ProgramChange, ControlChange, RPN7, RPN14};
pub use message::Message::{NRPN7, NRPN14, SysEx, NoteOn, PitchBend, PolyphonicPressure};
pub use message::Message::ChannelPressure;
pub use raw_message::RawMessage;
pub use to_raw_messages::ToRawMessages;
pub use to_raw_messages::lemma_lowering_nonempty;
pub use to_raw_messages::{cc_spec, control_change_spec, masked_raw_seq, message_raw_spec, raw_seq};
pub use raw_message::RawMessage::{Status, StatusData, StatusDataData, Raw};
pub use types::{Channel, U7, U14};
pub use types::Channel::{Ch1, Ch2, Ch3, Ch4, Ch5, Ch6, Ch7, Ch8};
pub use types::Channel::{Ch9, Ch10, Ch11, Ch12, Ch13, Ch14, Ch15, Ch16};
