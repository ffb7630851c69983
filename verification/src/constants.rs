//! Status bytes, status nibbles and controller numbers fixed by the MIDI 1.0
//! specification.

use vstd::prelude::*;

verus! {

// System realtime status bytes.
pub const START: u8 = 0xFA;
pub const TIMING_CLOCK: u8 = 0xF8;
pub const CONTINUE: u8 = 0xFB;
pub const STOP: u8 = 0xFC;
pub const ACTIVE_SENSING: u8 = 0xFE;
pub const SYSTEM_RESET: u8 = 0xFF;

// System exclusive framing bytes.
pub const SYSEX: u8 = 0xF0;
pub const SYSEX_EOX: u8 = 0xF7;

// Channel voice status nibbles (high nibble of the status byte).
pub const NOTE_OFF: u8 = 0x8;
pub const NOTE_ON: u8 = 0x9;
pub const POLYPHONIC_PRESSURE: u8 = 0xA;
pub const CONTROL_CHANGE: u8 = 0xB;
pub const PROGRAM_CHANGE: u8 = 0xC;
pub const CHANNEL_PRESSURE: u8 = 0xD;
pub const PITCH_BEND: u8 = 0xE;

// Controller numbers used by the channel mode messages.
pub const CC_ALL_SOUND_OFF: u8 = 120;
pub const CC_RESET_ALL_CONTROLLERS: u8 = 121;
pub const CC_LOCAL_CONTROL: u8 = 122;
pub const CC_ALL_NOTES_OFF: u8 = 123;

// Controller numbers used by the RPN/NRPN sequences.
pub const CC_RPN_MSB: u8 = 101;
pub const CC_RPN_LSB: u8 = 100;
pub const CC_NRPN_MSB: u8 = 99;
pub const CC_NRPN_LSB: u8 = 98;
pub const CC_DATA_ENTRY_MSB: u8 = 6;
pub const CC_DATA_ENTRY_LSB: u8 = 38;

} // verus!
