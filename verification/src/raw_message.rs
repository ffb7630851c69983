//! The wire-level message representation.

use vstd::prelude::*;

use crate::types::U7;

verus! {

/// One wire-level emission: a bare status byte, a status byte with one or
/// two data bytes, or a single free-form byte as used inside a System
/// Exclusive block.
///
/// The data fields are 7-bit values by convention; the bound is enforced by
/// masking at emission time, not by this type.
#[derive(Debug, Copy, Clone, Eq, PartialEq, Ord, PartialOrd, Hash, Structural)]
pub enum RawMessage {
    Status(u8),
    StatusData(u8, U7),
    StatusDataData(u8, U7, U7),
    /// Raw 8-bit data, useful for SysEx
    Raw(u8),
}

} // verus!
