//! System Exclusive manufacturer identifiers.

use vstd::prelude::*;

use crate::types::U7;
use crate::utils::{mask7, mask7_spec};

verus! {

/// A SysEx manufacturer ID, in its 1-byte or 3-byte form.
///
/// The bytes are reduced to 7 bits when the ID is emitted, not when it is
/// constructed, so a holder may carry out-of-range bytes until lowering time.
#[derive(Debug, Copy, Clone, Eq, PartialEq, Ord, PartialOrd, Hash, Structural)]
pub enum Manufacturer {
    OneByte(U7),
    ThreeByte(U7, U7, U7),
}

impl Manufacturer {
    /// The canonical ID byte sequence: each stored byte reduced to 7 bits.
    pub open spec fn to_u7s_spec(self) -> Seq<U7> {
        match self {
            Manufacturer::OneByte(b) => seq![mask7_spec(b)],
            Manufacturer::ThreeByte(b1, b2, b3) => seq![
                mask7_spec(b1),
                mask7_spec(b2),
                mask7_spec(b3),
            ],
        }
    }

    /// Emits the manufacturer-ID byte sequence, masking each byte to 7 bits.
    pub fn to_u7s(&self) -> (r: Vec<U7>)
        ensures
            r@ == self.to_u7s_spec(),
    {
        match self {
            Manufacturer::OneByte(b) => {
                let mut out: Vec<U7> = Vec::new();
                out.push(mask7(*b));
                proof {
                    assert(out@ =~= self.to_u7s_spec());
                }
                out
            },
            Manufacturer::ThreeByte(b1, b2, b3) => {
                let mut out: Vec<U7> = Vec::new();
                out.push(mask7(*b1));
                out.push(mask7(*b2));
                out.push(mask7(*b3));
                proof {
                    assert(out@ =~= self.to_u7s_spec());
                }
                out
            },
        }
    }
}

} // verus!
