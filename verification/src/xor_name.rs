//! The fixed-length opaque address used to name a sequence on the network,
//! or derived deterministically from a public key.

use vstd::prelude::*;

verus! {

/// Length in bytes of an `XorName`.
pub const XOR_NAME_LEN: usize = 32;

/// A fixed 32-byte opaque network address, totally ordered by byte value.
#[derive(Clone, Copy, PartialEq, Eq, PartialOrd, Ord, Hash, Debug)]
pub struct XorName(pub [u8; 32]);

impl Default for XorName {
    /// The all-zero name.
    fn default() -> (r: Self)
        ensures
            forall|i: int| 0 <= i < 32 ==> r.0@[i] == 0u8,
    {
        XorName([0u8; 32])
    }
}

} // verus!
