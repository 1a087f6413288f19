//! Failure conditions surfaced by the core. All of them are local,
//! recoverable-by-caller outcomes; none is fatal.

use vstd::prelude::*;

verus! {

/// The error kinds reported by the core's operations.
#[derive(Clone, Copy, PartialEq, Eq, Debug)]
pub enum Error {
    /// Verification was attempted across incompatible key/signature
    /// variants; reported to the caller, never retried.
    SigningKeyTypeMismatch,
    /// Verification was performed on matching variants but the
    /// cryptographic check failed.
    InvalidSignature,
    /// An append's expected-version guard did not match the current
    /// length; carries the length at the time of the call.
    VersionMismatch(u64),
    /// Malformed portable text, a wrong base tag, or a payload that fails
    /// canonical deserialization into any known variant.
    FailedToParse,
}

} // verus!
