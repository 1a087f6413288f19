//! Version addressing: a two-mode index into an append-only log, either
//! absolute from the start of history or relative to its most recent entry.

use vstd::prelude::*;

verus! {

/// A position reference into a log of entries, expressed either as an
/// absolute 0-based index from the beginning of history or as a number of
/// steps back from the most recent entry (`FromEnd(0)` is the last entry).
#[derive(Clone, Copy, PartialEq, Eq, Debug)]
pub enum Version {
    /// The entry at absolute index `n` (0-based) from the start of the log.
    FromStart(u64),
    /// The entry `n` steps back from the most recent entry.
    FromEnd(u64),
}

/// Resolution of a `Version` against a log of length `len`: the unique
/// absolute index it denotes, or `None` when it falls outside `[0, len)`.
pub open spec fn resolved_index(len: nat, v: Version) -> Option<int> {
    match v {
        Version::FromStart(n) => if n < len {
            Some(n as int)
        } else {
            None
        },
        Version::FromEnd(n) => if n < len {
            Some(len - 1 - n)
        } else {
            None
        },
    }
}

impl Version {
    /// Resolves this version against a log of length `len` to an absolute
    /// index in `[0, len)`, or to `None` when it is unresolvable. Pure and
    /// total; performs no mutation.
    pub fn resolve(self, len: u64) -> (r: Option<u64>)
        ensures
            r matches Some(i) ==> resolved_index(len as nat, self) == Some(i as int),
            r is None ==> resolved_index(len as nat, self) is None,
    {
        match self {
            Version::FromStart(n) => if n < len {
                Some(n)
            } else {
                None
            },
            Version::FromEnd(n) => if n < len {
                Some(len - 1 - n)
            } else {
                None
            },
        }
    }
}

} // verus!
