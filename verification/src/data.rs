//! The append-only, versioned entry log: an ordered sequence of opaque
//! entries addressed through `Version` values and mutated only through an
//! optimistic-concurrency-controlled append.
//!
//! Authorization policy for `PrivateSequence` writes is delegated to an
//! external access-control collaborator; this core only enforces version
//! agreement.

use vstd::prelude::*;

use crate::errors::Error;
use crate::shared_types::{resolved_index, Version};
use crate::xor_name::XorName;

verus! {

/// The contiguous slice of `log` addressed by `start` and `end`, both
/// inclusive: present exactly when both versions resolve against the log's
/// length and the resolved start does not exceed the resolved end.
pub open spec fn in_range_spec(log: Seq<Seq<u8>>, start: Version, end: Version) -> Option<
    Seq<Seq<u8>>,
> {
    match (resolved_index(log.len(), start), resolved_index(log.len(), end)) {
        (Some(s), Some(e)) => if s <= e {
            Some(log.subrange(s, e + 1))
        } else {
            None
        },
        _ => None,
    }
}

/// The outcome of an append under an optimistic-concurrency guard: when the
/// guard is present and misses the current length, the log is unchanged and
/// a version mismatch carrying that length is reported; otherwise all values
/// are appended in order as one atomic length increment.
pub open spec fn append_spec(
    log: Seq<Seq<u8>>,
    values: Seq<Seq<u8>>,
    expected_version: Option<u64>,
) -> Result<Seq<Seq<u8>>, Error> {
    match expected_version {
        Some(v) => if v == log.len() {
            Ok(log + values)
        } else {
            Err(Error::VersionMismatch(log.len() as u64))
        },
        None => Ok(log + values),
    }
}

/// An in-range query is present exactly when both versions resolve and do
/// not invert, and its result then spans the addressed indices inclusively.
pub proof fn lemma_in_range_present(log: Seq<Seq<u8>>, start: Version, end: Version)
    ensures
        (in_range_spec(log, start, end) is Some) <==> {
            &&& resolved_index(log.len(), start) is Some
            &&& resolved_index(log.len(), end) is Some
            &&& resolved_index(log.len(), start).unwrap() <= resolved_index(
                log.len(),
                end,
            ).unwrap()
        },
        in_range_spec(log, start, end) matches Some(v) ==> v.len() == resolved_index(
            log.len(),
            end,
        ).unwrap() - resolved_index(log.len(), start).unwrap() + 1,
{
}

/// An append under a correct guard succeeds and grows the length by
/// exactly the number of entries appended, and those entries are all
/// retrievable, in append order, as the range from the old length through
/// the most recent entry.
pub proof fn lemma_appended_entries_retrievable(log: Seq<Seq<u8>>, values: Seq<Seq<u8>>)
    requires
        log.len() + values.len() <= u64::MAX,
    ensures
        append_spec(log, values, Some(log.len() as u64)) matches Ok(newlog) && newlog.len()
            == log.len() + values.len(),
        values.len() > 0 ==> (append_spec(log, values, Some(log.len() as u64)) matches Ok(newlog)
            && in_range_spec(
            newlog,
            Version::FromStart(log.len() as u64),
            Version::FromEnd(0),
        ) == Some(values)),
{
    if values.len() > 0 {
        let newlog = log + values;
        assert(newlog.subrange(log.len() as int, newlog.len() as int) =~= values);
    }
}

fn clone_entry(v: &Vec<u8>) -> (r: Vec<u8>)
    ensures
        r@ == v@,
{
    let mut r: Vec<u8> = Vec::new();
    let mut i: usize = 0;
    while i < v.len()
        invariant
            i <= v.len(),
            r@ == v@.subrange(0, i as int),
        decreases v.len() - i,
    {
        r.push(v[i]);
        i += 1;
    }
    assert(r@ =~= v@);
    r
}

fn in_range_impl(log: &Vec<Vec<u8>>, start: Version, end: Version) -> (r: Option<Vec<Vec<u8>>>)
    ensures
        match r {
            Some(v) => in_range_spec(log.deep_view(), start, end) == Some(v.deep_view()),
            None => in_range_spec(log.deep_view(), start, end) is None,
        },
{
    let len = log.len() as u64;
    assert(log.deep_view().len() == log@.len());
    let s = match start.resolve(len) {
        Some(i) => i,
        None => {
            return None;
        },
    };
    let e = match end.resolve(len) {
        Some(i) => i,
        None => {
            return None;
        },
    };
    if s > e {
        return None;
    }
    let mut out: Vec<Vec<u8>> = Vec::new();
    let mut i: usize = s as usize;
    while i <= e as usize
        invariant
            s <= e < len,
            len == log.len(),
            s as usize <= i <= e as usize + 1,
            out.deep_view() == log.deep_view().subrange(s as int, i as int),
        decreases e as usize + 1 - i,
    {
        let ghost pre = out.deep_view();
        let entry = clone_entry(&log[i]);
        proof {
            assert(entry.deep_view() =~= log@[i as int].deep_view());
        }
        out.push(entry);
        proof {
            let ld = log.deep_view();
            assert(out.deep_view() =~= pre.push(ld[i as int]));
            assert(ld.subrange(s as int, i + 1 as int) =~= ld.subrange(s as int, i as int).push(
                ld[i as int],
            ));
        }
        i += 1;
    }
    proof {
        assert(out.deep_view() =~= log.deep_view().subrange(s as int, e + 1 as int));
    }
    Some(out)
}

fn append_impl(log: &mut Vec<Vec<u8>>, values: &Vec<Vec<u8>>, expected_version: Option<u64>) -> (r:
    Result<(), Error>)
    ensures
        match append_spec(old(log).deep_view(), values.deep_view(), expected_version) {
            Ok(newlog) => r is Ok && final(log).deep_view() == newlog,
            Err(e) => r == Err::<(), Error>(e) && final(log)@ == old(log)@,
        },
{
    if let Some(v) = expected_version {
        if v != log.len() as u64 {
            return Err(Error::VersionMismatch(log.len() as u64));
        }
    }
    let ghost orig = log.deep_view();
    let mut i: usize = 0;
    while i < values.len()
        invariant
            i <= values.len(),
            log.deep_view() == orig + values.deep_view().subrange(0, i as int),
        decreases values.len() - i,
    {
        let ghost pre = log.deep_view();
        let entry = clone_entry(&values[i]);
        proof {
            assert(entry.deep_view() =~= values@[i as int].deep_view());
        }
        log.push(entry);
        proof {
            let vd = values.deep_view();
            assert(log.deep_view() =~= pre.push(vd[i as int]));
            assert(vd.subrange(0, i + 1 as int) =~= vd.subrange(0, i as int).push(vd[i as int]));
        }
        i += 1;
    }
    proof {
        assert(log.deep_view() =~= orig + values.deep_view());
    }
    Ok(())
}

/// An append-only entry log with unrestricted read access: ownership and
/// authorization are enforced by an external collaborator; this core only
/// enforces version agreement on mutation.
pub struct PublicSequence {
    /// The address naming this sequence on the network.
    pub address: XorName,
    /// An application-defined sub-namespace tag.
    pub tag: u64,
    /// The entries, oldest first; insertion order is the version order.
    pub entries: Vec<Vec<u8>>,
}

impl PublicSequence {
    /// The history of this sequence as a mathematical sequence of entries,
    /// oldest first.
    pub open spec fn log(&self) -> Seq<Seq<u8>> {
        self.entries.deep_view()
    }

    /// A new, empty sequence at the given address and tag.
    pub fn new(address: XorName, tag: u64) -> (r: Self)
        ensures
            r.address == address,
            r.tag == tag,
            r.log() == Seq::<Seq<u8>>::empty(),
    {
        let r = PublicSequence { address, tag, entries: Vec::new() };
        proof {
            assert(r.log() =~= Seq::<Seq<u8>>::empty());
        }
        r
    }

    /// The address naming this sequence.
    pub fn address(&self) -> (r: XorName)
        ensures
            r == self.address,
    {
        self.address
    }

    /// The application-defined tag.
    pub fn tag(&self) -> (r: u64)
        ensures
            r == self.tag,
    {
        self.tag
    }

    /// The current length of the history, which is also the version count
    /// used by the optimistic-concurrency guard.
    pub fn len(&self) -> (r: u64)
        ensures
            r == self.log().len(),
    {
        self.entries.len() as u64
    }

    /// Appends `values` atomically at the end of the history, unless the
    /// guard `expected_version` is present and differs from the current
    /// length, in which case the sequence is left unchanged and a version
    /// mismatch is reported.
    pub fn append(&mut self, values: Vec<Vec<u8>>, expected_version: Option<u64>) -> (r: Result<
        (),
        Error,
    >)
        ensures
            match append_spec(old(self).log(), values.deep_view(), expected_version) {
                Ok(newlog) => r is Ok && final(self).log() == newlog,
                Err(e) => r == Err::<(), Error>(e) && final(self).log() == old(self).log(),
            },
            final(self).address == old(self).address,
            final(self).tag == old(self).tag,
    {
        append_impl(&mut self.entries, &values, expected_version)
    }

    /// The contiguous slice of history from `start` through `end`, both
    /// inclusive, in ascending version order; absent when either end is
    /// unresolvable against the current length or the range inverts.
    pub fn in_range(&self, start: Version, end: Version) -> (r: Option<Vec<Vec<u8>>>)
        ensures
            match r {
                Some(v) => in_range_spec(self.log(), start, end) == Some(v.deep_view()),
                None => in_range_spec(self.log(), start, end) is None,
            },
    {
        in_range_impl(&self.entries, start, end)
    }
}

/// An append-only entry log whose reads are restricted and whose appends
/// carry a verified appender identity; which identities are authorized is
/// decided by an external access-control collaborator, so this core keeps
/// the same version-agreement contract as the public variant.
pub struct PrivateSequence {
    /// The address naming this sequence on the network.
    pub address: XorName,
    /// An application-defined sub-namespace tag.
    pub tag: u64,
    /// The entries, oldest first; insertion order is the version order.
    pub entries: Vec<Vec<u8>>,
}

impl PrivateSequence {
    /// The history of this sequence as a mathematical sequence of entries,
    /// oldest first.
    pub open spec fn log(&self) -> Seq<Seq<u8>> {
        self.entries.deep_view()
    }

    /// A new, empty sequence at the given address and tag.
    pub fn new(address: XorName, tag: u64) -> (r: Self)
        ensures
            r.address == address,
            r.tag == tag,
            r.log() == Seq::<Seq<u8>>::empty(),
    {
        let r = PrivateSequence { address, tag, entries: Vec::new() };
        proof {
            assert(r.log() =~= Seq::<Seq<u8>>::empty());
        }
        r
    }

    /// The address naming this sequence.
    pub fn address(&self) -> (r: XorName)
        ensures
            r == self.address,
    {
        self.address
    }

    /// The application-defined tag.
    pub fn tag(&self) -> (r: u64)
        ensures
            r == self.tag,
    {
        self.tag
    }

    /// The current length of the history, which is also the version count
    /// used by the optimistic-concurrency guard.
    pub fn len(&self) -> (r: u64)
        ensures
            r == self.log().len(),
    {
        self.entries.len() as u64
    }

    /// Appends `values` atomically at the end of the history, unless the
    /// guard `expected_version` is present and differs from the current
    /// length, in which case the sequence is left unchanged and a version
    /// mismatch is reported.
    pub fn append(&mut self, values: Vec<Vec<u8>>, expected_version: Option<u64>) -> (r: Result<
        (),
        Error,
    >)
        ensures
            match append_spec(old(self).log(), values.deep_view(), expected_version) {
                Ok(newlog) => r is Ok && final(self).log() == newlog,
                Err(e) => r == Err::<(), Error>(e) && final(self).log() == old(self).log(),
            },
            final(self).address == old(self).address,
            final(self).tag == old(self).tag,
    {
        append_impl(&mut self.entries, &values, expected_version)
    }

    /// The contiguous slice of history from `start` through `end`, both
    /// inclusive, in ascending version order; absent when either end is
    /// unresolvable against the current length or the range inverts.
    pub fn in_range(&self, start: Version, end: Version) -> (r: Option<Vec<Vec<u8>>>)
        ensures
            match r {
                Some(v) => in_range_spec(self.log(), start, end) == Some(v.deep_view()),
                None => in_range_spec(self.log(), start, end) is None,
            },
    {
        in_range_impl(&self.entries, start, end)
    }
}

} // verus!
