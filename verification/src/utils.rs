//! Byte-level helpers shared by the core, and the message-authentication
//! helper that the private-append path and the broader protocol layer
//! share: both sides must build the identical canonical payload over a
//! message and its identifier, or no signature verifies.

use vstd::prelude::*;

use crate::errors::Error;
use crate::keys::{verify_spec, PublicKey, Signature};
use crate::xor_name::XorName;

verus! {

/// A unique identifier of a protocol message, carried as an opaque
/// fixed-length address.
#[derive(Clone, Copy, PartialEq, Eq, Hash, Debug)]
pub struct MessageId(pub XorName);

pub(crate) fn clone_bytes(v: &Vec<u8>) -> (r: Vec<u8>)
    ensures
        r@ == v@,
{
    let mut r: Vec<u8> = Vec::new();
    let mut i: usize = 0;
    while i < v.len()
        invariant
            i <= v.len(),
            r@ == v@.subrange(0, i as int),
        decreases v.len() - i,
    {
        r.push(v[i]);
        i += 1;
    }
    assert(r@ =~= v@);
    r
}

pub(crate) fn push_bytes(out: &mut Vec<u8>, b: &Vec<u8>)
    ensures
        final(out)@ == old(out)@ + b@,
{
    let mut i: usize = 0;
    while i < b.len()
        invariant
            i <= b.len(),
            out@ == old(out)@ + b@.subrange(0, i as int),
        decreases b.len() - i,
    {
        proof {
            assert(out@.push(b@[i as int]) =~= old(out)@ + b@.subrange(0, i + 1 as int));
        }
        out.push(b[i]);
        i += 1;
    }
    proof {
        assert(old(out)@ + b@.subrange(0, b@.len() as int) =~= old(out)@ + b@);
    }
}

pub(crate) fn bytes_of_slice_range(b: &[u8], from: usize, to: usize) -> (r: Vec<u8>)
    requires
        from <= to <= b@.len(),
    ensures
        r@ == b@.subrange(from as int, to as int),
{
    let mut r: Vec<u8> = Vec::new();
    let mut i: usize = from;
    while i < to
        invariant
            from <= i <= to <= b@.len(),
            r@ == b@.subrange(from as int, i as int),
        decreases to - i,
    {
        proof {
            assert(b@.subrange(from as int, i + 1 as int) =~= b@.subrange(from as int, i as int).push(
                b@[i as int],
            ));
        }
        r.push(b[i]);
        i += 1;
    }
    r
}

/// The canonical byte payload that is signed and verified for a protocol
/// message: the message bytes followed by the fixed-length identifier, an
/// injective pairing since the identifier's length is fixed.
pub open spec fn signed_payload_spec(message: Seq<u8>, message_id: MessageId) -> Seq<u8> {
    message + message_id.0.0@
}

/// Builds the canonical signing payload over a message and its identifier;
/// sign and verify sides must both use this exact encoding.
pub fn signed_payload(message: &[u8], message_id: &MessageId) -> (r: Vec<u8>)
    ensures
        r@ == signed_payload_spec(message@, *message_id),
{
    let mut out: Vec<u8> = Vec::new();
    let mut i: usize = 0;
    while i < message.len()
        invariant
            i <= message@.len(),
            out@ == message@.subrange(0, i as int),
        decreases message@.len() - i,
    {
        out.push(message[i]);
        i += 1;
    }
    proof {
        assert(out@ =~= message@);
    }
    let mut j: usize = 0;
    while j < 32
        invariant
            j <= 32,
            message_id.0.0@.len() == 32,
            out@ == message@ + message_id.0.0@.subrange(0, j as int),
        decreases 32 - j,
    {
        proof {
            assert(out@.push(message_id.0.0@[j as int]) =~= message@ + message_id.0.0@.subrange(
                0,
                j + 1 as int,
            ));
        }
        out.push(message_id.0 .0[j]);
        j += 1;
    }
    proof {
        assert(message@ + message_id.0.0@.subrange(0, 32) =~= signed_payload_spec(
            message@,
            *message_id,
        ));
    }
    out
}

/// Verifies that `signature` is valid for the pair of `message` and
/// `message_id` under `public_key`: the pair is canonically serialized and
/// handed to the matched-variant verification dispatch.
pub fn verify_signature(
    signature: &Signature,
    public_key: &PublicKey,
    message: &[u8],
    message_id: &MessageId,
) -> (r: Result<(), Error>)
    ensures
        r == verify_spec(public_key@, signature@, signed_payload_spec(message@, *message_id)),
{
    let payload = signed_payload(message, message_id);
    public_key.verify(signature, payload.as_slice())
}

} // verus!
