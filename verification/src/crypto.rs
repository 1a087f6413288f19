//! The trusted boundary to the outside cryptography and text-encoding
//! providers. Every function here is believed, not verified: each one only
//! converts plain byte values to and from the provider's native types and
//! makes a single conceptual call into the provider. Results that are pure
//! functions of the arguments are given uninterpreted names so that the
//! verified callers can state exact contracts over them.

use vstd::prelude::*;

use ed25519_dalek::Verifier;
use rand::rngs::OsRng;
use threshold_crypto::serde_impl::SerdeSecret;

verus! {

/// The Ed25519 public key (32 bytes) derived from 32 secret-key bytes; a
/// fixed empty value on bytes of any other length.
pub uninterp spec fn ed25519_public_of(secret: Seq<u8>) -> Seq<u8>;

/// The deterministic Ed25519 signature (64 bytes) over a message under 32
/// secret-key bytes; a fixed empty value on bytes of any other length.
pub uninterp spec fn ed25519_signed(secret: Seq<u8>, msg: Seq<u8>) -> Seq<u8>;

/// Whether signature bytes parse as an Ed25519 signature and verify over a
/// message under the given public-key bytes.
pub uninterp spec fn ed25519_sig_valid(public: Seq<u8>, sig: Seq<u8>, msg: Seq<u8>) -> bool;

/// Whether bytes are the canonical serialized form of a BLS secret key.
pub uninterp spec fn bls_secret_wf(secret: Seq<u8>) -> bool;

/// The BLS public key (48 bytes, compressed) matching serialized secret-key
/// bytes; a fixed empty value on bytes that decode into no secret key.
pub uninterp spec fn bls_public_of(secret: Seq<u8>) -> Seq<u8>;

/// The deterministic BLS signature (96 bytes, compressed) over a message
/// under serialized secret-key bytes; a fixed empty value on bytes that
/// decode into no secret key.
pub uninterp spec fn bls_signed(secret: Seq<u8>, msg: Seq<u8>) -> Seq<u8>;

/// Whether signature bytes parse as a BLS signature and verify over a
/// message under the given public-key bytes.
pub uninterp spec fn bls_sig_valid(public: Seq<u8>, sig: Seq<u8>, msg: Seq<u8>) -> bool;

/// Whether bytes are the canonical serialized form of a BLS secret-key
/// share.
pub uninterp spec fn bls_share_secret_wf(secret: Seq<u8>) -> bool;

/// The BLS public-key share (48 bytes, compressed) matching serialized
/// secret-key-share bytes; a fixed empty value on undecodable bytes.
pub uninterp spec fn bls_share_public_of(secret: Seq<u8>) -> Seq<u8>;

/// The deterministic BLS signature share (96 bytes, compressed) over a
/// message under serialized secret-key-share bytes; a fixed empty value on
/// undecodable bytes.
pub uninterp spec fn bls_share_signed(secret: Seq<u8>, msg: Seq<u8>) -> Seq<u8>;

/// Whether signature bytes parse as a BLS signature share and verify over a
/// message under the given public-key-share bytes.
pub uninterp spec fn bls_share_sig_valid(public: Seq<u8>, sig: Seq<u8>, msg: Seq<u8>) -> bool;

/// The z-base-32 multibase text (leading base tag included) encoding the
/// given bytes.
pub uninterp spec fn zbase32_of(bytes: Seq<u8>) -> Seq<char>;

/// The outcome of multibase decoding: `None` on text that is no multibase
/// string, otherwise whether the base tag was z-base-32, and the decoded
/// bytes.
pub uninterp spec fn multibase_decoded(text: Seq<char>) -> Option<(bool, Seq<u8>)>;

/// Relies on ed25519_dalek::Keypair::generate: a fresh random signing key;
/// its public half is the Ed25519 derivation of its 32 secret bytes.
#[verifier::external_body]
pub(crate) fn ed25519_generate() -> (r: (Vec<u8>, Vec<u8>))
    ensures
        r.0@.len() == 32,
        r.1@.len() == 32,
        r.1@ == ed25519_public_of(r.0@),
{
    let keypair = ed25519_dalek::Keypair::generate(&mut OsRng);
    (keypair.secret.to_bytes().to_vec(), keypair.public.to_bytes().to_vec())
}

/// Relies on ed25519_dalek::SecretKey::from_bytes and
/// ed25519_dalek::PublicKey::from(&SecretKey): the public key derived from
/// 32 secret bytes, in its 32-byte form.
#[verifier::external_body]
pub(crate) fn ed25519_derive_public(secret: &Vec<u8>) -> (r: Vec<u8>)
    ensures
        r@ == ed25519_public_of(secret@),
        secret@.len() == 32 ==> r@.len() == 32,
{
    match ed25519_dalek::SecretKey::from_bytes(secret) {
        Ok(sk) => ed25519_dalek::PublicKey::from(&sk).to_bytes().to_vec(),
        Err(_) => Vec::new(),
    }
}

/// Relies on ed25519_dalek::ExpandedSecretKey::sign: the deterministic
/// Ed25519 signature over the message; by the scheme's correctness it
/// verifies under the public key derived from the same secret.
#[verifier::external_body]
pub(crate) fn ed25519_sign(secret: &Vec<u8>, msg: &[u8]) -> (r: Vec<u8>)
    ensures
        r@ == ed25519_signed(secret@, msg@),
        secret@.len() == 32 ==> ed25519_sig_valid(ed25519_public_of(secret@), r@, msg@),
{
    match ed25519_dalek::SecretKey::from_bytes(secret) {
        Ok(sk) => {
            let public = ed25519_dalek::PublicKey::from(&sk);
            let expanded = ed25519_dalek::ExpandedSecretKey::from(&sk);
            expanded.sign(msg, &public).to_bytes().to_vec()
        },
        Err(_) => Vec::new(),
    }
}

/// Relies on ed25519_dalek::PublicKey::verify (with PublicKey::from_bytes
/// and Signature::from_bytes): true exactly when all bytes parse and the
/// signature cryptographically verifies over the message.
#[verifier::external_body]
pub(crate) fn ed25519_verify(public: &Vec<u8>, sig: &Vec<u8>, msg: &[u8]) -> (r: bool)
    ensures
        r == ed25519_sig_valid(public@, sig@, msg@),
{
    let pk = match ed25519_dalek::PublicKey::from_bytes(public) {
        Ok(k) => k,
        Err(_) => return false,
    };
    let signature = match ed25519_dalek::Signature::from_bytes(sig) {
        Ok(s) => s,
        Err(_) => return false,
    };
    pk.verify(msg, &signature).is_ok()
}

/// Relies on threshold_crypto::SecretKey::random, serialized with bincode
/// over SerdeSecret, the only byte form the provider offers for secrets:
/// fresh canonical secret-key bytes.
#[verifier::external_body]
pub(crate) fn bls_generate_secret() -> (r: Vec<u8>)
    ensures
        bls_secret_wf(r@),
{
    let sk = threshold_crypto::SecretKey::random();
    bincode::serialize(&SerdeSecret(&sk)).expect("a field element always serializes")
}

/// Relies on threshold_crypto::SecretKey::public_key, reached through
/// bincode deserialization of the secret bytes: the matching public key in
/// its 48-byte compressed form.
#[verifier::external_body]
pub(crate) fn bls_derive_public(secret: &Vec<u8>) -> (r: Vec<u8>)
    ensures
        r@ == bls_public_of(secret@),
        bls_secret_wf(secret@) ==> r@.len() == 48,
{
    match bincode::deserialize::<threshold_crypto::SecretKey>(secret) {
        Ok(sk) => sk.public_key().to_bytes().to_vec(),
        Err(_) => Vec::new(),
    }
}

/// Relies on threshold_crypto::SecretKey::sign, reached through bincode
/// deserialization of the secret bytes: the deterministic BLS signature
/// over the message; by the scheme's correctness it verifies under the
/// public key of the same secret.
#[verifier::external_body]
pub(crate) fn bls_sign(secret: &Vec<u8>, msg: &[u8]) -> (r: Vec<u8>)
    ensures
        r@ == bls_signed(secret@, msg@),
        bls_secret_wf(secret@) ==> bls_sig_valid(bls_public_of(secret@), r@, msg@),
{
    match bincode::deserialize::<threshold_crypto::SecretKey>(secret) {
        Ok(sk) => sk.sign(msg).to_bytes().to_vec(),
        Err(_) => Vec::new(),
    }
}

/// Relies on threshold_crypto::PublicKey::verify (with the from_bytes
/// parsers): true exactly when all bytes parse and the signature
/// cryptographically verifies over the message.
#[verifier::external_body]
pub(crate) fn bls_verify(public: &Vec<u8>, sig: &Vec<u8>, msg: &[u8]) -> (r: bool)
    ensures
        r == bls_sig_valid(public@, sig@, msg@),
{
    if public.len() != 48 || sig.len() != 96 {
        return false;
    }
    let mut pk_bytes = [0u8; 48];
    pk_bytes.copy_from_slice(public);
    let mut sig_bytes = [0u8; 96];
    sig_bytes.copy_from_slice(sig);
    match (
        threshold_crypto::PublicKey::from_bytes(pk_bytes),
        threshold_crypto::Signature::from_bytes(sig_bytes),
    ) {
        (Ok(pk), Ok(signature)) => pk.verify(&signature, msg),
        _ => false,
    }
}

/// Relies on bincode deserialization of threshold_crypto::SecretKeyShare:
/// whether the bytes are the canonical form of a secret-key share.
#[verifier::external_body]
pub(crate) fn bls_share_secret_parses(secret: &Vec<u8>) -> (r: bool)
    ensures
        r == bls_share_secret_wf(secret@),
{
    bincode::deserialize::<threshold_crypto::SecretKeyShare>(secret).is_ok()
}

/// Relies on threshold_crypto::SecretKeyShare::public_key_share, reached
/// through bincode deserialization of the share bytes: the matching
/// public-key share in its 48-byte compressed form.
#[verifier::external_body]
pub(crate) fn bls_share_derive_public(secret: &Vec<u8>) -> (r: Vec<u8>)
    ensures
        r@ == bls_share_public_of(secret@),
        bls_share_secret_wf(secret@) ==> r@.len() == 48,
{
    match bincode::deserialize::<threshold_crypto::SecretKeyShare>(secret) {
        Ok(sk) => sk.public_key_share().to_bytes().to_vec(),
        Err(_) => Vec::new(),
    }
}

/// Relies on threshold_crypto::SecretKeyShare::sign, reached through
/// bincode deserialization of the share bytes: the deterministic BLS
/// signature share over the message; by the scheme's correctness it
/// verifies under the public-key share of the same secret share.
#[verifier::external_body]
pub(crate) fn bls_share_sign(secret: &Vec<u8>, msg: &[u8]) -> (r: Vec<u8>)
    ensures
        r@ == bls_share_signed(secret@, msg@),
        bls_share_secret_wf(secret@) ==> bls_share_sig_valid(
            bls_share_public_of(secret@),
            r@,
            msg@,
        ),
{
    match bincode::deserialize::<threshold_crypto::SecretKeyShare>(secret) {
        Ok(sk) => sk.sign(msg).to_bytes().to_vec(),
        Err(_) => Vec::new(),
    }
}

/// Relies on threshold_crypto::PublicKeyShare::verify (with the from_bytes
/// parsers): true exactly when all bytes parse and the signature share
/// cryptographically verifies over the message.
#[verifier::external_body]
pub(crate) fn bls_share_verify(public: &Vec<u8>, sig: &Vec<u8>, msg: &[u8]) -> (r: bool)
    ensures
        r == bls_share_sig_valid(public@, sig@, msg@),
{
    if public.len() != 48 || sig.len() != 96 {
        return false;
    }
    let mut pk_bytes = [0u8; 48];
    pk_bytes.copy_from_slice(public);
    let mut sig_bytes = [0u8; 96];
    sig_bytes.copy_from_slice(sig);
    match (
        threshold_crypto::PublicKeyShare::from_bytes(pk_bytes),
        threshold_crypto::SignatureShare::from_bytes(sig_bytes),
    ) {
        (Ok(pk), Ok(signature)) => pk.verify(&signature, msg),
        _ => false,
    }
}

/// Relies on multibase::encode with the z-base-32 base: the self-describing
/// text encoding of the bytes, which multibase::decode inverts (the
/// provider's documented round trip).
#[verifier::external_body]
pub(crate) fn multibase_encode_z(bytes: &Vec<u8>) -> (r: String)
    ensures
        r@ == zbase32_of(bytes@),
        multibase_decoded(r@) == Some((true, bytes@)),
{
    multibase::encode(multibase::Base::Base32Z, bytes)
}

/// Relies on multibase::decode: the base named by the leading tag (reported
/// here as whether it is z-base-32) and the decoded bytes, or `None` on
/// text that is no multibase string.
#[verifier::external_body]
pub(crate) fn multibase_decode(text: &str) -> (r: Option<(bool, Vec<u8>)>)
    ensures
        match r {
            Some((is_z, bytes)) => multibase_decoded(text@) == Some((is_z, bytes@)),
            None => multibase_decoded(text@) is None,
        },
{
    match multibase::decode(text) {
        Ok((base, bytes)) => Some((matches!(base, multibase::Base::Base32Z), bytes)),
        Err(_) => None,
    }
}

} // verus!
