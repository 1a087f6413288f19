//! Keys, keypairs, and signatures: a closed tagged union over exactly three
//! schemes — single-signer (Ed25519), threshold-group (BLS aggregate), and
//! threshold-group-share — with signing-key-agnostic verification and a
//! canonical byte encoding used uniformly for comparison, signing payloads,
//! and portable text transport.
//!
//! Every key and signature is carried as its scheme's native bytes; the
//! cryptographic primitives themselves are provided by outside crates
//! through the trusted boundary in `crate::crypto`.

use vstd::prelude::*;

use crate::crypto;
use crate::crypto::{
    bls_public_of, bls_secret_wf, bls_share_public_of, bls_share_secret_wf, bls_share_sig_valid,
    bls_share_signed, bls_sig_valid, bls_signed, ed25519_public_of, ed25519_sig_valid,
    ed25519_signed, multibase_decoded, zbase32_of,
};
use crate::errors::Error;
use crate::utils::{bytes_of_slice_range, clone_bytes, push_bytes};
use crate::xor_name::XorName;

verus! {

/// Canonical-encoding tag of the single-signer (Ed25519) scheme.
pub const TAG_ED25519: u8 = 0;

/// Canonical-encoding tag of the threshold-group (BLS) scheme.
pub const TAG_BLS: u8 = 1;

/// Canonical-encoding tag of the threshold-group-share scheme.
pub const TAG_BLS_SHARE: u8 = 2;

/// Wrapper for different public key types, each carried as its scheme's
/// native bytes (32 for Ed25519, 48 compressed for the BLS class).
#[derive(Clone, PartialEq, Eq, PartialOrd, Ord, Hash, Debug)]
pub enum PublicKey {
    /// Ed25519 public key.
    Ed25519(Vec<u8>),
    /// BLS public key.
    Bls(Vec<u8>),
    /// BLS public key share.
    BlsShare(Vec<u8>),
}

/// The mathematical model of a `PublicKey`: its scheme and native bytes.
pub enum PublicKeyView {
    /// Ed25519 public key bytes.
    Ed25519(Seq<u8>),
    /// BLS public key bytes.
    Bls(Seq<u8>),
    /// BLS public key share bytes.
    BlsShare(Seq<u8>),
}

impl View for PublicKey {
    type V = PublicKeyView;

    open spec fn view(&self) -> PublicKeyView {
        match self {
            PublicKey::Ed25519(b) => PublicKeyView::Ed25519(b@),
            PublicKey::Bls(b) => PublicKeyView::Bls(b@),
            PublicKey::BlsShare(b) => PublicKeyView::BlsShare(b@),
        }
    }
}

/// Wrapper for different signature types, each carried as its scheme's
/// native bytes (64 for Ed25519, 96 compressed for the BLS class).
#[derive(Clone, PartialEq, Eq, PartialOrd, Ord, Hash, Debug)]
pub enum Signature {
    /// Ed25519 signature.
    Ed25519(Vec<u8>),
    /// BLS signature.
    Bls(Vec<u8>),
    /// BLS signature share.
    BlsShare(Vec<u8>),
}

/// The mathematical model of a `Signature`: its scheme and native bytes.
pub enum SignatureView {
    /// Ed25519 signature bytes.
    Ed25519(Seq<u8>),
    /// BLS signature bytes.
    Bls(Seq<u8>),
    /// BLS signature share bytes.
    BlsShare(Seq<u8>),
}

impl View for Signature {
    type V = SignatureView;

    open spec fn view(&self) -> SignatureView {
        match self {
            Signature::Ed25519(b) => SignatureView::Ed25519(b@),
            Signature::Bls(b) => SignatureView::Bls(b@),
            Signature::BlsShare(b) => SignatureView::BlsShare(b@),
        }
    }
}

/// Wrapper type for different secret key types, each carried as its
/// scheme's canonical secret bytes. A secret key is only ever used to
/// produce a signature or to derive its public key. It deliberately has no
/// `Debug` form: one would print the secret bytes.
#[derive(Clone, PartialEq, Eq)]
pub enum SecretKey {
    /// Ed25519 secret key.
    Ed25519(Vec<u8>),
    /// BLS secret key.
    Bls(Vec<u8>),
    /// BLS secret key share.
    BlsShare(Vec<u8>),
}

/// The mathematical model of a `SecretKey`: its scheme and secret bytes.
pub enum SecretKeyView {
    /// Ed25519 secret key bytes.
    Ed25519(Seq<u8>),
    /// BLS secret key bytes.
    Bls(Seq<u8>),
    /// BLS secret key share bytes.
    BlsShare(Seq<u8>),
}

impl View for SecretKey {
    type V = SecretKeyView;

    open spec fn view(&self) -> SecretKeyView {
        match self {
            SecretKey::Ed25519(b) => SecretKeyView::Ed25519(b@),
            SecretKey::Bls(b) => SecretKeyView::Bls(b@),
            SecretKey::BlsShare(b) => SecretKeyView::BlsShare(b@),
        }
    }
}

/// The canonical byte form of a public key: a one-byte scheme tag followed
/// by the key's native bytes. Injective over well-sized keys, so equal
/// encodings imply equal keys.
pub open spec fn pk_canonical(kv: PublicKeyView) -> Seq<u8> {
    match kv {
        PublicKeyView::Ed25519(b) => seq![TAG_ED25519] + b,
        PublicKeyView::Bls(b) => seq![TAG_BLS] + b,
        PublicKeyView::BlsShare(b) => seq![TAG_BLS_SHARE] + b,
    }
}

/// Canonical deserialization of a public key: a known scheme tag followed
/// by exactly that scheme's native byte length, anything else rejected.
pub open spec fn pk_from_canonical(bytes: Seq<u8>) -> Result<PublicKeyView, Error> {
    if bytes.len() == 33 && bytes[0] == TAG_ED25519 {
        Ok(PublicKeyView::Ed25519(bytes.subrange(1, 33)))
    } else if bytes.len() == 49 && bytes[0] == TAG_BLS {
        Ok(PublicKeyView::Bls(bytes.subrange(1, 49)))
    } else if bytes.len() == 49 && bytes[0] == TAG_BLS_SHARE {
        Ok(PublicKeyView::BlsShare(bytes.subrange(1, 49)))
    } else {
        Err(Error::FailedToParse)
    }
}

/// Whether a public key carries exactly its scheme's native byte length:
/// 32 bytes for Ed25519, 48 for the BLS class. Every key produced by key
/// generation, derivation, or decoding is well-sized.
pub open spec fn pk_well_sized(kv: PublicKeyView) -> bool {
    match kv {
        PublicKeyView::Ed25519(b) => b.len() == 32,
        PublicKeyView::Bls(b) => b.len() == 48,
        PublicKeyView::BlsShare(b) => b.len() == 48,
    }
}

/// Canonical serialization and deserialization of a public key round-trip:
/// decoding the encoding of any well-sized key yields the key itself.
pub proof fn lemma_pk_canonical_roundtrip(kv: PublicKeyView)
    ensures
        pk_well_sized(kv) ==> pk_from_canonical(pk_canonical(kv)) == Ok::<PublicKeyView, Error>(
            kv,
        ),
{
    if pk_well_sized(kv) {
        match kv {
            PublicKeyView::Ed25519(b) => {
                assert((seq![TAG_ED25519] + b).subrange(1, 33) =~= b);
            },
            PublicKeyView::Bls(b) => {
                assert((seq![TAG_BLS] + b).subrange(1, 49) =~= b);
            },
            PublicKeyView::BlsShare(b) => {
                assert((seq![TAG_BLS_SHARE] + b).subrange(1, 49) =~= b);
            },
        }
    }
}

/// The canonical encoding is injective over well-sized keys: equal
/// encodings imply equal keys, so the encoding is fit for comparison and
/// hashing.
pub proof fn lemma_pk_canonical_injective(a: PublicKeyView, b: PublicKeyView)
    ensures
        pk_well_sized(a) && pk_well_sized(b) && pk_canonical(a) == pk_canonical(b) ==> a == b,
{
    lemma_pk_canonical_roundtrip(a);
    lemma_pk_canonical_roundtrip(b);
}

/// The canonical byte form of a secret key: a one-byte scheme tag followed
/// by the scheme's secret bytes.
pub open spec fn sk_canonical(sv: SecretKeyView) -> Seq<u8> {
    match sv {
        SecretKeyView::Ed25519(b) => seq![TAG_ED25519] + b,
        SecretKeyView::Bls(b) => seq![TAG_BLS] + b,
        SecretKeyView::BlsShare(b) => seq![TAG_BLS_SHARE] + b,
    }
}

/// Canonical deserialization of a secret key: a known scheme tag followed
/// by the secret bytes; the Ed25519 form is exactly 32 bytes, the BLS-class
/// forms keep whatever length the cryptography provider serializes.
pub open spec fn sk_from_canonical(bytes: Seq<u8>) -> Result<SecretKeyView, Error> {
    if bytes.len() == 33 && bytes[0] == TAG_ED25519 {
        Ok(SecretKeyView::Ed25519(bytes.subrange(1, 33)))
    } else if bytes.len() >= 1 && bytes[0] == TAG_BLS {
        Ok(SecretKeyView::Bls(bytes.subrange(1, bytes.len() as int)))
    } else if bytes.len() >= 1 && bytes[0] == TAG_BLS_SHARE {
        Ok(SecretKeyView::BlsShare(bytes.subrange(1, bytes.len() as int)))
    } else {
        Err(Error::FailedToParse)
    }
}

/// Whether a secret key's byte length is one its canonical encoding can
/// represent: exactly 32 bytes for Ed25519, any length for the BLS class.
pub open spec fn sk_well_sized(sv: SecretKeyView) -> bool {
    match sv {
        SecretKeyView::Ed25519(b) => b.len() == 32,
        SecretKeyView::Bls(_) => true,
        SecretKeyView::BlsShare(_) => true,
    }
}

/// Canonical serialization and deserialization of a secret key round-trip:
/// decoding the encoding of any well-sized secret key yields the key
/// itself.
pub proof fn lemma_sk_canonical_roundtrip(sv: SecretKeyView)
    ensures
        sk_well_sized(sv) ==> sk_from_canonical(sk_canonical(sv)) == Ok::<SecretKeyView, Error>(
            sv,
        ),
{
    if sk_well_sized(sv) {
        match sv {
            SecretKeyView::Ed25519(b) => {
                assert((seq![TAG_ED25519] + b).subrange(1, 33) =~= b);
            },
            SecretKeyView::Bls(b) => {
                assert((seq![TAG_BLS] + b).subrange(1, (seq![TAG_BLS] + b).len() as int) =~= b);
            },
            SecretKeyView::BlsShare(b) => {
                assert((seq![TAG_BLS_SHARE] + b).subrange(
                    1,
                    (seq![TAG_BLS_SHARE] + b).len() as int,
                ) =~= b);
            },
        }
    }
}

/// Matched-variant verification dispatch: success is possible only when the
/// key and the signature are of the same scheme and that scheme's native
/// check accepts; a cross-variant pairing is a scheme mismatch, and any
/// cryptographic failure collapses into an invalid signature.
pub open spec fn verify_spec(kv: PublicKeyView, sv: SignatureView, data: Seq<u8>) -> Result<
    (),
    Error,
> {
    match (kv, sv) {
        (PublicKeyView::Ed25519(k), SignatureView::Ed25519(s)) => if ed25519_sig_valid(
            k,
            s,
            data,
        ) {
            Ok(())
        } else {
            Err(Error::InvalidSignature)
        },
        (PublicKeyView::Bls(k), SignatureView::Bls(s)) => if bls_sig_valid(k, s, data) {
            Ok(())
        } else {
            Err(Error::InvalidSignature)
        },
        (PublicKeyView::BlsShare(k), SignatureView::BlsShare(s)) => if bls_share_sig_valid(
            k,
            s,
            data,
        ) {
            Ok(())
        } else {
            Err(Error::InvalidSignature)
        },
        _ => Err(Error::SigningKeyTypeMismatch),
    }
}

/// Whether a public key and a signature belong to the same scheme.
pub open spec fn same_scheme(kv: PublicKeyView, sv: SignatureView) -> bool {
    ||| (kv is Ed25519 && sv is Ed25519)
    ||| (kv is Bls && sv is Bls)
    ||| (kv is BlsShare && sv is BlsShare)
}

/// Cross-variant verification always fails with a scheme mismatch,
/// regardless of the payload, and without reaching any cryptographic check.
pub proof fn lemma_verify_scheme_mismatch(kv: PublicKeyView, sv: SignatureView, data: Seq<u8>)
    ensures
        !same_scheme(kv, sv) ==> verify_spec(kv, sv, data) == Err::<(), Error>(
            Error::SigningKeyTypeMismatch,
        ),
{
}

/// The portable-text decoding of a public key: the text must be a multibase
/// string tagged with the z-base-32 base, and its payload must canonically
/// deserialize into one of the three key variants.
pub open spec fn decode_pk_spec(text: Seq<char>) -> Result<PublicKeyView, Error> {
    match multibase_decoded(text) {
        Some((is_z, bytes)) => if is_z {
            pk_from_canonical(bytes)
        } else {
            Err(Error::FailedToParse)
        },
        None => Err(Error::FailedToParse),
    }
}

/// The public key derived from a secret key, scheme for scheme.
pub open spec fn secret_public_spec(sv: SecretKeyView) -> PublicKeyView {
    match sv {
        SecretKeyView::Ed25519(b) => PublicKeyView::Ed25519(ed25519_public_of(b)),
        SecretKeyView::Bls(b) => PublicKeyView::Bls(bls_public_of(b)),
        SecretKeyView::BlsShare(b) => PublicKeyView::BlsShare(bls_share_public_of(b)),
    }
}

/// Whether secret-key bytes are a canonical secret of their scheme.
pub open spec fn sk_wf(sv: SecretKeyView) -> bool {
    match sv {
        SecretKeyView::Ed25519(b) => b.len() == 32,
        SecretKeyView::Bls(b) => bls_secret_wf(b),
        SecretKeyView::BlsShare(b) => bls_share_secret_wf(b),
    }
}

/// The native bytes a public key contributes to address derivation.
pub open spec fn pk_native_bytes(kv: PublicKeyView) -> Seq<u8> {
    match kv {
        PublicKeyView::Ed25519(b) => b,
        PublicKeyView::Bls(b) => b,
        PublicKeyView::BlsShare(b) => b,
    }
}

/// The 32-byte address derived from a public key: its native bytes
/// truncated to 32 (an Ed25519 key's full native form), zero-padded should
/// a hand-built key carry fewer.
pub open spec fn pk_name_spec(kv: PublicKeyView) -> Seq<u8> {
    let b = pk_native_bytes(kv);
    Seq::new(
        32,
        |i: int|
            if i < b.len() {
                b[i]
            } else {
                0u8
            },
    )
}

impl PublicKey {
    /// Returns the BLS key's native bytes, if this is a threshold-group
    /// key.
    pub fn bls(&self) -> (r: Option<Vec<u8>>)
        ensures
            match self@ {
                PublicKeyView::Bls(b) => (r matches Some(v) && v@ == b),
                _ => r is None,
            },
    {
        if let PublicKey::Bls(b) = self {
            Some(clone_bytes(b))
        } else {
            None
        }
    }

    /// Returns `Ok(())` if `signature` matches `data` under this key, the
    /// scheme-mismatch error on any cross-variant pairing, and the
    /// invalid-signature error on every other failure.
    pub fn verify(&self, signature: &Signature, data: &[u8]) -> (r: Result<(), Error>)
        ensures
            r == verify_spec(self@, signature@, data@),
    {
        let is_valid = match (self, signature) {
            (PublicKey::Ed25519(k), Signature::Ed25519(s)) => crypto::ed25519_verify(k, s, data),
            (PublicKey::Bls(k), Signature::Bls(s)) => crypto::bls_verify(k, s, data),
            (PublicKey::BlsShare(k), Signature::BlsShare(s)) => crypto::bls_share_verify(
                k,
                s,
                data,
            ),
            _ => {
                return Err(Error::SigningKeyTypeMismatch);
            },
        };
        if is_valid {
            Ok(())
        } else {
            Err(Error::InvalidSignature)
        }
    }

    /// The canonical byte form of this key: a one-byte scheme tag followed
    /// by the native bytes.
    pub fn serialise(&self) -> (r: Vec<u8>)
        ensures
            r@ == pk_canonical(self@),
    {
        let mut out: Vec<u8> = Vec::new();
        match self {
            PublicKey::Ed25519(b) => {
                out.push(TAG_ED25519);
                push_bytes(&mut out, b);
                proof {
                    assert(out@ =~= pk_canonical(self@));
                }
            },
            PublicKey::Bls(b) => {
                out.push(TAG_BLS);
                push_bytes(&mut out, b);
                proof {
                    assert(out@ =~= pk_canonical(self@));
                }
            },
            PublicKey::BlsShare(b) => {
                out.push(TAG_BLS_SHARE);
                push_bytes(&mut out, b);
                proof {
                    assert(out@ =~= pk_canonical(self@));
                }
            },
        }
        out
    }

    /// Canonical deserialization: accepts exactly a known scheme tag
    /// followed by that scheme's native byte length.
    pub fn deserialise(bytes: &[u8]) -> (r: Result<PublicKey, Error>)
        ensures
            match r {
                Ok(k) => pk_from_canonical(bytes@) == Ok::<PublicKeyView, Error>(k@),
                Err(e) => pk_from_canonical(bytes@) == Err::<PublicKeyView, Error>(e),
            },
    {
        if bytes.len() == 33 && bytes[0] == TAG_ED25519 {
            Ok(PublicKey::Ed25519(bytes_of_slice_range(bytes, 1, 33)))
        } else if bytes.len() == 49 && bytes[0] == TAG_BLS {
            Ok(PublicKey::Bls(bytes_of_slice_range(bytes, 1, 49)))
        } else if bytes.len() == 49 && bytes[0] == TAG_BLS_SHARE {
            Ok(PublicKey::BlsShare(bytes_of_slice_range(bytes, 1, 49)))
        } else {
            Err(Error::FailedToParse)
        }
    }

    /// Returns the key serialised and encoded in z-base-32 multibase text;
    /// decoding that text yields the key back.
    pub fn encode_to_zbase32(&self) -> (r: String)
        ensures
            r@ == zbase32_of(pk_canonical(self@)),
            pk_well_sized(self@) ==> decode_pk_spec(r@) == Ok::<PublicKeyView, Error>(self@),
    {
        let bytes = self.serialise();
        let encoded = crypto::multibase_encode_z(&bytes);
        proof {
            lemma_pk_canonical_roundtrip(self@);
        }
        encoded
    }

    /// Creates a key from a z-base-32 encoded string, rejecting any input
    /// not tagged with that base and any payload that fails canonical
    /// deserialization into one of the three variants.
    pub fn decode_from_zbase32(encoded: &str) -> (r: Result<PublicKey, Error>)
        ensures
            match r {
                Ok(k) => decode_pk_spec(encoded@) == Ok::<PublicKeyView, Error>(k@),
                Err(e) => decode_pk_spec(encoded@) == Err::<PublicKeyView, Error>(e),
            },
    {
        match crypto::multibase_decode(encoded) {
            Some((is_z, bytes)) => {
                if is_z {
                    Self::deserialise(bytes.as_slice())
                } else {
                    Err(Error::FailedToParse)
                }
            },
            None => Err(Error::FailedToParse),
        }
    }

    /// The 32-byte network address derived from this key: deterministic,
    /// depending only on the canonical byte form; an Ed25519 key's full
    /// native form is used directly, a threshold-class key's first 32
    /// native bytes.
    pub fn xor_name(&self) -> (r: XorName)
        ensures
            r.0@ == pk_name_spec(self@),
    {
        let b: &Vec<u8> = match self {
            PublicKey::Ed25519(b) => b,
            PublicKey::Bls(b) => b,
            PublicKey::BlsShare(b) => b,
        };
        let mut name = [0u8; 32];
        let mut i: usize = 0;
        while i < 32
            invariant
                i <= 32,
                b@ == pk_native_bytes(self@),
                forall|j: int|
                    0 <= j < i ==> name@[j] == (if j < b@.len() {
                        b@[j]
                    } else {
                        0u8
                    }),
                forall|j: int| i <= j < 32 ==> name@[j] == 0u8,
            decreases 32 - i,
        {
            if i < b.len() {
                name[i] = b[i];
            }
            i += 1;
        }
        proof {
            assert(name@ =~= pk_name_spec(self@));
        }
        XorName(name)
    }
}

impl SecretKey {
    /// Generates a random BLS secret key through the cryptography
    /// provider's own randomness.
    pub fn new_bls() -> (r: SecretKey)
        ensures
            r@ is Bls,
            sk_wf(r@),
    {
        SecretKey::Bls(crypto::bls_generate_secret())
    }

    /// Returns the corresponding public key, derived scheme for scheme
    /// from the secret bytes.
    pub fn public_key(&self) -> (r: PublicKey)
        ensures
            r@ == secret_public_spec(self@),
    {
        match self {
            SecretKey::Ed25519(b) => PublicKey::Ed25519(crypto::ed25519_derive_public(b)),
            SecretKey::Bls(b) => PublicKey::Bls(crypto::bls_derive_public(b)),
            SecretKey::BlsShare(b) => PublicKey::BlsShare(crypto::bls_share_derive_public(b)),
        }
    }

    /// The canonical byte form of this secret key: a one-byte scheme tag
    /// followed by the secret bytes. Used only for deterministic encoding,
    /// never for cryptographic comparison.
    pub fn serialise(&self) -> (r: Vec<u8>)
        ensures
            r@ == sk_canonical(self@),
    {
        let mut out: Vec<u8> = Vec::new();
        match self {
            SecretKey::Ed25519(b) => {
                out.push(TAG_ED25519);
                push_bytes(&mut out, b);
                proof {
                    assert(out@ =~= sk_canonical(self@));
                }
            },
            SecretKey::Bls(b) => {
                out.push(TAG_BLS);
                push_bytes(&mut out, b);
                proof {
                    assert(out@ =~= sk_canonical(self@));
                }
            },
            SecretKey::BlsShare(b) => {
                out.push(TAG_BLS_SHARE);
                push_bytes(&mut out, b);
                proof {
                    assert(out@ =~= sk_canonical(self@));
                }
            },
        }
        out
    }

    /// Canonical deserialization of a secret key: a known scheme tag
    /// followed by the secret bytes (exactly 32 for Ed25519).
    pub fn deserialise(bytes: &[u8]) -> (r: Result<SecretKey, Error>)
        ensures
            match r {
                Ok(k) => sk_from_canonical(bytes@) == Ok::<SecretKeyView, Error>(k@),
                Err(e) => sk_from_canonical(bytes@) == Err::<SecretKeyView, Error>(e),
            },
    {
        if bytes.len() == 33 && bytes[0] == TAG_ED25519 {
            Ok(SecretKey::Ed25519(bytes_of_slice_range(bytes, 1, 33)))
        } else if bytes.len() >= 1 && bytes[0] == TAG_BLS {
            Ok(SecretKey::Bls(bytes_of_slice_range(bytes, 1, bytes.len())))
        } else if bytes.len() >= 1 && bytes[0] == TAG_BLS_SHARE {
            Ok(SecretKey::BlsShare(bytes_of_slice_range(bytes, 1, bytes.len())))
        } else {
            Err(Error::FailedToParse)
        }
    }
}

/// BLS keypair: the group's aggregate secret and public halves, as
/// canonical bytes. It deliberately has no `Debug` form: one would print
/// the secret bytes.
#[derive(Clone, PartialEq, Eq)]
pub struct BlsKeypair {
    /// Secret key bytes.
    pub secret: Vec<u8>,
    /// Public key bytes.
    pub public: Vec<u8>,
}

/// BLS keypair share: one participant's share of a threshold-group secret
/// with its public counterpart, as canonical bytes. It deliberately has no
/// `Debug` form: one would print the secret bytes.
#[derive(Clone, PartialEq, Eq)]
pub struct BlsKeypairShare {
    /// Secret key share bytes.
    pub secret: Vec<u8>,
    /// Public key share bytes.
    pub public: Vec<u8>,
}

/// Ed25519 keypair, as canonical bytes. It deliberately has no `Debug`
/// form: one would print the secret bytes.
#[derive(Clone, PartialEq, Eq)]
pub struct Ed25519Keypair {
    /// Secret key bytes.
    pub secret: Vec<u8>,
    /// Public key bytes.
    pub public: Vec<u8>,
}

/// Wrapper for different keypair types: the unit normally generated and
/// stored by an identity holder. It deliberately has no `Debug` form: one
/// would print the secret bytes.
#[derive(Clone, PartialEq, Eq)]
pub enum Keypair {
    /// Ed25519 keypair.
    Ed25519(Ed25519Keypair),
    /// BLS keypair.
    Bls(BlsKeypair),
    /// BLS keypair share.
    BlsShare(BlsKeypairShare),
}

/// Whether a keypair is coherent: its secret bytes are a canonical secret
/// of its scheme and its public half is the derivation of its secret half.
/// Every keypair produced by the constructors is coherent.
pub open spec fn keypair_wf(kp: Keypair) -> bool {
    match kp {
        Keypair::Ed25519(p) => p.secret@.len() == 32 && p.public@ == ed25519_public_of(p.secret@),
        Keypair::Bls(p) => bls_secret_wf(p.secret@) && p.public@ == bls_public_of(p.secret@),
        Keypair::BlsShare(p) => bls_share_secret_wf(p.secret@) && p.public@ == bls_share_public_of(
            p.secret@,
        ),
    }
}

/// The public key a keypair exposes.
pub open spec fn keypair_public_spec(kp: Keypair) -> PublicKeyView {
    match kp {
        Keypair::Ed25519(p) => PublicKeyView::Ed25519(p.public@),
        Keypair::Bls(p) => PublicKeyView::Bls(p.public@),
        Keypair::BlsShare(p) => PublicKeyView::BlsShare(p.public@),
    }
}

/// The deterministic signature a keypair produces over a message.
pub open spec fn keypair_sign_spec(kp: Keypair, msg: Seq<u8>) -> SignatureView {
    match kp {
        Keypair::Ed25519(p) => SignatureView::Ed25519(ed25519_signed(p.secret@, msg)),
        Keypair::Bls(p) => SignatureView::Bls(bls_signed(p.secret@, msg)),
        Keypair::BlsShare(p) => SignatureView::BlsShare(bls_share_signed(p.secret@, msg)),
    }
}

impl Keypair {
    /// Constructs a random Ed25519 keypair.
    pub fn new_ed25519() -> (r: Keypair)
        ensures
            r is Ed25519,
            keypair_wf(r),
    {
        let (secret, public) = crypto::ed25519_generate();
        Keypair::Ed25519(Ed25519Keypair { secret, public })
    }

    /// Constructs a random BLS keypair.
    pub fn new_bls() -> (r: Keypair)
        ensures
            r is Bls,
            keypair_wf(r),
    {
        let secret = crypto::bls_generate_secret();
        let public = crypto::bls_derive_public(&secret);
        Keypair::Bls(BlsKeypair { secret, public })
    }

    /// Constructs a BLS keypair share from the canonical bytes of a share
    /// of a pre-existing group secret, rejecting bytes that decode into no
    /// share. The keypair built holds exactly the given share as its secret
    /// half, and that share's public counterpart as its public half.
    pub fn new_bls_share(secret_share: Vec<u8>) -> (r: Result<Keypair, Error>)
        ensures
            bls_share_secret_wf(secret_share@) ==> (r matches Ok(kp) && kp matches Keypair::BlsShare(
                p,
            ) && p.secret@ == secret_share@ && p.public@ == bls_share_public_of(secret_share@)
                && keypair_wf(kp)),
            !bls_share_secret_wf(secret_share@) ==> r == Err::<Keypair, Error>(
                Error::FailedToParse,
            ),
    {
        if crypto::bls_share_secret_parses(&secret_share) {
            let public = crypto::bls_share_derive_public(&secret_share);
            Ok(Keypair::BlsShare(BlsKeypairShare { secret: secret_share, public }))
        } else {
            Err(Error::FailedToParse)
        }
    }

    /// Returns the public key associated with this keypair.
    pub fn public_key(&self) -> (r: PublicKey)
        ensures
            r@ == keypair_public_spec(*self),
    {
        match self {
            Keypair::Ed25519(p) => PublicKey::Ed25519(clone_bytes(&p.public)),
            Keypair::Bls(p) => PublicKey::Bls(clone_bytes(&p.public)),
            Keypair::BlsShare(p) => PublicKey::BlsShare(clone_bytes(&p.public)),
        }
    }

    /// Signs `data` with this keypair's secret half. A signature produced
    /// here by a coherent keypair always verifies over the same data under
    /// this keypair's public key.
    pub fn sign(&self, data: &[u8]) -> (r: Signature)
        ensures
            r@ == keypair_sign_spec(*self, data@),
            keypair_wf(*self) ==> verify_spec(keypair_public_spec(*self), r@, data@) == Ok::<
                (),
                Error,
            >(()),
    {
        match self {
            Keypair::Ed25519(p) => Signature::Ed25519(crypto::ed25519_sign(&p.secret, data)),
            Keypair::Bls(p) => Signature::Bls(crypto::bls_sign(&p.secret, data)),
            Keypair::BlsShare(p) => Signature::BlsShare(crypto::bls_share_sign(&p.secret, data)),
        }
    }
}

} // verus!
