use safe_nd::{Error, Keypair, MessageId, PublicKey, SecretKey, Signature, XorName};
use threshold_crypto::serde_impl::SerdeSecret;

fn random_bls_secret_key() -> SecretKey {
    SecretKey::new_bls()
}

fn random_bls_public_key() -> PublicKey {
    random_bls_secret_key().public_key()
}

fn random_bls_share_keypair() -> Keypair {
    let mut rng = rand::thread_rng();
    let sk_set = threshold_crypto::SecretKeySet::random(1, &mut rng);
    let share = sk_set.secret_key_share(0);
    let share_bytes = bincode::serialize(&SerdeSecret(&share)).unwrap();
    Keypair::new_bls_share(share_bytes).unwrap()
}

#[test]
fn zbase32_encode_decode_public_key() {
    let key = random_bls_public_key();
    assert_eq!(
        key,
        PublicKey::decode_from_zbase32(&key.encode_to_zbase32()).unwrap()
    );
}

// Test serialising and deserialising public keys.
#[test]
fn serialisation_public_key() {
    let key = random_bls_public_key();
    let encoded = key.serialise();
    let decoded: PublicKey = PublicKey::deserialise(&encoded).unwrap();

    assert_eq!(decoded, key);
}

// Test serialising and deserialising secret keys.
#[test]
fn serialisation_secret_key() {
    let key = random_bls_secret_key();
    let encoded = key.serialise();
    let decoded: SecretKey = SecretKey::deserialise(&encoded).unwrap();

    assert!(decoded == key);
}

#[test]
fn canonical_form_is_tag_then_bytes() {
    let key = PublicKey::Ed25519(vec![9; 32]);
    let mut expected = vec![0u8];
    expected.extend_from_slice(&[9; 32]);
    assert_eq!(key.serialise(), expected);

    let key = PublicKey::Bls(vec![7; 48]);
    let mut expected = vec![1u8];
    expected.extend_from_slice(&[7; 48]);
    assert_eq!(key.serialise(), expected);
}

#[test]
fn deserialise_rejects_bad_tag_and_length() {
    // Unknown scheme tag.
    let mut bytes = vec![9u8];
    bytes.extend_from_slice(&[0; 32]);
    assert_eq!(PublicKey::deserialise(&bytes), Err(Error::FailedToParse));
    // A known tag with the wrong native length.
    let mut bytes = vec![0u8];
    bytes.extend_from_slice(&[0; 31]);
    assert_eq!(PublicKey::deserialise(&bytes), Err(Error::FailedToParse));
    assert_eq!(PublicKey::deserialise(&[]), Err(Error::FailedToParse));
    assert!(SecretKey::deserialise(&[]) == Err(Error::FailedToParse));
}

#[test]
fn zbase32_decode_rejects_other_bases() {
    // 'z' tags base58btc, not z-base-32.
    assert_eq!(
        PublicKey::decode_from_zbase32("zabc"),
        Err(Error::FailedToParse)
    );
    // Not a multibase string at all.
    assert_eq!(PublicKey::decode_from_zbase32(""), Err(Error::FailedToParse));
    // The right base, but a payload that is no canonical key.
    let text = multibase::encode(multibase::Base::Base32Z, [0u8]);
    assert_eq!(PublicKey::decode_from_zbase32(&text), Err(Error::FailedToParse));
}

#[test]
fn zbase32_encoding_is_real_multibase() {
    let key = random_bls_public_key();
    let text = key.encode_to_zbase32();
    // The multibase code of z-base-32 leads the text.
    assert!(text.starts_with('h'));
    let (base, bytes) = multibase::decode(&text).unwrap();
    assert_eq!(base, multibase::Base::Base32Z);
    assert_eq!(bytes, key.serialise());
}

#[test]
fn sign_and_verify_ed25519() {
    let keypair = Keypair::new_ed25519();
    let public = keypair.public_key();
    let sig = keypair.sign(b"hello world");
    assert_eq!(public.verify(&sig, b"hello world"), Ok(()));
    // One flipped bit of the data fails verification.
    assert_eq!(
        public.verify(&sig, b"hello worle"),
        Err(Error::InvalidSignature)
    );
    // One flipped bit of the signature fails verification.
    if let Signature::Ed25519(mut bytes) = sig {
        bytes[0] ^= 1;
        assert_eq!(
            public.verify(&Signature::Ed25519(bytes), b"hello world"),
            Err(Error::InvalidSignature)
        );
    } else {
        panic!("an Ed25519 keypair signs with an Ed25519 signature");
    }
}

#[test]
fn sign_and_verify_bls() {
    let keypair = Keypair::new_bls();
    let public = keypair.public_key();
    let sig = keypair.sign(b"group message");
    assert_eq!(public.verify(&sig, b"group message"), Ok(()));
    assert_eq!(
        public.verify(&sig, b"group messagf"),
        Err(Error::InvalidSignature)
    );
    if let Signature::Bls(mut bytes) = sig {
        bytes[95] ^= 1;
        assert_eq!(
            public.verify(&Signature::Bls(bytes), b"group message"),
            Err(Error::InvalidSignature)
        );
    } else {
        panic!("a BLS keypair signs with a BLS signature");
    }
}

#[test]
fn sign_and_verify_bls_share() {
    let keypair = random_bls_share_keypair();
    let public = keypair.public_key();
    let sig = keypair.sign(b"partial");
    assert_eq!(public.verify(&sig, b"partial"), Ok(()));
    assert_eq!(public.verify(&sig, b"partiam"), Err(Error::InvalidSignature));
}

#[test]
fn new_bls_share_rejects_garbage() {
    assert!(Keypair::new_bls_share(vec![1, 2, 3]) == Err(Error::FailedToParse));
}

#[test]
fn cross_variant_verification_fails() {
    let ed = Keypair::new_ed25519();
    let bls = Keypair::new_bls();
    let ed_sig = ed.sign(b"payload");
    let bls_sig = bls.sign(b"payload");

    // Every cross-variant pairing is a scheme mismatch, whatever the data.
    assert_eq!(
        ed.public_key().verify(&bls_sig, b"payload"),
        Err(Error::SigningKeyTypeMismatch)
    );
    assert_eq!(
        bls.public_key().verify(&ed_sig, b"payload"),
        Err(Error::SigningKeyTypeMismatch)
    );
    let share = random_bls_share_keypair();
    assert_eq!(
        share.public_key().verify(&bls_sig, b"payload"),
        Err(Error::SigningKeyTypeMismatch)
    );
}

#[test]
fn secret_key_derives_keypair_public() {
    let keypair = Keypair::new_bls();
    if let Keypair::Bls(pair) = &keypair {
        let secret = SecretKey::Bls(pair.secret.clone());
        assert_eq!(secret.public_key(), keypair.public_key());
    } else {
        panic!("new_bls builds a BLS keypair");
    }
}

#[test]
fn xor_name_from_public_key() {
    let key = PublicKey::Ed25519((1..=32).collect());
    let expected: Vec<u8> = (1..=32).collect();
    assert_eq!(key.xor_name(), XorName(expected.try_into().unwrap()));

    // A threshold-class key contributes the first 32 of its 48 bytes.
    let mut bls_bytes = vec![0xAB; 32];
    bls_bytes.extend_from_slice(&[0xCD; 16]);
    let key = PublicKey::Bls(bls_bytes);
    assert_eq!(key.xor_name(), XorName([0xAB; 32]));

    let ed = Keypair::new_ed25519();
    if let PublicKey::Ed25519(bytes) = ed.public_key() {
        let name = ed.public_key().xor_name();
        assert_eq!(name.0.to_vec(), bytes);
    } else {
        panic!("an Ed25519 keypair exposes an Ed25519 public key");
    }
}

#[test]
fn bls_accessor() {
    let bls = Keypair::new_bls().public_key();
    match &bls {
        PublicKey::Bls(bytes) => assert_eq!(bls.bls(), Some(bytes.clone())),
        _ => panic!("new_bls exposes a BLS public key"),
    }
    let ed = Keypair::new_ed25519().public_key();
    assert_eq!(ed.bls(), None);
}

#[test]
fn verify_signature_over_message_and_id() {
    let keypair = Keypair::new_ed25519();
    let id = MessageId(XorName([42; 32]));
    let message = b"request body";

    let mut payload = message.to_vec();
    payload.extend_from_slice(&[42; 32]);
    let sig = keypair.sign(&payload);

    assert_eq!(
        safe_nd::verify_signature(&sig, &keypair.public_key(), message, &id),
        Ok(())
    );
    // A different identifier changes the canonical payload.
    let other_id = MessageId(XorName([43; 32]));
    assert_eq!(
        safe_nd::verify_signature(&sig, &keypair.public_key(), message, &other_id),
        Err(Error::InvalidSignature)
    );
}

#[test]
fn serialisation_all_public_key_variants() {
    let ed = Keypair::new_ed25519().public_key();
    assert_eq!(PublicKey::deserialise(&ed.serialise()).unwrap(), ed);
    let bls = Keypair::new_bls().public_key();
    assert_eq!(PublicKey::deserialise(&bls.serialise()).unwrap(), bls);
    let share = random_bls_share_keypair().public_key();
    assert_eq!(PublicKey::deserialise(&share.serialise()).unwrap(), share);

    assert_eq!(
        PublicKey::decode_from_zbase32(&ed.encode_to_zbase32()).unwrap(),
        ed
    );
    assert_eq!(
        PublicKey::decode_from_zbase32(&share.encode_to_zbase32()).unwrap(),
        share
    );
}
