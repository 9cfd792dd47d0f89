use indy_utils::build_full_verkey;
use indy_utils::encoded::EncodedVerKey;
use indy_utils::error::ConversionError;
use indy_utils::signkey::SignKey;
use indy_utils::types::{KeyEncoding, KeyType};
use indy_utils::verkey::VerKey;

#[test]
fn from_str_empty() {
    assert_eq!(
        EncodedVerKey::from_str("").unwrap(),
        EncodedVerKey::new("", Some(KeyType::default()), Some(KeyEncoding::default()))
    )
}

#[test]
fn from_str_single_colon() {
    assert_eq!(
        EncodedVerKey::from_str(":").unwrap(),
        EncodedVerKey::new("", Some(KeyType::default()), Some(KeyEncoding::default()))
    )
}

#[test]
fn from_str_ends_with_colon() {
    assert_eq!(
        EncodedVerKey::from_str("foo:").unwrap(),
        EncodedVerKey::new(
            "foo",
            Some(KeyType::default()),
            Some(KeyEncoding::default())
        )
    )
}

#[test]
fn from_key_starts_with_colon() {
    assert_eq!(
        EncodedVerKey::from_str(":bar").unwrap(),
        EncodedVerKey::new("", Some("bar".into()), Some(KeyEncoding::default()))
    )
}

#[test]
fn from_key_works() {
    assert_eq!(
        EncodedVerKey::from_str("foo:bar:baz").unwrap(),
        EncodedVerKey::new("foo", Some("bar:baz".into()), Some(KeyEncoding::default()))
    )
}

#[test]
fn round_trip_verkey() {
    assert_eq!(
        EncodedVerKey::from_str("foo:bar:baz").unwrap().long_form(),
        "foo:bar:baz"
    )
}

#[test]
fn sign_and_verify() {
    let message = b"hello there";
    let sk = SignKey::generate(None).unwrap();
    let sig = sk.sign(message).unwrap();
    let vk = sk.public_key().unwrap();
    assert!(vk.verify_signature(message, &sig).unwrap());
}

fn sample_bytes(n: usize, start: u8) -> Vec<u8> {
    (0..n).map(|i| start.wrapping_add((i as u8).wrapping_mul(7))).collect()
}

#[test]
fn base58_text_of_known_bytes() {
    let vk = VerKey::new(&[0x04, 0x30, 0x5e, 0x2b, 0x24, 0x73, 0xf0, 0x58], None);
    let enc = vk.as_base58().unwrap();
    assert_eq!(enc.key, "he11owor1d");
    assert_eq!(enc.enc, KeyEncoding::BASE58);
    assert_eq!(enc.alg, KeyType::ED25519);
    assert_eq!(vk.display(), "he11owor1d");
}

#[test]
fn encode_then_decode_gives_the_bytes() {
    for start in [0u8, 1, 200] {
        let mut bytes = sample_bytes(32, start);
        bytes[0] = 0;
        let vk = VerKey::new(&bytes, None);
        let enc = vk.encode(KeyEncoding::BASE58).unwrap();
        assert_ne!(enc.key.as_bytes(), &bytes[..]);
        assert_eq!(enc.key_bytes().unwrap(), bytes);
    }
}

#[test]
fn long_form_reparses_to_same_key() {
    for s in ["abc", "abc:x25519", "abc:ed25519", "abc:other:x", ":", ""] {
        let first = EncodedVerKey::from_str(s).unwrap();
        let again = EncodedVerKey::from_str(&first.long_form()).unwrap();
        assert_eq!(first, again);
    }
}

#[test]
fn long_form_of_default_algorithm() {
    let k = EncodedVerKey::from_str("abc").unwrap();
    assert_eq!(k.long_form(), "abc:ed25519");
    assert_eq!(k.display(), "abc");
    let x = EncodedVerKey::from_str("abc:x25519").unwrap();
    assert_eq!(x.alg, KeyType::X25519);
    assert_eq!(x.display(), "abc:x25519");
}

#[test]
fn short_form_expands_with_destination() {
    let front = sample_bytes(16, 3);
    let back = sample_bytes(16, 90);
    let dest = VerKey::new(&front, None).as_base58().unwrap().key.clone();
    let suffix = VerKey::new(&back, None).as_base58().unwrap().key.clone();
    let full = build_full_verkey(&dest, &format!("~{}", suffix)).unwrap();
    let mut expected = front.clone();
    expected.extend_from_slice(&back);
    let bytes = full.key_bytes().unwrap();
    assert_eq!(bytes.len(), 32);
    assert_eq!(bytes, expected);
    assert!(full.validate().is_ok());
    let qualified = EncodedVerKey::from_str_qualified(
        &format!("~{}:x25519", suffix),
        Some(&dest),
        None,
        None,
    )
    .unwrap();
    assert_eq!(qualified.key, full.key);
    assert_eq!(qualified.alg, KeyType::X25519);
}

#[test]
fn short_form_without_destination_fails() {
    assert_eq!(
        EncodedVerKey::from_str("~abc").unwrap_err(),
        ConversionError::MissingDestination
    );
    assert_eq!(
        EncodedVerKey::from_str_qualified("~abc:ed25519", None, None, None).unwrap_err(),
        ConversionError::MissingDestination
    );
}

#[test]
fn short_form_with_bad_text_fails() {
    assert_eq!(
        build_full_verkey("0OIl", "~abc").unwrap_err(),
        ConversionError::InvalidEncoding
    );
    assert_eq!(
        build_full_verkey("abc", "~0OIl").unwrap_err(),
        ConversionError::InvalidEncoding
    );
    assert_eq!(
        EncodedVerKey::from_str_qualified("~abc", Some("abc"), None, Some(KeyEncoding::from("hex")))
            .unwrap_err(),
        ConversionError::UnsupportedEncoding
    );
}

#[test]
fn long_form_ignores_destination() {
    let k = build_full_verkey("abc", "def").unwrap();
    assert_eq!(k.key, "def");
}

#[test]
fn tampered_message_or_signature_is_rejected() {
    let message = b"hello there".to_vec();
    let sk = SignKey::generate(None).unwrap();
    let sig = sk.sign(&message).unwrap();
    assert_eq!(sig.len(), 64);
    let vk = sk.public_key().unwrap();
    let mut bad_message = message.clone();
    bad_message[0] ^= 1;
    assert_eq!(vk.verify_signature(&bad_message, &sig), Ok(false));
    let mut bad_sig = sig.clone();
    bad_sig[0] ^= 1;
    assert_eq!(vk.verify_signature(&message, &bad_sig), Ok(false));
    let enc = vk.as_base58().unwrap();
    assert_eq!(enc.verify_signature(&message, &sig), Ok(true));
    assert_eq!(
        vk.verify_signature(&message, &sig[..10]),
        Err(ConversionError::VerificationError)
    );
}

#[test]
fn validation_checks_length() {
    assert!(VerKey::new(&sample_bytes(32, 1), None).validate().is_ok());
    assert_eq!(
        VerKey::new(&sample_bytes(31, 1), None).validate(),
        Err(ConversionError::InvalidKeyLength)
    );
    assert_eq!(
        VerKey::new(&sample_bytes(33, 1), None).validate(),
        Err(ConversionError::InvalidKeyLength)
    );
    let short = VerKey::new(&sample_bytes(16, 1), None).as_base58().unwrap();
    assert_eq!(short.validate(), Err(ConversionError::InvalidKeyLength));
    let full = VerKey::new(&sample_bytes(32, 1), None).as_base58().unwrap();
    assert!(full.validate().is_ok());
    let bad = EncodedVerKey::new("0OIl", None, None);
    assert_eq!(bad.validate(), Err(ConversionError::InvalidEncoding));
}

#[test]
fn zeroize_clears_buffers() {
    let mut sk = SignKey::new(&sample_bytes(64, 5), Some(KeyType::X25519));
    sk.zeroize();
    assert!(sk.key.is_empty());
    assert_eq!(sk.alg, KeyType::from(""));
    assert_eq!(sk.alg, KeyType::Other(String::new()));
    let mut vk = VerKey::new(&sample_bytes(32, 5), None);
    vk.zeroize();
    assert!(vk.key.is_empty());
    assert_eq!(vk.alg, KeyType::from(""));
    let mut ek = EncodedVerKey::new("abc", Some(KeyType::X25519), None);
    ek.zeroize();
    assert!(ek.key.is_empty());
    assert_eq!(ek.alg, KeyType::from(""));
    assert_eq!(ek.enc, KeyEncoding::from(""));
    assert_eq!(ek.enc, KeyEncoding::Other(String::new()));
}

#[test]
fn unknown_tags_are_rejected() {
    let other = KeyType::from("foo");
    assert_eq!(other, KeyType::Other("foo".to_string()));
    assert_eq!(
        SignKey::generate(Some(other.clone())).unwrap_err(),
        ConversionError::UnsupportedAlgorithm
    );
    let sk = SignKey::new(&sample_bytes(64, 1), Some(other.clone()));
    assert_eq!(sk.sign(b"m").unwrap_err(), ConversionError::UnsupportedAlgorithm);
    assert_eq!(sk.public_key().unwrap_err(), ConversionError::UnsupportedAlgorithm);
    assert_eq!(sk.key_exchange().unwrap_err(), ConversionError::UnsupportedAlgorithm);
    let vk = VerKey::new(&sample_bytes(32, 1), Some(KeyType::X25519));
    assert_eq!(vk.verify_signature(b"m", &[0u8; 64]), Err(ConversionError::UnsupportedAlgorithm));
    assert_eq!(vk.key_exchange().unwrap_err(), ConversionError::UnsupportedAlgorithm);
    assert_eq!(
        vk.encode(KeyEncoding::from("hex")).unwrap_err(),
        ConversionError::UnsupportedEncoding
    );
    let ek = EncodedVerKey::new("abc", None, Some(KeyEncoding::from("hex")));
    assert_eq!(ek.key_bytes().unwrap_err(), ConversionError::UnsupportedEncoding);
    assert_eq!(ek.validate().unwrap_err(), ConversionError::UnsupportedEncoding);
    assert_eq!(
        ek.verify_signature(b"m", &[0u8; 64]).unwrap_err(),
        ConversionError::UnsupportedEncoding
    );
    assert_eq!(ek.key_exchange().unwrap_err(), ConversionError::UnsupportedEncoding);
    assert_eq!(ek.clone().as_base58().unwrap_err(), ConversionError::UnsupportedEncoding);
    let ek2 = EncodedVerKey::new("abc", Some(KeyType::from("foo")), None);
    assert_eq!(
        ek2.verify_signature(b"m", &[0u8; 64]).unwrap_err(),
        ConversionError::UnsupportedAlgorithm
    );
}

#[test]
fn seed_expansion() {
    assert_eq!(
        SignKey::from_seed(&sample_bytes(31, 1)).unwrap_err(),
        ConversionError::KeyDerivationFailed
    );
    let seed = sample_bytes(40, 1);
    let sk = SignKey::from_seed(&seed).unwrap();
    assert_eq!(sk.key.len(), 64);
    assert_eq!(&sk.key[..32], &seed[..32]);
    assert_eq!(sk.alg, KeyType::ED25519);
    let again = SignKey::from_seed(&seed).unwrap();
    assert_eq!(sk, again);
    let vk = sk.public_key().unwrap();
    assert_eq!(vk.key_bytes(), sk.key_bytes()[32..].to_vec());
    let sig = sk.sign(b"payload").unwrap();
    assert_eq!(vk.verify_signature(b"payload", &sig), Ok(true));
}

#[test]
fn key_exchange_derivation() {
    let sk = SignKey::from_seed(&sample_bytes(32, 9)).unwrap();
    let xsk = sk.key_exchange().unwrap();
    assert_eq!(xsk.alg, KeyType::X25519);
    assert_eq!(xsk.key.len(), 32);
    let vk = sk.public_key().unwrap();
    let xvk = vk.key_exchange().unwrap();
    assert_eq!(xvk.alg, KeyType::X25519);
    assert_eq!(xvk.key.len(), 32);
    assert_ne!(xvk.key, vk.key);
    let enc = vk.as_base58().unwrap();
    assert_eq!(enc.key_exchange().unwrap(), xvk);
    let short = SignKey::new(&sample_bytes(10, 1), None);
    assert_eq!(short.key_exchange().unwrap_err(), ConversionError::KeyExchangeConversionFailed);
    assert_eq!(short.public_key().unwrap_err(), ConversionError::InvalidKeyLength);
    assert_eq!(short.sign(b"m").unwrap_err(), ConversionError::SigningFailed);
}

#[test]
fn from_slice_reads_utf8() {
    assert_eq!(
        EncodedVerKey::from_slice(b"foo:bar").unwrap(),
        EncodedVerKey::new("foo", Some("bar".into()), None)
    );
    assert_eq!(
        EncodedVerKey::from_slice(&[0xff, 0xfe]).unwrap_err(),
        ConversionError::InvalidEncoding
    );
    let k = EncodedVerKey::from_str("abc").unwrap();
    assert_eq!(k.encoded_key_bytes(), b"abc");
}

#[test]
fn tag_names() {
    assert_eq!(KeyType::from_str("ed25519"), KeyType::ED25519);
    assert_eq!(KeyType::from_str("x25519").as_str(), "x25519");
    assert_eq!(KeyType::from_str("ED25519"), KeyType::Other("ED25519".to_string()));
    assert_eq!(KeyEncoding::from_str("base58"), KeyEncoding::BASE58);
    assert_eq!(KeyEncoding::from_str("hex").as_str(), "hex");
    assert!(KeyType::default().is_default());
}

#[test]
fn generated_key_is_seed_then_public_key() {
    let sk = SignKey::generate(Some(KeyType::ED25519)).unwrap();
    assert_eq!(sk.alg, KeyType::ED25519);
    assert_eq!(sk.key.len(), 64);
    let rebuilt = SignKey::from_seed(&sk.key[..32]).unwrap();
    assert_eq!(rebuilt, sk);
    let vk = sk.public_key().unwrap();
    assert_eq!(vk.key, sk.key[32..].to_vec());
    assert!(vk.verify_signature(b"", &sk.sign(b"").unwrap()).unwrap());
}
