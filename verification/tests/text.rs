use rcli::{
    process_text_generate, process_text_sign, process_text_verify, Blake3, Ed25519Signer,
    Ed25519Verifier, KeyGenerator, KeyLoader, TextError, TextSign, TextSignFormat, TextVerify,
};

fn blake3_fixture_key() -> Vec<u8> {
    // 32+ bytes of printable key material, as a key file would hold.
    b"Wh1pS3cret-Key-Material-0123456789abcdef".to_vec()
}

#[test]
fn test_blake3_sign_verify() {
    let blake3 = Blake3::load(&blake3_fixture_key()).unwrap();
    let data = b"hello world";
    let signature = blake3.sign(&data[..]).unwrap();
    assert!(blake3.verify(&data[..], &signature).unwrap());
}

#[test]
fn test_ed25519_sign_verify() {
    let keys = Ed25519Signer::generate().unwrap();
    let sk = Ed25519Signer::load(&keys[0]).unwrap();
    let pk = Ed25519Verifier::load(&keys[1]).unwrap();
    let data = b"hello world";
    let signature = sk.sign(&data[..]).unwrap();
    assert!(pk.verify(&data[..], &signature).unwrap());
}

#[test]
fn test_blake3_matches_reference_implementation() {
    let key_file = blake3_fixture_key();
    let blake3 = Blake3::load(&key_file).unwrap();
    let data = b"hello world";
    let signature = blake3.sign(&data[..]).unwrap();
    let mut key32 = [0u8; 32];
    key32.copy_from_slice(&key_file[..32]);
    let expected = blake3::keyed_hash(&key32, data);
    assert_eq!(signature.as_slice(), expected.as_bytes());
}

#[test]
fn test_ed25519_matches_reference_implementation() {
    let keys = Ed25519Signer::generate().unwrap();
    let signer = Ed25519Signer::load(&keys[0]).unwrap();
    let data = b"hello world";
    let signature = signer.sign(&data[..]).unwrap();
    let mut sk32 = [0u8; 32];
    sk32.copy_from_slice(&keys[0]);
    let dalek_key = ed25519_dalek::SigningKey::from_bytes(&sk32);
    let expected = ed25519_dalek::Signer::sign(&dalek_key, data);
    assert_eq!(signature.as_slice(), &expected.to_bytes()[..]);
    assert_eq!(
        dalek_key.verifying_key().to_bytes().as_slice(),
        keys[1].as_slice()
    );
}

#[test]
fn test_blake3_bit_flip_rejected() {
    let blake3 = Blake3::load(&blake3_fixture_key()).unwrap();
    let data = b"hello world";
    let signature = blake3.sign(&data[..]).unwrap();
    for byte in 0..signature.len() {
        for bit in 0..8 {
            let mut altered = signature.clone();
            altered[byte] ^= 1u8 << bit;
            assert_eq!(blake3.verify(&data[..], &altered), Ok(false));
        }
    }
}

#[test]
fn test_ed25519_bit_flip_rejected() {
    let keys = Ed25519Signer::generate().unwrap();
    let sk = Ed25519Signer::load(&keys[0]).unwrap();
    let pk = Ed25519Verifier::load(&keys[1]).unwrap();
    let data = b"hello world";
    let signature = sk.sign(&data[..]).unwrap();
    for byte in 0..signature.len() {
        let mut altered = signature.clone();
        altered[byte] ^= 1;
        assert_eq!(pk.verify(&data[..], &altered), Ok(false));
    }
}

#[test]
fn test_mismatched_keys_rejected() {
    // Symmetric: a different key yields a different digest, a plain false.
    let one = Blake3::load(&blake3_fixture_key()).unwrap();
    let other = Blake3::load(&[7u8; 32][..]).unwrap();
    let data = b"hello world";
    let signature = one.sign(&data[..]).unwrap();
    assert_eq!(other.verify(&data[..], &signature), Ok(false));

    // Asymmetric: an unrelated pair's public key rejects, never throws.
    let pair_a = Ed25519Signer::generate().unwrap();
    let pair_b = Ed25519Signer::generate().unwrap();
    let sk_a = Ed25519Signer::load(&pair_a[0]).unwrap();
    let pk_b = Ed25519Verifier::load(&pair_b[1]).unwrap();
    let signature = sk_a.sign(&data[..]).unwrap();
    assert_eq!(pk_b.verify(&data[..], &signature), Ok(false));
}

#[test]
fn test_wrong_signature_length_is_error() {
    let blake3 = Blake3::load(&blake3_fixture_key()).unwrap();
    let data = b"hello world";
    assert_eq!(
        blake3.verify(&data[..], &[0u8; 31][..]),
        Err(TextError::SignatureLength)
    );
    let keys = Ed25519Signer::generate().unwrap();
    let pk = Ed25519Verifier::load(&keys[1]).unwrap();
    assert_eq!(
        pk.verify(&data[..], &[0u8; 63][..]),
        Err(TextError::SignatureLength)
    );
}

#[test]
fn test_short_symmetric_key_is_error() {
    assert_eq!(
        Blake3::load(&[1u8; 31][..]).err(),
        Some(TextError::KeyMaterial)
    );
    assert_eq!(
        process_text_sign(b"hello world", &[1u8; 31], TextSignFormat::Blake3).err(),
        Some(TextError::KeyMaterial)
    );
}

#[test]
fn test_long_symmetric_key_is_truncated() {
    let mut long_key = blake3_fixture_key();
    let from_long = Blake3::load(&long_key).unwrap();
    long_key.truncate(32);
    let from_exact = Blake3::load(&long_key).unwrap();
    let data = b"hello world";
    let signature = from_long.sign(&data[..]).unwrap();
    assert_eq!(from_exact.verify(&data[..], &signature), Ok(true));
}

#[test]
fn test_asymmetric_key_length_is_exact() {
    assert_eq!(
        Ed25519Signer::load(&[1u8; 31][..]).err(),
        Some(TextError::KeyMaterial)
    );
    assert_eq!(
        Ed25519Signer::load(&[1u8; 33][..]).err(),
        Some(TextError::KeyMaterial)
    );
    assert_eq!(
        Ed25519Verifier::load(&[1u8; 33][..]).err(),
        Some(TextError::KeyMaterial)
    );
}

#[test]
fn test_verifier_load_agrees_with_reference_parser() {
    let generated = Ed25519Signer::generate().unwrap();
    let candidates: Vec<[u8; 32]> = vec![[0u8; 32], [1u8; 32], [255u8; 32], {
        let mut pk = [0u8; 32];
        pk.copy_from_slice(&generated[1]);
        pk
    }];
    for bytes in candidates {
        let ours = Ed25519Verifier::load(&bytes[..]).is_ok();
        let dalek = ed25519_dalek::VerifyingKey::from_bytes(&bytes).is_ok();
        assert_eq!(ours, dalek);
    }
}

#[test]
fn test_process_sign_verify_round_trip() {
    let key_file = blake3_fixture_key();
    let data = b"hello world";
    let text = process_text_sign(data, &key_file, TextSignFormat::Blake3).unwrap();
    assert_eq!(
        process_text_verify(data, &key_file, TextSignFormat::Blake3, &text),
        Ok(true)
    );

    let keys = process_text_generate(TextSignFormat::Ed25519).unwrap();
    let text = process_text_sign(data, &keys[0], TextSignFormat::Ed25519).unwrap();
    assert_eq!(
        process_text_verify(data, &keys[1], TextSignFormat::Ed25519, &text),
        Ok(true)
    );
}

#[test]
fn test_process_verify_trims_signature_text() {
    let key_file = blake3_fixture_key();
    let data = b"hello world";
    let text = process_text_sign(data, &key_file, TextSignFormat::Blake3).unwrap();
    let padded = format!("  {}\n", text);
    assert_eq!(
        process_text_verify(data, &key_file, TextSignFormat::Blake3, &padded),
        Ok(true)
    );
}

#[test]
fn test_signature_text_is_url_safe_base64() {
    let key_file = blake3_fixture_key();
    let data = b"hello world";
    let text = process_text_sign(data, &key_file, TextSignFormat::Blake3).unwrap();
    let decoded =
        base64::Engine::decode(&base64::engine::general_purpose::URL_SAFE_NO_PAD, &text).unwrap();
    assert_eq!(decoded.len(), 32);
    assert!(!text.contains('='));
    let blake3 = Blake3::load(&key_file).unwrap();
    assert_eq!(blake3.sign(&data[..]).unwrap(), decoded);
}

#[test]
fn test_invalid_base64_is_encoding_error() {
    let key_file = blake3_fixture_key();
    let data = b"hello world";
    assert_eq!(
        process_text_verify(data, &key_file, TextSignFormat::Blake3, "not*base64!"),
        Err(TextError::Encoding)
    );
    // The encoding error comes first, whatever the key.
    assert_eq!(
        process_text_verify(data, &[0u8; 4], TextSignFormat::Ed25519, "not*base64!"),
        Err(TextError::Encoding)
    );
}

#[test]
fn test_process_verify_corrupted_signature_is_false() {
    let key_file = blake3_fixture_key();
    let data = b"hello world";
    let text = process_text_sign(data, &key_file, TextSignFormat::Blake3).unwrap();
    let blake3 = Blake3::load(&key_file).unwrap();
    let mut raw = blake3.sign(&data[..]).unwrap();
    raw[0] ^= 0xff;
    let corrupted =
        base64::Engine::encode(&base64::engine::general_purpose::URL_SAFE_NO_PAD, &raw);
    assert_ne!(text, corrupted);
    assert_eq!(
        process_text_verify(data, &key_file, TextSignFormat::Blake3, &corrupted),
        Ok(false)
    );
}

#[test]
fn test_wrong_decoded_length_is_signature_length_error() {
    let key_file = blake3_fixture_key();
    let data = b"hello world";
    let short =
        base64::Engine::encode(&base64::engine::general_purpose::URL_SAFE_NO_PAD, [7u8; 10]);
    assert_eq!(
        process_text_verify(data, &key_file, TextSignFormat::Blake3, &short),
        Err(TextError::SignatureLength)
    );
    let keys = process_text_generate(TextSignFormat::Ed25519).unwrap();
    assert_eq!(
        process_text_verify(data, &keys[1], TextSignFormat::Ed25519, &short),
        Err(TextError::SignatureLength)
    );
}

#[test]
fn test_asymmetric_sign_key_length_error() {
    assert_eq!(
        process_text_sign(b"hello world", &[1u8; 31], TextSignFormat::Ed25519),
        Err(TextError::KeyMaterial)
    );
    assert_eq!(
        process_text_verify(
            b"hello world",
            &[1u8; 31],
            TextSignFormat::Ed25519,
            "AAAA"
        ),
        Err(TextError::KeyMaterial)
    );
}
