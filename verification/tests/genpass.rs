use rcli::{process_text_generate, KeyGenerator, TextSignFormat};

fn is_upper(b: u8) -> bool {
    b.is_ascii_uppercase()
}

fn is_lower(b: u8) -> bool {
    b.is_ascii_lowercase()
}

fn is_digit(b: u8) -> bool {
    b.is_ascii_digit()
}

fn is_symbol(b: u8) -> bool {
    b"!@#$%^&*".contains(&b)
}

#[test]
fn test_symmetric_generate_shape() {
    for _ in 0..16 {
        let keys = process_text_generate(TextSignFormat::Blake3).unwrap();
        assert_eq!(keys.len(), 1);
        let key = &keys[0];
        assert!(key.len() >= 32);
        assert!(key
            .iter()
            .all(|&b| is_upper(b) || is_lower(b) || is_digit(b) || is_symbol(b)));
        assert!(key.iter().any(|&b| is_upper(b)));
        assert!(key.iter().any(|&b| is_lower(b)));
        assert!(key.iter().any(|&b| is_digit(b)));
        assert!(key.iter().any(|&b| is_symbol(b)));
    }
}

#[test]
fn test_asymmetric_generate_shape() {
    let keys = process_text_generate(TextSignFormat::Ed25519).unwrap();
    assert_eq!(keys.len(), 2);
    assert_eq!(keys[0].len(), 32);
    assert_eq!(keys[1].len(), 32);
    // Secret first, public second: the second buffer is the derived key.
    let mut sk = [0u8; 32];
    sk.copy_from_slice(&keys[0]);
    let derived = ed25519_dalek::SigningKey::from_bytes(&sk)
        .verifying_key()
        .to_bytes();
    assert_eq!(keys[1].as_slice(), derived.as_slice());
}

#[test]
fn test_generate_draws_fresh_keys() {
    let a = rcli::Blake3::generate().unwrap();
    let b = rcli::Blake3::generate().unwrap();
    // 32 bytes of randomness colliding would be astronomically unlikely.
    assert_ne!(a[0], b[0]);
    let pair_a = rcli::Ed25519Signer::generate().unwrap();
    let pair_b = rcli::Ed25519Signer::generate().unwrap();
    assert_ne!(pair_a[0], pair_b[0]);
}
