use geckopanda::crypto::{decrypt, encrypt};
use geckopanda::Error;

#[test]
fn round_trip() {
    let plaintext = b"test file plaintext data";
    let sealed = encrypt(plaintext, "test key").expect("encrypt");
    assert_eq!(sealed.len(), plaintext.len() + 28);
    let opened = decrypt(&sealed, "test key").expect("decrypt");
    assert_eq!(opened, plaintext);
}

#[test]
fn round_trip_empty() {
    let sealed = encrypt(b"", "k").expect("encrypt");
    assert_eq!(sealed.len(), 28);
    let opened = decrypt(&sealed, "k").expect("decrypt");
    assert!(opened.is_empty());
}

#[test]
fn tamper_detection_every_bit() {
    let plaintext = b"attack at dawn";
    let sealed = encrypt(plaintext, "pass").expect("encrypt");
    for byte in 0..sealed.len() {
        for bit in 0..8 {
            let mut tampered = sealed.clone();
            tampered[byte] ^= 1u8 << bit;
            let r = decrypt(&tampered, "pass");
            assert!(
                matches!(r, Err(Error::DecryptionFailure)),
                "bit {bit} of byte {byte} went unnoticed"
            );
        }
    }
}

#[test]
fn wrong_key_rejected() {
    let sealed = encrypt(b"secret", "right key").expect("encrypt");
    let r = decrypt(&sealed, "wrong key");
    assert!(matches!(r, Err(Error::DecryptionFailure)));
}

#[test]
fn nonce_makes_seals_differ() {
    let first = encrypt(b"same plaintext", "same key").expect("encrypt");
    let second = encrypt(b"same plaintext", "same key").expect("encrypt");
    assert_ne!(first, second);
}

#[test]
fn sealed_output_is_not_the_plaintext() {
    let plaintext = b"not hidden?";
    let sealed = encrypt(plaintext, "k").expect("encrypt");
    assert_ne!(&sealed[..], &plaintext[..]);
    assert!(!sealed.windows(plaintext.len()).any(|w| w == plaintext));
}

#[test]
fn short_buffers_fail_cleanly() {
    for len in 0..40usize {
        let buffer = vec![0u8; len];
        let r = decrypt(&buffer, "k");
        assert!(matches!(r, Err(Error::DecryptionFailure)));
    }
}

#[test]
fn truncated_seal_fails() {
    let sealed = encrypt(b"some data", "k").expect("encrypt");
    let r = decrypt(&sealed[..sealed.len() - 1], "k");
    assert!(matches!(r, Err(Error::DecryptionFailure)));
}
