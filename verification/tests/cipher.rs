use fileshare_core::crypto::{
    bytes_eq, concat_bytes, hash_password, verify_password, EnvelopeCipher,
};
use fileshare_core::errors::CryptoError;

fn fixed_cipher() -> EnvelopeCipher {
    EnvelopeCipher::new(vec![7u8; 32])
}

#[test]
fn round_trip_returns_original_bytes() {
    let cipher = EnvelopeCipher::generate();
    let plaintext: Vec<u8> = b"some confidential payload".to_vec();
    let env = cipher.encrypt(&plaintext);
    let out = cipher
        .decrypt(&env.ciphertext, &env.wrapped_key, &env.nonce)
        .expect("decrypting an untouched envelope must succeed");
    assert_eq!(out, plaintext);
}

#[test]
fn round_trip_empty_and_large() {
    let cipher = fixed_cipher();
    for plaintext in [Vec::new(), vec![0u8; 10_000]] {
        let env = cipher.encrypt(&plaintext);
        assert_eq!(env.ciphertext.len(), plaintext.len() + 16);
        let out = cipher.decrypt(&env.ciphertext, &env.wrapped_key, &env.nonce).unwrap();
        assert_eq!(out, plaintext);
    }
}

#[test]
fn tampered_ciphertext_fails_every_bit() {
    let cipher = fixed_cipher();
    let plaintext = b"tamper me".to_vec();
    let env = cipher.encrypt(&plaintext);
    for byte in 0..env.ciphertext.len() {
        for bit in 0..8 {
            let mut ct = env.ciphertext.clone();
            ct[byte] ^= 1 << bit;
            assert!(
                cipher.decrypt(&ct, &env.wrapped_key, &env.nonce).is_err(),
                "flipping bit {bit} of ciphertext byte {byte} must fail decryption"
            );
        }
    }
}

#[test]
fn tampered_wrapped_key_fails_every_bit() {
    let cipher = fixed_cipher();
    let plaintext = b"tamper me".to_vec();
    let env = cipher.encrypt(&plaintext);
    for byte in 0..env.wrapped_key.len() {
        for bit in 0..8 {
            let mut wk = env.wrapped_key.clone();
            wk[byte] ^= 1 << bit;
            let r = cipher.decrypt(&env.ciphertext, &wk, &env.nonce);
            assert_eq!(r.unwrap_err(), CryptoError::InvalidKey);
        }
    }
}

#[test]
fn tampered_nonce_fails_every_bit() {
    let cipher = fixed_cipher();
    let plaintext = b"tamper me".to_vec();
    let env = cipher.encrypt(&plaintext);
    for byte in 0..env.nonce.len() {
        for bit in 0..8 {
            let mut nonce = env.nonce.clone();
            nonce[byte] ^= 1 << bit;
            assert!(cipher.decrypt(&env.ciphertext, &env.wrapped_key, &nonce).is_err());
        }
    }
}

#[test]
fn decrypt_under_wrong_master_key_fails_closed() {
    let cipher = EnvelopeCipher::new(vec![1u8; 32]);
    let other = EnvelopeCipher::new(vec![2u8; 32]);
    let env = cipher.encrypt(b"secret");
    let r = other.decrypt(&env.ciphertext, &env.wrapped_key, &env.nonce);
    assert_eq!(r.unwrap_err(), CryptoError::InvalidKey);
}

#[test]
fn truncated_wrapped_key_is_invalid_key() {
    let cipher = fixed_cipher();
    let env = cipher.encrypt(b"secret");
    let r = cipher.decrypt(&env.ciphertext, &env.wrapped_key[..20].to_vec().as_slice(), &env.nonce);
    assert_eq!(r.unwrap_err(), CryptoError::InvalidKey);
}

#[test]
fn encryption_is_not_the_identity() {
    let cipher = fixed_cipher();
    let plaintext = b"plainly visible".to_vec();
    let env = cipher.encrypt(&plaintext);
    assert_ne!(&env.ciphertext[..plaintext.len()], plaintext.as_slice());
}

#[test]
fn fresh_content_keys_per_file() {
    // Two encryptions of the same plaintext under the same master key must
    // differ: the content key and nonce are drawn fresh each time.
    let cipher = fixed_cipher();
    let a = cipher.encrypt(b"same plaintext");
    let b = cipher.encrypt(b"same plaintext");
    assert_ne!(a.ciphertext, b.ciphertext);
}

#[test]
fn password_hash_verifies_and_rejects() {
    let hash = hash_password("s3cr3t-value");
    assert!(verify_password("s3cr3t-value", &hash));
    assert!(!verify_password("s3cr3t-valu", &hash));
    assert!(!verify_password("", &hash));
    assert_eq!(hash.salt.len(), 16);
    assert_eq!(hash.digest.len(), 32);
}

#[test]
fn password_hash_is_salted() {
    let a = hash_password("same password");
    let b = hash_password("same password");
    // Fresh random salts make the stored digests differ.
    assert_ne!(a.salt, b.salt);
    assert_ne!(a.digest, b.digest);
}

#[test]
fn digest_is_not_the_input() {
    let hash = hash_password("abcdefgh");
    let mut salted: Vec<u8> = hash.salt.clone();
    salted.extend_from_slice(b"abcdefgh");
    assert_ne!(hash.digest, salted);
}

#[test]
fn bytes_eq_and_concat() {
    assert!(bytes_eq(b"abc", b"abc"));
    assert!(!bytes_eq(b"abc", b"abd"));
    assert!(!bytes_eq(b"abc", b"ab"));
    assert_eq!(concat_bytes(b"ab", b"cd"), b"abcd".to_vec());
    assert_eq!(concat_bytes(b"", b""), Vec::<u8>::new());
}
