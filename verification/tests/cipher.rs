use axcelium::cipher::aes_gcm_repository::{AesGcmCipherImpl, AesGcmCipherRepository};
use axcelium::cipher::base64_repository::{Base64Repository, Base64RepositoryImpl};
use axcelium::ids::{parse_uuid, uuid_to_string};
use axcelium::security::{PasswordHasherImpl, PasswordHasherRepository};

#[test]
fn base64_encode_known_values() {
    let repo = Base64RepositoryImpl;
    assert_eq!(repo.encode(b""), "");
    assert_eq!(repo.encode(b"f"), "Zg==");
    assert_eq!(repo.encode(b"fo"), "Zm8=");
    assert_eq!(repo.encode(b"foo"), "Zm9v");
    assert_eq!(repo.encode(b"hello"), "aGVsbG8=");
    assert_eq!(repo.encode(&[0xfb, 0xff]), "+/8=");
}

#[test]
fn base64_decode_round_trip_and_refusal() {
    let repo = Base64RepositoryImpl;
    let bytes: Vec<u8> = (0u8..=255).collect();
    let text = repo.encode(&bytes);
    assert_eq!(repo.decode(&text).unwrap(), bytes);
    assert_eq!(repo.decode("aGVsbG8=").unwrap(), b"hello".to_vec());
    assert!(repo.decode("not base64!").is_err());
    assert!(repo.decode("a.b").is_err());
}

#[test]
fn uuid_text_is_hyphenated_lower_case() {
    let id: u128 = 0x0123_4567_89ab_cdef_0123_4567_89ab_cdef;
    assert_eq!(uuid_to_string(id), "01234567-89ab-cdef-0123-456789abcdef");
    assert_eq!(uuid_to_string(0), "00000000-0000-0000-0000-000000000000");
    assert_eq!(parse_uuid("01234567-89ab-cdef-0123-456789abcdef").unwrap(), id);
    assert_eq!(parse_uuid(&uuid_to_string(u128::MAX)).unwrap(), u128::MAX);
    assert!(parse_uuid("not-a-uuid").is_err());
}

#[test]
fn aes_gcm_known_vector() {
    // AES-256-GCM with a zero key, a zero nonce and an empty plaintext: the
    // ciphertext is the tag alone.
    let cipher = AesGcmCipherImpl::new(&[0u8; 32]);
    let (nonce, ct) = cipher.encrypt_with_nonce(&[0u8; 12], b"").unwrap();
    let b64 = Base64RepositoryImpl;
    assert_eq!(nonce, b64.encode(&[0u8; 12]));
    assert_eq!(
        b64.decode(&ct).unwrap(),
        vec![
            0x53, 0x0f, 0x8a, 0xfb, 0xc7, 0x45, 0x36, 0xb9, 0xa9, 0x63, 0xb4, 0xf1, 0xc4, 0xcb,
            0x73, 0x8b
        ]
    );
}

#[test]
fn aes_gcm_encrypt_then_decrypt() {
    let cipher = AesGcmCipherImpl::new(&[7u8; 32]);
    let (nonce, ct) = cipher.encrypt(b"top secret").unwrap();
    assert_eq!(Base64RepositoryImpl.decode(&nonce).unwrap().len(), 12);
    assert_ne!(Base64RepositoryImpl.decode(&ct).unwrap(), b"top secret".to_vec());
    assert_eq!(cipher.decrypt(&nonce, &ct).unwrap(), "top secret");
    // another key cannot open it
    let other = AesGcmCipherImpl::new(&[8u8; 32]);
    let err = other.decrypt(&nonce, &ct).unwrap_err();
    assert_eq!((err.message.as_str(), err.code), ("cipher operation failed", 500));
}

#[test]
fn aes_gcm_decrypt_errors() {
    let cipher = AesGcmCipherImpl::new(&[1u8; 32]);
    let err = cipher.decrypt("@@@", "AAAA").unwrap_err();
    assert_eq!((err.message.as_str(), err.code), ("invalid base64 input", 400));
    let (nonce, _) = cipher.encrypt(b"x").unwrap();
    let err = cipher.decrypt(&nonce, "@@@").unwrap_err();
    assert_eq!((err.message.as_str(), err.code), ("invalid base64 input", 400));
    // plaintext that is not UTF-8 is the same cipher error
    let (nonce, ct) = cipher.encrypt(&[0xff, 0xfe]).unwrap();
    let err = cipher.decrypt(&nonce, &ct).unwrap_err();
    assert_eq!((err.message.as_str(), err.code), ("cipher operation failed", 500));
}

#[test]
fn aes_gcm_try_decrypt_refuses_short_nonce() {
    let cipher = AesGcmCipherImpl::new(&[1u8; 32]);
    // "AAAA" decodes to three bytes: no cipher call is possible
    assert!(cipher.try_decrypt("AAAA", "AAAA").is_none());
    // a nonce that does not decode is answered as an error, not refused
    let r = cipher.try_decrypt("@", "AAAA").unwrap();
    assert_eq!(r.unwrap_err().code, 400);
    let (nonce, ct) = cipher.encrypt(b"hi").unwrap();
    assert_eq!(cipher.try_decrypt(&nonce, &ct).unwrap().unwrap(), "hi");
}

#[test]
fn argon2_hash_then_verify() {
    let hasher = PasswordHasherImpl::new();
    let hash = hasher.hash("correct horse").unwrap();
    assert!(hash.starts_with("$argon2id$"));
    assert!(hasher.verify(&hash, "correct horse").unwrap());
    assert!(!hasher.verify(&hash, "wrong horse").unwrap());
    let err = hasher.verify("not a hash", "x").unwrap_err();
    assert_eq!((err.message.as_str(), err.code), ("password hashing failed", 500));
}

#[test]
fn argon2_hash_with_fixed_salt_is_deterministic() {
    let hasher = PasswordHasherImpl::new();
    let a = hasher.hash_with_salt("pw", "c29tZXNhbHRzb21lc2FsdA").unwrap();
    let b = hasher.hash_with_salt("pw", "c29tZXNhbHRzb21lc2FsdA").unwrap();
    assert_eq!(a, b);
    assert!(a.contains("c29tZXNhbHRzb21lc2FsdA"));
    assert!(hasher.verify(&a, "pw").unwrap());
    // a salt the hasher refuses
    assert_eq!(hasher.hash_with_salt("pw", "!").unwrap_err().code, 500);
}

