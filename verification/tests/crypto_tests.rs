use aes_gcm::aead::{Aead, KeyInit};
use zk_auth_totp::aes::{decrypt_secret_x, encrypt_secret_x, encrypt_secret_x_with_nonce, SecretDecryptionError};
use zk_auth_totp::kdf::{derive_key_from_password, salt_gen, KdfError};

#[test]
fn secret_roundtrip() {
    let key = [0x42u8; 32];
    let x = [0x17u8; 32];
    let (ciphertext, nonce) = encrypt_secret_x(&key, &x);
    assert_eq!(ciphertext.len(), 48);
    assert_ne!(&ciphertext[..32], &x[..]);
    assert_eq!(decrypt_secret_x(&key, &nonce, ciphertext), Ok(x));
}

#[test]
fn encryption_matches_aes_gcm() {
    let key = [1u8; 32];
    let x = [2u8; 32];
    let nonce = [3u8; 12];
    let ciphertext = encrypt_secret_x_with_nonce(&key, &x, &nonce);
    let cipher = aes_gcm::Aes256Gcm::new_from_slice(&key).unwrap();
    let expected = cipher.encrypt(aes_gcm::Nonce::from_slice(&nonce), x.as_ref()).unwrap();
    assert_eq!(ciphertext, expected);
}

#[test]
fn wrong_key_fails_to_decrypt() {
    let x = [0x17u8; 32];
    let (ciphertext, nonce) = encrypt_secret_x(&[1u8; 32], &x);
    assert_eq!(
        decrypt_secret_x(&[2u8; 32], &nonce, ciphertext),
        Err(SecretDecryptionError::DecryptionFailed)
    );
}

#[test]
fn tampered_ciphertext_fails_to_decrypt() {
    let key = [5u8; 32];
    let (mut ciphertext, nonce) = encrypt_secret_x(&key, &[9u8; 32]);
    ciphertext[3] ^= 0x80;
    assert_eq!(decrypt_secret_x(&key, &nonce, ciphertext), Err(SecretDecryptionError::DecryptionFailed));
}

#[test]
fn wrong_length_plaintext_rejected() {
    let key = [5u8; 32];
    let nonce = [6u8; 12];
    let cipher = aes_gcm::Aes256Gcm::new_from_slice(&key).unwrap();
    let ciphertext = cipher.encrypt(aes_gcm::Nonce::from_slice(&nonce), &[1u8; 16][..]).unwrap();
    assert_eq!(decrypt_secret_x(&key, &nonce, ciphertext), Err(SecretDecryptionError::InvalidLength));
}

#[test]
fn key_derivation_is_argon2id() {
    let salt = [7u8; 16];
    let key = derive_key_from_password("correct horse", &salt).unwrap();
    let params = argon2::Params::new(19456, 2, 1, Some(32)).unwrap();
    let argon = argon2::Argon2::new(argon2::Algorithm::Argon2id, argon2::Version::V0x13, params);
    let mut expected = [0u8; 32];
    argon.hash_password_into(b"correct horse", &salt, &mut expected).unwrap();
    assert_eq!(key, expected);
    assert_eq!(derive_key_from_password("correct horse", &salt).unwrap(), key);
    assert_ne!(derive_key_from_password("correct horsf", &salt).unwrap(), key);
}

#[test]
fn short_salt_rejected() {
    assert_eq!(derive_key_from_password("pw", &[0u8; 7]), Err(KdfError::SaltTooShort));
    assert!(derive_key_from_password("pw", &[0u8; 8]).is_ok());
    assert!(derive_key_from_password("", &salt_gen()).is_ok());
}
