//! AES-256-GCM protection of the long-term secret at rest.
use vstd::prelude::*;
use crate::random::random_bytes;
use aes_gcm::aead::{Aead, KeyInit};

verus! {

/// The ciphertext (with its 16-byte tag appended) that AES-256-GCM (the
/// `aes-gcm` crate, no associated data) produces for `plaintext`.
pub uninterp spec fn aes256gcm_encrypt(key: Seq<u8>, nonce: Seq<u8>, plaintext: Seq<u8>) -> Seq<u8>;

/// What AES-256-GCM decryption (no associated data) yields for
/// `ciphertext`: `None` when the tag does not authenticate it.
pub uninterp spec fn aes256gcm_decrypt(key: Seq<u8>, nonce: Seq<u8>, ciphertext: Seq<u8>) -> Option<Seq<u8>>;

/// Calls `Aes256Gcm::new_from_slice` and `Aead::encrypt`. Trusted: the
/// ciphertext is `aes256gcm_encrypt(key, nonce, plaintext)`, and decrypting
/// it under the same key and nonce gives the plaintext back; the ciphertext
/// is the 32 encrypted bytes followed by the 16-byte tag. A 32-byte key
/// is always accepted and a 32-byte plaintext is far below the length
/// limit, so neither call fails.
#[verifier::external_body]
fn aes_gcm_encrypt(key: &[u8; 32], nonce: &[u8; 12], plaintext: &[u8; 32]) -> (ciphertext: Vec<u8>)
    ensures
        ciphertext@ == aes256gcm_encrypt(key@, nonce@, plaintext@),
        ciphertext@.len() == 48,
        aes256gcm_decrypt(key@, nonce@, ciphertext@) == Some(plaintext@),
{
    let cipher = aes_gcm::Aes256Gcm::new_from_slice(key).expect("Failed to initialize AES-256-GCM cipher");
    let nonce = aes_gcm::Nonce::from_slice(nonce);
    cipher.encrypt(nonce, plaintext.as_ref()).expect("Failed to encrypt secret x")
}

/// Calls `Aes256Gcm::new_from_slice` and `Aead::decrypt`. Trusted: the
/// result is `aes256gcm_decrypt(key, nonce, ciphertext)`.
#[verifier::external_body]
fn aes_gcm_decrypt(key: &[u8; 32], nonce: &[u8; 12], ciphertext: &[u8]) -> (plaintext: Option<Vec<u8>>)
    ensures
        match plaintext {
            Some(p) => aes256gcm_decrypt(key@, nonce@, ciphertext@) == Some(p@),
            None => aes256gcm_decrypt(key@, nonce@, ciphertext@) is None,
        },
{
    let cipher = aes_gcm::Aes256Gcm::new_from_slice(key).expect("Failed to initialize AES-256-GCM cipher");
    let nonce = aes_gcm::Nonce::from_slice(nonce);
    cipher.decrypt(nonce, ciphertext).ok()
}

/// Why the stored secret could not be recovered.
#[derive(Debug, Clone, Copy, PartialEq, Eq)]
pub enum SecretDecryptionError {
    /// The tag did not authenticate: wrong key (wrong password) or a
    /// tampered ciphertext.
    DecryptionFailed,
    /// The plaintext is not 32 bytes long.
    InvalidLength,
}

/// What recovering the secret from `ciphertext` gives.
pub open spec fn decrypt_outcome(key: Seq<u8>, nonce: Seq<u8>, ciphertext: Seq<u8>) -> Result<
    Seq<u8>,
    SecretDecryptionError,
> {
    match aes256gcm_decrypt(key, nonce, ciphertext) {
        None => Err(SecretDecryptionError::DecryptionFailed),
        Some(p) => if p.len() == 32 {
            Ok(p)
        } else {
            Err(SecretDecryptionError::InvalidLength)
        },
    }
}

/// The view of a decryption result.
pub open spec fn secret_result_view(r: Result<[u8; 32], SecretDecryptionError>) -> Result<
    Seq<u8>,
    SecretDecryptionError,
> {
    match r {
        Ok(x) => Ok(x@),
        Err(e) => Err(e),
    }
}

/// Encrypts the secret `x` under `key` with the given nonce.
pub fn encrypt_secret_x_with_nonce(key: &[u8; 32], x: &[u8; 32], nonce: &[u8; 12]) -> (ciphertext: Vec<u8>)
    ensures
        ciphertext@ == aes256gcm_encrypt(key@, nonce@, x@),
        ciphertext@.len() == 48,
        decrypt_outcome(key@, nonce@, ciphertext@) == Ok::<Seq<u8>, SecretDecryptionError>(x@),
{
    aes_gcm_encrypt(key, nonce, x)
}

/// Encrypts the secret `x` under `key` with a fresh random nonce, and
/// returns the ciphertext and the nonce.
pub fn encrypt_secret_x(key: &[u8; 32], x: &[u8; 32]) -> (sealed: (Vec<u8>, [u8; 12]))
    ensures
        sealed.0@ == aes256gcm_encrypt(key@, sealed.1@, x@),
        sealed.0@.len() == 48,
        decrypt_outcome(key@, sealed.1@, sealed.0@) == Ok::<Seq<u8>, SecretDecryptionError>(x@),
{
    let nonce_bytes: [u8; 12] = random_bytes();
    let ciphertext = encrypt_secret_x_with_nonce(key, x, &nonce_bytes);
    (ciphertext, nonce_bytes)
}

/// Recovers the secret `x` from its ciphertext.
pub fn decrypt_secret_x(key: &[u8; 32], nonce: &[u8; 12], ciphertext: Vec<u8>) -> (x: Result<
    [u8; 32],
    SecretDecryptionError,
>)
    ensures
        secret_result_view(x) == decrypt_outcome(key@, nonce@, ciphertext@),
{
    let plaintext = match aes_gcm_decrypt(key, nonce, ciphertext.as_slice()) {
        Some(p) => p,
        None => return Err(SecretDecryptionError::DecryptionFailed),
    };
    if plaintext.len() != 32 {
        return Err(SecretDecryptionError::InvalidLength);
    }
    let mut x = [0u8; 32];
    let mut i: usize = 0;
    while i < 32
        invariant
            i <= 32,
            plaintext@.len() == 32,
            forall|j: int| 0 <= j < i ==> x@[j] == plaintext@[j],
        decreases 32 - i,
    {
        x[i] = plaintext[i];
        i = i + 1;
    }
    assert(x@ =~= plaintext@);
    Ok(x)
}

} // verus!
