//! Password-based key derivation with Argon2id.
use vstd::prelude::*;
use crate::random::random_bytes;
use vstd::string::StringSliceAdditionalSpecFns;

verus! {

/// The 32-byte key that Argon2id (the `argon2` crate, version 0x13, no
/// secret, no associated data) derives from `password` and `salt` with
/// memory cost `m_cost` KiB, `t_cost` iterations and `p_cost` lanes.
pub uninterp spec fn argon2id_key(m_cost: u32, t_cost: u32, p_cost: u32, password: Seq<u8>, salt: Seq<u8>) -> Seq<u8>;

/// Declares `argon2::Error`.
#[verifier::external_type_specification]
#[verifier::external_body]
pub struct ExArgon2Error(argon2::Error);

/// Calls `Params::new`, `Argon2::new` (Argon2id, version 0x13) and
/// `Argon2::hash_password_into` with a 32-byte output. Trusted: for valid
/// cost parameters the derivation fails exactly when the password is longer
/// than `0xFFFF_FFFF` bytes or the salt is shorter than 8 or longer than
/// `0xFFFF_FFFF` bytes, and otherwise yields
/// `argon2id_key(m_cost, t_cost, p_cost, password, salt)`.
#[verifier::external_body]
fn argon2id_hash(m_cost: u32, t_cost: u32, p_cost: u32, password: &[u8], salt: &[u8]) -> (key: Result<[u8; 32], argon2::Error>)
    requires
        m_cost >= 8,
        m_cost >= 8 * p_cost,
        t_cost >= 1,
        1 <= p_cost <= 0xFF_FFFF,
    ensures
        key is Ok <==> (password.len() <= 0xFFFF_FFFF && 8 <= salt.len() <= 0xFFFF_FFFF),
        key matches Ok(k) ==> k@ == argon2id_key(m_cost, t_cost, p_cost, password@, salt@),
{
    let params = argon2::Params::new(m_cost, t_cost, p_cost, Some(32))?;
    let argon2 = argon2::Argon2::new(argon2::Algorithm::Argon2id, argon2::Version::V0x13, params);
    let mut output_key = [0u8; 32];
    argon2.hash_password_into(password, salt, &mut output_key)?;
    Ok(output_key)
}

/// Memory cost in KiB (about 19 MB).
pub const KDF_MEMORY_COST: u32 = 19456;
/// Number of passes over memory.
pub const KDF_ITERATIONS: u32 = 2;
/// Degree of parallelism.
pub const KDF_PARALLELISM: u32 = 1;

/// Why no key could be derived.
#[derive(Debug, Clone, Copy, PartialEq, Eq)]
pub enum KdfError {
    /// The password is longer than `0xFFFF_FFFF` bytes.
    PasswordTooLong,
    /// The salt is shorter than 8 bytes.
    SaltTooShort,
    /// The salt is longer than `0xFFFF_FFFF` bytes.
    SaltTooLong,
}

/// What deriving a key from the UTF-8 bytes `password` and `salt` gives.
pub open spec fn kdf_outcome(password: Seq<u8>, salt: Seq<u8>) -> Result<Seq<u8>, KdfError> {
    if password.len() > 0xFFFF_FFFF {
        Err(KdfError::PasswordTooLong)
    } else if salt.len() < 8 {
        Err(KdfError::SaltTooShort)
    } else if salt.len() > 0xFFFF_FFFF {
        Err(KdfError::SaltTooLong)
    } else {
        Ok(argon2id_key(KDF_MEMORY_COST, KDF_ITERATIONS, KDF_PARALLELISM, password, salt))
    }
}

/// The view of a key-derivation result.
pub open spec fn kdf_result_view(r: Result<[u8; 32], KdfError>) -> Result<Seq<u8>, KdfError> {
    match r {
        Ok(k) => Ok(k@),
        Err(e) => Err(e),
    }
}

/// A fresh random 16-byte salt.
pub fn salt_gen() -> (salt: [u8; 16]) {
    random_bytes()
}

/// Derives the 32-byte encryption key from `password` and `salt` with
/// Argon2id (19456 KiB, 2 passes, 1 lane).
pub fn derive_key_from_password(password: &str, salt: &[u8]) -> (key: Result<[u8; 32], KdfError>)
    ensures
        kdf_result_view(key) == kdf_outcome(password.spec_bytes(), salt@),
        key matches Ok(k) ==> k@ == argon2id_key(19456, 2, 1, password.spec_bytes(), salt@),
{
    let pwd = password.as_bytes();
    match argon2id_hash(KDF_MEMORY_COST, KDF_ITERATIONS, KDF_PARALLELISM, pwd, salt) {
        Ok(k) => Ok(k),
        Err(_) => {
            if pwd.len() > 0xFFFF_FFFF {
                Err(KdfError::PasswordTooLong)
            } else if salt.len() < 8 {
                Err(KdfError::SaltTooShort)
            } else {
                Err(KdfError::SaltTooLong)
            }
        },
    }
}

/// For every password and salt of accepted lengths, derivation succeeds and
/// the key is Argon2id (19456 KiB, 2 passes, 1 lane) of the whole password
/// byte string and the whole salt.
pub proof fn lemma_kdf_whole_password(password: Seq<u8>, salt: Seq<u8>)
    requires
        password.len() <= 0xFFFF_FFFF,
        8 <= salt.len() <= 0xFFFF_FFFF,
    ensures
        kdf_outcome(password, salt) == Ok::<Seq<u8>, KdfError>(argon2id_key(19456, 2, 1, password, salt)),
{
}

} // verus!
