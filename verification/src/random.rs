//! Randomness from the operating system.
use vstd::prelude::*;
use rand_core::RngCore;

verus! {

/// Calls `RngCore::fill_bytes` on `rand_core::OsRng`. Nothing is claimed of
/// the bytes.
#[verifier::external_body]
pub(crate) fn random_bytes<const N: usize>() -> (bytes: [u8; N]) {
    let mut bytes = [0u8; N];
    rand_core::OsRng.fill_bytes(&mut bytes);
    bytes
}

} // verus!
