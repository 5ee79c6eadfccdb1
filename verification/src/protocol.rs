//! Properties of the whole login protocol, across client and server.
use vstd::prelude::*;
use crate::client::{client_totp, login_public_key, recover_secret, seals_registered_key};
use crate::encoding::le_nat;
use crate::group::group_order;
use crate::group::{ristretto_decoding, ristretto_encoding};
use crate::schnorr::{schnorr_accepts, SchnorrProof};
use crate::server::{login_proof_valid, TOTP_WINDOW_SECONDS};
use crate::totp::lemma_totp_same_window;

verus! {

/// An honest client is let in. Suppose the stored public key encodes `x·B`,
/// the client's ephemeral value `A` encodes `a·B` and the server's `B'`
/// encodes `b·B`, and the client's proof verifies in the session with the
/// one-time password the client derived from `a·B'` at its own clock. If
/// the client's and the server's clocks fall in the same 60-second window,
/// the server, deriving the password from `b·A` at its clock, accepts the
/// proof.
pub proof fn lemma_honest_login_accepted(
    proof: SchnorrProof,
    x: nat,
    stored_key: Seq<u8>,
    a: nat,
    a_bytes: Seq<u8>,
    b: nat,
    b_bytes: Seq<u8>,
    nonce: Seq<u8>,
    client_time: u64,
    server_time: u64,
)
    requires
        ristretto_decoding(stored_key) == Some(x),
        ristretto_decoding(a_bytes) == Some(a),
        ristretto_decoding(b_bytes) == Some(b),
        schnorr_accepts(proof, x, a_bytes, b_bytes, client_totp(a, b, client_time) as u32, nonce),
        client_time / TOTP_WINDOW_SECONDS == server_time / TOTP_WINDOW_SECONDS,
    ensures
        login_proof_valid(
            proof,
            ristretto_decoding(stored_key)->0,
            a_bytes,
            b,
            b_bytes,
            nonce,
            server_time,
        ),
{
    vstd::arithmetic::mul::lemma_mul_is_commutative(a as int, b as int);
    let key: Seq<u8> = crate::group::ristretto_encoding((a * b) % crate::group::group_order());
    lemma_totp_same_window(key, client_time, server_time, TOTP_WINDOW_SECONDS, 6);
}

/// Logging in with the password used at registration, on the record that
/// registration stored, succeeds (`begin_login` returns `Ok` exactly when
/// the secret is recovered), and the public key the client recomputes is the
/// one it registered: its encoding is the registered `Y`.
pub proof fn lemma_login_recovers_registered_key(
    password: Seq<u8>,
    salt: Seq<u8>,
    nonce: Seq<u8>,
    enc_x: Seq<u8>,
    registered_y: Seq<u8>,
)
    requires
        seals_registered_key(password, salt, nonce, enc_x, registered_y),
    ensures
        recover_secret(password, salt, nonce, enc_x) is Ok,
        login_public_key(password, salt, nonce, enc_x) == ristretto_decoding(registered_y),
        login_public_key(password, salt, nonce, enc_x) matches Some(y) && ristretto_encoding(y)
            == registered_y,
{
    let x = recover_secret(password, salt, nonce, enc_x)->Ok_0;
    vstd::arithmetic::div_mod::lemma_small_mod(le_nat(x), group_order());
}

} // verus!
