//! Messages exchanged between client and server.
use vstd::prelude::*;
use crate::schnorr::SchnorrProof;

verus! {

/// Registers `username` with its long-term public key `Y`.
#[derive(Debug, Clone, PartialEq, Eq)]
pub struct RegisterRequest {
    pub username: String,
    pub y: [u8; 32],
}

/// Opens a login for `username` with the client's ephemeral DH value `A`.
#[derive(Debug, Clone, PartialEq, Eq)]
pub struct LoginStartRequest {
    pub username: String,
    pub client_pub_dh: [u8; 32],
}

/// The client's Schnorr proof of knowledge of its secret key.
#[derive(Debug, Clone, PartialEq, Eq)]
pub struct LoginProofRequest {
    pub proof: SchnorrProof,
}

#[derive(Debug, Clone, PartialEq, Eq)]
pub enum ClientMessage {
    Register(RegisterRequest),
    LoginStart(LoginStartRequest),
    LoginProof(LoginProofRequest),
}

#[derive(Debug, Clone, PartialEq, Eq)]
pub enum RegisterResponse {
    Success,
    Failure { message: String },
}

/// The server's nonce and ephemeral DH value `B`, or a refusal.
#[derive(Debug, Clone, PartialEq, Eq)]
pub enum LoginStartResponse {
    Success { nonce: [u8; 16], pub_dh: [u8; 32] },
    Failure { message: String },
}

#[derive(Debug, Clone, PartialEq, Eq)]
pub enum LoginResult {
    Success,
    Failure { message: String },
}

#[derive(Debug, Clone, PartialEq, Eq)]
pub enum ServerMessage {
    Register(RegisterResponse),
    LoginStart(LoginStartResponse),
    LoginResult(LoginResult),
}

} // verus!
