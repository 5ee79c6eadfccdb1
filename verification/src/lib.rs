//! Password-authenticated zero-knowledge login: Schnorr proofs over the
//! Ristretto group, bound to an ephemeral Diffie-Hellman exchange and a
//! time-based one-time password.

pub mod encoding;
pub mod totp;
pub mod group;
pub mod schnorr;
pub mod dh;
mod random;
pub mod aes;
pub mod kdf;
pub mod messages;
pub mod server;
pub mod client;
pub mod protocol;
