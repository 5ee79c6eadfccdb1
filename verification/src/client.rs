//! Client side of registration and login.
use vstd::prelude::*;
use vstd::string::StringSliceAdditionalSpecFns;
use crate::aes::{decrypt_outcome, decrypt_secret_x, encrypt_secret_x_with_nonce, SecretDecryptionError};
use crate::dh::{derive_dh_key, dh_gen};
use crate::encoding::{le_bytes, le_nat};
use crate::group::{group_order, ristretto_decoding, ristretto_encoding, RistrettoPoint, Scalar};
use crate::kdf::{derive_key_from_password, kdf_outcome, KdfError};
pub use crate::kdf::salt_gen;
use crate::messages::{
    LoginProofRequest, LoginResult, LoginStartRequest, LoginStartResponse, RegisterRequest,
    RegisterResponse, ServerMessage,
};
use crate::schnorr::{generate_proof, is_response_with_commitment, schnorr_accepts};
use crate::server::{TOTP_DIGITS, TOTP_WINDOW_SECONDS};
use crate::totp::{dynamic_truncation, generate_totp, hmac_sha256, totp_spec};
use crate::encoding::u64_be_bytes;

verus! {

/// The user's data as the client keeps it: the name, the Argon2 salt, the
/// AES-GCM nonce and the encrypted secret key `x`.
#[derive(Debug, Clone, PartialEq, Eq)]
pub struct UserData {
    pub username: String,
    pub salt: [u8; 16],
    pub nonce: [u8; 12],
    pub enc_x: Vec<u8>,
}

/// The record that registration stores on the client.
#[derive(Debug, Clone, PartialEq, Eq)]
pub struct LocalUserRecord {
    pub username: String,
    pub salt: [u8; 16],
    pub nonce: [u8; 12],
    pub enc_x: Vec<u8>,
}

/// Why a login could not go on.
#[derive(Debug, Clone, PartialEq, Eq)]
pub enum LoginError {
    /// No key could be derived from the password.
    KeyDerivation(KdfError),
    /// The stored secret could not be recovered (wrong password or a
    /// tampered record).
    SecretDecryption(SecretDecryptionError),
    /// The server refused to open the login.
    ServerRefused { message: String },
    /// The server's DH value is not a group element.
    InvalidServerKey,
}

/// What recovering the stored secret with `password` gives: the 32 secret
/// bytes, or why they cannot be had.
pub open spec fn recover_secret(password: Seq<u8>, salt: Seq<u8>, nonce: Seq<u8>, enc_x: Seq<u8>) -> Result<
    Seq<u8>,
    LoginError,
> {
    match kdf_outcome(password, salt) {
        Err(e) => Err(LoginError::KeyDerivation(e)),
        Ok(key) => match decrypt_outcome(key, nonce, enc_x) {
            Err(e) => Err(LoginError::SecretDecryption(e)),
            Ok(x) => Ok(x),
        },
    }
}

/// `(salt, nonce, enc_x)` seals, under the key derived from `password`, a
/// reduced secret `x` whose public key `x·B` is encoded by `y`.
pub open spec fn seals_registered_key(
    password: Seq<u8>,
    salt: Seq<u8>,
    nonce: Seq<u8>,
    enc_x: Seq<u8>,
    y: Seq<u8>,
) -> bool {
    recover_secret(password, salt, nonce, enc_x) matches Ok(x) && le_nat(x) < group_order() && y
        == ristretto_encoding(le_nat(x)) && ristretto_decoding(y) == Some(le_nat(x))
}

/// The public key (as a discrete logarithm) that logging in with `password`
/// on the record recomputes, or `None` when the secret cannot be recovered.
pub open spec fn login_public_key(password: Seq<u8>, salt: Seq<u8>, nonce: Seq<u8>, enc_x: Seq<u8>) -> Option<nat> {
    match recover_secret(password, salt, nonce, enc_x) {
        Ok(x) => Some(le_nat(x) % group_order()),
        Err(_) => None,
    }
}

/// Registration with the secret scalar, the salt and the nonce given: the
/// record to store locally (the secret encrypted under the key derived from
/// the password) and the request to send (the name and `Y = x·B`).
pub fn registration_from_parts(
    username: String,
    password: &str,
    x: &Scalar,
    salt: [u8; 16],
    nonce: [u8; 12],
) -> (registration: Result<(LocalUserRecord, RegisterRequest), KdfError>)
    ensures
        registration matches Err(e) ==> kdf_outcome(password.spec_bytes(), salt@) == Err::<Seq<u8>, KdfError>(e),
        registration matches Ok((record, request)) ==> {
            &&& kdf_outcome(password.spec_bytes(), salt@) is Ok
            &&& record.username@ == username@
            &&& record.salt == salt
            &&& record.nonce == nonce
            &&& recover_secret(password.spec_bytes(), salt@, nonce@, record.enc_x@) == Ok::<Seq<u8>, LoginError>(le_bytes(x@, 32))
            &&& request.username@ == username@
            &&& request.y@ == ristretto_encoding(x@)
            &&& ristretto_decoding(request.y@) == Some(x@)
        },
        registration is Ok <==> kdf_outcome(password.spec_bytes(), salt@) is Ok,
{
    let y = RistrettoPoint::mul_base(x);
    let x_bytes = x.to_bytes();
    let key = match derive_key_from_password(password, &salt) {
        Ok(k) => k,
        Err(e) => return Err(e),
    };
    let ciphertext = encrypt_secret_x_with_nonce(&key, &x_bytes, &nonce);
    let record = LocalUserRecord { username: username.clone(), salt, nonce, enc_x: ciphertext };
    let request = RegisterRequest { username, y: y.compress() };
    Ok((record, request))
}

/// Registration: a fresh key pair `(x, Y = x·B)` and salt, the key derived
/// from the password, `x` encrypted under it with a fresh nonce. Returns the
/// record to store locally and the request to send.
pub fn prepare_registration(username: String, password: &str) -> (registration: Result<
    (LocalUserRecord, RegisterRequest),
    KdfError,
>)
    ensures
        registration is Ok <==> password.spec_bytes().len() <= 0xFFFF_FFFF,
        registration matches Err(e) ==> e == KdfError::PasswordTooLong,
        registration matches Ok((record, request)) ==> {
            &&& record.username@ == username@
            &&& request.username@ == username@
            &&& seals_registered_key(
                password.spec_bytes(),
                record.salt@,
                record.nonce@,
                record.enc_x@,
                request.y@,
            )
        },
{
    let (x, _y) = crate::schnorr::keypair_gen();
    let salt = salt_gen();
    let nonce: [u8; 12] = crate::random::random_bytes();
    let registration = registration_from_parts(username, password, &x, salt, nonce);
    proof {
        x.lemma_reduced();
        reveal_with_fuel(crate::encoding::byte_power, 33);
        crate::encoding::lemma_le_nat_le_bytes(x@, 32);
    }
    registration
}


/// What the client holds between opening a login and proving.
pub struct LoginState {
    /// The long-term secret `x`.
    pub secret_x: Scalar,
    /// The long-term public key `Y = x·B`.
    pub public_y: RistrettoPoint,
    /// The ephemeral DH secret `a`.
    pub dh_secret: Scalar,
    /// The ephemeral DH value `A = a·B`, encoded.
    pub dh_public: [u8; 32],
}

impl LoginState {
    /// `Y = x·B` and `A` encodes `a·B`.
    pub open spec fn wf(&self) -> bool {
        &&& self.public_y@ == self.secret_x@
        &&& self.dh_public@ == ristretto_encoding(self.dh_secret@)
        &&& ristretto_decoding(self.dh_public@) == Some(self.dh_secret@)
    }
}

/// Opens a login: derives the key from the password, recovers the secret
/// `x` from the stored record, and draws an ephemeral DH key pair. Returns
/// the client's state and the request to send.
pub fn begin_login(user: UserData, password: &str) -> (start: Result<(LoginState, LoginStartRequest), LoginError>)
    ensures
        start is Ok <==> recover_secret(password.spec_bytes(), user.salt@, user.nonce@, user.enc_x@) is Ok,
        start matches Err(e) ==> recover_secret(password.spec_bytes(), user.salt@, user.nonce@, user.enc_x@)
            == Err::<Seq<u8>, LoginError>(e),
        start matches Ok((state, request)) ==> {
            &&& state.wf()
            &&& recover_secret(password.spec_bytes(), user.salt@, user.nonce@, user.enc_x@) matches Ok(x)
                && state.secret_x@ == le_nat(x) % group_order()
            &&& login_public_key(password.spec_bytes(), user.salt@, user.nonce@, user.enc_x@) == Some(
                state.public_y@,
            )
            &&& request.username == user.username
            &&& request.client_pub_dh == state.dh_public
        },
{
    let key = match derive_key_from_password(password, &user.salt) {
        Ok(k) => k,
        Err(e) => return Err(LoginError::KeyDerivation(e)),
    };
    let x_bytes = match decrypt_secret_x(&key, &user.nonce, user.enc_x) {
        Ok(x) => x,
        Err(e) => return Err(LoginError::SecretDecryption(e)),
    };
    let secret_x = Scalar::from_bytes_mod_order(x_bytes);
    let public_y = RistrettoPoint::mul_base(&secret_x);
    let (secret_local, pub_local) = dh_gen();
    let pub_local_bytes = pub_local.compress();
    let state = LoginState {
        secret_x,
        public_y,
        dh_secret: secret_local,
        dh_public: pub_local_bytes,
    };
    let request = LoginStartRequest { username: user.username, client_pub_dh: pub_local_bytes };
    Ok((state, request))
}

/// The one-time password the client computes: that of the DH key `a·B'`
/// at `current_time`, in 60-second windows with 6 digits.
pub open spec fn client_totp(a_secret: nat, server_dh: nat, current_time: u64) -> nat {
    totp_spec(
        ristretto_encoding((a_secret * server_dh) % group_order()),
        current_time,
        TOTP_WINDOW_SECONDS,
        TOTP_DIGITS as nat,
    )
}

/// The client binds into the challenge the 6-digit one-time password of the
/// shared key `a·B'` over 60-second windows: HMAC-SHA256 of the key over the
/// big-endian window index, dynamically truncated, modulo `10^6`.
pub proof fn lemma_client_totp_six_digits(a_secret: nat, server_dh: nat, current_time: u64)
    ensures
        client_totp(a_secret, server_dh, current_time) == dynamic_truncation(
            hmac_sha256(
                ristretto_encoding((a_secret * server_dh) % group_order()),
                u64_be_bytes((current_time / 60) as u64),
            ),
        ) as nat % 1000000,
        client_totp(a_secret, server_dh, current_time) < 1000000,
{
    reveal_with_fuel(crate::totp::pow10, 7);
}

/// Answers the server's opening of the login: derives the shared key
/// `a·B'`, the one-time password of the current window, and a Schnorr
/// proof of `x` bound to `(A, B', TOTP, nonce)`.
pub fn complete_login(state: &LoginState, response: LoginStartResponse, current_time: u64) -> (proof:
    Result<LoginProofRequest, LoginError>)
    ensures
        response matches LoginStartResponse::Failure { message } ==> proof == Err::<
            LoginProofRequest,
            LoginError,
        >(LoginError::ServerRefused { message }),
        response matches LoginStartResponse::Success { nonce, pub_dh } ==> {
            &&& ristretto_decoding(pub_dh@) is None ==> proof == Err::<LoginProofRequest, LoginError>(
                LoginError::InvalidServerKey,
            )
            &&& ristretto_decoding(pub_dh@) matches Some(b) ==> (proof matches Ok(request)
                && is_response_with_commitment(
                request.proof,
                state.secret_x@,
                state.public_y@,
                state.dh_public@,
                pub_dh@,
                client_totp(state.dh_secret@, b, current_time) as u32,
                nonce@,
            ) && (state.wf() ==> schnorr_accepts(
                request.proof,
                state.public_y@,
                state.dh_public@,
                pub_dh@,
                client_totp(state.dh_secret@, b, current_time) as u32,
                nonce@,
            )))
        },
{
    let (server_nonce, server_dh_compressed) = match response {
        LoginStartResponse::Success { nonce, pub_dh } => (nonce, pub_dh),
        LoginStartResponse::Failure { message } => return Err(LoginError::ServerRefused { message }),
    };
    let server_dh = match RistrettoPoint::decompress(server_dh_compressed) {
        Some(point) => point,
        None => return Err(LoginError::InvalidServerKey),
    };
    let dh_key = derive_dh_key(state.dh_secret, server_dh);
    let key_bytes = dh_key.compress();
    let totp: u32 = generate_totp(&key_bytes, current_time, TOTP_WINDOW_SECONDS, TOTP_DIGITS);
    let proof = generate_proof(
        &state.secret_x,
        &state.public_y,
        &state.dh_public,
        &server_dh_compressed,
        totp,
        &server_nonce,
    );
    Ok(LoginProofRequest { proof })
}

/// The answer to a registration, if `reply` is one.
pub fn register_response_of(reply: ServerMessage) -> (response: Option<RegisterResponse>)
    ensures
        match reply {
            ServerMessage::Register(r) => response == Some(r),
            _ => response is None,
        },
{
    match reply {
        ServerMessage::Register(register_response) => Some(register_response),
        _ => None,
    }
}

/// The answer to a login opening, if `reply` is one.
pub fn login_start_response_of(reply: ServerMessage) -> (response: Option<LoginStartResponse>)
    ensures
        match reply {
            ServerMessage::LoginStart(r) => response == Some(r),
            _ => response is None,
        },
{
    match reply {
        ServerMessage::LoginStart(login_start_response) => Some(login_start_response),
        _ => None,
    }
}

/// The verdict on a login proof, if `reply` is one.
pub fn login_result_of(reply: ServerMessage) -> (response: Option<LoginResult>)
    ensures
        match reply {
            ServerMessage::LoginResult(r) => response == Some(r),
            _ => response is None,
        },
{
    match reply {
        ServerMessage::LoginResult(login_result) => Some(login_result),
        _ => None,
    }
}

} // verus!
