//! Server side of registration and login.
use vstd::prelude::*;
use crate::dh::{derive_dh_key, dh_gen};
use crate::group::{
    group_order, is_point_encoding, ristretto_decoding, ristretto_encoding, RistrettoPoint, Scalar,
};
use crate::messages::{
    ClientMessage, LoginProofRequest, LoginResult, LoginStartRequest, LoginStartResponse, RegisterRequest,
    RegisterResponse, ServerMessage,
};
use crate::random::random_bytes;
use crate::schnorr::{schnorr_accepts, verify_proof, SchnorrProof};
use crate::totp::{dynamic_truncation, generate_totp, hmac_sha256, totp_spec};
use crate::encoding::u64_be_bytes;

verus! {

/// Length in seconds of a one-time-password window.
pub const TOTP_WINDOW_SECONDS: u64 = 60;
/// Number of decimal digits of a one-time password.
pub const TOTP_DIGITS: u32 = 6;

/// What the server stores of a user: the name and the public key `Y`.
#[derive(Debug, Clone, PartialEq, Eq)]
pub struct UserRecord {
    pub username: String,
    pub pub_key: [u8; 32],
}

/// The server's state between the start of a login and its proof.
pub struct LoginSession {
    /// The user's long-term public key.
    pub y: RistrettoPoint,
    /// The client's ephemeral DH value `A`, as received.
    pub a_bytes: [u8; 32],
    /// The server's ephemeral DH secret `b`.
    pub b_secret: Scalar,
    /// The server's ephemeral DH value `B = b·B`, encoded.
    pub b_bytes: [u8; 32],
    /// The nonce sent to the client.
    pub nonce: [u8; 16],
}

fn generate_nonce() -> (nonce: [u8; 16]) {
    random_bytes()
}

/// What registering answers: when a record is already stored under the
/// requested name, a refusal and nothing to store; otherwise the record to
/// store (the name and the public key, no secret) and success.
pub open spec fn register_answered(
    request: RegisterRequest,
    existing: Option<UserRecord>,
    record: Option<UserRecord>,
    answer: ServerMessage,
) -> bool {
    match existing {
        Some(_) => record is None && (answer matches ServerMessage::Register(
            RegisterResponse::Failure { message },
        ) && message@ == "Username already exists"@),
        None => {
            &&& record == Some(UserRecord { username: request.username, pub_key: request.y })
            &&& answer == ServerMessage::Register(RegisterResponse::Success)
        },
    }
}

/// Registers a user, given the record already stored under the requested
/// name (`None` when the name is free): a taken name is refused and the
/// stored record is left as it is; otherwise the record to store and the
/// answer to send.
pub fn handle_register(request: RegisterRequest, existing: Option<UserRecord>) -> (answer: (
    Option<UserRecord>,
    ServerMessage,
))
    ensures
        register_answered(request, existing, answer.0, answer.1),
{
    match existing {
        Some(_) => (
            None,
            ServerMessage::Register(
                RegisterResponse::Failure { message: "Username already exists".to_owned() },
            ),
        ),
        None => {
            let record = UserRecord { username: request.username, pub_key: request.y };
            (Some(record), ServerMessage::Register(RegisterResponse::Success))
        },
    }
}

/// What opening a login answers: a refusal without a session when no user
/// is stored, and otherwise a session for the stored key and the client's
/// `A`, with the server's `B' = b·B` and nonce sent back.
pub open spec fn login_start_answered(
    request: LoginStartRequest,
    stored: Option<UserRecord>,
    answer: ServerMessage,
    session: Option<LoginSession>,
) -> bool {
    match stored {
        None => session is None && (answer matches ServerMessage::LoginStart(
            LoginStartResponse::Failure { message },
        ) && message@ == "User does not exist"@),
        Some(user) => session matches Some(s) && {
            &&& s.y@ == ristretto_decoding(user.pub_key@)->0
            &&& s.a_bytes == request.client_pub_dh
            &&& s.b_bytes@ == ristretto_encoding(s.b_secret@)
            &&& ristretto_decoding(s.b_bytes@) == Some(s.b_secret@)
            &&& answer == ServerMessage::LoginStart(
                LoginStartResponse::Success { nonce: s.nonce, pub_dh: s.b_bytes },
            )
        },
    }
}

/// The stored public key, if any, is a group element.
pub open spec fn stored_key_valid(stored: Option<UserRecord>) -> bool {
    stored matches Some(user) ==> is_point_encoding(user.pub_key@)
}

/// Opens a login session for the user whose stored record is `stored`
/// (`None` when no such user is registered): a fresh DH key pair and a
/// fresh nonce.
pub fn handle_login_start(request: LoginStartRequest, stored: Option<UserRecord>) -> (answer: (
    ServerMessage,
    Option<LoginSession>,
))
    requires
        stored_key_valid(stored),
    ensures
        login_start_answered(request, stored, answer.0, answer.1),
{
    let user = match stored {
        None => {
            return (
                ServerMessage::LoginStart(
                    LoginStartResponse::Failure { message: "User does not exist".to_owned() },
                ),
                None,
            );
        },
        Some(user) => user,
    };
    let (secret_local, pub_local) = dh_gen();
    let nonce = generate_nonce();
    let pub_local_bytes = pub_local.compress();
    let y = match RistrettoPoint::decompress(user.pub_key) {
        Some(point) => point,
        None => {
            // Unreachable: the stored key is required to decode.
            assert(false);
            return (
                ServerMessage::LoginStart(
                    LoginStartResponse::Failure { message: "Invalid Ristretto Point".to_owned() },
                ),
                None,
            );
        },
    };
    let session = LoginSession {
        y,
        a_bytes: request.client_pub_dh,
        b_secret: secret_local,
        b_bytes: pub_local_bytes,
        nonce,
    };
    (
        ServerMessage::LoginStart(
            LoginStartResponse::Success { nonce, pub_dh: pub_local_bytes },
        ),
        Some(session),
    )
}

/// `handle_login_start` on any stored record: `None`, and nothing done,
/// when the stored public key is not a group element.
pub fn try_handle_login_start(request: LoginStartRequest, stored: Option<UserRecord>) -> (answer:
    Option<(ServerMessage, Option<LoginSession>)>)
    ensures
        answer is None <==> !stored_key_valid(stored),
        answer matches Some(a) ==> login_start_answered(request, stored, a.0, a.1),
{
    match &stored {
        Some(user) => {
            if RistrettoPoint::decompress(user.pub_key).is_none() {
                return None;
            }
        },
        None => {},
    }
    Some(handle_login_start(request, stored))
}

/// The one-time password the server expects: that of the DH key
/// `b·A` at `current_time`, in 60-second windows with 6 digits.
pub open spec fn server_totp(b_secret: nat, client_dh: nat, current_time: u64) -> nat {
    totp_spec(
        ristretto_encoding((b_secret * client_dh) % group_order()),
        current_time,
        TOTP_WINDOW_SECONDS,
        TOTP_DIGITS as nat,
    )
}

/// The server binds into the challenge the 6-digit one-time password of the
/// shared key `b·A` over 60-second windows: HMAC-SHA256 of the key over the
/// big-endian window index, dynamically truncated, modulo `10^6`.
pub proof fn lemma_server_totp_six_digits(b_secret: nat, client_dh: nat, current_time: u64)
    ensures
        server_totp(b_secret, client_dh, current_time) == dynamic_truncation(
            hmac_sha256(
                ristretto_encoding((b_secret * client_dh) % group_order()),
                u64_be_bytes((current_time / 60) as u64),
            ),
        ) as nat % 1000000,
        server_totp(b_secret, client_dh, current_time) < 1000000,
{
    reveal_with_fuel(crate::totp::pow10, 7);
}

/// A login proof is valid when `A` decodes and the proof verifies in the
/// session `(A, B, TOTP, nonce)` with the server's one-time password.
pub open spec fn login_proof_valid(
    proof: SchnorrProof,
    y: nat,
    a_bytes: Seq<u8>,
    b_secret: nat,
    b_bytes: Seq<u8>,
    nonce: Seq<u8>,
    current_time: u64,
) -> bool {
    match ristretto_decoding(a_bytes) {
        None => false,
        Some(a) => schnorr_accepts(
            proof,
            y,
            a_bytes,
            b_bytes,
            server_totp(b_secret, a, current_time) as u32,
            nonce,
        ),
    }
}

/// Checks a login proof against the session opened by `handle_login_start`,
/// at the server's time `current_time`.
pub fn handle_login_proof(
    request: LoginProofRequest,
    y: &RistrettoPoint,
    a_bytes: &[u8; 32],
    b_secret: &Scalar,
    b_bytes: &[u8; 32],
    nonce: &[u8; 16],
    current_time: u64,
) -> (answer: ServerMessage)
    ensures
        login_proof_valid(request.proof, y@, a_bytes@, b_secret@, b_bytes@, nonce@, current_time)
            ==> answer == ServerMessage::LoginResult(LoginResult::Success),
        !login_proof_valid(request.proof, y@, a_bytes@, b_secret@, b_bytes@, nonce@, current_time)
            ==> (answer matches ServerMessage::LoginResult(LoginResult::Failure { message })
            && message@ == "Authentication failed"@),
{
    let auth = match RistrettoPoint::decompress(*a_bytes) {
        None => false,
        Some(client_dh) => {
            let dh_key = derive_dh_key(*b_secret, client_dh);
            let key_bytes: [u8; 32] = dh_key.compress();
            let totp: u32 = generate_totp(&key_bytes, current_time, TOTP_WINDOW_SECONDS, TOTP_DIGITS);
            verify_proof(&request.proof, y, a_bytes, b_bytes, totp, nonce)
        },
    };
    if auth {
        ServerMessage::LoginResult(LoginResult::Success)
    } else {
        ServerMessage::LoginResult(
            LoginResult::Failure { message: "Authentication failed".to_owned() },
        )
    }
}

/// The proof is valid in the open session, if there is one.
pub open spec fn session_accepts(proof: SchnorrProof, session: Option<LoginSession>, current_time: u64) -> bool {
    match session {
        None => false,
        Some(s) => login_proof_valid(
            proof,
            s.y@,
            s.a_bytes@,
            s.b_secret@,
            s.b_bytes@,
            s.nonce@,
            current_time,
        ),
    }
}

/// Answers a login proof within the current session; without an open
/// session the proof is refused.
pub fn handle_login_proof_in_session(
    request: LoginProofRequest,
    session: &Option<LoginSession>,
    current_time: u64,
) -> (answer: ServerMessage)
    ensures
        session_accepts(request.proof, *session, current_time)
            ==> answer == ServerMessage::LoginResult(LoginResult::Success),
        !session_accepts(request.proof, *session, current_time) ==> (answer matches ServerMessage::LoginResult(
            LoginResult::Failure { message },
        ) && message@ == "Authentication failed"@),
{
    match session {
        Some(s) => handle_login_proof(
            request,
            &s.y,
            &s.a_bytes,
            &s.b_secret,
            &s.b_bytes,
            &s.nonce,
            current_time,
        ),
        None => ServerMessage::LoginResult(
            LoginResult::Failure { message: "Authentication failed".to_owned() },
        ),
    }
}

/// One step of a connection: the answer to send, the login session that is
/// open afterwards, and the user record to store, if any.
pub struct ServerStep {
    pub response: ServerMessage,
    pub session: Option<LoginSession>,
    pub record_to_store: Option<UserRecord>,
}

/// Handles one client message on a connection whose open login session is
/// `session`. For a registration or a login opening, `stored` is the record
/// stored under the requested name; for a login proof, `current_time` is the server's clock.
/// A proof closes the session, whatever its verdict. `None`, and nothing
/// done, when a login is opened for a stored key that is not a group
/// element.
pub fn handle_client_message(
    message: ClientMessage,
    session: Option<LoginSession>,
    stored: Option<UserRecord>,
    current_time: u64,
) -> (step: Option<ServerStep>)
    ensures
        match message {
            ClientMessage::Register(request) => step matches Some(st) && {
                &&& register_answered(request, stored, st.record_to_store, st.response)
                &&& st.session == session
            },
            ClientMessage::LoginStart(request) => {
                &&& step is None <==> !stored_key_valid(stored)
                &&& step matches Some(st) ==> st.record_to_store is None && login_start_answered(
                    request,
                    stored,
                    st.response,
                    st.session,
                )
            },
            ClientMessage::LoginProof(request) => step matches Some(st) && {
                &&& st.record_to_store is None
                &&& st.session is None
                &&& session_accepts(request.proof, session, current_time) ==> st.response
                    == ServerMessage::LoginResult(LoginResult::Success)
                &&& !session_accepts(request.proof, session, current_time) ==> (st.response matches ServerMessage::LoginResult(
                    LoginResult::Failure { message },
                ) && message@ == "Authentication failed"@)
            },
        },
{
    match message {
        ClientMessage::Register(request) => {
            let (record, response) = handle_register(request, stored);
            Some(ServerStep { response, session, record_to_store: record })
        },
        ClientMessage::LoginStart(request) => match try_handle_login_start(request, stored) {
            None => None,
            Some((response, new_session)) => Some(
                ServerStep { response, session: new_session, record_to_store: None },
            ),
        },
        ClientMessage::LoginProof(request) => {
            let response = handle_login_proof_in_session(request, &session, current_time);
            Some(ServerStep { response, session: None, record_to_store: None })
        },
    }
}

} // verus!
