use zk_auth_totp::aes::SecretDecryptionError;
use zk_auth_totp::client::{
    begin_login, complete_login, login_result_of, login_start_response_of, prepare_registration,
    register_response_of, registration_from_parts, LoginError, UserData,
};
use zk_auth_totp::group::{RistrettoPoint, Scalar};
use zk_auth_totp::messages::{
    ClientMessage,
    LoginProofRequest, LoginResult, LoginStartRequest, LoginStartResponse, RegisterRequest,
    RegisterResponse, ServerMessage,
};
use zk_auth_totp::schnorr::SchnorrProof;
use zk_auth_totp::server::{
    handle_client_message,
    handle_login_proof, handle_login_proof_in_session, handle_login_start, handle_register,
    try_handle_login_start, UserRecord,
};

fn register(username: &str, password: &str) -> (UserData, UserRecord) {
    let (record, request) = prepare_registration(username.to_string(), password).unwrap();
    assert_eq!(record.username, username);
    assert_eq!(request.username, username);
    let (stored, answer) = handle_register(request, None);
    assert_eq!(answer, ServerMessage::Register(RegisterResponse::Success));
    let stored = stored.unwrap();
    let user = UserData {
        username: record.username,
        salt: record.salt,
        nonce: record.nonce,
        enc_x: record.enc_x,
    };
    (user, stored)
}

#[test]
fn register_stores_only_the_public_key() {
    let request = RegisterRequest { username: "alice".to_string(), y: [3u8; 32] };
    let (record, answer) = handle_register(request, None);
    assert_eq!(record, Some(UserRecord { username: "alice".to_string(), pub_key: [3u8; 32] }));
    assert_eq!(answer, ServerMessage::Register(RegisterResponse::Success));
}

#[test]
fn duplicate_registration_is_refused() {
    let existing = UserRecord { username: "alice".to_string(), pub_key: [3u8; 32] };
    let request = RegisterRequest { username: "alice".to_string(), y: [4u8; 32] };
    let (record, answer) = handle_register(request, Some(existing.clone()));
    assert_eq!(record, None);
    assert_eq!(
        answer,
        ServerMessage::Register(RegisterResponse::Failure { message: "Username already exists".to_string() })
    );
    let request = RegisterRequest { username: "alice".to_string(), y: [4u8; 32] };
    let step = handle_client_message(ClientMessage::Register(request), None, Some(existing), 0).unwrap();
    assert_eq!(step.record_to_store, None);
    assert_eq!(
        step.response,
        ServerMessage::Register(RegisterResponse::Failure { message: "Username already exists".to_string() })
    );
}

#[test]
fn unknown_user_is_refused() {
    let request = LoginStartRequest { username: "nobody".to_string(), client_pub_dh: [0u8; 32] };
    let (answer, session) = handle_login_start(request, None);
    assert!(session.is_none());
    assert_eq!(
        answer,
        ServerMessage::LoginStart(LoginStartResponse::Failure { message: "User does not exist".to_string() })
    );
}

#[test]
fn invalid_stored_key_is_reported() {
    let request = LoginStartRequest { username: "eve".to_string(), client_pub_dh: [0u8; 32] };
    let stored = UserRecord { username: "eve".to_string(), pub_key: [0xffu8; 32] };
    assert!(try_handle_login_start(request, Some(stored)).is_none());
}

#[test]
fn full_login_succeeds() {
    let (user, stored) = register("alice", "hunter2");
    let (state, start) = begin_login(user, "hunter2").unwrap();
    assert_eq!(start.username, "alice");
    let (answer, session) = try_handle_login_start(start, Some(stored)).unwrap();
    let session = session.unwrap();
    let response = login_start_response_of(answer).unwrap();
    match &response {
        LoginStartResponse::Success { nonce, pub_dh } => {
            assert_eq!(*nonce, session.nonce);
            assert_eq!(*pub_dh, session.b_bytes);
        }
        LoginStartResponse::Failure { .. } => panic!("login was refused"),
    }
    let time = 1_700_000_000;
    let proof = complete_login(&state, response, time).unwrap();
    let verdict = handle_login_proof(
        proof.clone(),
        &session.y,
        &session.a_bytes,
        &session.b_secret,
        &session.b_bytes,
        &session.nonce,
        time + 30,
    );
    assert_eq!(verdict, ServerMessage::LoginResult(LoginResult::Success));
    assert_eq!(login_result_of(verdict), Some(LoginResult::Success));
    let in_session = handle_login_proof_in_session(proof, &Some(session), time);
    assert_eq!(in_session, ServerMessage::LoginResult(LoginResult::Success));
}

#[test]
fn login_in_another_window_fails() {
    let (user, stored) = register("bob", "pw");
    let (state, start) = begin_login(user, "pw").unwrap();
    let (answer, session) = handle_login_start(start, Some(stored));
    let session = session.unwrap();
    let response = login_start_response_of(answer).unwrap();
    let proof = complete_login(&state, response, 600).unwrap();
    let verdict = handle_login_proof_in_session(proof, &Some(session), 660);
    assert_eq!(
        verdict,
        ServerMessage::LoginResult(LoginResult::Failure { message: "Authentication failed".to_string() })
    );
}

#[test]
fn proof_without_session_fails() {
    let proof = LoginProofRequest { proof: SchnorrProof { t: [0u8; 32], s: [0u8; 32] } };
    assert_eq!(
        handle_login_proof_in_session(proof, &None, 0),
        ServerMessage::LoginResult(LoginResult::Failure { message: "Authentication failed".to_string() })
    );
}

#[test]
fn invalid_client_dh_fails() {
    let x = Scalar::random();
    let y = RistrettoPoint::mul_base(&x);
    let b = Scalar::random();
    let b_bytes = RistrettoPoint::mul_base(&b).compress();
    let proof = LoginProofRequest { proof: SchnorrProof { t: [0u8; 32], s: [0u8; 32] } };
    let verdict = handle_login_proof(proof, &y, &[0xffu8; 32], &b, &b_bytes, &[0u8; 16], 0);
    assert_eq!(
        verdict,
        ServerMessage::LoginResult(LoginResult::Failure { message: "Authentication failed".to_string() })
    );
}

#[test]
fn wrong_password_is_an_authentication_error() {
    let (user, _) = register("carol", "right");
    match begin_login(user, "wrong") {
        Err(e) => assert_eq!(e, LoginError::SecretDecryption(SecretDecryptionError::DecryptionFailed)),
        Ok(_) => panic!("wrong password accepted"),
    }
}

#[test]
fn server_refusal_is_reported() {
    let (user, _) = register("dave", "pw");
    let (state, _) = begin_login(user, "pw").unwrap();
    let refusal = LoginStartResponse::Failure { message: "User does not exist".to_string() };
    assert_eq!(
        complete_login(&state, refusal, 0),
        Err(LoginError::ServerRefused { message: "User does not exist".to_string() })
    );
    let bad_key = LoginStartResponse::Success { nonce: [0u8; 16], pub_dh: [0xffu8; 32] };
    assert_eq!(complete_login(&state, bad_key, 0), Err(LoginError::InvalidServerKey));
}

#[test]
fn registration_with_given_parts() {
    let mut xb = [0u8; 32];
    xb[0] = 9;
    let x = Scalar::from_bytes_mod_order(xb);
    let (record, request) =
        registration_from_parts("erin".to_string(), "pw", &x, [4u8; 16], [5u8; 12]).unwrap();
    assert_eq!(record.salt, [4u8; 16]);
    assert_eq!(record.nonce, [5u8; 12]);
    assert_eq!(request.y, RistrettoPoint::mul_base(&x).compress());
    let user = UserData { username: record.username, salt: record.salt, nonce: record.nonce, enc_x: record.enc_x };
    let (state, _) = begin_login(user, "pw").unwrap();
    assert_eq!(state.secret_x.to_bytes(), xb);
    assert_eq!(state.public_y.compress(), request.y);
}

#[test]
fn registration_rejects_nothing_short() {
    let short_salt = registration_from_parts("f".to_string(), "pw", &Scalar::random(), [0u8; 16], [0u8; 12]);
    assert!(short_salt.is_ok());
}

#[test]
fn response_extraction() {
    let reg = ServerMessage::Register(RegisterResponse::Success);
    assert_eq!(register_response_of(reg.clone()), Some(RegisterResponse::Success));
    assert_eq!(login_start_response_of(reg.clone()), None);
    assert_eq!(login_result_of(reg), None);
    let res = ServerMessage::LoginResult(LoginResult::Failure { message: "m".to_string() });
    assert_eq!(register_response_of(res.clone()), None);
    assert_eq!(login_result_of(res), Some(LoginResult::Failure { message: "m".to_string() }));
}

#[test]
fn connection_steps() {
    let (user, _) = register("frank", "pw");
    let (state, start) = begin_login(user, "pw").unwrap();
    let stored_key = {
        let (_, request) = prepare_registration("frank".to_string(), "pw").unwrap();
        request.y
    };
    // Registration: the record is handed back for storage.
    let reg = ClientMessage::Register(RegisterRequest { username: "frank".to_string(), y: stored_key });
    let step = handle_client_message(reg, None, None, 0).unwrap();
    assert_eq!(step.response, ServerMessage::Register(RegisterResponse::Success));
    assert_eq!(step.record_to_store, Some(UserRecord { username: "frank".to_string(), pub_key: stored_key }));
    assert!(step.session.is_none());

    // Unknown user.
    let open = ClientMessage::LoginStart(LoginStartRequest { username: "ghost".to_string(), client_pub_dh: [0u8; 32] });
    let step = handle_client_message(open, None, None, 0).unwrap();
    assert!(step.session.is_none());
    assert!(step.record_to_store.is_none());

    // Invalid stored key.
    let open = ClientMessage::LoginStart(LoginStartRequest { username: "x".to_string(), client_pub_dh: [0u8; 32] });
    let bad = UserRecord { username: "x".to_string(), pub_key: [0xffu8; 32] };
    assert!(handle_client_message(open, None, Some(bad), 0).is_none());

    // A proof made with another key than the stored one is refused, and the session closes.
    let (_, stored) = register("frank2", "pw");
    let step = handle_client_message(ClientMessage::LoginStart(start), None, Some(stored), 0).unwrap();
    assert!(step.session.is_some());
    let response = login_start_response_of(step.response).unwrap();
    let proof = complete_login(&state, response, 0).unwrap();
    let step = handle_client_message(ClientMessage::LoginProof(proof), step.session, None, 0).unwrap();
    assert_eq!(
        step.response,
        ServerMessage::LoginResult(LoginResult::Failure { message: "Authentication failed".to_string() })
    );
    assert!(step.session.is_none());
}

#[test]
fn connection_full_login() {
    let (record, request) = prepare_registration("gina".to_string(), "s3cret").unwrap();
    let step = handle_client_message(ClientMessage::Register(request), None, None, 0).unwrap();
    let stored = step.record_to_store.unwrap();
    let user = UserData { username: record.username, salt: record.salt, nonce: record.nonce, enc_x: record.enc_x };
    let (state, start) = begin_login(user, "s3cret").unwrap();
    let step = handle_client_message(ClientMessage::LoginStart(start), None, Some(stored), 125).unwrap();
    let response = login_start_response_of(step.response).unwrap();
    let proof = complete_login(&state, response, 125).unwrap();
    let step = handle_client_message(ClientMessage::LoginProof(proof), step.session, None, 170).unwrap();
    assert_eq!(step.response, ServerMessage::LoginResult(LoginResult::Success));
}

#[test]
fn login_recomputes_registered_key() {
    let (record, request) = prepare_registration("hana".to_string(), "pass phrase").unwrap();
    let user = UserData { username: record.username, salt: record.salt, nonce: record.nonce, enc_x: record.enc_x };
    let (state, _) = begin_login(user, "pass phrase").unwrap();
    assert_eq!(state.public_y.compress(), request.y);
}
