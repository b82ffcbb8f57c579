use rayspace::errors::{HandshakeError, UpstreamError};
use rayspace::handshake::{
    begin_handshake, finish_handshake, generate_oauth_url, validate_callback, UserIdentity,
    STATE_LENGTH,
};
use rayspace::session::{user_status, Session};
use rayspace::upstream::interpret_identity_fields;

#[test]
fn oauth_url_format() {
    let url = generate_oauth_url(
        "cid".to_string(),
        "st".to_string(),
        "https://example.org/cb".to_string(),
    );
    assert_eq!(
        url,
        "https://github.com/login/oauth/authorize?client_id=cid&redirect_uri=https://example.org/cb&state=st&scope=read:user%20user:email"
    );
}

#[test]
fn begin_handshake_stores_nonce() {
    let mut session = Session::new();
    let url = begin_handshake(&mut session, "cid".to_string(), "https://example.org/cb".to_string());
    let state = session.oauth_state.clone().expect("nonce must be pending");
    assert_eq!(state.chars().count(), STATE_LENGTH);
    assert!(state.chars().all(|c| c.is_ascii_alphanumeric()));
    assert!(url.contains(&format!("&state={}&", state)));
    assert!(session.user_id.is_none());
    assert!(session.user_name.is_none());
}

#[test]
fn two_nonces_differ() {
    // 62^20 outcomes: a collision would point at a broken random source.
    let mut s1 = Session::new();
    let mut s2 = Session::new();
    begin_handshake(&mut s1, "cid".to_string(), "u".to_string());
    begin_handshake(&mut s2, "cid".to_string(), "u".to_string());
    assert_ne!(s1.oauth_state.unwrap(), s2.oauth_state.unwrap());
}

#[test]
fn handshake_success_establishes_identity() {
    let mut session = Session::new();
    begin_handshake(&mut session, "cid".to_string(), "https://example.org/cb".to_string());
    let state = session.oauth_state.clone().unwrap();

    let code = validate_callback(&session, Some(state), Some("validcode".to_string()))
        .expect("matching state and present code must pass");
    assert_eq!(code, "validcode");

    // Stubbed provider: { id: 42, name: "Ray" }
    let identity = interpret_identity_fields(Some(42), Some("Ray".to_string()));
    let outcome = finish_handshake(&mut session, identity);
    assert!(outcome.is_ok());
    assert_eq!(session.user_id.as_deref(), Some("42"));
    assert_eq!(session.user_name.as_deref(), Some("Ray"));
    assert!(session.oauth_state.is_none());
    assert!(user_status(&session));
}

#[test]
fn wrong_state_rejected() {
    let mut session = Session::new();
    begin_handshake(&mut session, "cid".to_string(), "https://example.org/cb".to_string());
    let r = validate_callback(
        &session,
        Some("wrong".to_string()),
        Some("validcode".to_string()),
    );
    assert_eq!(r, Err(HandshakeError::StateMismatch));
    assert!(session.user_id.is_none());
    assert!(session.user_name.is_none());
    assert!(!user_status(&session));
}

#[test]
fn wrong_state_rejected_without_code_too() {
    // The mismatch verdict does not depend on the code parameter.
    let mut session = Session::new();
    begin_handshake(&mut session, "cid".to_string(), "u".to_string());
    let r = validate_callback(&session, Some("wrong".to_string()), None);
    assert_eq!(r, Err(HandshakeError::StateMismatch));
}

#[test]
fn missing_state_rejected() {
    let mut session = Session::new();
    begin_handshake(&mut session, "cid".to_string(), "u".to_string());
    let r = validate_callback(&session, None, Some("validcode".to_string()));
    assert_eq!(r, Err(HandshakeError::MissingState));
}

#[test]
fn missing_code_rejected() {
    let mut session = Session::new();
    begin_handshake(&mut session, "cid".to_string(), "u".to_string());
    let state = session.oauth_state.clone().unwrap();
    let r = validate_callback(&session, Some(state), None);
    assert_eq!(r, Err(HandshakeError::MissingCode));
}

#[test]
fn absent_nonce_rejects_any_completion() {
    // A session that never started a handshake stores no nonce; no supplied
    // state — the empty string included — can match it.
    let session = Session::new();
    let r = validate_callback(&session, Some(String::new()), Some("c".to_string()));
    assert_eq!(r, Err(HandshakeError::StateMismatch));
    let r = validate_callback(&session, Some("x".to_string()), Some("c".to_string()));
    assert_eq!(r, Err(HandshakeError::StateMismatch));
}

#[test]
fn consumed_nonce_rejects_replay() {
    // A successful completion consumes the nonce; replaying the very same
    // callback afterwards is rejected.
    let mut session = Session::new();
    begin_handshake(&mut session, "cid".to_string(), "u".to_string());
    let state = session.oauth_state.clone().unwrap();
    let code = validate_callback(&session, Some(state.clone()), Some("c".to_string()));
    assert!(code.is_ok());
    let identity = interpret_identity_fields(Some(42), Some("Ray".to_string()));
    finish_handshake(&mut session, identity).unwrap();
    let replay = validate_callback(&session, Some(state), Some("c".to_string()));
    assert_eq!(replay, Err(HandshakeError::StateMismatch));
}

#[test]
fn failed_exchange_leaves_session_untouched() {
    let mut session = Session::new();
    begin_handshake(&mut session, "cid".to_string(), "u".to_string());
    let state = session.oauth_state.clone().unwrap();
    let r = finish_handshake(&mut session, Err(UpstreamError::FetchFailed));
    assert_eq!(r, Err(UpstreamError::FetchFailed));
    assert_eq!(session.oauth_state, Some(state));
    assert!(session.user_id.is_none());
    assert!(session.user_name.is_none());
    assert!(!user_status(&session));
}

#[test]
fn identity_fields_set_together_or_not_at_all() {
    // Success writes both fields; failure writes neither.
    let mut ok_session = Session::new();
    let ok = finish_handshake(
        &mut ok_session,
        Ok(UserIdentity { user_id: "42".to_string(), user_name: "Ray".to_string() }),
    );
    assert!(ok.is_ok());
    assert!(ok_session.user_id.is_some() && ok_session.user_name.is_some());

    let mut err_session = Session::new();
    let err = finish_handshake(&mut err_session, Err(UpstreamError::MissingToken));
    assert!(err.is_err());
    assert!(err_session.user_id.is_none() && err_session.user_name.is_none());
}
