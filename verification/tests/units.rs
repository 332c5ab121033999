use loginbot::api::Api;
use loginbot::compare::ct_eq_bytes;
use loginbot::compare::ct_eq_str;
use loginbot::config::NotifierConfig;
use loginbot::errors::AuthError;
use loginbot::exchange::select_code;
use loginbot::orchestrator::invite_channel;
use loginbot::orchestrator::record_channel;
use loginbot::queries::TokenQuery;
use loginbot::session::Session;
use loginbot::session::SessionStore;
use loginbot::session::SESSION_EXPIRY_IN_SECONDS;

#[test]
fn constant_time_equality_agrees_with_equality() {
    assert!(ct_eq_bytes(b"", b""));
    assert!(ct_eq_bytes(b"abc", b"abc"));
    assert!(!ct_eq_bytes(b"abc", b"abd"));
    assert!(!ct_eq_bytes(b"abc", b"ab"));
    assert!(!ct_eq_bytes(b"", b"x"));

    assert!(ct_eq_str("", ""));
    assert!(ct_eq_str("hunter2", "hunter2"));
    assert!(!ct_eq_str("hunter2", "hunter3"));
    assert!(!ct_eq_str("hunter2", "hunter"));
    assert!(ct_eq_str("grüße", "grüße"));
    assert!(!ct_eq_str("grüße", "grusse"));
}

#[test]
fn error_status_codes_and_messages() {
    assert_eq!(AuthError::ClientMismatch.status_code(), 401);
    assert_eq!(AuthError::NotReady.status_code(), 400);
    assert_eq!(AuthError::NotVerified.status_code(), 400);
    assert_eq!(AuthError::InvalidGrant.status_code(), 400);
    assert_eq!(AuthError::InvariantViolation.status_code(), 500);
    assert_eq!(AuthError::StoreUnavailable.status_code(), 500);
    assert_eq!(AuthError::SessionExpired.status_code(), 400);

    assert_eq!(
        AuthError::NotReady.describe(),
        "you need to start the login process first, via /requestQr"
    );
    assert_eq!(AuthError::InvalidGrant.describe(), "invalid or already consumed code");
}

#[test]
fn session_expiry_window() {
    let session = Session::begin(1_000);
    assert_eq!(session.expires_at, 1_000 + SESSION_EXPIRY_IN_SECONDS);
    assert!(!session.expired(1_000));
    assert!(!session.expired(1_000 + SESSION_EXPIRY_IN_SECONDS - 1));
    assert!(session.expired(1_000 + SESSION_EXPIRY_IN_SECONDS));

    // Near the end of representable time the expiry saturates.
    let late = Session::begin(u64::MAX - 10);
    assert_eq!(late.expires_at, u64::MAX);
}

#[test]
fn session_store_lifecycle() {
    let mut sessions = SessionStore::new();
    assert_eq!(sessions.lookup(0, 0).unwrap_err(), AuthError::NotReady);

    let a = sessions.create(100).expect("handle");
    let b = sessions.create(100).expect("handle");
    assert_ne!(a, b);

    let session = sessions.lookup(a, 150).expect("live");
    assert_eq!(session.channel, None);

    // Past its TTL the session reads as expired ...
    assert_eq!(
        sessions.lookup(a, 100 + SESSION_EXPIRY_IN_SECONDS).unwrap_err(),
        AuthError::SessionExpired
    );

    // ... and once dropped, as never started.
    sessions.expire(a);
    assert_eq!(sessions.lookup(a, 150).unwrap_err(), AuthError::NotReady);
    assert!(sessions.lookup(b, 150).is_ok());
}

#[test]
fn api_endpoints_are_fixed() {
    let api = Api::new(NotifierConfig {
        base_url: "https://forum.example".to_string(),
        api_username: "system".to_string(),
    });
    assert_eq!(api.active_user_endpoint, "/admin/users/list/active.json?filter={}");
    assert_eq!(api.topic_endpoint, "/t/{}.json");
    assert_eq!(api.posts_endpoint, "posts.json");
    assert_eq!(api.config.api_username, "system");
}

#[test]
fn token_request_code_selection() {
    let query_has = TokenQuery { code: Some("q".to_string()) };
    let query_none = TokenQuery { code: None };
    let form_has = TokenQuery { code: Some("f".to_string()) };
    let form_none = TokenQuery { code: None };

    assert_eq!(select_code(&query_has, &form_has), Some("q".to_string()));
    assert_eq!(select_code(&query_none, &form_has), Some("f".to_string()));
    assert_eq!(select_code(&query_has, &form_none), Some("q".to_string()));
    assert_eq!(select_code(&query_none, &form_none), None);
}

#[test]
fn invite_channel_requires_a_started_verification() {
    let mut session = Session::begin(1_000);
    assert_eq!(invite_channel(&session).unwrap_err(), AuthError::NotReady);
    record_channel(&mut session, 42);
    assert_eq!(invite_channel(&session).expect("channel"), 42);
}
