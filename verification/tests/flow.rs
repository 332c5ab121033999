use loginbot::authorize::authorize;
use loginbot::authorize::AuthorizeOutcome;
use loginbot::config::OAuthConfig;
use loginbot::errors::AuthError;
use loginbot::exchange::exchange;
use loginbot::orchestrator::invite_ready;
use loginbot::orchestrator::poll_membership;
use loginbot::orchestrator::record_channel;
use loginbot::orchestrator::start_verification;
use loginbot::orchestrator::PollReport;
use loginbot::orchestrator::StartOutcome;
use loginbot::queries::AuthorizeQuery;
use loginbot::session::SessionStore;
use loginbot::store::CodeStore;

const SELF_ID: u32 = 1;

fn test_oauth() -> OAuthConfig {
    OAuthConfig {
        client_id: "forum".to_string(),
        client_secret: "hunter2".to_string(),
        redirect_uri: "https://forum.example/callback".to_string(),
    }
}

fn is_lower_hex(s: &str) -> bool {
    s.chars().all(|c| c.is_ascii_digit() || ('a'..='f').contains(&c))
}

#[test]
fn scenario_fresh_session_reports_waiting() {
    let mut sessions = SessionStore::new();
    let handle = sessions.create(1_000).expect("handle space exhausted");
    let mut session = sessions.lookup(handle, 1_000).expect("fresh session must be live");

    assert!(!invite_ready(&session));
    let name = match start_verification(&session) {
        StartOutcome::Create { name } => name,
        StartOutcome::Existing { .. } => panic!("fresh session cannot have a channel"),
    };
    assert!(name.starts_with("LoginBot group "));
    assert_eq!(name.chars().count(), 20);

    record_channel(&mut session, 42);
    assert!(invite_ready(&session));
    sessions.save(handle, session);

    let mut session = sessions.lookup(handle, 1_010).expect("session still live");
    assert_eq!(session.channel, Some(42));
    let report = poll_membership(&mut session, &vec![SELF_ID], SELF_ID).expect("one member waits");
    assert_eq!(report, PollReport::Waiting);
    assert_eq!(session.identity, None);
    sessions.save(handle, session);

    // A second start reuses the channel instead of creating another one.
    match start_verification(&session) {
        StartOutcome::Existing { channel } => assert_eq!(channel, 42),
        StartOutcome::Create { .. } => panic!("channel must be reused"),
    }
}

#[test]
fn scenario_join_then_authorize_redirects_with_code() {
    let oauth = test_oauth();
    let mut store = CodeStore::open_temporary().expect("temporary store");
    let mut sessions = SessionStore::new();
    let handle = sessions.create(1_000).expect("handle space exhausted");
    let mut session = sessions.lookup(handle, 1_000).expect("fresh session must be live");
    record_channel(&mut session, 42);

    // Membership reaches two: the non-self member is bound.
    let report = poll_membership(&mut session, &vec![SELF_ID, 7], SELF_ID).expect("join");
    assert_eq!(report, PollReport::Joined { identity: 7, send_notice: true });
    assert_eq!(session.identity, Some(7));
    sessions.save(handle, session);

    let query = AuthorizeQuery {
        client_id: "forum".to_string(),
        redirect_uri: "https://forum.example/callback".to_string(),
        state: "xyzzy".to_string(),
    };
    let session = sessions.lookup(handle, 1_020).expect("session still live");
    match authorize(&query, &oauth, &session, 1_100, &mut store).expect("authorize") {
        AuthorizeOutcome::Redirect { url, code } => {
            assert_eq!(url, format!("https://forum.example/callback?state=xyzzy&code={code}"));
            assert_eq!(code.len(), 32);
            assert!(is_lower_hex(&code));
        },
        AuthorizeOutcome::ShowLogin => panic!("verified session must redirect"),
    }
}

#[test]
fn scenario_unverified_session_sees_login_page() {
    let oauth = test_oauth();
    let mut store = CodeStore::open_temporary().expect("temporary store");
    let mut sessions = SessionStore::new();
    let handle = sessions.create(1_000).expect("handle space exhausted");
    let session = sessions.lookup(handle, 1_000).expect("fresh session must be live");

    let query = AuthorizeQuery {
        client_id: "forum".to_string(),
        redirect_uri: "https://forum.example/callback".to_string(),
        state: "s".to_string(),
    };
    match authorize(&query, &oauth, &session, 1_100, &mut store).expect("authorize") {
        AuthorizeOutcome::ShowLogin => {},
        AuthorizeOutcome::Redirect { .. } => panic!("unverified session must not redirect"),
    }
}

#[test]
fn scenario_authorize_rejects_wrong_relying_party() {
    let oauth = test_oauth();
    let mut store = CodeStore::open_temporary().expect("temporary store");
    let mut sessions = SessionStore::new();
    let handle = sessions.create(1_000).expect("handle space exhausted");
    let session = sessions.lookup(handle, 1_000).expect("fresh session must be live");

    let bad_client = AuthorizeQuery {
        client_id: "other".to_string(),
        redirect_uri: "https://forum.example/callback".to_string(),
        state: "s".to_string(),
    };
    assert_eq!(
        authorize(&bad_client, &oauth, &session, 1_100, &mut store).unwrap_err(),
        AuthError::ClientMismatch
    );

    let bad_uri = AuthorizeQuery {
        client_id: "forum".to_string(),
        redirect_uri: "https://elsewhere.example/".to_string(),
        state: "s".to_string(),
    };
    assert_eq!(
        authorize(&bad_uri, &oauth, &session, 1_100, &mut store).unwrap_err(),
        AuthError::ClientMismatch
    );
}

#[test]
fn scenario_token_exchange_and_replay() {
    let oauth = test_oauth();
    let mut store = CodeStore::open_temporary().expect("temporary store");
    let mut sessions = SessionStore::new();
    let handle = sessions.create(1_000).expect("handle space exhausted");
    let mut session = sessions.lookup(handle, 1_000).expect("fresh session must be live");
    record_channel(&mut session, 42);
    poll_membership(&mut session, &vec![SELF_ID, 7], SELF_ID).expect("join");

    let query = AuthorizeQuery {
        client_id: "forum".to_string(),
        redirect_uri: "https://forum.example/callback".to_string(),
        state: "s".to_string(),
    };
    let code = match authorize(&query, &oauth, &session, 1_100, &mut store).expect("authorize") {
        AuthorizeOutcome::Redirect { code, .. } => code,
        AuthorizeOutcome::ShowLogin => panic!("verified session must redirect"),
    };

    // Correct client credentials and a live code: the identity comes back.
    let grant = exchange(&oauth, "forum", "hunter2", &code, 1_150, &mut store).expect("exchange");
    assert_eq!(grant.identity, 7);
    assert_eq!(grant.expires_in, 1);
    assert_eq!(grant.access_token.len(), 32);
    assert!(is_lower_hex(&grant.access_token));

    // The same code a second time is gone for good.
    assert_eq!(
        exchange(&oauth, "forum", "hunter2", &code, 1_150, &mut store).unwrap_err(),
        AuthError::InvalidGrant
    );
}

#[test]
fn scenario_three_members_is_fatal_and_binds_nothing() {
    let mut sessions = SessionStore::new();
    let handle = sessions.create(1_000).expect("handle space exhausted");
    let mut session = sessions.lookup(handle, 1_000).expect("fresh session must be live");
    record_channel(&mut session, 42);

    let before = session;
    let err = poll_membership(&mut session, &vec![SELF_ID, 2, 3], SELF_ID).unwrap_err();
    assert_eq!(err, AuthError::InvariantViolation);
    assert_eq!(err.status_code(), 500);
    assert_eq!(session, before);
    assert_eq!(session.identity, None);

    // An empty membership list is just as fatal.
    let err = poll_membership(&mut session, &vec![], SELF_ID).unwrap_err();
    assert_eq!(err, AuthError::InvariantViolation);
}
