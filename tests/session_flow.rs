use hheat::session::{AuthAction, AuthError, AuthEvent, AuthState};

fn some(s: &str) -> Option<String> {
    Some(s.to_string())
}

const LISTING: &str = r#"[{"type":"heating","id":"n1"}]"#;

#[test]
fn begins_by_loading_the_token() {
    let (state, action) = AuthState::begin();
    assert!(matches!(state, AuthState::Start));
    assert!(matches!(action, AuthAction::LoadToken));
}

#[test]
fn cached_token_accepted_without_login() {
    let (s, a) = AuthState::begin();
    assert!(matches!(a, AuthAction::LoadToken));
    let (s, a) = s.step(AuthEvent::TokenLoaded { token: some("cached") });
    match a {
        AuthAction::FetchListing { token } => assert_eq!(token, "cached"),
        _ => panic!("expected a listing request"),
    }
    let (s, a) = s.step(AuthEvent::ListingReplied { body: some(LISTING) });
    assert!(matches!(a, AuthAction::Proceed));
    match s {
        AuthState::Ready { token, listing } => {
            assert_eq!(token, "cached");
            assert_eq!(listing, LISTING);
        }
        _ => panic!("expected a ready session"),
    }
}

#[test]
fn absent_token_logs_in_once() {
    let mut logins = 0;
    let (s, _) = AuthState::begin();
    let (s, a) = s.step(AuthEvent::TokenLoaded { token: None });
    if matches!(a, AuthAction::Login) {
        logins += 1;
    }
    let (s, a) = s.step(AuthEvent::LoginReplied { body: some(r#"{"token":"fresh","user":{}}"#) });
    match a {
        AuthAction::SaveToken { token } => assert_eq!(token, "fresh"),
        _ => panic!("expected the token to be saved"),
    }
    let (s, a) = s.step(AuthEvent::TokenSaved { ok: true });
    match a {
        AuthAction::FetchListing { token } => assert_eq!(token, "fresh"),
        _ => panic!("expected a listing request"),
    }
    let (s, a) = s.step(AuthEvent::ListingReplied { body: some(LISTING) });
    assert!(matches!(a, AuthAction::Proceed));
    assert!(matches!(s, AuthState::Ready { .. }));
    assert_eq!(logins, 1);
}

#[test]
fn rejected_token_logs_in_and_retries_once() {
    let (s, _) = AuthState::begin();
    let (s, _) = s.step(AuthEvent::TokenLoaded { token: some("stale") });
    let (s, a) = s.step(AuthEvent::ListingReplied { body: some(r#"{"error":"NOT_AUTHORIZED"}"#) });
    assert!(matches!(a, AuthAction::Login));
    let (s, _) = s.step(AuthEvent::LoginReplied { body: some(r#"{"token":"fresh"}"#) });
    let (s, a) = s.step(AuthEvent::TokenSaved { ok: true });
    match a {
        AuthAction::FetchListing { token } => assert_eq!(token, "fresh"),
        _ => panic!("expected a listing request"),
    }
    let (s, a) = s.step(AuthEvent::ListingReplied { body: some(LISTING) });
    assert!(matches!(a, AuthAction::Proceed));
    match s {
        AuthState::Ready { token, .. } => assert_eq!(token, "fresh"),
        _ => panic!("expected a ready session"),
    }
}

#[test]
fn failed_listing_request_counts_as_rejection() {
    let (s, _) = AuthState::begin();
    let (s, _) = s.step(AuthEvent::TokenLoaded { token: some("stale") });
    let (_, a) = s.step(AuthEvent::ListingReplied { body: None });
    assert!(matches!(a, AuthAction::Login));
}

#[test]
fn second_rejection_is_fatal() {
    let (s, _) = AuthState::begin();
    let (s, _) = s.step(AuthEvent::TokenLoaded { token: some("stale") });
    let (s, _) = s.step(AuthEvent::ListingReplied { body: None });
    let (s, _) = s.step(AuthEvent::LoginReplied { body: some(r#"{"token":"fresh"}"#) });
    let (s, _) = s.step(AuthEvent::TokenSaved { ok: true });
    let (s, a) = s.step(AuthEvent::ListingReplied { body: some(r#"{"error":"x"}"#) });
    assert!(matches!(a, AuthAction::Abort { error: AuthError::ListingRejected }));
    assert!(matches!(s, AuthState::Failed { error: AuthError::ListingRejected }));
}

#[test]
fn rejected_fresh_login_token_is_fatal() {
    let (s, _) = AuthState::begin();
    let (s, _) = s.step(AuthEvent::TokenLoaded { token: None });
    let (s, _) = s.step(AuthEvent::LoginReplied { body: some(r#"{"token":"fresh"}"#) });
    let (s, _) = s.step(AuthEvent::TokenSaved { ok: true });
    let (_, a) = s.step(AuthEvent::ListingReplied { body: None });
    assert!(matches!(a, AuthAction::Abort { error: AuthError::ListingRejected }));
}

#[test]
fn login_reply_without_token_fails() {
    let (s, _) = AuthState::begin();
    let (s, _) = s.step(AuthEvent::TokenLoaded { token: None });
    let (_, a) = s.step(AuthEvent::LoginReplied { body: some(r#"{"error":"bad password"}"#) });
    assert!(matches!(a, AuthAction::Abort { error: AuthError::LoginFailed }));
}

#[test]
fn login_request_failure_fails() {
    let (s, _) = AuthState::begin();
    let (s, _) = s.step(AuthEvent::TokenLoaded { token: None });
    let (_, a) = s.step(AuthEvent::LoginReplied { body: None });
    assert!(matches!(a, AuthAction::Abort { error: AuthError::LoginFailed }));
}

#[test]
fn unsaved_token_is_fatal() {
    let (s, _) = AuthState::begin();
    let (s, _) = s.step(AuthEvent::TokenLoaded { token: None });
    let (s, _) = s.step(AuthEvent::LoginReplied { body: some(r#"{"token":"t"}"#) });
    let (_, a) = s.step(AuthEvent::TokenSaved { ok: false });
    assert!(matches!(a, AuthAction::Abort { error: AuthError::TokenNotSaved }));
}

#[test]
fn unexpected_event_fails() {
    let (s, _) = AuthState::begin();
    let (s, a) = s.step(AuthEvent::TokenSaved { ok: true });
    assert!(matches!(a, AuthAction::Abort { error: AuthError::UnexpectedEvent }));
    assert!(matches!(s, AuthState::Failed { error: AuthError::UnexpectedEvent }));
}
