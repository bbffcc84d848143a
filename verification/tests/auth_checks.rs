use ring_client::auth::{
    session_result, AuthRequest, AuthState, Credentials, ExchangeOutcome, TokenDecision,
    TokenManager, Tokens,
};
use ring_client::client::Client;
use ring_client::errors::AuthenticationError;
use ring_client::os::OperatingSystem;

fn fresh_tokens(expires_at: u64) -> Tokens {
    Tokens {
        access_token: "access".to_string(),
        expires_at,
        refresh_token: "refresh".to_string(),
    }
}

fn authenticated_manager(expires_at: u64) -> TokenManager {
    let mut m = TokenManager::new();
    let _ = m.login_request(Credentials::RefreshToken("seed".to_string()));
    let r = m.exchange_outcome(ExchangeOutcome::NewTokens(fresh_tokens(expires_at)));
    assert!(r.is_ok());
    m
}

#[test]
fn valid_token_is_served_from_cache_without_refresh() {
    let mut m = authenticated_manager(1_000);
    for now in [0_u64, 1, 500, 999] {
        match m.current_decision(now) {
            TokenDecision::UseCached(t) => {
                assert_eq!(t.access_token, "access");
                assert_eq!(t.expires_at, 1_000);
            }
            other => panic!("expected the cached set, got {:?}", other),
        }
        assert!(!m.refresh_in_flight);
    }
}

#[test]
fn stale_token_begins_exactly_one_refresh() {
    let mut m = authenticated_manager(1_000);
    match m.current_decision(1_000) {
        TokenDecision::BeginRefresh(seed) => assert_eq!(seed, "refresh"),
        other => panic!("expected a refresh to begin, got {:?}", other),
    }
    // Callers arriving while the one exchange is in flight wait for it.
    assert!(matches!(
        m.current_decision(2_000),
        TokenDecision::AwaitRefresh
    ));
    assert!(matches!(
        m.current_decision(3_000),
        TokenDecision::AwaitRefresh
    ));
    // Once it lands, every caller reads the same installed set.
    let r = m.exchange_outcome(ExchangeOutcome::NewTokens(fresh_tokens(9_000)));
    assert!(r.is_ok());
    for _ in 0..3 {
        match m.current_decision(4_000) {
            TokenDecision::UseCached(t) => assert_eq!(t.expires_at, 9_000),
            other => panic!("expected the new set, got {:?}", other),
        }
    }
}

#[test]
fn refresh_credential_login_seeds_stale_set_and_refreshes_once() {
    let mut m = TokenManager::new();
    let request = m.login_request(Credentials::RefreshToken("standing".to_string()));
    // The login is the one refresh exchange; the seeded set has an epoch
    // expiry, so nothing can be served from cache meanwhile.
    match request {
        AuthRequest::TokenRefresh { refresh_token } => assert_eq!(refresh_token, "standing"),
        other => panic!("expected a token refresh, got {:?}", other),
    }
    assert!(matches!(m.current_decision(0), TokenDecision::AwaitRefresh));
    assert!(matches!(
        m.current_decision(u64::MAX),
        TokenDecision::AwaitRefresh
    ));
    let r = m.exchange_outcome(ExchangeOutcome::NewTokens(fresh_tokens(10)));
    assert!(r.is_ok());
    assert_eq!(m.state, AuthState::Authenticated);
}

#[test]
fn unauthenticated_manager_serves_no_tokens() {
    let mut m = TokenManager::new();
    assert!(matches!(
        m.current_decision(0),
        TokenDecision::NotAuthenticated
    ));
    assert_eq!(m.get_refresh_token(), None);
}

#[test]
fn bad_password_login_reports_invalid_credentials_and_stays_unauthenticated() {
    let mut m = TokenManager::new();
    let request = m.login_request(Credentials::User {
        username: "bad".to_string(),
        password: "bad".to_string(),
    });
    assert!(matches!(request, AuthRequest::PasswordExchange { .. }));
    let r = m.exchange_outcome(ExchangeOutcome::Rejected);
    assert_eq!(r, Err(AuthenticationError::InvalidCredentials));
    assert_eq!(m.state, AuthState::Unauthenticated);
    assert_ne!(m.state, AuthState::MfaRequired);
}

#[test]
fn sms_challenge_is_surfaced_and_answered_with_retained_credentials() {
    let mut m = TokenManager::new();
    let _ = m.login_request(Credentials::User {
        username: "user".to_string(),
        password: "pass".to_string(),
    });
    let r = m.exchange_outcome(ExchangeOutcome::MfaChallenge("sms".to_string()));
    assert_eq!(r, Err(AuthenticationError::MfaCodeRequired));
    assert_eq!(m.state, AuthState::MfaRequired);

    match m.challenge_request("123456".to_string()) {
        Some(AuthRequest::ChallengeExchange {
            username,
            password,
            code,
        }) => {
            assert_eq!(username, "user");
            assert_eq!(password, "pass");
            assert_eq!(code, "123456");
        }
        other => panic!("expected a challenge exchange, got {:?}", other),
    }
    let r = m.exchange_outcome(ExchangeOutcome::NewTokens(fresh_tokens(77)));
    assert!(r.is_ok());
    assert_eq!(m.state, AuthState::Authenticated);
}

#[test]
fn unsupported_challenge_keeps_credentials_and_mfa_state() {
    let mut m = TokenManager::new();
    let _ = m.login_request(Credentials::User {
        username: "user".to_string(),
        password: "pass".to_string(),
    });
    let r = m.exchange_outcome(ExchangeOutcome::MfaChallenge("carrier-pigeon".to_string()));
    assert_eq!(
        r,
        Err(AuthenticationError::UnsupportedChallenge(
            "carrier-pigeon".to_string()
        ))
    );
    assert_eq!(m.state, AuthState::MfaRequired);
    // The credentials are retained, so the challenge may still be retried.
    assert!(m.challenge_request("000000".to_string()).is_some());
}

#[test]
fn challenge_without_password_credentials_is_a_no_op() {
    let mut m = TokenManager::new();
    assert!(m.challenge_request("123456".to_string()).is_none());

    let _ = m.login_request(Credentials::RefreshToken("standing".to_string()));
    let _ = m.exchange_outcome(ExchangeOutcome::NewTokens(fresh_tokens(10)));
    assert!(m.challenge_request("123456".to_string()).is_none());
}

#[test]
fn transport_and_decode_failures_propagate_and_keep_tokens() {
    let mut m = authenticated_manager(100);
    assert!(matches!(
        m.current_decision(100),
        TokenDecision::BeginRefresh(_)
    ));
    let r = m.exchange_outcome(ExchangeOutcome::Transport("connection reset".to_string()));
    assert_eq!(
        r,
        Err(AuthenticationError::OAuthError("connection reset".to_string()))
    );
    // The installed (stale) set is kept and the manager stays authenticated.
    assert_eq!(m.state, AuthState::Authenticated);
    assert_eq!(m.get_refresh_token(), Some("refresh".to_string()));

    assert!(matches!(
        m.current_decision(100),
        TokenDecision::BeginRefresh(_)
    ));
    let r = m.exchange_outcome(ExchangeOutcome::Malformed("bad json".to_string()));
    assert_eq!(
        r,
        Err(AuthenticationError::InvalidResponse("bad json".to_string()))
    );
    assert_eq!(m.state, AuthState::Authenticated);
}

#[test]
fn refresh_token_is_exported_for_persistence() {
    let m = authenticated_manager(100);
    assert_eq!(m.get_refresh_token(), Some("refresh".to_string()));
}

#[test]
fn session_failure_maps_to_session_failed() {
    assert!(session_result(true).is_ok());
    assert_eq!(
        session_result(false),
        Err(AuthenticationError::SessionFailed)
    );
}

#[test]
fn new_client_starts_unauthenticated() {
    let client = Client::new("Home Automation", "mock-system-id", OperatingSystem::Ios);
    assert_eq!(client.auth.state, AuthState::Unauthenticated);
    assert_eq!(client.display_name, "Home Automation");
    assert_eq!(client.system_id, "mock-system-id");
    assert_eq!(client.api.operating_system, OperatingSystem::Ios);
}
