//! Token lifecycle decisions.

use nc_data_export::api::auth::{
    apply_refresh, classify_auth_failure, classify_refresh_failure, decide_token_action,
    TokenAction,
};
use nc_data_export::errors::ApiError;
use nc_data_export::models::auth::{AuthResponse, AuthState, AuthTokens, TokenInfo};

fn token(text: &str, expires: i64) -> TokenInfo {
    TokenInfo {
        token: text.to_string(),
        expires_in_seconds: expires,
        token_type: None,
    }
}

fn state(access_expires_at: i64, refresh_expires_at: i64) -> AuthState {
    AuthState {
        access_token: "access".to_string(),
        refresh_token: "refresh".to_string(),
        access_expires_at,
        refresh_expires_at,
    }
}

#[test]
fn expired_access_with_live_refresh_asks_for_one_refresh() {
    let now = 1_000_000;
    let s = state(now - 10, now + 86_400);
    match decide_token_action(&Some(s), now) {
        TokenAction::Refresh(t) => assert_eq!(t, "refresh"),
        other => panic!("expected a refresh, got {:?}", other),
    }
}

#[test]
fn both_expired_is_terminal_without_network() {
    let now = 1_000_000;
    let s = state(now - 10, now - 5);
    assert!(matches!(
        decide_token_action(&Some(s), now),
        TokenAction::TokenExpired
    ));
}

#[test]
fn live_access_token_is_returned_from_cache() {
    let now = 1_000_000;
    let s = state(now + 3_600, now + 86_400);
    match decide_token_action(&Some(s), now) {
        TokenAction::ReturnToken(t) => assert_eq!(t, "access"),
        other => panic!("expected the cached token, got {:?}", other),
    }
}

#[test]
fn access_margin_is_thirty_seconds() {
    let now = 1_000_000;
    let edge = state(now + 30, now + 86_400);
    assert!(matches!(
        decide_token_action(&Some(edge), now),
        TokenAction::Refresh(_)
    ));
    let live = state(now + 31, now + 86_400);
    assert!(matches!(
        decide_token_action(&Some(live), now),
        TokenAction::ReturnToken(_)
    ));
}

#[test]
fn unauthenticated_state_fails() {
    assert!(matches!(
        decide_token_action(&None, 0),
        TokenAction::NotAuthenticated
    ));
}

#[test]
fn refresh_stores_the_new_token_and_returns_it_afterwards() {
    let now = 1_000_000;
    let mut st = Some(state(now - 10, now + 86_400));
    apply_refresh(&mut st, "fresh".to_string(), 3_600, now);
    let s = st.clone().unwrap();
    assert_eq!(s.access_token, "fresh");
    assert_eq!(s.access_expires_at, now + 3_600);
    assert_eq!(s.refresh_token, "refresh");
    assert_eq!(s.refresh_expires_at, now + 86_400);
    match decide_token_action(&st, now) {
        TokenAction::ReturnToken(t) => assert_eq!(t, "fresh"),
        other => panic!("expected the refreshed token, got {:?}", other),
    }
}

#[test]
fn auth_state_from_response_sets_expiries() {
    let now = 500;
    let response = AuthResponse {
        tokens: AuthTokens {
            access: token("a", 3_600),
            refresh: token("r", 86_400),
        },
    };
    let s = AuthState::from_response(response, now);
    assert_eq!(s.access_token, "a");
    assert_eq!(s.refresh_token, "r");
    assert_eq!(s.access_expires_at, now + 3_600);
    assert_eq!(s.refresh_expires_at, now + 86_400);
    assert!(s.is_access_expired(s.access_expires_at - 30));
    assert!(!s.is_access_expired(s.access_expires_at - 31));
    assert!(s.is_refresh_expired(s.refresh_expires_at));
    assert!(!s.is_refresh_expired(s.refresh_expires_at - 1));
}

#[test]
fn auth_failures_classify_by_status() {
    assert!(matches!(
        classify_auth_failure(401, "no".to_string()),
        ApiError::Authentication(_)
    ));
    assert!(matches!(
        classify_auth_failure(403, "no".to_string()),
        ApiError::Authentication(_)
    ));
    assert!(matches!(
        classify_auth_failure(429, "slow".to_string()),
        ApiError::RateLimited {
            retry_after_secs: 60
        }
    ));
    assert!(matches!(
        classify_auth_failure(500, "boom".to_string()),
        ApiError::Server { status: 500, .. }
    ));
    assert!(matches!(
        classify_refresh_failure(401, "no".to_string()),
        ApiError::TokenExpired
    ));
    assert!(matches!(
        classify_refresh_failure(502, "bad".to_string()),
        ApiError::Server { status: 502, .. }
    ));
}
