//! The token lifecycle: which action a call for a token must take, and how a
//! refresh changes the stored state.
//!
//! The surrounding application holds the state under a read/write lock and
//! performs the network calls; it computes the action under the read lock,
//! releases it, and only then refreshes — the decision itself is the pure
//! function here.

use crate::errors::ApiError;
use crate::models::auth::AuthState;
use vstd::prelude::*;

verus! {

/// What a request for a valid token must do.
#[derive(Debug, Clone)]
pub enum TokenAction {
    /// The cached access token is still valid: use it.
    ReturnToken(String),
    /// The access token is expired but the refresh token is not: call the
    /// refresh endpoint with this refresh token.
    Refresh(String),
    /// Never authenticated.
    NotAuthenticated,
    /// The refresh token itself has expired; only a new login helps.
    TokenExpired,
}

/// The action for a state at time `now`: unauthenticated states fail, an
/// expired refresh token is terminal, an expired access token (with a
/// thirty-second margin) asks for one refresh, and otherwise the cached
/// token is returned.
pub open spec fn spec_token_action(state: Option<AuthState>, now: int) -> TokenAction {
    match state {
        None => TokenAction::NotAuthenticated,
        Some(s) => {
            if now >= s.refresh_expires_at {
                TokenAction::TokenExpired
            } else if now >= s.access_expires_at - 30 {
                TokenAction::Refresh(s.refresh_token)
            } else {
                TokenAction::ReturnToken(s.access_token)
            }
        },
    }
}

/// Decides what a token request must do at time `now`.
pub fn decide_token_action(state: &Option<AuthState>, now: i64) -> (r: TokenAction)
    ensures
        r == spec_token_action(*state, now as int),
{
    match state {
        None => TokenAction::NotAuthenticated,
        Some(s) => {
            if s.is_refresh_expired(now) {
                TokenAction::TokenExpired
            } else if s.is_access_expired(now) {
                TokenAction::Refresh(s.refresh_token.clone())
            } else {
                TokenAction::ReturnToken(s.access_token.clone())
            }
        },
    }
}

/// Stores a refreshed access token: only the access token and its expiry
/// change, and only when a state is present.
pub fn apply_refresh(state: &mut Option<AuthState>, access_token: String, expires_in_seconds: i64, now: i64)
    requires
        *old(state) is Some ==> i64::MIN <= now + expires_in_seconds <= i64::MAX,
    ensures
        match *old(state) {
            None => *final(state) is None,
            Some(s) => *final(state) == Some(
                AuthState {
                    access_token: access_token,
                    access_expires_at: (now + expires_in_seconds) as i64,
                    refresh_token: s.refresh_token,
                    refresh_expires_at: s.refresh_expires_at,
                },
            ),
        },
{
    match state {
        Some(s) => {
            s.access_token = access_token;
            s.access_expires_at = now + expires_in_seconds;
        },
        None => {},
    }
}

/// Classifies a failed authenticate response: 401 and 403 are credential
/// failures, 429 is throttling (retry after a minute), anything else is an
/// opaque server failure.
pub fn classify_auth_failure(status: u16, message: String) -> (r: ApiError)
    ensures
        r == if status == 401 || status == 403 {
            ApiError::Authentication(message)
        } else if status == 429 {
            ApiError::RateLimited { retry_after_secs: 60u64 }
        } else {
            ApiError::Server { status, message }
        },
{
    if status == 401 || status == 403 {
        ApiError::Authentication(message)
    } else if status == 429 {
        ApiError::RateLimited { retry_after_secs: 60 }
    } else {
        ApiError::Server { status, message }
    }
}

/// Classifies a failed refresh response: a 401 or 403 means the refresh
/// token itself is dead.
pub fn classify_refresh_failure(status: u16, message: String) -> (r: ApiError)
    ensures
        r == if status == 401 || status == 403 {
            ApiError::TokenExpired
        } else {
            ApiError::Server { status, message }
        },
{
    if status == 401 || status == 403 {
        ApiError::TokenExpired
    } else {
        ApiError::Server { status, message }
    }
}

/// A state whose access token is expired while its refresh token is live
/// asks for exactly one refresh, bearing the stored refresh token.
pub proof fn lemma_expired_access_triggers_refresh(s: AuthState, now: int)
    requires
        now < s.refresh_expires_at,
        now >= s.access_expires_at - 30,
    ensures
        spec_token_action(Some(s), now) == TokenAction::Refresh(s.refresh_token),
{
}

/// A state whose refresh token has expired is terminal: the decision is
/// `TokenExpired` and no network call is asked for.
pub proof fn lemma_expired_refresh_is_terminal(s: AuthState, now: int)
    requires
        now >= s.refresh_expires_at,
    ensures
        spec_token_action(Some(s), now) == TokenAction::TokenExpired,
{
}

/// A live access token is returned as it is, with no refresh.
pub proof fn lemma_live_token_returned(s: AuthState, now: int)
    requires
        now < s.access_expires_at - 30,
        now < s.refresh_expires_at,
    ensures
        spec_token_action(Some(s), now) == TokenAction::ReturnToken(s.access_token),
{
}

} // verus!
