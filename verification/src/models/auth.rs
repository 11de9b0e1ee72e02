//! Authentication wire types and the stored token state.
//!
//! Instants are carried as Unix epoch seconds; the caller samples the clock
//! and passes it in, so every expiry decision is a function of plain values.

use vstd::prelude::*;

verus! {

/// Request body for bearer authentication; the credential travels in the
/// `Authorization` header, so the body is empty.
#[derive(Debug, Clone)]
pub struct AuthRequest {}

/// Response of the authenticate endpoint.
#[derive(Debug, Clone)]
pub struct AuthResponse {
    /// The issued token pair.
    pub tokens: AuthTokens,
}

/// An access and a refresh token.
#[derive(Debug, Clone)]
pub struct AuthTokens {
    /// The short-lived access token.
    pub access: TokenInfo,
    /// The long-lived refresh token.
    pub refresh: TokenInfo,
}

/// One token with its lifetime.
#[derive(Debug, Clone)]
pub struct TokenInfo {
    /// The token text.
    pub token: String,
    /// Seconds until expiry; servers that omit it get [`default_expiry`].
    pub expires_in_seconds: i64,
    /// Declared token type, when given.
    pub token_type: Option<String>,
}

/// The lifetime assumed when the server does not state one: one hour.
pub fn default_expiry() -> (r: i64)
    ensures
        r == 3600,
{
    3600
}

/// The stored authentication state.
#[derive(Debug, Clone)]
pub struct AuthState {
    /// Current access token.
    pub access_token: String,
    /// Current refresh token.
    pub refresh_token: String,
    /// When the access token expires, as epoch seconds.
    pub access_expires_at: i64,
    /// When the refresh token expires, as epoch seconds.
    pub refresh_expires_at: i64,
}

impl AuthState {
    /// The state recorded after a successful authentication at `now`.
    pub fn from_response(response: AuthResponse, now: i64) -> (r: Self)
        requires
            i64::MIN <= now + response.tokens.access.expires_in_seconds <= i64::MAX,
            i64::MIN <= now + response.tokens.refresh.expires_in_seconds <= i64::MAX,
        ensures
            r.access_token == response.tokens.access.token,
            r.refresh_token == response.tokens.refresh.token,
            r.access_expires_at == now + response.tokens.access.expires_in_seconds,
            r.refresh_expires_at == now + response.tokens.refresh.expires_in_seconds,
    {
        AuthState {
            access_token: response.tokens.access.token,
            refresh_token: response.tokens.refresh.token,
            access_expires_at: now + response.tokens.access.expires_in_seconds,
            refresh_expires_at: now + response.tokens.refresh.expires_in_seconds,
        }
    }

    /// Whether the access token counts as expired at `now`, with a
    /// thirty-second safety margin.
    pub fn is_access_expired(&self, now: i64) -> (r: bool)
        ensures
            r == (now >= self.access_expires_at - 30),
    {
        now as i128 >= self.access_expires_at as i128 - 30
    }

    /// Whether the refresh token has expired at `now`.
    pub fn is_refresh_expired(&self, now: i64) -> (r: bool)
        ensures
            r == (now >= self.refresh_expires_at),
    {
        now >= self.refresh_expires_at
    }
}

/// Response of the refresh endpoint.
#[derive(Debug, Clone)]
pub struct RefreshResponse {
    /// The re-issued token.
    pub tokens: RefreshTokens,
}

/// The token set a refresh returns: only a new access token.
#[derive(Debug, Clone)]
pub struct RefreshTokens {
    /// The new access token.
    pub access: TokenInfo,
}

} // verus!
