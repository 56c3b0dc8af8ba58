//! The login marker for a refresh token.
//!
//! The refresh-token counterpart of
//! [`crate::access_token_response::AccessTokenResponse`]; unlike the access
//! marker it always names its cookie path explicitly, since a refresh
//! cookie is normally scoped to the refresh endpoint alone.

use vstd::prelude::*;

use crate::clock::MAX_UNIX_TIMESTAMP;
use crate::clock::clamp_timestamp;
use crate::clock::now_unix;
use crate::tokens::RefreshToken;

verus! {

/// A request to set the refresh-token cookie to `token` until `expires_at`.
#[derive(Debug, Clone)]
pub struct RefreshTokenResponse {
    pub token: RefreshToken,
    pub expires_at: i64,
    pub path: String,
}

/// The mathematical image of a [`RefreshTokenResponse`].
pub struct RefreshTokenResponseModel {
    pub token: Seq<char>,
    pub expires_at: int,
    pub path: Seq<char>,
}

impl View for RefreshTokenResponse {
    type V = RefreshTokenResponseModel;

    open spec fn view(&self) -> RefreshTokenResponseModel {
        RefreshTokenResponseModel {
            token: self.token@,
            expires_at: self.expires_at as int,
            path: self.path@,
        }
    }
}

impl RefreshTokenResponse {
    /// Builds the marker from an absolute expiry timestamp.
    pub fn with_offset_date_time(token: RefreshToken, expires_at: i64, path: &str) -> (r: Self)
        ensures
            r@.token == token@,
            r@.expires_at == expires_at as int,
            r@.path == path@,
    {
        RefreshTokenResponse { token, expires_at, path: path.to_owned() }
    }

    /// Builds the marker from a time-to-live relative to the current time.
    pub fn with_time_delta(token: RefreshToken, ttl_seconds: u64, path: &str) -> (r: Self)
        requires
            ttl_seconds <= i64::MAX - MAX_UNIX_TIMESTAMP,
        ensures
            r@.token == token@,
            ttl_seconds <= r@.expires_at <= MAX_UNIX_TIMESTAMP + ttl_seconds,
            r@.path == path@,
    {
        let now = clamp_timestamp(now_unix());
        Self::with_offset_date_time(token, now + ttl_seconds as i64, path)
    }

    /// The token the cookie will carry.
    pub fn token(&self) -> (r: &RefreshToken)
        ensures
            r@ == self@.token,
    {
        &self.token
    }

    /// The absolute expiry of the cookie, as Unix seconds.
    pub fn expires_at(&self) -> (r: i64)
        ensures
            r as int == self@.expires_at,
    {
        self.expires_at
    }

    /// The path of the cookie.
    pub fn path(&self) -> (r: &str)
        ensures
            r@ == self@.path,
    {
        self.path.as_str()
    }
}

} // verus!
