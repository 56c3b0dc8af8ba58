//! The login marker for an access token.
//!
//! A handler attaches this marker to its response to ask the session layer
//! to issue the access-token cookie outright, bypassing the normal
//! verify-and-renew cycle; the layer consumes the marker while assembling
//! the final response, so it never reaches the wire.

use vstd::prelude::*;

use crate::clock::MAX_UNIX_TIMESTAMP;
use crate::clock::clamp_timestamp;
use crate::clock::now_unix;
use crate::tokens::AccessToken;

verus! {

/// A request to set the access-token cookie to `token` until `expires_at`.
#[derive(Debug, Clone)]
pub struct AccessTokenResponse {
    pub token: AccessToken,
    pub expires_at: i64,
    pub path: String,
}

/// The mathematical image of an [`AccessTokenResponse`].
pub struct AccessTokenResponseModel {
    pub token: Seq<char>,
    pub expires_at: int,
    pub path: Seq<char>,
}

impl View for AccessTokenResponse {
    type V = AccessTokenResponseModel;

    open spec fn view(&self) -> AccessTokenResponseModel {
        AccessTokenResponseModel {
            token: self.token@,
            expires_at: self.expires_at as int,
            path: self.path@,
        }
    }
}

impl AccessTokenResponse {
    /// Builds the marker from an absolute expiry timestamp; the cookie
    /// path defaults to `/`.
    pub fn with_offset_date_time(token: AccessToken, expires_at: i64, path: Option<&str>) -> (r:
        Self)
        ensures
            r@.token == token@,
            r@.expires_at == expires_at as int,
            r@.path == match path {
                Some(p) => p@,
                None => "/"@,
            },
    {
        let path_string = match path {
            Some(p) => p.to_owned(),
            None => "/".to_owned(),
        };
        AccessTokenResponse { token, expires_at, path: path_string }
    }

    /// Builds the marker from a time-to-live relative to the current time.
    pub fn with_time_delta(token: AccessToken, ttl_seconds: u64, path: Option<&str>) -> (r: Self)
        requires
            ttl_seconds <= i64::MAX - MAX_UNIX_TIMESTAMP,
        ensures
            r@.token == token@,
            ttl_seconds <= r@.expires_at <= MAX_UNIX_TIMESTAMP + ttl_seconds,
            r@.path == match path {
                Some(p) => p@,
                None => "/"@,
            },
    {
        let now = clamp_timestamp(now_unix());
        Self::with_offset_date_time(token, now + ttl_seconds as i64, path)
    }

    /// The token the cookie will carry.
    pub fn token(&self) -> (r: &AccessToken)
        ensures
            r@ == self@.token,
    {
        &self.token
    }

    /// The absolute expiry of the cookie, as Unix seconds.
    pub fn expires_at(&self) -> (r: i64)
        ensures
            r as int == self@.expires_at,
    {
        self.expires_at
    }

    /// The path of the cookie.
    pub fn path(&self) -> (r: &str)
        ensures
            r@ == self@.path,
    {
        self.path.as_str()
    }
}

} // verus!
