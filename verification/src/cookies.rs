//! The wire representation of a session cookie.
//!
//! A cookie is plain data: a name fixed per token kind, an opaque value, a
//! path, an optional expiry as Unix seconds, and the security flags that
//! every cookie issued by this layer carries.  The surrounding HTTP
//! framework converts between this type and its own cookie type.

use vstd::prelude::*;

use crate::clock::MAX_UNIX_TIMESTAMP;
use crate::clock::clamp_timestamp;
use crate::clock::now_unix;

verus! {

/// A cookie as this layer reads and writes it.
#[derive(Debug, Clone)]
pub struct Cookie {
    pub name: String,
    pub value: String,
    pub path: String,
    /// Expiry as Unix seconds; `None` for a session cookie.
    pub expires_at: Option<i64>,
    pub http_only: bool,
    pub secure: bool,
    pub same_site_strict: bool,
}

/// The mathematical image of a [`Cookie`].
pub struct CookieModel {
    pub name: Seq<char>,
    pub value: Seq<char>,
    pub path: Seq<char>,
    pub expires_at: Option<int>,
    pub http_only: bool,
    pub secure: bool,
    pub same_site_strict: bool,
}

impl View for Cookie {
    type V = CookieModel;

    open spec fn view(&self) -> CookieModel {
        CookieModel {
            name: self.name@,
            value: self.value@,
            path: self.path@,
            expires_at: match self.expires_at {
                Some(t) => Some(t as int),
                None => None,
            },
            http_only: self.http_only,
            secure: self.secure,
            same_site_strict: self.same_site_strict,
        }
    }
}

/// The fixed name of the access-token cookie.
pub open spec fn access_token_cookie_name() -> Seq<char> {
    "access_token"@
}

/// The fixed name of the refresh-token cookie.
pub open spec fn refresh_token_cookie_name() -> Seq<char> {
    "refresh_token"@
}

/// The views of a sequence of cookies, in order.
pub open spec fn cookie_views(cookies: Seq<Cookie>) -> Seq<CookieModel> {
    cookies.map_values(|c: Cookie| c@)
}

impl CookieModel {
    /// Whether the cookie's expiry, if it carries one, lies strictly
    /// before `now`.
    pub open spec fn expired_at(self, now: int) -> bool {
        match self.expires_at {
            Some(t) => t < now,
            None => false,
        }
    }
}

/// An access-token cookie as issued by this layer: fixed name, all
/// security flags set, and a definite expiry.
pub open spec fn access_cookie_model(value: Seq<char>, expires_at: int, path: Seq<char>) -> CookieModel {
    CookieModel {
        name: access_token_cookie_name(),
        value: value,
        path: path,
        expires_at: Some(expires_at),
        http_only: true,
        secure: true,
        same_site_strict: true,
    }
}

/// A refresh-token cookie as issued by this layer.
pub open spec fn refresh_cookie_model(value: Seq<char>, expires_at: int, path: Seq<char>) -> CookieModel {
    CookieModel {
        name: refresh_token_cookie_name(),
        value: value,
        path: path,
        expires_at: Some(expires_at),
        http_only: true,
        secure: true,
        same_site_strict: true,
    }
}

/// The cookie that revokes the access-token cookie at `path`: an empty
/// value and an expiry at the Unix epoch.
pub open spec fn expired_access_cookie_model(path: Seq<char>) -> CookieModel {
    access_cookie_model(Seq::<char>::empty(), 0, path)
}

/// The cookie that revokes the refresh-token cookie at `path`.
pub open spec fn expired_refresh_cookie_model(path: Seq<char>) -> CookieModel {
    refresh_cookie_model(Seq::<char>::empty(), 0, path)
}

/// Whether a cookie may be read as a candidate for a token of the given
/// name at time `now`: it bears that name and is not expired by date.
pub open spec fn is_candidate(c: CookieModel, name: Seq<char>, now: int) -> bool {
    c.name == name && !c.expired_at(now)
}

/// Whether a cookie carries an expiry that lies strictly in the past.
///
/// A request cookie that is expired by date is ignored by the session
/// layer, exactly as if it had not been sent.
pub fn is_cookie_expired_by_date(cookie: &Cookie, now: i64) -> (r: bool)
    ensures
        r == cookie@.expired_at(now as int),
{
    match cookie.expires_at {
        Some(t) => t < now,
        None => false,
    }
}

/// Builds the access-token cookie carrying `value` until `expires_at`.
pub fn create_access_token_cookie(value: String, expires_at: i64, path: &str) -> (r: Cookie)
    ensures
        r@ == access_cookie_model(value@, expires_at as int, path@),
{
    Cookie {
        name: "access_token".to_owned(),
        value: value,
        path: path.to_owned(),
        expires_at: Some(expires_at),
        http_only: true,
        secure: true,
        same_site_strict: true,
    }
}

/// Builds the refresh-token cookie carrying `value` until `expires_at`.
pub fn create_refresh_token_cookie(value: String, expires_at: i64, path: &str) -> (r: Cookie)
    ensures
        r@ == refresh_cookie_model(value@, expires_at as int, path@),
{
    Cookie {
        name: "refresh_token".to_owned(),
        value: value,
        path: path.to_owned(),
        expires_at: Some(expires_at),
        http_only: true,
        secure: true,
        same_site_strict: true,
    }
}

/// Builds the access-token cookie carrying `access_token` until the given
/// time-to-live from now has elapsed, at the default path.
pub fn create_auth_cookie(access_token: String, expiration_ttl_seconds: u64) -> (r: Cookie)
    requires
        expiration_ttl_seconds <= i64::MAX - MAX_UNIX_TIMESTAMP,
    ensures
        r@.name == access_token_cookie_name(),
        r@.value == access_token@,
        r@.path == "/"@,
        r@.http_only && r@.secure && r@.same_site_strict,
        r@.expires_at matches Some(e) && expiration_ttl_seconds <= e <= MAX_UNIX_TIMESTAMP
            + expiration_ttl_seconds,
{
    let now = clamp_timestamp(now_unix());
    create_access_token_cookie(access_token, now + expiration_ttl_seconds as i64, "/")
}

/// Builds the cookie that revokes the access-token cookie at the default
/// path: an empty value and an expiry at the Unix epoch.
pub fn create_expired_auth_cookie() -> (r: Cookie)
    ensures
        r@ == expired_access_cookie_model("/"@),
{
    create_expired_access_token_cookie("/")
}

/// Builds the cookie that revokes the access-token cookie at `path`.
pub fn create_expired_access_token_cookie(path: &str) -> (r: Cookie)
    ensures
        r@ == expired_access_cookie_model(path@),
{
    create_access_token_cookie(String::new(), 0, path)
}

/// Builds the cookie that revokes the refresh-token cookie at `path`.
pub fn create_expired_refresh_token_cookie(path: &str) -> (r: Cookie)
    ensures
        r@ == expired_refresh_cookie_model(path@),
{
    create_refresh_token_cookie(String::new(), 0, path)
}

} // verus!
