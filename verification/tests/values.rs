//! Unit tests of the value types: tokens, cookies, markers, and the error
//! taxonomy.

use session_auth::AccessToken;
use session_auth::AccessTokenResponse;
use session_auth::AuthError;
use session_auth::AuthLogoutResponse;
use session_auth::Cookie;
use session_auth::RefreshToken;
use session_auth::RefreshTokenResponse;
use session_auth::RequestContext;
use session_auth::LoginInfoExtractor;
use session_auth::RefreshTokenExtractor;
use session_auth::is_cookie_expired_by_date;
use session_auth::cookies::create_access_token_cookie;
use session_auth::cookies::create_auth_cookie;
use session_auth::cookies::create_expired_access_token_cookie;
use session_auth::cookies::create_expired_auth_cookie;
use session_auth::cookies::create_expired_refresh_token_cookie;
use session_auth::cookies::create_refresh_token_cookie;

#[test]
fn access_token_wraps_its_value() {
    let token = AccessToken::new("tok".to_string());
    assert_eq!(token.as_str(), "tok");
    assert_eq!(token.duplicate().as_str(), "tok");
    assert!(token.value_eq(&AccessToken::new("tok".to_string())));
    assert!(!token.value_eq(&AccessToken::new("other".to_string())));
    assert_eq!(token.into_value(), "tok".to_string());
}

#[test]
fn refresh_token_wraps_its_value() {
    let token = RefreshToken::new("ref".to_string());
    assert_eq!(token.as_str(), "ref");
    assert_eq!(token.duplicate().as_str(), "ref");
    assert!(token.value_eq(&RefreshToken::new("ref".to_string())));
    assert!(!token.value_eq(&RefreshToken::new("other".to_string())));
    assert_eq!(token.into_value(), "ref".to_string());
}

#[test]
fn auth_error_status_codes() {
    assert_eq!(AuthError::Internal.status_code(), 500);
    assert_eq!(AuthError::NoSuchUser.status_code(), 400);
    assert_eq!(AuthError::InvalidPassword.status_code(), 400);
    assert_eq!(AuthError::InvalidAccessToken.status_code(), 400);
    assert_eq!(AuthError::UserNotLoggedIn.status_code(), 400);
}

#[test]
fn issued_cookies_carry_the_fixed_attributes() {
    let cookie = create_access_token_cookie("value-a".to_string(), 1234, "/somewhere");
    assert_eq!(cookie.name, "access_token");
    assert_eq!(cookie.value, "value-a");
    assert_eq!(cookie.path, "/somewhere");
    assert_eq!(cookie.expires_at, Some(1234));
    assert!(cookie.http_only);
    assert!(cookie.secure);
    assert!(cookie.same_site_strict);

    let cookie = create_refresh_token_cookie("value-r".to_string(), 99, "/api");
    assert_eq!(cookie.name, "refresh_token");
    assert_eq!(cookie.value, "value-r");
    assert_eq!(cookie.path, "/api");
    assert_eq!(cookie.expires_at, Some(99));
    assert!(cookie.http_only && cookie.secure && cookie.same_site_strict);
}

#[test]
fn revocation_cookies_are_empty_and_epoch_expired() {
    let cookie = create_expired_access_token_cookie("/");
    assert_eq!(cookie.name, "access_token");
    assert_eq!(cookie.value, "");
    assert_eq!(cookie.expires_at, Some(0));

    let cookie = create_expired_refresh_token_cookie("/api");
    assert_eq!(cookie.name, "refresh_token");
    assert_eq!(cookie.value, "");
    assert_eq!(cookie.path, "/api");
    assert_eq!(cookie.expires_at, Some(0));

    let cookie = create_expired_auth_cookie();
    assert_eq!(cookie.name, "access_token");
    assert_eq!(cookie.value, "");
    assert_eq!(cookie.path, "/");
    assert_eq!(cookie.expires_at, Some(0));
}

#[test]
fn auth_cookie_expiry_lies_ahead_by_its_time_to_live() {
    let ttl: u64 = 3600;
    let cookie = create_auth_cookie("value-a".to_string(), ttl);
    let expires = cookie.expires_at.expect("an issued cookie carries an expiry");
    assert!(expires >= ttl as i64);
    assert_eq!(cookie.name, "access_token");
    assert_eq!(cookie.path, "/");
}

#[test]
fn cookie_expiry_comparison_is_strict() {
    let cookie = Cookie {
        name: "access_token".to_string(),
        value: "v".to_string(),
        path: "/".to_string(),
        expires_at: Some(10),
        http_only: true,
        secure: true,
        same_site_strict: true,
    };
    assert!(!is_cookie_expired_by_date(&cookie, 9));
    assert!(!is_cookie_expired_by_date(&cookie, 10));
    assert!(is_cookie_expired_by_date(&cookie, 11));

    let session_cookie = Cookie { expires_at: None, ..cookie };
    assert!(!is_cookie_expired_by_date(&session_cookie, i64::MAX));
}

#[test]
fn access_marker_defaults_its_path() {
    let marker = AccessTokenResponse::with_offset_date_time(
        AccessToken::new("tok".to_string()),
        500,
        None,
    );
    assert_eq!(marker.token().as_str(), "tok");
    assert_eq!(marker.expires_at(), 500);
    assert_eq!(marker.path(), "/");

    let marker = AccessTokenResponse::with_offset_date_time(
        AccessToken::new("tok".to_string()),
        500,
        Some("/app"),
    );
    assert_eq!(marker.path(), "/app");
}

#[test]
fn marker_time_delta_counts_from_now() {
    let marker =
        AccessTokenResponse::with_time_delta(AccessToken::new("tok".to_string()), 60, None);
    assert!(marker.expires_at() >= 60);

    let marker = RefreshTokenResponse::with_time_delta(
        RefreshToken::new("ref".to_string()),
        86400,
        "/api/refresh-login",
    );
    assert!(marker.expires_at() >= 86400);
    assert_eq!(marker.path(), "/api/refresh-login");
    assert_eq!(marker.token().as_str(), "ref");
}

#[test]
fn refresh_marker_keeps_absolute_expiry() {
    let marker = RefreshTokenResponse::with_offset_date_time(
        RefreshToken::new("ref".to_string()),
        777,
        "/api",
    );
    assert_eq!(marker.expires_at(), 777);
    assert_eq!(marker.path(), "/api");
}

#[test]
fn logout_marker_keeps_its_paths() {
    let marker = AuthLogoutResponse::new(Some("/a".to_string()), None);
    assert_eq!(marker.access_token_path.as_deref(), Some("/a"));
    assert_eq!(marker.refresh_token_path, None);
}

#[test]
fn extractors_report_the_stored_status() {
    // A stored verification failure is surfaced with its own status code,
    // distinguishing an invalid token from an absent one.
    let ctx: RequestContext<String> = RequestContext {
        access: Some((AccessToken::new("bad".to_string()), Err(418))),
        refresh: Some((RefreshToken::new("bad".to_string()), Err(418))),
    };
    assert_eq!(LoginInfoExtractor::from_context(&ctx).err(), Some(418));
    assert!(LoginInfoExtractor::optional_from_context(&ctx).is_none());
    assert_eq!(RefreshTokenExtractor::from_context(&ctx).err(), Some(418));

    let empty: RequestContext<String> = RequestContext { access: None, refresh: None };
    assert_eq!(LoginInfoExtractor::from_context(&empty).err(), Some(401));
    assert_eq!(RefreshTokenExtractor::from_context(&empty).err(), Some(401));
}

#[test]
fn refresh_extractor_yields_the_raw_token() {
    let ctx: RequestContext<String> = RequestContext {
        access: None,
        refresh: Some((RefreshToken::new("ref".to_string()), Ok(()))),
    };
    let RefreshTokenExtractor(value) =
        RefreshTokenExtractor::from_context(&ctx).expect("a verified refresh token extracts");
    assert_eq!(value, "ref");
}
