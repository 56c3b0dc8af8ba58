//! End-to-end protocol scenarios, driving the verified session layer the
//! way an HTTP framework would: a simulated client keeps a cookie jar,
//! each request runs the inbound scan, a handler, and the outbound cookie
//! assembly.

use session_auth::AccessToken;
use session_auth::AccessTokenResponse;
use session_auth::Cookie;
use session_auth::LoginInfoExtractor;
use session_auth::RefreshToken;
use session_auth::RefreshTokenExtractor;
use session_auth::RefreshTokenResponse;
use session_auth::AuthLogoutResponse;
use session_auth::RequestContext;
use session_auth::ResponseMarkers;
use session_auth::ResponseOutcome;
use session_auth::SessionStore;
use session_auth::begin_request;
use session_auth::finish_request;

#[derive(Clone, Debug, PartialEq, Eq)]
struct LoginInfo {
    loginname: String,
}

/// A browser-like cookie jar: a newly issued cookie replaces the stored
/// one with the same name and path.
struct Client {
    jar: Vec<Cookie>,
}

impl Client {
    fn new() -> Self {
        Client { jar: Vec::new() }
    }

    fn store_cookies(&mut self, cookies: &[Cookie]) {
        for cookie in cookies {
            self.jar.retain(|held| held.name != cookie.name || held.path != cookie.path);
            self.jar.push(cookie.clone());
        }
    }
}

type Store = SessionStore<LoginInfo>;
type Context = RequestContext<LoginInfo>;

/// Runs one full request/response exchange and updates the client's jar.
fn exchange<T>(
    store: &mut Store,
    client: &mut Client,
    now: i64,
    handler: impl FnOnce(&Context, &mut Store) -> (T, ResponseMarkers),
) -> (T, ResponseOutcome) {
    let request_cookies = client.jar.clone();
    let ctx = begin_request(store, &request_cookies, now);
    let (body, markers) = handler(&ctx, store);
    let out = finish_request(store, &ctx, markers, now);
    client.store_cookies(&out.cookies);
    (body, out)
}

fn no_markers() -> ResponseMarkers {
    ResponseMarkers { logout: None, login_access: None, login_refresh: None }
}

/// The login endpoint: mints the given tokens, records the session, and
/// attaches both login markers.
fn api_login(
    store: &mut Store,
    loginname: &str,
    access_token: &str,
    refresh_token: &str,
    access_expires_at: i64,
    refresh_expires_at: i64,
) -> ResponseMarkers {
    let access = AccessToken::new(access_token.to_string());
    let refresh = RefreshToken::new(refresh_token.to_string());
    store.insert_session(access.duplicate(), LoginInfo { loginname: loginname.to_string() });
    store.link_refresh_token(refresh.duplicate(), access.duplicate());
    ResponseMarkers {
        logout: None,
        login_access: Some(AccessTokenResponse::with_offset_date_time(
            access,
            access_expires_at,
            None,
        )),
        login_refresh: Some(RefreshTokenResponse::with_offset_date_time(
            refresh,
            refresh_expires_at,
            "/api/refresh-login",
        )),
    }
}

/// A handler that requires identity.
fn get_private(ctx: &Context) -> Result<&'static str, u16> {
    let LoginInfoExtractor(_login_info) = LoginInfoExtractor::from_context(ctx)?;
    Ok("private")
}

/// A handler that renders differently for authenticated visitors.
fn get_hybrid(ctx: &Context) -> &'static str {
    if LoginInfoExtractor::optional_from_context(ctx).is_some() {
        "authenticated"
    } else {
        "unauthenticated"
    }
}

/// A handler gated on an application-level role decision.
fn get_admin_page(ctx: &Context) -> Result<&'static str, u16> {
    let LoginInfoExtractor(login_info) = LoginInfoExtractor::from_context(ctx)?;
    if login_info.loginname == "admin" {
        Ok("admin-page")
    } else {
        Err(403)
    }
}

#[test]
fn get_public_page() {
    let mut store = Store::new(60);
    let mut client = Client::new();
    let (body, out) = exchange(&mut store, &mut client, 0, |_ctx, _store| {
        ("public", no_markers())
    });
    assert_eq!(body, "public");
    assert!(out.cookies.is_empty());
    assert!(out.renewed.is_none());
}

#[test]
fn get_private_page_unauthenticated() {
    let mut store = Store::new(60);
    let mut client = Client::new();
    let (body, _) = exchange(&mut store, &mut client, 0, |ctx, _store| {
        (get_private(ctx), no_markers())
    });
    assert_eq!(body, Err(401));
}

#[test]
fn get_private_page_authenticated() {
    let mut store = Store::new(60);
    let mut client = Client::new();
    exchange(&mut store, &mut client, 0, |_ctx, store| {
        ((), api_login(store, "loginname", "at-1", "rt-1", 60, 86400))
    });
    let (body, _) = exchange(&mut store, &mut client, 1, |ctx, _store| {
        (get_private(ctx), no_markers())
    });
    assert_eq!(body, Ok("private"));
}

#[test]
fn get_hybrid_page_unauthenticated() {
    let mut store = Store::new(60);
    let mut client = Client::new();
    let (body, _) = exchange(&mut store, &mut client, 0, |ctx, _store| {
        (get_hybrid(ctx), no_markers())
    });
    assert_eq!(body, "unauthenticated");
}

#[test]
fn get_hybrid_page_authenticated() {
    let mut store = Store::new(60);
    let mut client = Client::new();
    exchange(&mut store, &mut client, 0, |_ctx, store| {
        ((), api_login(store, "loginname", "at-1", "rt-1", 60, 86400))
    });
    let (body, _) = exchange(&mut store, &mut client, 1, |ctx, _store| {
        (get_hybrid(ctx), no_markers())
    });
    assert_eq!(body, "authenticated");
}

#[test]
fn login_then_logout() {
    let mut store = Store::new(60);
    let mut client = Client::new();

    let (body, _) = exchange(&mut store, &mut client, 0, |ctx, _store| {
        (get_hybrid(ctx), no_markers())
    });
    assert_eq!(body, "unauthenticated");

    exchange(&mut store, &mut client, 0, |_ctx, store| {
        ((), api_login(store, "loginname", "at-1", "rt-1", 60, 86400))
    });

    let (body, _) = exchange(&mut store, &mut client, 1, |ctx, _store| {
        (get_hybrid(ctx), no_markers())
    });
    assert_eq!(body, "authenticated");

    let (_, out) = exchange(&mut store, &mut client, 2, |_ctx, _store| {
        (
            (),
            ResponseMarkers {
                logout: Some(AuthLogoutResponse::new(
                    Some("/".to_string()),
                    Some("/api/refresh-login".to_string()),
                )),
                login_access: None,
                login_refresh: None,
            },
        )
    });
    assert!(out.revoked_access);
    assert!(out.revoked_refresh);
    assert_eq!(out.cookies.len(), 2);

    let (body, _) = exchange(&mut store, &mut client, 3, |ctx, _store| {
        (get_hybrid(ctx), no_markers())
    });
    assert_eq!(body, "unauthenticated");
}

#[test]
fn logout_is_idempotent() {
    let mut store = Store::new(60);
    let mut client = Client::new();
    let logout = |_ctx: &Context, _store: &mut Store| {
        (
            (),
            ResponseMarkers {
                logout: Some(AuthLogoutResponse::new(None, None)),
                login_access: None,
                login_refresh: None,
            },
        )
    };

    // Logging out without ever logging in still emits the expired cookies.
    let (_, first) = exchange(&mut store, &mut client, 0, logout);
    assert_eq!(first.cookies.len(), 2);
    assert_eq!(first.cookies[0].name, "access_token");
    assert_eq!(first.cookies[0].value, "");
    assert_eq!(first.cookies[0].expires_at, Some(0));
    assert_eq!(first.cookies[1].name, "refresh_token");
    assert_eq!(first.cookies[1].value, "");
    assert_eq!(first.cookies[1].expires_at, Some(0));
    assert!(!first.revoked_access);
    assert!(!first.revoked_refresh);

    // Logging out a second time emits exactly the same cookies.
    let (_, second) = exchange(&mut store, &mut client, 1, logout);
    assert_eq!(second.cookies.len(), 2);
    assert_eq!(second.cookies[0].name, first.cookies[0].name);
    assert_eq!(second.cookies[0].value, first.cookies[0].value);
    assert_eq!(second.cookies[0].expires_at, first.cookies[0].expires_at);
    assert_eq!(second.cookies[1].name, first.cookies[1].name);
    assert_eq!(second.cookies[1].value, first.cookies[1].value);
    assert_eq!(second.cookies[1].expires_at, first.cookies[1].expires_at);
}

#[test]
fn reused_token_after_logout_rejected() {
    let mut store = Store::new(60);
    let mut client = Client::new();
    exchange(&mut store, &mut client, 0, |_ctx, store| {
        ((), api_login(store, "loginname", "at-1", "rt-1", 60, 86400))
    });

    // Keep a copy of the issued cookies: the client will replay them.
    let stolen_jar = client.jar.clone();

    exchange(&mut store, &mut client, 1, |_ctx, _store| {
        (
            (),
            ResponseMarkers {
                logout: Some(AuthLogoutResponse::new(None, None)),
                login_access: None,
                login_refresh: None,
            },
        )
    });

    // Replaying the pre-logout cookies must fail verification: the handler
    // was consulted and the session is gone.
    let mut replay_client = Client::new();
    replay_client.jar = stolen_jar;
    let (body, _) = exchange(&mut store, &mut replay_client, 2, |ctx, _store| {
        (get_private(ctx), no_markers())
    });
    assert_eq!(body, Err(401));
}

#[test]
fn renewal_preserves_identity() {
    let mut store = Store::new(60);
    let mut client = Client::new();
    exchange(&mut store, &mut client, 0, |_ctx, store| {
        ((), api_login(store, "loginname", "at-1", "rt-1", 60, 86400))
    });

    // Two sequential requests; each renews the access token, and the jar
    // carries the renewed cookie into the next hop.
    let (body, out) = exchange(&mut store, &mut client, 1, |ctx, _store| {
        (get_private(ctx), no_markers())
    });
    assert_eq!(body, Ok("private"));
    let renewed = out.renewed.expect("a verified request renews the token");
    assert_eq!(renewed.0.as_str(), "at-1");
    assert_eq!(renewed.1, 60);
    assert_eq!(out.cookies.len(), 1);
    assert_eq!(out.cookies[0].name, "access_token");
    assert_eq!(out.cookies[0].expires_at, Some(61));

    let (body, _) = exchange(&mut store, &mut client, 2, |ctx, _store| {
        (
            match LoginInfoExtractor::from_context(ctx) {
                Ok(LoginInfoExtractor(login_info)) => Ok(login_info.loginname.clone()),
                Err(status) => Err(status),
            },
            no_markers(),
        )
    });
    assert_eq!(body, Ok("loginname".to_string()));
}

#[test]
fn expired_access_token() {
    // Access-token time-to-live of one time unit.
    let mut store = Store::new(1);
    let mut client = Client::new();
    exchange(&mut store, &mut client, 0, |_ctx, store| {
        ((), api_login(store, "loginname", "at-1", "rt-1", 1, 86400))
    });

    let (body, _) = exchange(&mut store, &mut client, 0, |ctx, _store| {
        (get_private(ctx), no_markers())
    });
    assert_eq!(body, Ok("private"));

    // The cookie expiry has passed: the request fails.
    let (body, _) = exchange(&mut store, &mut client, 5, |ctx, _store| {
        (get_private(ctx), no_markers())
    });
    assert_eq!(body, Err(401));

    // Even the second request fails: nothing renews a token that did not
    // verify.
    let (body, out) = exchange(&mut store, &mut client, 6, |ctx, _store| {
        (get_private(ctx), no_markers())
    });
    assert_eq!(body, Err(401));
    assert!(out.renewed.is_none());
    assert!(out.cookies.is_empty());

    // The refresh endpoint mints a fresh access token.
    let (body, _) = exchange(&mut store, &mut client, 7, |ctx, store| {
        let refresh = match RefreshTokenExtractor::from_context(ctx) {
            Ok(RefreshTokenExtractor(value)) => value,
            Err(status) => return (Err(status), no_markers()),
        };
        let rotated = store.refresh_session(
            &RefreshToken::new(refresh),
            AccessToken::new("at-2".to_string()),
        );
        assert!(rotated);
        (
            Ok("refreshed"),
            ResponseMarkers {
                logout: None,
                login_access: Some(AccessTokenResponse::with_offset_date_time(
                    AccessToken::new("at-2".to_string()),
                    8,
                    None,
                )),
                login_refresh: None,
            },
        )
    });
    assert_eq!(body, Ok("refreshed"));

    // The fresh token works on the protected endpoint.
    let (body, _) = exchange(&mut store, &mut client, 7, |ctx, _store| {
        (get_private(ctx), no_markers())
    });
    assert_eq!(body, Ok("private"));
}

#[test]
fn get_page_with_access_policy() {
    let mut store = Store::new(60);
    let mut client = Client::new();
    exchange(&mut store, &mut client, 0, |_ctx, store| {
        ((), api_login(store, "admin", "at-1", "rt-1", 60, 86400))
    });
    let (body, _) = exchange(&mut store, &mut client, 1, |ctx, _store| {
        (get_admin_page(ctx), no_markers())
    });
    assert_eq!(body, Ok("admin-page"));
}

#[test]
fn get_page_with_incorrect_access_policy() {
    let mut store = Store::new(60);
    let mut client = Client::new();
    exchange(&mut store, &mut client, 0, |_ctx, store| {
        ((), api_login(store, "roger", "at-1", "rt-1", 60, 86400))
    });
    // Forbidden, not unauthenticated: the credential verified, the role
    // did not.
    let (body, _) = exchange(&mut store, &mut client, 1, |ctx, _store| {
        (get_admin_page(ctx), no_markers())
    });
    assert_eq!(body, Err(403));
}

#[test]
fn first_accepted_access_cookie_wins() {
    let mut store = Store::new(60);
    store.insert_session(
        AccessToken::new("good".to_string()),
        LoginInfo { loginname: "loginname".to_string() },
    );

    // An invalid candidate before the valid one: the valid one is kept.
    let cookies = vec![
        Cookie {
            name: "access_token".to_string(),
            value: "bad".to_string(),
            path: "/".to_string(),
            expires_at: Some(100),
            http_only: true,
            secure: true,
            same_site_strict: true,
        },
        Cookie {
            name: "access_token".to_string(),
            value: "good".to_string(),
            path: "/".to_string(),
            expires_at: Some(100),
            http_only: true,
            secure: true,
            same_site_strict: true,
        },
    ];
    let ctx = begin_request(&mut store, &cookies, 0);
    let extracted = LoginInfoExtractor::from_context(&ctx).map(|e| e.0.loginname.clone());
    assert_eq!(extracted, Ok("loginname".to_string()));

    // A valid candidate before an invalid one: later candidates are not
    // even examined once one has been accepted.
    let reordered = vec![cookies[1].clone(), cookies[0].clone()];
    let ctx = begin_request(&mut store, &reordered, 0);
    match &ctx.access {
        Some((token, Ok(_))) => assert_eq!(token.as_str(), "good"),
        other => panic!("expected an accepted access slot, got {:?}", other.is_some()),
    }
}

#[test]
fn expired_cookie_treated_as_absent() {
    let mut store = Store::new(60);
    store.insert_session(
        AccessToken::new("at-1".to_string()),
        LoginInfo { loginname: "loginname".to_string() },
    );
    let cookies = vec![Cookie {
        name: "access_token".to_string(),
        value: "at-1".to_string(),
        path: "/".to_string(),
        expires_at: Some(10),
        http_only: true,
        secure: true,
        same_site_strict: true,
    }];
    // Expired by date: the slot stays empty, distinguishing "no token"
    // from "invalid token".
    let ctx = begin_request(&mut store, &cookies, 11);
    assert!(ctx.access.is_none());
    assert!(LoginInfoExtractor::optional_from_context(&ctx).is_none());
    assert_eq!(LoginInfoExtractor::from_context(&ctx).err(), Some(401));
}

#[test]
fn renewal_expiry_is_capped() {
    let mut store = Store::new(u64::MAX);
    let mut client = Client::new();
    exchange(&mut store, &mut client, 0, |_ctx, store| {
        ((), api_login(store, "loginname", "at-1", "rt-1", 60, 86400))
    });
    let (_, out) = exchange(&mut store, &mut client, 1, |ctx, _store| {
        (get_private(ctx), no_markers())
    });
    assert_eq!(out.cookies.len(), 1);
    assert_eq!(out.cookies[0].expires_at, Some(i64::MAX));
}
