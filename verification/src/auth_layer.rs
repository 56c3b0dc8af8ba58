//! The per-request session state machine.
//!
//! A request passes through two verified stages.  [`begin_request`] scans
//! the request cookies, verifies at most one candidate per token kind
//! against the identity handler, and records the outcome in a
//! [`RequestContext`] that downstream handlers read through the
//! extractors.  After the downstream handler has produced its response,
//! [`finish_request`] inspects the markers the handler attached: a logout
//! marker takes precedence and triggers revocation plus expired cookies;
//! otherwise login markers are turned into cookies outright and a verified
//! access token is offered to the handler for renewal.  The embedding
//! framework only moves cookies and markers between its own types and the
//! plain values used here; every decision is made by these functions.

use vstd::prelude::*;

use std::sync::Arc;

use crate::access_token_response::AccessTokenResponse;
use crate::access_token_response::AccessTokenResponseModel;
use crate::auth_handler::AuthHandler;
use crate::auth_logout_response::AuthLogoutResponse;
use crate::auth_logout_response::AuthLogoutResponseModel;
use crate::cookies::Cookie;
use crate::cookies::CookieModel;
use crate::cookies::access_cookie_model;
use crate::cookies::access_token_cookie_name;
use crate::cookies::cookie_views;
use crate::cookies::create_access_token_cookie;
use crate::cookies::create_expired_access_token_cookie;
use crate::cookies::create_expired_refresh_token_cookie;
use crate::cookies::create_refresh_token_cookie;
use crate::cookies::expired_access_cookie_model;
use crate::cookies::expired_refresh_cookie_model;
use crate::cookies::is_candidate;
use crate::cookies::is_cookie_expired_by_date;
use crate::cookies::refresh_cookie_model;
use crate::cookies::refresh_token_cookie_name;
use crate::refresh_token_response::RefreshTokenResponse;
use crate::refresh_token_response::RefreshTokenResponseModel;
use crate::tokens::AccessToken;
use crate::tokens::RefreshToken;

verus! {

/// The per-request verification results, one slot per token kind.
///
/// `None` means no candidate cookie of that kind was present; a slot with
/// an `Err` records the candidate that was examined and the status the
/// handler rejected it with, so downstream can distinguish "no token"
/// from "invalid token".
#[derive(Clone)]
pub struct RequestContext<LoginInfoType> {
    pub access: Option<(AccessToken, Result<Arc<LoginInfoType>, u16>)>,
    pub refresh: Option<(RefreshToken, Result<(), u16>)>,
}

/// The markers a downstream handler attached to its response, stripped
/// from the response by the embedding framework and consumed here.
#[derive(Clone)]
pub struct ResponseMarkers {
    pub logout: Option<AuthLogoutResponse>,
    pub login_access: Option<AccessTokenResponse>,
    pub login_refresh: Option<RefreshTokenResponse>,
}

/// The mathematical image of a [`ResponseMarkers`].
pub struct ResponseMarkersModel {
    pub logout: Option<AuthLogoutResponseModel>,
    pub login_access: Option<AccessTokenResponseModel>,
    pub login_refresh: Option<RefreshTokenResponseModel>,
}

impl View for ResponseMarkers {
    type V = ResponseMarkersModel;

    open spec fn view(&self) -> ResponseMarkersModel {
        ResponseMarkersModel {
            logout: match self.logout {
                Some(ref m) => Some(m@),
                None => None,
            },
            login_access: match self.login_access {
                Some(ref m) => Some(m@),
                None => None,
            },
            login_refresh: match self.login_refresh {
                Some(ref m) => Some(m@),
                None => None,
            },
        }
    }
}

impl ResponseMarkers {
    /// A response that carries no marker at all.
    pub fn none() -> (r: Self)
        ensures
            r.logout is None,
            r.login_access is None,
            r.login_refresh is None,
    {
        ResponseMarkers { logout: None, login_access: None, login_refresh: None }
    }
}

/// What [`finish_request`] decided: the cookies to merge into the response
/// headers, the renewal the handler granted, and which revocations ran.
pub struct ResponseOutcome {
    pub cookies: Vec<Cookie>,
    pub renewed: Option<(AccessToken, u64)>,
    pub revoked_access: bool,
    pub revoked_refresh: bool,
}

/// The slot the cookie scan leaves for one token kind: the candidate value
/// that was kept, and whether the handler accepted it.  Scanning walks the
/// cookies in order and verifies a candidate only while no earlier
/// candidate of the same kind has been accepted, so the slot holds the
/// first accepted candidate, or else the last examined one.
pub open spec fn scan_slot(
    accepted: Set<Seq<char>>,
    cookies: Seq<CookieModel>,
    name: Seq<char>,
    now: int,
) -> Option<(Seq<char>, bool)>
    decreases cookies.len(),
{
    if cookies.len() == 0 {
        None
    } else {
        let prev = scan_slot(accepted, cookies.drop_last(), name, now);
        let c = cookies.last();
        if is_candidate(c, name, now) && !(prev matches Some((_, true))) {
            Some((c.value, accepted.contains(c.value)))
        } else {
            prev
        }
    }
}

/// The access-token slot left by scanning `cookies` against the sessions
/// in `sessions`.
pub open spec fn access_scan<LoginInfoType>(
    sessions: Map<Seq<char>, LoginInfoType>,
    cookies: Seq<CookieModel>,
    now: int,
) -> Option<(Seq<char>, bool)> {
    scan_slot(sessions.dom(), cookies, access_token_cookie_name(), now)
}

/// The refresh-token slot left by scanning `cookies` against the accepted
/// refresh tokens.
pub open spec fn refresh_scan(
    valid_refresh: Set<Seq<char>>,
    cookies: Seq<CookieModel>,
    now: int,
) -> Option<(Seq<char>, bool)> {
    scan_slot(valid_refresh, cookies, refresh_token_cookie_name(), now)
}

/// Whether the access slot of a context records exactly the outcome of
/// scanning `cookies` against `sessions`: same candidate, acceptance
/// matching membership, and on success the identity the map assigns.
pub open spec fn access_slot_matches<LoginInfoType>(
    slot: Option<(AccessToken, Result<Arc<LoginInfoType>, u16>)>,
    sessions: Map<Seq<char>, LoginInfoType>,
    cookies: Seq<CookieModel>,
    now: int,
) -> bool {
    match slot {
        None => access_scan(sessions, cookies, now) is None,
        Some((token, outcome)) => {
            &&& access_scan(sessions, cookies, now) matches Some((value, accepted)) && token@
                == value && (outcome is Ok <==> accepted)
            &&& (outcome matches Ok(login_info) ==> sessions.contains_key(token@) && *login_info
                == sessions[token@])
        },
    }
}

/// The refresh-token counterpart of [`access_slot_matches`].
pub open spec fn refresh_slot_matches(
    slot: Option<(RefreshToken, Result<(), u16>)>,
    valid_refresh: Set<Seq<char>>,
    cookies: Seq<CookieModel>,
    now: int,
) -> bool {
    match slot {
        None => refresh_scan(valid_refresh, cookies, now) is None,
        Some((token, outcome)) => refresh_scan(valid_refresh, cookies, now) matches Some(
            (value, accepted),
        ) && token@ == value && (outcome is Ok <==> accepted),
    }
}

/// Whether a whole context records the outcome of one cookie scan.
pub open spec fn context_matches_scan<LoginInfoType>(
    ctx: RequestContext<LoginInfoType>,
    sessions: Map<Seq<char>, LoginInfoType>,
    valid_refresh: Set<Seq<char>>,
    cookies: Seq<CookieModel>,
    now: int,
) -> bool {
    &&& access_slot_matches(ctx.access, sessions, cookies, now)
    &&& refresh_slot_matches(ctx.refresh, valid_refresh, cookies, now)
}

/// An explicitly given cookie path, or the default `/`.
pub open spec fn path_or_root(path: Option<Seq<char>>) -> Seq<char> {
    match path {
        Some(p) => p,
        None => "/"@,
    }
}

/// The cookies a logout marker turns into: one expired cookie per token
/// kind, at the paths the marker names.
pub open spec fn logout_cookie_plan(marker: AuthLogoutResponseModel) -> Seq<CookieModel> {
    seq![
        expired_access_cookie_model(path_or_root(marker.access_token_path)),
        expired_refresh_cookie_model(path_or_root(marker.refresh_token_path)),
    ]
}

/// The cookies the login markers turn into, access first.
pub open spec fn login_cookie_plan(markers: ResponseMarkersModel) -> Seq<CookieModel> {
    (match markers.login_access {
        Some(m) => seq![access_cookie_model(m.token, m.expires_at, m.path)],
        None => Seq::<CookieModel>::empty(),
    }) + (match markers.login_refresh {
        Some(m) => seq![refresh_cookie_model(m.token, m.expires_at, m.path)],
        None => Seq::<CookieModel>::empty(),
    })
}

/// The expiry of a renewed access-token cookie: `now` plus the granted
/// time-to-live, capped at the largest representable timestamp.
pub open spec fn renewal_expiry(now: int, ttl_seconds: u64) -> int {
    if now + ttl_seconds <= i64::MAX {
        now + ttl_seconds
    } else {
        i64::MAX as int
    }
}

/// The views of a renewal decision.
pub open spec fn renewed_views(renewed: Option<(AccessToken, u64)>) -> Option<(Seq<char>, u64)> {
    match renewed {
        Some((token, ttl)) => Some((token@, ttl)),
        None => None,
    }
}

/// The cookie a renewal decision turns into, at the default path.
pub open spec fn renewal_cookie_plan(renewed: Option<(Seq<char>, u64)>, now: int) -> Seq<
    CookieModel,
> {
    match renewed {
        Some((value, ttl)) => seq![access_cookie_model(value, renewal_expiry(now, ttl), "/"@)],
        None => Seq::<CookieModel>::empty(),
    }
}

/// The two fixed cookie names are distinct, so one cookie is never a
/// candidate for both token kinds.
proof fn lemma_cookie_names_differ()
    ensures
        access_token_cookie_name() != refresh_token_cookie_name(),
{
    reveal_strlit("access_token");
    reveal_strlit("refresh_token");
    assert(access_token_cookie_name().len() == 12);
    assert(refresh_token_cookie_name().len() == 13);
}

/// Whether `name` is the fixed access-token cookie name.
fn is_access_cookie_name(name: &String) -> (r: bool)
    ensures
        r == (name@ == access_token_cookie_name()),
{
    let fixed: String = "access_token".to_owned();
    *name == fixed
}

/// Whether `name` is the fixed refresh-token cookie name.
fn is_refresh_cookie_name(name: &String) -> (r: bool)
    ensures
        r == (name@ == refresh_token_cookie_name()),
{
    let fixed: String = "refresh_token".to_owned();
    *name == fixed
}

/// The inbound half of the session layer, run before the downstream
/// handler: scans the request cookies in order and, for each token kind,
/// verifies candidates until one is accepted, keeping the first accepted
/// candidate or else the last examined one.  The handler's accepted
/// sessions and refresh-token links are not changed, and the returned
/// context records exactly the outcome of the scan.
pub fn begin_request<LoginInfoType, HandlerType: AuthHandler<LoginInfoType>>(
    handler: &mut HandlerType,
    request_cookies: &Vec<Cookie>,
    now: i64,
) -> (ctx: RequestContext<LoginInfoType>)
    ensures
        final(handler).access_sessions() == old(handler).access_sessions(),
        final(handler).refresh_links() == old(handler).refresh_links(),
        context_matches_scan(
            ctx,
            old(handler).access_sessions(),
            old(handler).refresh_links().dom(),
            cookie_views(request_cookies@),
            now as int,
        ),
{
    let ghost sessions = handler.access_sessions();
    let ghost links = handler.refresh_links();
    let ghost cs = cookie_views(request_cookies@);
    let mut access_slot: Option<(AccessToken, Result<Arc<LoginInfoType>, u16>)> = None;
    let mut refresh_slot: Option<(RefreshToken, Result<(), u16>)> = None;
    let n = request_cookies.len();
    let mut i: usize = 0;
    while i < n
        invariant
            i <= n,
            n == request_cookies@.len(),
            cs == cookie_views(request_cookies@),
            sessions == handler.access_sessions(),
            links == handler.refresh_links(),
            access_slot_matches(access_slot, sessions, cs.take(i as int), now as int),
            refresh_slot_matches(refresh_slot, links.dom(), cs.take(i as int), now as int),
        decreases n - i,
    {
        proof {
            lemma_cookie_names_differ();
            assert(cs.take(i + 1 as int).drop_last() =~= cs.take(i as int));
            assert(cs.take(i + 1 as int).last() == request_cookies@[i as int]@);
        }
        let cookie = &request_cookies[i];
        if is_access_cookie_name(&cookie.name) && !is_cookie_expired_by_date(cookie, now) {
            let examine = match &access_slot {
                Some((_, outcome)) => outcome.is_err(),
                None => true,
            };
            if examine {
                let token = AccessToken::new(cookie.value.clone());
                let outcome = handler.verify_access_token(&token);
                access_slot = Some((token, outcome));
            }
        } else if is_refresh_cookie_name(&cookie.name) && !is_cookie_expired_by_date(cookie, now) {
            let examine = match &refresh_slot {
                Some((_, outcome)) => outcome.is_err(),
                None => true,
            };
            if examine {
                let token = RefreshToken::new(cookie.value.clone());
                let outcome = handler.verify_refresh_token(&token);
                refresh_slot = Some((token, outcome));
            }
        }
        i = i + 1;
    }
    proof {
        assert(cs.take(n as int) =~= cs);
    }
    RequestContext { access: access_slot, refresh: refresh_slot }
}

/// The explicitly given path of a logout marker, or the default `/`.
fn path_or_root_str(path: &Option<String>) -> (r: &str)
    ensures
        r@ == path_or_root(
            match *path {
                Some(ref p) => Some(p@),
                None => None,
            },
        ),
{
    match path {
        Some(p) => p.as_str(),
        None => "/",
    }
}

/// The outbound half of the session layer, run on the downstream handler's
/// response.  A logout marker takes precedence: every token kind that
/// verified on this request is revoked and both expired cookies are
/// emitted, unconditionally and without error, so logging out is
/// idempotent.  Without a logout marker, login markers become cookies
/// outright, and a verified access token is offered to the handler for
/// renewal; a granted renewal re-keys the session to the new token and
/// emits its cookie, a declined one leaves the existing cookie untouched.
/// When nothing verified and no marker was attached, the handler and the
/// response cookies are left exactly as they were.
pub fn finish_request<LoginInfoType, HandlerType: AuthHandler<LoginInfoType>>(
    handler: &mut HandlerType,
    ctx: &RequestContext<LoginInfoType>,
    markers: ResponseMarkers,
    now: i64,
) -> (out: ResponseOutcome)
    requires
        0 <= now,
    ensures
        out.revoked_access == (markers.logout is Some && ctx.access matches Some((_, Ok(_)))),
        out.revoked_refresh == (markers.logout is Some && ctx.refresh matches Some((_, Ok(_)))),
        match markers.logout {
            Some(logout_marker) => {
                &&& out.renewed is None
                &&& cookie_views(out.cookies@) == logout_cookie_plan(logout_marker@)
                &&& match ctx.access {
                    Some((token, Ok(_))) => final(handler).access_sessions().submap_of(
                        old(handler).access_sessions().remove(token@),
                    ) && (!(ctx.refresh matches Some((_, Ok(_)))) ==> final(handler).access_sessions() == old(handler).access_sessions().remove(token@)),
                    _ => final(handler).access_sessions().submap_of(
                        old(handler).access_sessions(),
                    ) && (!(ctx.refresh matches Some((_, Ok(_)))) ==> final(handler).access_sessions() == old(handler).access_sessions()),
                }
                &&& match ctx.refresh {
                    Some((token, Ok(_))) => final(handler).refresh_links() == old(handler).refresh_links().remove(token@),
                    _ => final(handler).refresh_links() == old(handler).refresh_links(),
                }
            },
            None => {
                &&& cookie_views(out.cookies@) == login_cookie_plan(markers@)
                    + renewal_cookie_plan(renewed_views(out.renewed), now as int)
                &&& final(handler).refresh_links() == old(handler).refresh_links()
                &&& match ctx.access {
                    Some((token, Ok(_))) => match out.renewed {
                        None => final(handler).access_sessions() == old(handler).access_sessions(),
                        Some((new_token, _)) => old(handler).access_sessions().contains_key(
                            token@,
                        ) && final(handler).access_sessions() == old(handler).access_sessions().remove(token@).insert(
                            new_token@,
                            old(handler).access_sessions()[token@],
                        ),
                    },
                    _ => *final(handler) == *old(handler) && out.renewed is None,
                }
            },
        },
{
    match markers.logout {
        Some(logout_marker) => {
            let mut revoked_access = false;
            let mut revoked_refresh = false;
            if let Some((token, outcome)) = &ctx.access {
                if let Ok(login_info) = outcome {
                    handler.revoke_access_token(token, login_info);
                    revoked_access = true;
                }
            }
            if let Some((token, outcome)) = &ctx.refresh {
                if let Ok(_) = outcome {
                    handler.revoke_refresh_token(token);
                    revoked_refresh = true;
                }
            }
            let mut cookies: Vec<Cookie> = Vec::new();
            cookies.push(
                create_expired_access_token_cookie(
                    path_or_root_str(&logout_marker.access_token_path),
                ),
            );
            cookies.push(
                create_expired_refresh_token_cookie(
                    path_or_root_str(&logout_marker.refresh_token_path),
                ),
            );
            proof {
                assert(cookie_views(cookies@) =~= logout_cookie_plan(logout_marker@));
            }
            ResponseOutcome { cookies, renewed: None, revoked_access, revoked_refresh }
        },
        None => {
            let ghost markers_view = markers@;
            let mut cookies: Vec<Cookie> = Vec::new();
            if let Some(marker) = markers.login_access {
                cookies.push(
                    create_access_token_cookie(
                        marker.token.into_value(),
                        marker.expires_at,
                        marker.path.as_str(),
                    ),
                );
            }
            if let Some(marker) = markers.login_refresh {
                cookies.push(
                    create_refresh_token_cookie(
                        marker.token.into_value(),
                        marker.expires_at,
                        marker.path.as_str(),
                    ),
                );
            }
            proof {
                assert(cookie_views(cookies@) =~= login_cookie_plan(markers_view));
            }
            let mut renewed: Option<(AccessToken, u64)> = None;
            if let Some((token, outcome)) = &ctx.access {
                if let Ok(login_info) = outcome {
                    renewed = handler.update_access_token(token, login_info);
                    if let Some((new_token, ttl_seconds)) = &renewed {
                        let expires_at: i64 = if *ttl_seconds > (i64::MAX - now) as u64 {
                            i64::MAX
                        } else {
                            now + *ttl_seconds as i64
                        };
                        cookies.push(
                            create_access_token_cookie(
                                new_token.as_str().to_owned(),
                                expires_at,
                                "/",
                            ),
                        );
                    }
                }
            }
            proof {
                assert(cookie_views(cookies@) =~= login_cookie_plan(markers_view)
                    + renewal_cookie_plan(renewed_views(renewed), now as int));
            }
            ResponseOutcome { cookies, renewed, revoked_access: false, revoked_refresh: false }
        },
    }
}

} // verus!
