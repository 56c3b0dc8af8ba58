//! The session-protocol laws.
//!
//! Each proof function here states a guarantee of the protocol as a whole,
//! over the spec-level scan and cookie plans that the contracts of
//! [`crate::begin_request`] and [`crate::finish_request`] are written in.
//! The premises of each law are exactly what those contracts establish, so
//! the law carries over to any conforming identity handler.

use vstd::prelude::*;

use std::sync::Arc;

use crate::auth_layer::access_scan;
use crate::auth_layer::access_slot_matches;
use crate::auth_layer::logout_cookie_plan;
use crate::auth_layer::refresh_scan;
use crate::auth_layer::refresh_slot_matches;
use crate::auth_layer::scan_slot;
use crate::auth_logout_response::AuthLogoutResponseModel;
use crate::cookies::CookieModel;
use crate::cookies::access_token_cookie_name;
use crate::cookies::is_candidate;
use crate::cookies::refresh_token_cookie_name;
use crate::tokens::AccessToken;
use crate::tokens::RefreshToken;

verus! {

/// No candidate of the given name among the cookies means the scan leaves
/// the slot empty.
proof fn lemma_scan_slot_no_candidate(
    accepted: Set<Seq<char>>,
    cookies: Seq<CookieModel>,
    name: Seq<char>,
    now: int,
)
    requires
        forall|i: int| 0 <= i < cookies.len() ==> !is_candidate(cookies[i], name, now),
    ensures
        scan_slot(accepted, cookies, name, now) is None,
    decreases cookies.len(),
{
    if cookies.len() > 0 {
        assert forall|i: int|
            0 <= i < cookies.drop_last().len() implies !is_candidate(
            cookies.drop_last()[i],
            name,
            now,
        ) by {
            assert(cookies.drop_last()[i] == cookies[i]);
        }
        lemma_scan_slot_no_candidate(accepted, cookies.drop_last(), name, now);
    }
}

/// A one-cookie request presenting an unexpired cookie of the given name
/// is scanned to exactly that candidate, accepted exactly when its value
/// is among the accepted token strings.
proof fn lemma_scan_slot_single(
    accepted: Set<Seq<char>>,
    cookies: Seq<CookieModel>,
    name: Seq<char>,
    now: int,
)
    requires
        cookies.len() == 1,
        is_candidate(cookies[0], name, now),
    ensures
        scan_slot(accepted, cookies, name, now) == Some(
            (cookies[0].value, accepted.contains(cookies[0].value)),
        ),
{
    assert(cookies.drop_last() =~= Seq::<CookieModel>::empty());
    assert(scan_slot(accepted, Seq::<CookieModel>::empty(), name, now) is None);
    assert(cookies.last() == cookies[0]);
}

/// Every valid login can be used: when the identity handler accepts
/// `token` as proof of an identity, a request that presents the issued,
/// unexpired access-token cookie is verified successfully, and the
/// identity the request context carries is exactly the one established at
/// login, so required-mode extraction succeeds with that identity.
pub proof fn law_issued_token_yields_login_identity<LoginInfoType>(
    slot: Option<(AccessToken, Result<Arc<LoginInfoType>, u16>)>,
    sessions: Map<Seq<char>, LoginInfoType>,
    token: Seq<char>,
    cookies: Seq<CookieModel>,
    now: int,
)
    requires
        sessions.contains_key(token),
        cookies.len() == 1,
        is_candidate(cookies[0], access_token_cookie_name(), now),
        cookies[0].value == token,
        access_slot_matches(slot, sessions, cookies, now),
    ensures
        slot matches Some((kept, Ok(login_info))) && kept@ == token && *login_info
            == sessions[token],
{
    lemma_scan_slot_single(sessions.dom(), cookies, access_token_cookie_name(), now);
    assert(access_scan(sessions, cookies, now) == Some((token, true)));
}

/// A request with no access-token cookie, or whose access-token cookies
/// are all expired by date, establishes nothing: the scan leaves the slot
/// empty, so required-mode extraction rejects the request as unauthorized
/// and optional-mode extraction yields an explicit absence.
pub proof fn law_no_usable_token_yields_absence<LoginInfoType>(
    slot: Option<(AccessToken, Result<Arc<LoginInfoType>, u16>)>,
    sessions: Map<Seq<char>, LoginInfoType>,
    cookies: Seq<CookieModel>,
    now: int,
)
    requires
        forall|i: int|
            0 <= i < cookies.len() ==> cookies[i].name != access_token_cookie_name()
                || cookies[i].expired_at(now),
        access_slot_matches(slot, sessions, cookies, now),
    ensures
        slot is None,
{
    lemma_scan_slot_no_candidate(sessions.dom(), cookies, access_token_cookie_name(), now);
}

/// Logging out is idempotent.  The cookies a logout emits are a function
/// of the marker alone — the plan is the same pair of expired cookies
/// whatever the session state, so a logout without a session, or a second
/// logout, emits them just the same — and revoking a token that is already
/// gone leaves the handler's sessions untouched.
pub proof fn law_logout_idempotent<LoginInfoType>(
    sessions: Map<Seq<char>, LoginInfoType>,
    token: Seq<char>,
    marker: AuthLogoutResponseModel,
)
    ensures
        logout_cookie_plan(marker).len() == 2,
        sessions.remove(token).remove(token) == sessions.remove(token),
        !sessions.contains_key(token) ==> sessions.remove(token) == sessions,
{
    assert(sessions.remove(token).remove(token) =~= sessions.remove(token));
    if !sessions.contains_key(token) {
        assert(sessions.remove(token) =~= sessions);
    }
}

/// After a logout, the revoked access token no longer works: the handler
/// no longer accepts it, so a request that presents the old cookie is
/// rejected by verification, and required-mode extraction refuses the
/// request.
pub proof fn law_revoked_token_rejected<LoginInfoType>(
    slot: Option<(AccessToken, Result<Arc<LoginInfoType>, u16>)>,
    sessions: Map<Seq<char>, LoginInfoType>,
    token: Seq<char>,
    cookies: Seq<CookieModel>,
    now: int,
)
    requires
        !sessions.contains_key(token),
        cookies.len() == 1,
        is_candidate(cookies[0], access_token_cookie_name(), now),
        cookies[0].value == token,
        access_slot_matches(slot, sessions, cookies, now),
    ensures
        slot matches Some((kept, Err(_))) && kept@ == token,
{
    lemma_scan_slot_single(sessions.dom(), cookies, access_token_cookie_name(), now);
    assert(access_scan(sessions, cookies, now) == Some((token, false)));
}

/// A linked refresh token can be used: when the identity handler accepts
/// `token` as a refresh credential, a request presenting the issued,
/// unexpired refresh-token cookie verifies, so the refresh endpoint's
/// required-mode extractor yields the raw token value.
pub proof fn law_valid_refresh_token_extracts(
    slot: Option<(RefreshToken, Result<(), u16>)>,
    valid_refresh: Set<Seq<char>>,
    token: Seq<char>,
    cookies: Seq<CookieModel>,
    now: int,
)
    requires
        valid_refresh.contains(token),
        cookies.len() == 1,
        is_candidate(cookies[0], refresh_token_cookie_name(), now),
        cookies[0].value == token,
        refresh_slot_matches(slot, valid_refresh, cookies, now),
    ensures
        slot matches Some((kept, Ok(_))) && kept@ == token,
{
    lemma_scan_slot_single(valid_refresh, cookies, refresh_token_cookie_name(), now);
    assert(refresh_scan(valid_refresh, cookies, now) == Some((token, true)));
}

/// A request with no refresh-token cookie, or whose refresh-token cookies
/// are all expired by date, leaves the refresh slot empty, so the refresh
/// endpoint's extractor rejects the request as unauthorized.
pub proof fn law_no_usable_refresh_token_yields_absence(
    slot: Option<(RefreshToken, Result<(), u16>)>,
    valid_refresh: Set<Seq<char>>,
    cookies: Seq<CookieModel>,
    now: int,
)
    requires
        forall|i: int|
            0 <= i < cookies.len() ==> cookies[i].name != refresh_token_cookie_name()
                || cookies[i].expired_at(now),
        refresh_slot_matches(slot, valid_refresh, cookies, now),
    ensures
        slot is None,
{
    lemma_scan_slot_no_candidate(valid_refresh, cookies, refresh_token_cookie_name(), now);
}

/// Renewal preserves identity: when the handler re-keys a session from
/// `old_token` to `new_token` — the exact state change that both the
/// renewal contract and the refresh-endpoint rotation promise — a later
/// request presenting the new token resolves to the same identity that the
/// original token proved.
pub proof fn law_renewed_token_preserves_identity<LoginInfoType>(
    slot: Option<(AccessToken, Result<Arc<LoginInfoType>, u16>)>,
    sessions: Map<Seq<char>, LoginInfoType>,
    old_token: Seq<char>,
    new_token: Seq<char>,
    cookies: Seq<CookieModel>,
    now: int,
)
    requires
        sessions.contains_key(old_token),
        cookies.len() == 1,
        is_candidate(cookies[0], access_token_cookie_name(), now),
        cookies[0].value == new_token,
        access_slot_matches(
            slot,
            sessions.remove(old_token).insert(new_token, sessions[old_token]),
            cookies,
            now,
        ),
    ensures
        slot matches Some((kept, Ok(login_info))) && kept@ == new_token && *login_info
            == sessions[old_token],
{
    let renewed = sessions.remove(old_token).insert(new_token, sessions[old_token]);
    lemma_scan_slot_single(renewed.dom(), cookies, access_token_cookie_name(), now);
    assert(access_scan(renewed, cookies, now) == Some((new_token, true)));
}

} // verus!
