//! The identity-handler capability set consumed by the session layer.
//!
//! The embedding application supplies the handler; the middleware's
//! correctness depends on its semantics, so the contract is stated here.
//! A handler is abstracted by two pieces of ghost state: the map from
//! accepted access-token strings to the identities they prove, and the map
//! from accepted refresh-token strings to the access-token string each one
//! is linked to.

use vstd::prelude::*;

use std::sync::Arc;

use crate::tokens::AccessToken;
use crate::tokens::RefreshToken;

verus! {

/// Relies on `Arc::clone`: the returned handle points to the same value as
/// the given one.
#[verifier::external_body]
pub(crate) fn arc_clone<T>(shared: &Arc<T>) -> (r: Arc<T>)
    ensures
        r == *shared,
{
    shared.clone()
}

/// The capability set required of the embedding application.
///
/// `LoginInfoType` is the application-defined identity payload; the
/// session layer never inspects it, it only passes it through.
pub trait AuthHandler<LoginInfoType>: Sized {
    /// The identities currently accepted, keyed by access-token string.
    spec fn access_sessions(&self) -> Map<Seq<char>, LoginInfoType>;

    /// The refresh tokens currently accepted, each linked to the
    /// access-token string it may replace.  A handler that does not link
    /// refresh tokens to sessions may map each to any value.
    spec fn refresh_links(&self) -> Map<Seq<char>, Seq<char>>;

    /// Checks an access token presented by a request.  Verification is
    /// side-effect-free from the caller's perspective and accepts exactly
    /// the tokens in [`Self::access_sessions`]; on success the identity is
    /// returned behind a shared handle, on failure the handler picks the
    /// status code reported to clients that require identity.
    fn verify_access_token(&mut self, access_token: &AccessToken) -> (r: Result<
        Arc<LoginInfoType>,
        u16,
    >)
        ensures
            final(self).access_sessions() == old(self).access_sessions(),
            final(self).refresh_links() == old(self).refresh_links(),
            match r {
                Ok(login_info) => final(self).access_sessions().contains_key(access_token@)
                    && *login_info == final(self).access_sessions()[access_token@],
                Err(_) => !final(self).access_sessions().contains_key(access_token@),
            },
    ;

    /// Decides whether the access token of a verified request is renewed.
    /// Returning `None` leaves the session untouched; returning a new
    /// token and a time-to-live re-keys the session so the new token
    /// proves the same identity the old one did.
    fn update_access_token(
        &mut self,
        access_token: &AccessToken,
        login_info: &Arc<LoginInfoType>,
    ) -> (r: Option<(AccessToken, u64)>)
        ensures
            final(self).refresh_links() == old(self).refresh_links(),
            match r {
                None => final(self).access_sessions() == old(self).access_sessions(),
                Some((new_token, _ttl)) => old(self).access_sessions().contains_key(access_token@)
                    && final(self).access_sessions() == old(self).access_sessions().remove(
                    access_token@,
                ).insert(new_token@, old(self).access_sessions()[access_token@]),
            },
    ;

    /// Erases the session proved by an access token; called when a logout
    /// marker is found on the response.  Revoking a token that is no
    /// longer accepted is a no-op.
    fn revoke_access_token(&mut self, access_token: &AccessToken, login_info: &Arc<LoginInfoType>)
        ensures
            final(self).access_sessions() == old(self).access_sessions().remove(access_token@),
            final(self).refresh_links() == old(self).refresh_links(),
    ;

    /// Checks a refresh token presented by a request; side-effect-free and
    /// accepts exactly the tokens in [`Self::refresh_links`].
    fn verify_refresh_token(&mut self, refresh_token: &RefreshToken) -> (r: Result<(), u16>)
        ensures
            final(self).access_sessions() == old(self).access_sessions(),
            final(self).refresh_links() == old(self).refresh_links(),
            r is Ok <==> final(self).refresh_links().contains_key(refresh_token@),
    ;

    /// Withdraws a refresh token; called when a logout marker is found on
    /// the response.  The handler may also erase access sessions linked to
    /// the token, but never accepts new ones on this call.
    fn revoke_refresh_token(&mut self, refresh_token: &RefreshToken)
        ensures
            final(self).refresh_links() == old(self).refresh_links().remove(refresh_token@),
            final(self).access_sessions().submap_of(old(self).access_sessions()),
    ;
}

} // verus!
