//! Handler-side access to the verified refresh token.
//!
//! The refresh endpoint mints new access tokens, so it must reject
//! outright when no valid refresh token accompanies the request; this
//! extractor therefore exists in required mode only, and yields the raw
//! token value rather than an identity.

use vstd::prelude::*;

use crate::auth_error::STATUS_UNAUTHORIZED;
use crate::auth_layer::RequestContext;

verus! {

/// The verified refresh-token value presented by the request.
pub struct RefreshTokenExtractor(pub String);

impl RefreshTokenExtractor {
    /// The refresh token that verified on this request, or the status that
    /// rejects the request — the one stored by a failed verification, or
    /// unauthorized when no refresh token was presented.
    pub fn from_context<LoginInfoType>(ctx: &RequestContext<LoginInfoType>) -> (r: Result<
        Self,
        u16,
    >)
        ensures
            match ctx.refresh {
                Some((ref token, Ok(()))) => r matches Ok(e) && e.0@ == token@,
                Some((_, Err(status))) => r matches Err(s) && s == status,
                None => r matches Err(s) && s == STATUS_UNAUTHORIZED,
            },
    {
        match &ctx.refresh {
            Some((token, Ok(()))) => Ok(RefreshTokenExtractor(token.as_str().to_owned())),
            Some((_, Err(status))) => Err(*status),
            None => Err(STATUS_UNAUTHORIZED),
        }
    }
}

} // verus!
