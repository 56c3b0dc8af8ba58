//! Handler-side access to the verified identity.
//!
//! A downstream handler reads the identity that [`crate::begin_request`]
//! established, in one of two modes: required, which rejects the request
//! with an unauthorized status when no valid identity is present, and
//! optional, which yields an explicit absence instead and never fails.

use vstd::prelude::*;

use std::sync::Arc;

use crate::auth_error::STATUS_UNAUTHORIZED;
use crate::auth_handler::arc_clone;
use crate::auth_layer::RequestContext;

verus! {

/// The verified identity of the requester, shared with the session layer.
pub struct LoginInfoExtractor<LoginInfoType>(pub Arc<LoginInfoType>);

impl<LoginInfoType> LoginInfoExtractor<LoginInfoType> {
    /// Required-mode access: the identity established for this request, or
    /// the status that rejects the request — the one stored by a failed
    /// verification, or unauthorized when no access token was presented.
    pub fn from_context(ctx: &RequestContext<LoginInfoType>) -> (r: Result<Self, u16>)
        ensures
            match ctx.access {
                Some((_, Ok(ref login_info))) => r matches Ok(e) && e.0 == *login_info,
                Some((_, Err(status))) => r matches Err(s) && s == status,
                None => r matches Err(s) && s == STATUS_UNAUTHORIZED,
            },
    {
        match &ctx.access {
            Some((_, Ok(login_info))) => Ok(LoginInfoExtractor(arc_clone(login_info))),
            Some((_, Err(status))) => Err(*status),
            None => Err(STATUS_UNAUTHORIZED),
        }
    }

    /// Optional-mode access: the identity established for this request, or
    /// an explicit absence; never an error.
    pub fn optional_from_context(ctx: &RequestContext<LoginInfoType>) -> (r: Option<Self>)
        ensures
            match ctx.access {
                Some((_, Ok(ref login_info))) => r matches Some(e) && e.0 == *login_info,
                _ => r is None,
            },
    {
        match Self::from_context(ctx) {
            Ok(extractor) => Some(extractor),
            Err(_) => None,
        }
    }
}

} // verus!
