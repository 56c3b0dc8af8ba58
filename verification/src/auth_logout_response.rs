//! The logout marker.
//!
//! A handler attaches this marker to its response to ask the session layer
//! to revoke every token kind that verified on the request and to emit
//! expired cookies.  Logging out is idempotent: the expired cookies are
//! emitted whether or not any session was active.

use vstd::prelude::*;

verus! {

/// A request to end the session, optionally naming the cookie path of each
/// token kind to invalidate; a missing path defaults to `/`.
#[derive(Debug, Clone)]
pub struct AuthLogoutResponse {
    pub access_token_path: Option<String>,
    pub refresh_token_path: Option<String>,
}

/// The mathematical image of an [`AuthLogoutResponse`].
pub struct AuthLogoutResponseModel {
    pub access_token_path: Option<Seq<char>>,
    pub refresh_token_path: Option<Seq<char>>,
}

impl View for AuthLogoutResponse {
    type V = AuthLogoutResponseModel;

    open spec fn view(&self) -> AuthLogoutResponseModel {
        AuthLogoutResponseModel {
            access_token_path: match self.access_token_path {
                Some(ref p) => Some(p@),
                None => None,
            },
            refresh_token_path: match self.refresh_token_path {
                Some(ref p) => Some(p@),
                None => None,
            },
        }
    }
}

impl AuthLogoutResponse {
    /// Builds the marker; each path falls back to `/` when absent.
    pub fn new(access_token_path: Option<String>, refresh_token_path: Option<String>) -> (r: Self)
        ensures
            r@.access_token_path == match access_token_path {
                Some(ref p) => Some(p@),
                None => None::<Seq<char>>,
            },
            r@.refresh_token_path == match refresh_token_path {
                Some(ref p) => Some(p@),
                None => None::<Seq<char>>,
            },
    {
        AuthLogoutResponse { access_token_path, refresh_token_path }
    }
}

} // verus!
