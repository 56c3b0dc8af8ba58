//! Cookie-based session-authentication middleware, verified.
//!
//! The crate models the per-request session protocol of an HTTP
//! authentication layer: candidate tokens are extracted from request
//! cookies, verified against a pluggable identity handler, the verified
//! identity is exposed to request handlers through extractors, and the
//! outgoing response is inspected for login and logout markers before the
//! final set of cookies is assembled.  Timestamps are Unix seconds; the
//! surrounding HTTP framework converts its own cookie and clock types to
//! and from the plain values used here.

pub mod access_token_response;
pub mod auth_error;
pub mod auth_handler;
pub mod auth_layer;
pub mod auth_logout_response;
pub mod clock;
pub mod cookies;
pub mod laws;
pub mod login_info_extractor;
pub mod refresh_token_extractor;
pub mod refresh_token_response;
pub mod session_store;
pub mod tokens;

pub use access_token_response::AccessTokenResponse;
pub use auth_error::AuthError;
pub use auth_handler::AuthHandler;
pub use auth_layer::RequestContext;
pub use auth_layer::ResponseMarkers;
pub use auth_layer::ResponseOutcome;
pub use auth_layer::begin_request;
pub use auth_layer::finish_request;
pub use auth_logout_response::AuthLogoutResponse;
pub use cookies::Cookie;
pub use cookies::is_cookie_expired_by_date;
pub use login_info_extractor::LoginInfoExtractor;
pub use refresh_token_extractor::RefreshTokenExtractor;
pub use refresh_token_response::RefreshTokenResponse;
pub use session_store::SessionStore;
pub use tokens::AccessToken;
pub use tokens::RefreshToken;
