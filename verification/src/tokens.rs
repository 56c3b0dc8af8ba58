//! Opaque bearer-token value types.
//!
//! An access token and a refresh token are both opaque strings, but they
//! are wrapped in distinct types so that one kind can never be passed
//! where the other is expected.

use vstd::prelude::*;

verus! {

/// A short-lived bearer credential presented on (nearly) every request.
#[derive(Debug, Clone, PartialEq, Eq, PartialOrd, Ord, Hash)]
pub struct AccessToken(String);

impl View for AccessToken {
    type V = Seq<char>;

    closed spec fn view(&self) -> Seq<char> {
        self.0@
    }
}

impl AccessToken {
    /// Wraps an opaque credential string as an access token.
    pub fn new(token: String) -> (r: Self)
        ensures
            r@ == token@,
    {
        AccessToken(token)
    }

    /// The credential string carried by this token.
    pub fn as_str(&self) -> (r: &str)
        ensures
            r@ == self@,
    {
        self.0.as_str()
    }

    /// A copy of this token with the same credential string.
    pub fn duplicate(&self) -> (r: Self)
        ensures
            r@ == self@,
    {
        AccessToken(self.0.clone())
    }


    /// Unwraps the token into its credential string.
    pub fn into_value(self) -> (r: String)
        ensures
            r@ == self@,
    {
        self.0
    }
    /// Whether two access tokens carry the same credential string.
    pub fn value_eq(&self, other: &AccessToken) -> (r: bool)
        ensures
            r == (self@ == other@),
    {
        self.0 == other.0
    }
}

/// A long-lived credential used solely to mint new access tokens.
#[derive(Debug, Clone, PartialEq, Eq, PartialOrd, Ord, Hash)]
pub struct RefreshToken(String);

impl View for RefreshToken {
    type V = Seq<char>;

    closed spec fn view(&self) -> Seq<char> {
        self.0@
    }
}

impl RefreshToken {
    /// Wraps an opaque credential string as a refresh token.
    pub fn new(token: String) -> (r: Self)
        ensures
            r@ == token@,
    {
        RefreshToken(token)
    }

    /// The credential string carried by this token.
    pub fn as_str(&self) -> (r: &str)
        ensures
            r@ == self@,
    {
        self.0.as_str()
    }

    /// A copy of this token with the same credential string.
    pub fn duplicate(&self) -> (r: Self)
        ensures
            r@ == self@,
    {
        RefreshToken(self.0.clone())
    }


    /// Unwraps the token into its credential string.
    pub fn into_value(self) -> (r: String)
        ensures
            r@ == self@,
    {
        self.0
    }
    /// Whether two refresh tokens carry the same credential string.
    pub fn value_eq(&self, other: &RefreshToken) -> (r: bool)
        ensures
            r == (self@ == other@),
    {
        self.0 == other.0
    }
}

} // verus!
