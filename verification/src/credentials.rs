//! Authentication credentials and their header encoding.

use vstd::prelude::*;

use crate::encoding::{b64_of, base64_encode};

verus! {

/// Authentication material handed over at construction.
#[derive(Clone)]
pub enum Credentials {
    /// Basic authentication with username and password.
    Basic { username: String, password: String },
    /// Bearer-token authentication.
    OAuth2 { token: String },
}

/// The authorization header value credentials encode to: the base64 of
/// `username:password` behind the `Basic` scheme, or the bearer token behind
/// the `Bearer` scheme.
pub open spec fn spec_auth_header(c: Credentials) -> Seq<char> {
    match c {
        Credentials::Basic { username, password } => "Basic "@ + b64_of(
            vstd::utf8::encode_utf8(username@ + ":"@ + password@),
        ),
        Credentials::OAuth2 { token } => "Bearer "@ + token@,
    }
}

impl Credentials {
    /// Basic authentication from a username and a password.
    pub fn basic(username: String, password: String) -> (r: Credentials)
        ensures
            r == (Credentials::Basic { username, password }),
    {
        Credentials::Basic { username, password }
    }

    /// Bearer-token authentication.
    pub fn oauth2(token: String) -> (r: Credentials)
        ensures
            r == (Credentials::OAuth2 { token }),
    {
        Credentials::OAuth2 { token }
    }

    /// Formats the credentials as an HTTP authorization header value.
    pub fn to_auth_header(&self) -> (r: String)
        ensures
            r@ == spec_auth_header(*self),
    {
        match self {
            Credentials::Basic { username, password } => {
                let mut pair = username.clone();
                pair.append(":");
                pair.append(password.as_str());
                let encoded = base64_encode(pair.as_str().as_bytes());
                let mut header = String::from_str("Basic ");
                header.append(encoded.as_str());
                header
            },
            Credentials::OAuth2 { token } => {
                let mut header = String::from_str("Bearer ");
                header.append(token.as_str());
                header
            },
        }
    }
}

} // verus!
