use vstd::prelude::*;

use crate::request::{single_pair, Method, Request};

verus! {

/// Client credentials for the authentication call.
#[derive(Clone, Debug)]
pub struct AuthReq {
    pub username: String,
    pub password: String,
}

/// A successful authentication: the bearer token to send with later calls.
/// The wire key of the token is `accessToken`.
#[derive(Clone, Debug)]
pub struct Auth {
    pub access_token: String,
}

/// Authenticates: `POST realms/Core/protocol/openid-connect/token` with basic
/// auth and the form `grant_type=client_credentials`, and no JSON body.
impl Request for AuthReq {
    open spec fn spec_endpoint(&self) -> Seq<char> {
        "realms/Core/protocol/openid-connect/token"@
    }

    open spec fn spec_method(&self) -> Method {
        Method::Post
    }

    open spec fn spec_query(&self) -> Option<Seq<(Seq<char>, Seq<char>)>> {
        None
    }

    open spec fn spec_form(&self) -> Option<Seq<(Seq<char>, Seq<char>)>> {
        Some(seq![("grant_type"@, "client_credentials"@)])
    }

    open spec fn spec_basic_auth(&self) -> Option<(Seq<char>, Option<Seq<char>>)> {
        Some((self.username@, Some(self.password@)))
    }

    open spec fn spec_has_body(&self) -> bool {
        false
    }

    fn endpoint(&self) -> String {
        String::from_str("realms/Core/protocol/openid-connect/token")
    }

    fn method(&self) -> Method {
        Method::Post
    }

    fn query(&self) -> Option<Vec<(String, String)>> {
        None
    }

    fn form(&self) -> Option<Vec<(String, String)>> {
        Some(single_pair("grant_type", String::from_str("client_credentials")))
    }

    fn basic_auth(&self) -> Option<(String, Option<String>)> {
        Some((self.username.clone(), Some(self.password.clone())))
    }

    fn has_body(&self) -> bool {
        false
    }
}

} // verus!
