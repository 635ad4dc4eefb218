use vstd::prelude::*;

use crate::error::{Error, ErrorKind};

verus! {

/// The HTTP method of a call.
#[derive(Clone, Copy, Debug, PartialEq, Eq, Structural)]
pub enum Method {
    Get,
    Post,
    Put,
    Delete,
}

/// Whether a call must come back with a body to decode, or may come back empty.
#[derive(Clone, Copy, Debug, PartialEq, Eq, Structural)]
pub enum Execution {
    /// Decode the body into the expected shape; a missing body is an error.
    Required,
    /// An empty or missing body is a legitimate `None`.
    Optional,
}

/// The text of a list of name/value pairs.
pub open spec fn pairs_view(v: Seq<(String, String)>) -> Seq<(Seq<char>, Seq<char>)> {
    v.map_values(|p: (String, String)| (p.0@, p.1@))
}

/// The text of an optional list of name/value pairs.
pub open spec fn opt_pairs_view(o: Option<Vec<(String, String)>>) -> Option<Seq<(Seq<char>, Seq<char>)>> {
    match o {
        Some(v) => Some(pairs_view(v@)),
        None => None,
    }
}

/// The text of optional basic-auth credentials (user name, optional secret).
pub open spec fn credentials_view(o: Option<(String, Option<String>)>) -> Option<(Seq<char>, Option<Seq<char>>)> {
    match o {
        Some((user, secret)) => Some(
            (
                user@,
                match secret {
                    Some(s) => Some(s@),
                    None => None,
                },
            ),
        ),
        None => None,
    }
}

/// One API operation described as data: where it goes, how, and what it
/// attaches. Building a call from a descriptor never fails.
pub trait Request {
    /// The path of the call below the base URL.
    spec fn spec_endpoint(&self) -> Seq<char>;

    spec fn spec_method(&self) -> Method;

    /// Query parameters, used by the listing calls to filter by subtype.
    spec fn spec_query(&self) -> Option<Seq<(Seq<char>, Seq<char>)>>;

    /// Form fields, used by the authentication call only.
    spec fn spec_form(&self) -> Option<Seq<(Seq<char>, Seq<char>)>>;

    /// Basic-auth credentials, used by the authentication call only.
    spec fn spec_basic_auth(&self) -> Option<(Seq<char>, Option<Seq<char>>)>;

    /// Whether the descriptor itself is sent as the JSON body.
    spec fn spec_has_body(&self) -> bool;

    fn endpoint(&self) -> (r: String)
        ensures
            r@ == self.spec_endpoint(),
    ;

    fn method(&self) -> (r: Method)
        ensures
            r == self.spec_method(),
    ;

    fn query(&self) -> (r: Option<Vec<(String, String)>>)
        ensures
            opt_pairs_view(r) == self.spec_query(),
    ;

    fn form(&self) -> (r: Option<Vec<(String, String)>>)
        ensures
            opt_pairs_view(r) == self.spec_form(),
    ;

    fn basic_auth(&self) -> (r: Option<(String, Option<String>)>)
        ensures
            credentials_view(r) == self.spec_basic_auth(),
    ;

    fn has_body(&self) -> (r: bool)
        ensures
            r == self.spec_has_body(),
    ;
}

/// A single name/value pair, as a list.
pub fn single_pair(name: &str, value: String) -> (r: Vec<(String, String)>)
    ensures
        pairs_view(r@) == seq![(name@, value@)],
{
    let mut v: Vec<(String, String)> = Vec::new();
    v.push((String::from_str(name), value));
    assert(pairs_view(v@) =~= seq![(name@, value@)]);
    v
}

/// An unsent HTTP call: everything a transport needs to perform it.
#[derive(Clone, Debug)]
pub struct Call {
    /// The full URL: base URL, `/`, endpoint.
    pub url: String,
    pub method: Method,
    pub query: Option<Vec<(String, String)>>,
    pub form: Option<Vec<(String, String)>>,
    pub basic_auth: Option<(String, Option<String>)>,
    /// The bearer token to attach, if any.
    pub bearer: Option<String>,
    /// Whether the descriptor is to be sent as the JSON body.
    pub with_body: bool,
    pub execution: Execution,
}

/// The text of a call.
pub struct CallModel {
    pub url: Seq<char>,
    pub method: Method,
    pub query: Option<Seq<(Seq<char>, Seq<char>)>>,
    pub form: Option<Seq<(Seq<char>, Seq<char>)>>,
    pub basic_auth: Option<(Seq<char>, Option<Seq<char>>)>,
    pub bearer: Option<Seq<char>>,
    pub with_body: bool,
    pub execution: Execution,
}

impl View for Call {
    type V = CallModel;

    open spec fn view(&self) -> CallModel {
        CallModel {
            url: self.url@,
            method: self.method,
            query: opt_pairs_view(self.query),
            form: opt_pairs_view(self.form),
            basic_auth: credentials_view(self.basic_auth),
            bearer: match self.bearer {
                Some(t) => Some(t@),
                None => None,
            },
            with_body: self.with_body,
            execution: self.execution,
        }
    }
}

/// The call that a descriptor gives against a base URL, with the given bearer
/// token and execution mode.
pub open spec fn described<T: Request>(
    payload: &T,
    base: Seq<char>,
    bearer: Option<Seq<char>>,
    execution: Execution,
) -> CallModel {
    CallModel {
        url: base + "/"@ + payload.spec_endpoint(),
        method: payload.spec_method(),
        query: payload.spec_query(),
        form: payload.spec_form(),
        basic_auth: payload.spec_basic_auth(),
        bearer,
        with_body: payload.spec_has_body(),
        execution,
    }
}

/// Builds the unsent call for a descriptor against a base URL: no token, and
/// a body required in the response.
pub fn build<T: Request>(payload: &T, base: &str) -> (r: Call)
    ensures
        r@ == described(payload, base@, None, Execution::Required),
{
    let path = payload.endpoint();
    let url = String::from_str(base).concat("/").concat(path.as_str());
    Call {
        url,
        method: payload.method(),
        query: payload.query(),
        form: payload.form(),
        basic_auth: payload.basic_auth(),
        bearer: None,
        with_body: payload.has_body(),
        execution: Execution::Required,
    }
}

impl Call {
    /// The same call, with a bearer token attached.
    pub fn bearer_auth(self, token: &str) -> (r: Call)
        ensures
            r@ == (CallModel { bearer: Some(token@), ..self@ }),
    {
        Call { bearer: Some(String::from_str(token)), ..self }
    }

    /// The same call, executed so that an empty response body is accepted.
    pub fn optional(self) -> (r: Call)
        ensures
            r@ == (CallModel { execution: Execution::Optional, ..self@ }),
    {
        Call { execution: Execution::Optional, ..self }
    }
}

/// The body of a success response, as the JSON layer read it into the
/// expected shape.
#[derive(Clone, Debug)]
pub enum Received<U> {
    /// The body was missing or empty.
    Empty,
    Decoded(U),
    /// The body could not be decoded; the decoder's reason.
    Undecodable(String),
}

/// Whether a status code is a success (2xx).
pub open spec fn is_success_status(status: u16) -> bool {
    200 <= status < 300
}

pub fn is_success(status: u16) -> (r: bool)
    ensures
        r == is_success_status(status),
{
    200 <= status && status < 300
}

/// What a success response comes to under a call's execution mode: a decoded
/// body is the value; an empty one is `None` where the call allows it and a
/// decode error where it requires a body; an undecodable one is a decode
/// error either way.
pub fn settle<U>(execution: Execution, received: Received<U>) -> (r: Result<Option<U>, Error>)
    ensures
        match received {
            Received::Decoded(u) => r == Ok::<Option<U>, Error>(Some(u)),
            Received::Empty => match execution {
                Execution::Optional => r == Ok::<Option<U>, Error>(None),
                Execution::Required => r matches Err(e) && e@ == (
                    ErrorKind::ClientDecodeError,
                    "Empty response body"@,
                ),
            },
            Received::Undecodable(reason) => r matches Err(e) && e@ == (
                ErrorKind::ClientDecodeError,
                reason@,
            ),
        },
{
    match received {
        Received::Decoded(u) => Ok(Some(u)),
        Received::Empty => match execution {
            Execution::Optional => Ok(None),
            Execution::Required => Err(
                Error::ClientDecodeError(String::from_str("Empty response body")),
            ),
        },
        Received::Undecodable(reason) => Err(Error::ClientDecodeError(reason)),
    }
}

} // verus!
