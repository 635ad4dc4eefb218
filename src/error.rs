use vstd::prelude::*;

verus! {

/// Details of an error response: the wire body `{"message": "..."}`.
#[derive(Clone, Debug)]
pub struct Body {
    pub message: String,
}

impl Body {
    /// The text shown for this body: its message.
    pub fn to_string(&self) -> (r: String)
        ensures
            r@ == self.message@,
    {
        self.message.clone()
    }
}

/// The kinds of failure that any call can report; there are no others.
#[derive(Clone, Copy, Debug, PartialEq, Eq, Structural)]
pub enum ErrorKind {
    BadRequest,
    Unauthorized,
    Forbidden,
    NotFound,
    InternalError,
    Unknown,
    ClientError,
    ClientDecodeError,
}

/// A classified failure of a call.
#[derive(Clone, Debug)]
pub enum Error {
    /// Status `400`
    BadRequest(Body),
    /// Status `401`
    Unauthorized(Body),
    /// Status `403`
    Forbidden(Body),
    /// Status `404`
    NotFound(Body),
    /// Status `500`
    InternalError(Body),
    /// Any other status, or a response without a body
    Unknown(String),
    /// The call failed before a response was read
    ClientError(String),
    /// A payload from the server could not be interpreted
    ClientDecodeError(String),
}

impl View for Error {
    type V = (ErrorKind, Seq<char>);

    /// The kind of the error and the text that it carries.
    open spec fn view(&self) -> (ErrorKind, Seq<char>) {
        match self {
            Error::BadRequest(b) => (ErrorKind::BadRequest, b.message@),
            Error::Unauthorized(b) => (ErrorKind::Unauthorized, b.message@),
            Error::Forbidden(b) => (ErrorKind::Forbidden, b.message@),
            Error::NotFound(b) => (ErrorKind::NotFound, b.message@),
            Error::InternalError(b) => (ErrorKind::InternalError, b.message@),
            Error::Unknown(s) => (ErrorKind::Unknown, s@),
            Error::ClientError(s) => (ErrorKind::ClientError, s@),
            Error::ClientDecodeError(s) => (ErrorKind::ClientDecodeError, s@),
        }
    }
}

/// The error body of a failed response, as far as the JSON layer could read it.
#[derive(Clone, Debug)]
pub enum ErrorBody {
    /// The response had no body, or an empty one.
    Missing,
    /// The body was there but is not of the shape `{"message": string}`.
    Unreadable,
    /// The body, read as `{"message": string}`.
    Message(Body),
}

/// A transport outcome that is not a decoded success value.
#[derive(Clone, Debug)]
pub enum Failure {
    /// A response whose status is not a success, with its status code.
    Response(u16, ErrorBody),
    /// A failure before any response (network, request encoding).
    Client(String),
    /// A success response whose body could not be decoded into the expected shape.
    Decode(String),
}

/// The kind that a status code maps to when its error body is readable.
pub open spec fn status_kind(code: u16) -> ErrorKind {
    if code == 400 {
        ErrorKind::BadRequest
    } else if code == 401 {
        ErrorKind::Unauthorized
    } else if code == 403 {
        ErrorKind::Forbidden
    } else if code == 404 {
        ErrorKind::NotFound
    } else if code == 500 {
        ErrorKind::InternalError
    } else {
        ErrorKind::Unknown
    }
}

/// The decimal digit for `d` (`d < 10`).
pub open spec fn digit_char(d: nat) -> char {
    seq!['0', '1', '2', '3', '4', '5', '6', '7', '8', '9'][d as int]
}

/// The decimal text of `n`, without leading zeros.
pub open spec fn decimal(n: nat) -> Seq<char>
    decreases n,
{
    if n < 10 {
        seq![digit_char(n)]
    } else {
        decimal(n / 10) + seq![digit_char(n % 10)]
    }
}

/// The kind and text of the error that a failure is classified as.
pub open spec fn classification(f: &Failure) -> (ErrorKind, Seq<char>) {
    match f {
        Failure::Response(code, ErrorBody::Missing) => (
            ErrorKind::Unknown,
            "No body for status: "@ + decimal(*code as nat),
        ),
        Failure::Response(_, ErrorBody::Unreadable) => (
            ErrorKind::ClientDecodeError,
            "Could not deserialize body"@,
        ),
        Failure::Response(code, ErrorBody::Message(b)) => if status_kind(*code)
            == ErrorKind::Unknown {
            (ErrorKind::Unknown, decimal(*code as nat) + ": "@ + b.message@)
        } else {
            (status_kind(*code), b.message@)
        },
        Failure::Client(reason) => (ErrorKind::ClientError, reason@),
        Failure::Decode(reason) => (ErrorKind::ClientDecodeError, reason@),
    }
}

/// The text shown for an error.
pub open spec fn error_text(e: (ErrorKind, Seq<char>)) -> Seq<char> {
    match e.0 {
        ErrorKind::Unknown => "Unknown: "@ + e.1,
        ErrorKind::ClientError => "Client: "@ + e.1,
        ErrorKind::ClientDecodeError => "Client decode error: "@ + e.1,
        _ => e.1,
    }
}

/// A non-success response with a readable body `{"message": m}` is classified
/// by its status: 400, 401, 403, 404 and 500 give `BadRequest`, `Unauthorized`,
/// `Forbidden`, `NotFound` and `InternalError` carrying `m` unchanged; any other
/// status gives `Unknown`, whose text begins with the status in decimal and
/// ends with `m`.
pub proof fn lemma_readable_body(f: Failure, code: u16, m: Seq<char>)
    requires
        match f {
            Failure::Response(c, ErrorBody::Message(b)) => c == code && b.message@ == m,
            _ => false,
        },
    ensures
        code == 400 ==> classification(&f) == (ErrorKind::BadRequest, m),
        code == 401 ==> classification(&f) == (ErrorKind::Unauthorized, m),
        code == 403 ==> classification(&f) == (ErrorKind::Forbidden, m),
        code == 404 ==> classification(&f) == (ErrorKind::NotFound, m),
        code == 500 ==> classification(&f) == (ErrorKind::InternalError, m),
        code != 400 && code != 401 && code != 403 && code != 404 && code != 500 ==> {
            let t = classification(&f).1;
            &&& classification(&f).0 == ErrorKind::Unknown
            &&& t.len() >= decimal(code as nat).len() + m.len()
            &&& t.subrange(0, decimal(code as nat).len() as int) == decimal(code as nat)
            &&& t.subrange(t.len() - m.len(), t.len() as int) == m
        },
{
    if code != 400 && code != 401 && code != 403 && code != 404 && code != 500 {
        let d = decimal(code as nat);
        let t = classification(&f).1;
        assert(t == d + ": "@ + m);
        assert(t.subrange(0, d.len() as int) =~= d);
        assert(t.subrange(t.len() - m.len(), t.len() as int) =~= m);
    }
}

/// A non-success response without a body is classified as `Unknown`, with a
/// text that ends with the status in decimal; no body is read.
pub proof fn lemma_missing_body(f: Failure, code: u16)
    requires
        match f {
            Failure::Response(c, ErrorBody::Missing) => c == code,
            _ => false,
        },
    ensures
        classification(&f) == (ErrorKind::Unknown, "No body for status: "@ + decimal(code as nat)),
        ({
            let t = classification(&f).1;
            let d = decimal(code as nat);
            t.len() >= d.len() && t.subrange(t.len() - d.len(), t.len() as int) == d
        }),
{
    let t = classification(&f).1;
    let d = decimal(code as nat);
    assert(t.subrange(t.len() - d.len(), t.len() as int) =~= d);
}

/// A non-success response whose body cannot be read as `{"message": ...}` is
/// classified as `ClientDecodeError`, whatever its status.
pub proof fn lemma_unreadable_body(f: Failure, code: u16)
    requires
        match f {
            Failure::Response(c, ErrorBody::Unreadable) => c == code,
            _ => false,
        },
    ensures
        classification(&f) == (ErrorKind::ClientDecodeError, "Could not deserialize body"@),
{
}

fn digit_text(d: u16) -> (r: &'static str)
    requires
        d < 10,
    ensures
        r@ == seq![digit_char(d as nat)],
{
    proof {
        reveal_strlit("0");
        reveal_strlit("1");
        reveal_strlit("2");
        reveal_strlit("3");
        reveal_strlit("4");
        reveal_strlit("5");
        reveal_strlit("6");
        reveal_strlit("7");
        reveal_strlit("8");
        reveal_strlit("9");
    }
    let r = if d == 0 {
        "0"
    } else if d == 1 {
        "1"
    } else if d == 2 {
        "2"
    } else if d == 3 {
        "3"
    } else if d == 4 {
        "4"
    } else if d == 5 {
        "5"
    } else if d == 6 {
        "6"
    } else if d == 7 {
        "7"
    } else if d == 8 {
        "8"
    } else {
        "9"
    };
    assert(r@ =~= seq![digit_char(d as nat)]);
    r
}

/// The decimal text of a status code.
pub fn status_text(code: u16) -> (r: String)
    ensures
        r@ == decimal(code as nat),
    decreases code,
{
    if code < 10 {
        String::from_str(digit_text(code))
    } else {
        let mut s = status_text(code / 10);
        s.append(digit_text(code % 10));
        s
    }
}

impl Error {
    /// Classifies a failed transport outcome.
    ///
    /// A response without a body is `Unknown` and names the status; one whose
    /// body is not `{"message": ...}` is `ClientDecodeError`; otherwise 400,
    /// 401, 403, 404 and 500 give their named kinds with the message, and any
    /// other status is `Unknown` with the status and the message. Failures
    /// before a response are `ClientError`, and an undecodable success body is
    /// `ClientDecodeError`.
    pub fn classify(failure: Failure) -> (r: Error)
        ensures
            r@ == classification(&failure),
    {
        match failure {
            Failure::Response(code, ErrorBody::Missing) => {
                let mut text = String::from_str("No body for status: ");
                let digits = status_text(code);
                text.append(digits.as_str());
                Error::Unknown(text)
            },
            Failure::Response(_, ErrorBody::Unreadable) => {
                Error::ClientDecodeError(String::from_str("Could not deserialize body"))
            },
            Failure::Response(code, ErrorBody::Message(body)) => {
                if code == 400 {
                    Error::BadRequest(body)
                } else if code == 401 {
                    Error::Unauthorized(body)
                } else if code == 403 {
                    Error::Forbidden(body)
                } else if code == 404 {
                    Error::NotFound(body)
                } else if code == 500 {
                    Error::InternalError(body)
                } else {
                    let mut text = status_text(code);
                    text.append(": ");
                    text.append(body.message.as_str());
                    Error::Unknown(text)
                }
            },
            Failure::Client(reason) => Error::ClientError(reason),
            Failure::Decode(reason) => Error::ClientDecodeError(reason),
        }
    }

    /// The kind of this error.
    pub fn kind(&self) -> (r: ErrorKind)
        ensures
            r == self@.0,
    {
        match self {
            Error::BadRequest(_) => ErrorKind::BadRequest,
            Error::Unauthorized(_) => ErrorKind::Unauthorized,
            Error::Forbidden(_) => ErrorKind::Forbidden,
            Error::NotFound(_) => ErrorKind::NotFound,
            Error::InternalError(_) => ErrorKind::InternalError,
            Error::Unknown(_) => ErrorKind::Unknown,
            Error::ClientError(_) => ErrorKind::ClientError,
            Error::ClientDecodeError(_) => ErrorKind::ClientDecodeError,
        }
    }

    /// The text shown for this error: the message for the named kinds, and the
    /// reason behind a prefix that names the kind for the others.
    pub fn to_string(&self) -> (r: String)
        ensures
            r@ == error_text(self@),
    {
        match self {
            Error::BadRequest(body)
            | Error::Unauthorized(body)
            | Error::Forbidden(body)
            | Error::NotFound(body)
            | Error::InternalError(body) => body.to_string(),
            Error::Unknown(reason) => String::from_str("Unknown: ").concat(reason.as_str()),
            Error::ClientError(reason) => String::from_str("Client: ").concat(reason.as_str()),
            Error::ClientDecodeError(reason) => String::from_str("Client decode error: ").concat(
                reason.as_str(),
            ),
        }
    }
}

} // verus!
