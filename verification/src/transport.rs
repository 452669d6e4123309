use crate::error::OramaError;
use vstd::prelude::*;

verus! {

/// The HTTP methods that the service is addressed with.
#[derive(Clone, Copy, Debug, PartialEq, Eq, Structural)]
pub enum Method {
    Get,
    Post,
}

/// One HTTP request, ready for a transport to send. This crate builds
/// requests and reads replies; sending is the caller's part.
#[derive(Debug, PartialEq, Eq)]
pub struct Request {
    pub method: Method,
    pub url: String,
    /// The value of the `Authorization` header.
    pub authorization: String,
    /// The JSON text of the body, sent with `Content-Type: application/json`;
    /// `None` where the request has no body.
    pub body: Option<String>,
}

/// The mathematical value of a `Request`.
pub struct RequestView {
    pub method: Method,
    pub url: Seq<char>,
    pub authorization: Seq<char>,
    pub body: Option<Seq<char>>,
}

impl View for Request {
    type V = RequestView;

    open spec fn view(&self) -> RequestView {
        RequestView {
            method: self.method,
            url: self.url@,
            authorization: self.authorization@,
            body: match self.body {
                Some(text) => Some(text@),
                None => None,
            },
        }
    }
}

/// What a transport hands back for one request.
#[derive(Debug, PartialEq, Eq)]
pub enum Reply {
    /// The service answered.
    Response { status: u16, body: String },
    /// The request could not be sent, or no response arrived.
    Failure { reason: String },
}

/// Whether an HTTP status reports success: 200 to 299.
pub open spec fn is_success(status: u16) -> bool {
    200 <= status <= 299
}

impl Reply {
    /// The body of a successful reply, or the error that the reply stands for.
    pub open spec fn spec_body(self) -> Result<String, OramaError> {
        match self {
            Reply::Response { status, body } => if is_success(status) {
                Ok(body)
            } else {
                Err(OramaError::Http { status, body })
            },
            Reply::Failure { reason } => Err(OramaError::Transport { reason }),
        }
    }

    /// Sorts a reply into success and failure: the body where the status is
    /// 200 to 299, `Http` with the status and body where it is not, and
    /// `Transport` where there was no response.
    pub fn body(self) -> (res: Result<String, OramaError>)
        ensures
            res == self.spec_body(),
    {
        match self {
            Reply::Response { status, body } => if 200 <= status && status <= 299 {
                Ok(body)
            } else {
                Err(OramaError::Http { status, body })
            },
            Reply::Failure { reason } => Err(OramaError::Transport { reason }),
        }
    }
}

/// Whether an outcome is the expected one: the same error, or a request of
/// the expected value.
pub open spec fn request_is(
    res: Result<Request, OramaError>,
    expected: Result<RequestView, OramaError>,
) -> bool {
    match expected {
        Ok(request) => res is Ok && res->Ok_0@ == request,
        Err(error) => res == Err::<Request, OramaError>(error),
    }
}

} // verus!
