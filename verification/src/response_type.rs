//! The HTTP envelope types: a success body with its status, an error message
//! with its status, and the response alias the route handlers share.

use vstd::prelude::*;
use vstd::string::*;
use crate::text::{concat3, dec_int, u64_to_string};

verus! {

/// An HTTP status code.
#[derive(Debug, Clone, Copy, PartialEq, Eq, Structural)]
pub struct HttpStatus {
    pub code: u16,
}

impl HttpStatus {
    /// The success status every handled request answers with.
    pub fn status_ok() -> (s: Self)
        ensures
            s.code == 200,
    {
        HttpStatus { code: 200 }
    }

    /// The failure status every business failure answers with.
    pub fn bad_request() -> (s: Self)
        ensures
            s.code == 400,
    {
        HttpStatus { code: 400 }
    }

    /// The status of a failure the service itself answers for.
    pub fn internal_server_error() -> (s: Self)
        ensures
            s.code == 500,
    {
        HttpStatus { code: 500 }
    }
}

/// The success envelope: a status and a body.
#[derive(Debug)]
pub struct SuccessResponse<T>(pub (HttpStatus, T));

/// The error envelope: a status and a message body.
#[derive(Debug)]
pub struct ErrorResponse(pub (HttpStatus, String));

/// What a route handler answers: a success envelope or an error envelope.
pub type Response<T> = Result<SuccessResponse<T>, ErrorResponse>;

/// The rendering of an error envelope.
pub open spec fn error_response_text(status: int, message: Seq<char>) -> Seq<char> {
    "ErrorResponse: status = "@ + dec_int(status) + ", message = "@ + message
}

impl ErrorResponse {
    /// Renders the envelope as text, for logs and diagnostics.
    pub fn describe(&self) -> (r: String)
        ensures
            r@ == error_response_text(self.0.0.code as int, self.0.1@),
    {
        let digits = u64_to_string(self.0.0.code as u64);
        let mut s = concat3("ErrorResponse: status = ", digits.as_str(), ", message = ");
        s.append(self.0.1.as_str());
        s
    }
}

} // verus!
