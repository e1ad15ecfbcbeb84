//! Status-only HTTP responses, as a JSON payload error answers with.
use actix_http::body::Body;
use actix_http::http::StatusCode;
use actix_http::Response;
use vstd::prelude::*;

verus! {

/// An actix-http response built from a status code alone, together with that
/// code.
pub struct StatusResponse {
    response: Response<Body>,
    code: Ghost<u16>,
}

impl StatusResponse {
    /// The status code the response was built with.
    pub closed spec fn status(&self) -> u16 {
        self.code@
    }

    /// The response itself, to be sent.
    pub fn into_response(self) -> Response<Body> {
        self.response
    }
}

/// Relies on actix-http's `Response::new`, given the status that http's
/// `StatusCode::from_u16` makes of `code` (it accepts exactly 100 to 999):
/// the response carries that status and an empty body.
#[verifier::external_body]
pub(crate) fn status_only_response(code: u16) -> (r: StatusResponse)
    requires
        100 <= code && code < 1000,
    ensures
        r.status() == code,
{
    StatusResponse { response: Response::new(StatusCode::from_u16(code).unwrap()), code: Ghost(code) }
}

} // verus!
