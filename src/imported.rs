//! Declarations that let verified code hold values of the HTTP, WebSocket and
//! JSON crates this library classifies errors from.
use actix_http::body::Body;
use actix_http::client::{ConnectError, InvalidUrl, SendRequestError};
use actix_http::error::{ParseError, PayloadError};
use actix_http::http::header::HeaderValue;
use actix_http::http::{Error as HttpError, StatusCode};
use actix_http::ws::ProtocolError;
use actix_http::Response;
use vstd::prelude::*;

verus! {

/// serde_json's decode error, carried through unread.
#[verifier::external_type_specification]
#[verifier::external_body]
pub struct ExJsonError(serde_json::Error);

/// actix-http's error for a failure while reading a body stream.
#[verifier::external_type_specification]
#[verifier::external_body]
pub struct ExPayloadError(PayloadError);

/// actix-http's WebSocket framing error.
#[verifier::external_type_specification]
#[verifier::external_body]
pub struct ExProtocolError(ProtocolError);

/// http's status code, as carried by a rejected upgrade.
#[verifier::external_type_specification]
#[verifier::external_body]
pub struct ExStatusCode(StatusCode);

/// http's header value, as carried by a malformed handshake header.
#[verifier::external_type_specification]
#[verifier::external_body]
pub struct ExHeaderValue(HeaderValue);

/// actix-http's URL validation error.
#[verifier::external_type_specification]
#[verifier::external_body]
pub struct ExInvalidUrl(InvalidUrl);

/// http's error for a malformed request part (header, URI, method).
#[verifier::external_type_specification]
#[verifier::external_body]
pub struct ExHttpError(HttpError);

/// actix-http's connect error, held by a send error.
#[verifier::external_type_specification]
#[verifier::external_body]
pub struct ExConnectError(ConnectError);

/// std's I/O error, held by a send error.
#[verifier::external_type_specification]
#[verifier::external_body]
pub struct ExIoError(std::io::Error);

/// actix-http's HTTP/1 parse error, held by a send error.
#[verifier::external_type_specification]
#[verifier::external_body]
pub struct ExParseError(ParseError);

/// h2's protocol error, held by a send error.
#[verifier::external_type_specification]
#[verifier::external_body]
pub struct ExH2Error(h2::Error);

/// actix-http's error for a failed request send. Verified code sees its
/// variants (`Url`, `Connect`, `Send`, `Response`, `Http`, `H2`, `Timeout`,
/// `TunnelNotSupported`, `Body`); their fields stay opaque.
#[verifier::external_type_specification]
pub struct ExSendRequestError(SendRequestError);

/// actix-http's general error, which a response yields as a future.
#[verifier::external_type_specification]
#[verifier::external_body]
pub struct ExActixError(actix_http::Error);

/// actix-http's response body.
#[verifier::external_type_specification]
#[verifier::external_body]
pub struct ExBody(Body);

/// actix-http's response.
#[verifier::external_type_specification]
#[verifier::external_body]
#[verifier::reject_recursive_types(B)]
pub struct ExResponse<B>(Response<B>);

} // verus!
