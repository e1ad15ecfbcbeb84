//! Http client errors
pub use actix_http::client::{ConnectError, FreezeRequestError, InvalidUrl, SendRequestError};
pub use actix_http::error::PayloadError;
pub use actix_http::http::Error as HttpError;
pub use actix_http::ws::HandshakeError as WsHandshakeError;
pub use actix_http::ws::ProtocolError as WsProtocolError;

use crate::response::{status_only_response, StatusResponse};
use actix_http::http::{header::HeaderValue, StatusCode};
use serde_json::error::Error as JsonError;
use vstd::prelude::*;
use vstd::std_specs::convert::{FromSpec, FromSpecImpl};
use vstd::string::to_string_from_display_ensures;

verus! {

/// Websocket client error
#[derive(Debug)]
pub enum WsClientError {
    /// Invalid response status
    InvalidResponseStatus(StatusCode),
    /// Invalid upgrade header
    InvalidUpgradeHeader,
    /// Invalid connection header
    InvalidConnectionHeader(HeaderValue),
    /// Missing CONNECTION header
    MissingConnectionHeader,
    /// Missing SEC-WEBSOCKET-ACCEPT header
    MissingWebSocketAcceptHeader,
    /// Invalid challenge response
    InvalidChallengeResponse(String, HeaderValue),
    /// Protocol error
    Protocol(WsProtocolError),
    /// Send request error
    SendRequest(SendRequestError),
}

impl WsClientError {
    /// The message of this error, given the rendering `cause` of the wrapped
    /// cause (ignored by the variants that wrap none). The data carried by a
    /// status or header variant is not part of its message.
    pub open spec fn message_spec(&self, cause: Seq<char>) -> Seq<char> {
        match self {
            WsClientError::InvalidResponseStatus(_) => "Invalid response status"@,
            WsClientError::InvalidUpgradeHeader => "Invalid upgrade header"@,
            WsClientError::InvalidConnectionHeader(_) => "Invalid connection header"@,
            WsClientError::MissingConnectionHeader => "Missing CONNECTION header"@,
            WsClientError::MissingWebSocketAcceptHeader => "Missing SEC-WEBSOCKET-ACCEPT header"@,
            WsClientError::InvalidChallengeResponse(_, _) => "Invalid challenge response"@,
            WsClientError::Protocol(_) => cause,
            WsClientError::SendRequest(_) => cause,
        }
    }

    /// `text` is a rendering of this error: the message built around some
    /// rendering of the wrapped cause, where there is one.
    pub open spec fn renders_as(&self, text: Seq<char>) -> bool {
        match self {
            WsClientError::Protocol(e) => exists|s: String|
                #[trigger] to_string_from_display_ensures::<WsProtocolError>(e, s) && text
                    == self.message_spec(s@),
            WsClientError::SendRequest(e) => exists|s: String|
                #[trigger] to_string_from_display_ensures::<SendRequestError>(e, s) && text
                    == self.message_spec(s@),
            _ => text == self.message_spec(Seq::empty()),
        }
    }

    /// Every rendering of the wrapped cause, if there is one, is the same text.
    pub open spec fn cause_renders_uniquely(&self) -> bool {
        match self {
            WsClientError::Protocol(e) => forall|s1: String, s2: String|
                #[trigger] to_string_from_display_ensures::<WsProtocolError>(e, s1)
                    && #[trigger] to_string_from_display_ensures::<WsProtocolError>(e, s2)
                    ==> s1@ == s2@,
            WsClientError::SendRequest(e) => forall|s1: String, s2: String|
                #[trigger] to_string_from_display_ensures::<SendRequestError>(e, s1)
                    && #[trigger] to_string_from_display_ensures::<SendRequestError>(e, s2)
                    ==> s1@ == s2@,
            _ => true,
        }
    }

    /// The message of this error around `cause`, the rendering of its wrapped
    /// cause.
    pub fn message_with_cause(&self, cause: &str) -> (r: String)
        ensures
            r@ == self.message_spec(cause@),
    {
        match self {
            WsClientError::InvalidResponseStatus(_) => String::from_str("Invalid response status"),
            WsClientError::InvalidUpgradeHeader => String::from_str("Invalid upgrade header"),
            WsClientError::InvalidConnectionHeader(_) => String::from_str(
                "Invalid connection header",
            ),
            WsClientError::MissingConnectionHeader => String::from_str("Missing CONNECTION header"),
            WsClientError::MissingWebSocketAcceptHeader => String::from_str(
                "Missing SEC-WEBSOCKET-ACCEPT header",
            ),
            WsClientError::InvalidChallengeResponse(_, _) => String::from_str(
                "Invalid challenge response",
            ),
            WsClientError::Protocol(_) => String::from_str(cause),
            WsClientError::SendRequest(_) => String::from_str(cause),
        }
    }

    /// The human-readable message of this error.
    pub fn message(&self) -> (r: String)
        ensures
            self.renders_as(r@),
    {
        match self {
            WsClientError::Protocol(e) => {
                let s = e.to_string();
                self.message_with_cause(s.as_str())
            },
            WsClientError::SendRequest(e) => {
                let s = e.to_string();
                self.message_with_cause(s.as_str())
            },
            _ => self.message_with_cause(""),
        }
    }
}

impl From<InvalidUrl> for WsClientError {
    /// A URL that fails validation is a failure to send the upgrade request,
    /// wrapped as the send error's `Url` variant.
    fn from(err: InvalidUrl) -> (r: WsClientError) {
        WsClientError::SendRequest(SendRequestError::Url(err))
    }
}

impl FromSpecImpl<InvalidUrl> for WsClientError {
    open spec fn obeys_from_spec() -> bool {
        true
    }

    open spec fn from_spec(err: InvalidUrl) -> WsClientError {
        WsClientError::SendRequest(SendRequestError::Url(err))
    }
}

impl From<HttpError> for WsClientError {
    /// A header that cannot be formatted is a failure to send the upgrade
    /// request, wrapped as the send error's `Http` variant.
    fn from(err: HttpError) -> (r: WsClientError) {
        WsClientError::SendRequest(SendRequestError::Http(err))
    }
}

impl FromSpecImpl<HttpError> for WsClientError {
    open spec fn obeys_from_spec() -> bool {
        true
    }

    open spec fn from_spec(err: HttpError) -> WsClientError {
        WsClientError::SendRequest(SendRequestError::Http(err))
    }
}

impl From<StatusCode> for WsClientError {
    fn from(status: StatusCode) -> (r: WsClientError) {
        WsClientError::InvalidResponseStatus(status)
    }
}

impl FromSpecImpl<StatusCode> for WsClientError {
    open spec fn obeys_from_spec() -> bool {
        true
    }

    open spec fn from_spec(status: StatusCode) -> WsClientError {
        WsClientError::InvalidResponseStatus(status)
    }
}

impl From<HeaderValue> for WsClientError {
    fn from(value: HeaderValue) -> (r: WsClientError) {
        WsClientError::InvalidConnectionHeader(value)
    }
}

impl FromSpecImpl<HeaderValue> for WsClientError {
    open spec fn obeys_from_spec() -> bool {
        true
    }

    open spec fn from_spec(value: HeaderValue) -> WsClientError {
        WsClientError::InvalidConnectionHeader(value)
    }
}

impl From<WsProtocolError> for WsClientError {
    fn from(err: WsProtocolError) -> (r: WsClientError) {
        WsClientError::Protocol(err)
    }
}

impl FromSpecImpl<WsProtocolError> for WsClientError {
    open spec fn obeys_from_spec() -> bool {
        true
    }

    open spec fn from_spec(err: WsProtocolError) -> WsClientError {
        WsClientError::Protocol(err)
    }
}

impl From<SendRequestError> for WsClientError {
    fn from(err: SendRequestError) -> (r: WsClientError) {
        WsClientError::SendRequest(err)
    }
}

impl FromSpecImpl<SendRequestError> for WsClientError {
    open spec fn obeys_from_spec() -> bool {
        true
    }

    open spec fn from_spec(err: SendRequestError) -> WsClientError {
        WsClientError::SendRequest(err)
    }
}

impl From<(String, HeaderValue)> for WsClientError {
    fn from(pair: (String, HeaderValue)) -> (r: WsClientError) {
        WsClientError::InvalidChallengeResponse(pair.0, pair.1)
    }
}

impl FromSpecImpl<(String, HeaderValue)> for WsClientError {
    open spec fn obeys_from_spec() -> bool {
        true
    }

    open spec fn from_spec(pair: (String, HeaderValue)) -> WsClientError {
        WsClientError::InvalidChallengeResponse(pair.0, pair.1)
    }
}

/// A set of errors that can occur during parsing json payloads
#[derive(Debug)]
pub enum JsonPayloadError {
    /// Payload size is bigger than allowed. (default: 32kB)
    Overflow,
    /// Content type error
    ContentType,
    /// Deserialize error
    Deserialize(JsonError),
    /// Payload error
    Payload(PayloadError),
}

impl JsonPayloadError {
    /// The status of the response this error converts to: Payload Too Large
    /// for an oversized body, Bad Request for everything else.
    pub open spec fn status_spec(&self) -> u16 {
        if self is Overflow {
            413
        } else {
            400
        }
    }

    /// The message of this error, given the rendering `cause` of the wrapped
    /// cause (ignored by the variants that wrap none).
    pub open spec fn message_spec(&self, cause: Seq<char>) -> Seq<char> {
        match self {
            JsonPayloadError::Overflow => "Json payload size is bigger than allowed"@,
            JsonPayloadError::ContentType => "Content type error"@,
            JsonPayloadError::Deserialize(_) => "Json deserialize error: "@ + cause,
            JsonPayloadError::Payload(_) => "Error that occur during reading payload: "@ + cause,
        }
    }

    /// `text` is a rendering of this error: the message built around some
    /// rendering of the wrapped cause, where there is one.
    pub open spec fn renders_as(&self, text: Seq<char>) -> bool {
        match self {
            JsonPayloadError::Deserialize(e) => exists|s: String|
                #[trigger] to_string_from_display_ensures::<JsonError>(e, s) && text
                    == self.message_spec(s@),
            JsonPayloadError::Payload(e) => exists|s: String|
                #[trigger] to_string_from_display_ensures::<PayloadError>(e, s) && text
                    == self.message_spec(s@),
            _ => text == self.message_spec(Seq::empty()),
        }
    }

    /// Every rendering of the wrapped cause, if there is one, is the same text.
    pub open spec fn cause_renders_uniquely(&self) -> bool {
        match self {
            JsonPayloadError::Deserialize(e) => forall|s1: String, s2: String|
                #[trigger] to_string_from_display_ensures::<JsonError>(e, s1)
                    && #[trigger] to_string_from_display_ensures::<JsonError>(e, s2) ==> s1@
                    == s2@,
            JsonPayloadError::Payload(e) => forall|s1: String, s2: String|
                #[trigger] to_string_from_display_ensures::<PayloadError>(e, s1)
                    && #[trigger] to_string_from_display_ensures::<PayloadError>(e, s2) ==> s1@
                    == s2@,
            _ => true,
        }
    }

    /// The decode failure wrapped by a `Deserialize` error.
    pub open spec fn deserialize_cause_spec(&self) -> Option<JsonError> {
        match self {
            JsonPayloadError::Deserialize(e) => Some(*e),
            _ => None,
        }
    }

    /// The HTTP status this error converts to.
    pub fn status_code(&self) -> (r: u16)
        ensures
            r == self.status_spec(),
    {
        match self {
            JsonPayloadError::Overflow => 413,
            _ => 400,
        }
    }

    /// Return `PayloadTooLarge` for an oversized body and `BadRequest` for
    /// every other error, with an empty body.
    pub fn error_response(&self) -> (r: StatusResponse)
        ensures
            r.status() == self.status_spec(),
    {
        status_only_response(self.status_code())
    }

    /// The message of this error around `cause`, the rendering of its wrapped
    /// cause.
    pub fn message_with_cause(&self, cause: &str) -> (r: String)
        ensures
            r@ == self.message_spec(cause@),
    {
        match self {
            JsonPayloadError::Overflow => String::from_str("Json payload size is bigger than allowed"),
            JsonPayloadError::ContentType => String::from_str("Content type error"),
            JsonPayloadError::Deserialize(_) => String::from_str("Json deserialize error: ").concat(cause),
            JsonPayloadError::Payload(_) => String::from_str(
                "Error that occur during reading payload: ",
            ).concat(cause),
        }
    }

    /// The human-readable message of this error.
    pub fn message(&self) -> (r: String)
        ensures
            self.renders_as(r@),
    {
        match self {
            JsonPayloadError::Deserialize(e) => {
                let s = e.to_string();
                self.message_with_cause(s.as_str())
            },
            JsonPayloadError::Payload(e) => {
                let s = e.to_string();
                self.message_with_cause(s.as_str())
            },
            _ => self.message_with_cause(""),
        }
    }

    /// The decode failure wrapped by a `Deserialize` error.
    pub fn deserialize_cause(&self) -> (r: Option<&JsonError>)
        ensures
            r.is_some() == self.deserialize_cause_spec().is_some(),
            r matches Some(c) ==> self.deserialize_cause_spec() == Some(*c),
    {
        match self {
            JsonPayloadError::Deserialize(e) => Some(e),
            _ => None,
        }
    }
}

impl From<JsonError> for JsonPayloadError {
    fn from(e: JsonError) -> (r: JsonPayloadError) {
        JsonPayloadError::Deserialize(e)
    }
}

impl FromSpecImpl<JsonError> for JsonPayloadError {
    open spec fn obeys_from_spec() -> bool {
        true
    }

    open spec fn from_spec(e: JsonError) -> JsonPayloadError {
        JsonPayloadError::Deserialize(e)
    }
}

impl From<PayloadError> for JsonPayloadError {
    fn from(e: PayloadError) -> (r: JsonPayloadError) {
        JsonPayloadError::Payload(e)
    }
}

impl FromSpecImpl<PayloadError> for JsonPayloadError {
    open spec fn obeys_from_spec() -> bool {
        true
    }

    open spec fn from_spec(e: PayloadError) -> JsonPayloadError {
        JsonPayloadError::Payload(e)
    }
}

/// Converting a JSON payload error to a response answers 413 (Payload Too
/// Large) exactly when the error is `Overflow`; every other error answers 400
/// (Bad Request).
pub proof fn lemma_status_too_large_iff_overflow(e: JsonPayloadError)
    ensures
        (e.status_spec() == 413) <==> (e is Overflow),
        !(e is Overflow) ==> e.status_spec() == 400,
{
}

/// Converting a JSON payload error to a response never answers a status other
/// than 400 or 413.
pub proof fn lemma_status_bad_request_or_too_large(e: JsonPayloadError)
    ensures
        e.status_spec() == 400 || e.status_spec() == 413,
{
}

/// Wrapping a URL-validation failure or a header-formatting failure into a
/// WebSocket client error always gives `SendRequest`, around a send error that
/// holds the very failure given.
pub proof fn lemma_wrapping_yields_send_request(u: InvalidUrl, h: HttpError)
    ensures
        <WsClientError as FromSpec<InvalidUrl>>::from_spec(u) == WsClientError::SendRequest(
            SendRequestError::Url(u),
        ),
        <WsClientError as FromSpec<HttpError>>::from_spec(h) == WsClientError::SendRequest(
            SendRequestError::Http(h),
        ),
        <WsClientError as FromSpec<InvalidUrl>>::from_spec(u) is SendRequest,
        <WsClientError as FromSpec<HttpError>>::from_spec(h) is SendRequest,
{
}

/// Rendering a JSON payload error is deterministic: two renderings of the same
/// value are the same text, as long as its wrapped cause, if any, always
/// renders the same way.
pub proof fn lemma_json_rendering_deterministic(
    e: JsonPayloadError,
    t1: Seq<char>,
    t2: Seq<char>,
)
    requires
        e.renders_as(t1),
        e.renders_as(t2),
        e.cause_renders_uniquely(),
    ensures
        t1 == t2,
{
}

/// Rendering a WebSocket client error is deterministic: two renderings of the
/// same value are the same text, as long as its wrapped cause, if any, always
/// renders the same way.
pub proof fn lemma_ws_rendering_deterministic(e: WsClientError, t1: Seq<char>, t2: Seq<char>)
    requires
        e.renders_as(t1),
        e.renders_as(t2),
        e.cause_renders_uniquely(),
    ensures
        t1 == t2,
{
}

/// Wrapping a decode failure into a JSON payload error and extracting the
/// wrapped cause again gives back the very same decode failure.
pub proof fn lemma_deserialize_cause_round_trip(e: JsonError)
    ensures
        <JsonPayloadError as FromSpec<JsonError>>::from_spec(e).deserialize_cause_spec() == Some(
            e,
        ),
{
}

} // verus!
