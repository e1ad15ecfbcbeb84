use actix_http::body::{Body, ResponseBody};
use actix_http::http::header::HeaderValue;
use actix_http::http::StatusCode;
use actix_http::Response;
use awc::error::{
    HttpError, InvalidUrl, JsonPayloadError, PayloadError, SendRequestError, WsClientError,
    WsProtocolError,
};

fn decode_failure() -> serde_json::Error {
    serde_json::from_str::<serde_json::Map<String, serde_json::Value>>("not json").unwrap_err()
}

fn header_failure() -> HttpError {
    HttpError::from(HeaderValue::from_str("bad\nvalue").unwrap_err())
}

fn has_empty_body(resp: &Response) -> bool {
    matches!(resp.body(), ResponseBody::Body(Body::Empty))
}

#[test]
fn test_json_payload_error() {
    let resp: Response = JsonPayloadError::Overflow.error_response().into_response();
    assert_eq!(resp.status(), StatusCode::PAYLOAD_TOO_LARGE);
    let resp: Response = JsonPayloadError::ContentType.error_response().into_response();
    assert_eq!(resp.status(), StatusCode::BAD_REQUEST);
}

#[test]
fn status_code_of_each_json_variant() {
    assert_eq!(JsonPayloadError::Overflow.status_code(), 413);
    assert_eq!(JsonPayloadError::ContentType.status_code(), 400);
    assert_eq!(JsonPayloadError::from(decode_failure()).status_code(), 400);
    assert_eq!(JsonPayloadError::from(PayloadError::Overflow).status_code(), 400);
}

#[test]
fn error_response_of_each_json_variant() {
    let cases = vec![
        (JsonPayloadError::Overflow, StatusCode::PAYLOAD_TOO_LARGE),
        (JsonPayloadError::ContentType, StatusCode::BAD_REQUEST),
        (JsonPayloadError::from(decode_failure()), StatusCode::BAD_REQUEST),
        (JsonPayloadError::from(PayloadError::UnknownLength), StatusCode::BAD_REQUEST),
    ];
    for (err, status) in cases {
        let resp = err.error_response().into_response();
        assert_eq!(resp.status(), status);
        assert!(has_empty_body(&resp));
        let code = resp.status().as_u16();
        assert!(code == 400 || code == 413);
    }
}

#[test]
fn decode_of_not_json_answers_bad_request() {
    let err = JsonPayloadError::from(decode_failure());
    assert!(matches!(err, JsonPayloadError::Deserialize(_)));
    assert_eq!(err.error_response().into_response().status(), StatusCode::BAD_REQUEST);
}

#[test]
fn oversized_body_answers_payload_too_large_with_empty_body() {
    let err = JsonPayloadError::Overflow;
    let resp = err.error_response().into_response();
    assert_eq!(resp.status().as_u16(), 413);
    assert!(has_empty_body(&resp));
}

#[test]
fn content_type_answers_bad_request() {
    let resp = JsonPayloadError::ContentType.error_response().into_response();
    assert_eq!(resp.status().as_u16(), 400);
    assert!(has_empty_body(&resp));
}

#[test]
fn rejected_upgrade_status_renders_fixed_text() {
    let err = WsClientError::from(StatusCode::NOT_FOUND);
    match &err {
        WsClientError::InvalidResponseStatus(status) => assert_eq!(status.as_u16(), 404),
        other => panic!("unexpected variant {:?}", other),
    }
    assert_eq!(err.message(), "Invalid response status");
}

#[test]
fn malformed_url_wraps_as_send_request() {
    let err = WsClientError::from(InvalidUrl::MissingScheme);
    assert!(matches!(
        err,
        WsClientError::SendRequest(SendRequestError::Url(InvalidUrl::MissingScheme))
    ));
    assert_eq!(err.message(), "Invalid URL: Missing url scheme");
}

#[test]
fn header_failure_wraps_as_send_request() {
    let err = WsClientError::from(header_failure());
    assert!(matches!(err, WsClientError::SendRequest(SendRequestError::Http(_))));
    assert_eq!(err.message(), "failed to parse header value");
}

#[test]
fn conversions_into_ws_client_error() {
    let value = HeaderValue::from_static("keep-alive");
    let err = WsClientError::from(value.clone());
    assert!(matches!(&err, WsClientError::InvalidConnectionHeader(v) if *v == value));

    let err = WsClientError::from(("expected".to_string(), value.clone()));
    match &err {
        WsClientError::InvalidChallengeResponse(expected, actual) => {
            assert_eq!(expected, "expected");
            assert_eq!(*actual, value);
        }
        other => panic!("unexpected variant {:?}", other),
    }

    let err = WsClientError::from(WsProtocolError::BadOpCode);
    assert!(matches!(err, WsClientError::Protocol(WsProtocolError::BadOpCode)));

    let err = WsClientError::from(SendRequestError::Timeout);
    assert!(matches!(err, WsClientError::SendRequest(SendRequestError::Timeout)));
}

#[test]
fn ws_client_error_messages() {
    let value = HeaderValue::from_static("x");
    let cases = vec![
        (WsClientError::InvalidResponseStatus(StatusCode::OK), "Invalid response status"),
        (WsClientError::InvalidUpgradeHeader, "Invalid upgrade header"),
        (WsClientError::InvalidConnectionHeader(value.clone()), "Invalid connection header"),
        (WsClientError::MissingConnectionHeader, "Missing CONNECTION header"),
        (WsClientError::MissingWebSocketAcceptHeader, "Missing SEC-WEBSOCKET-ACCEPT header"),
        (
            WsClientError::InvalidChallengeResponse("abc".to_string(), value),
            "Invalid challenge response",
        ),
        (
            WsClientError::Protocol(WsProtocolError::InvalidOpcode(9)),
            "Invalid opcode: 9",
        ),
        (
            WsClientError::SendRequest(SendRequestError::Timeout),
            "Timeout while waiting for response",
        ),
    ];
    for (err, text) in cases {
        assert_eq!(err.message(), text);
    }
}

#[test]
fn json_payload_error_messages() {
    assert_eq!(
        JsonPayloadError::Overflow.message(),
        "Json payload size is bigger than allowed"
    );
    assert_eq!(JsonPayloadError::ContentType.message(), "Content type error");
    let cause = decode_failure().to_string();
    assert_eq!(
        JsonPayloadError::from(decode_failure()).message(),
        format!("Json deserialize error: {}", cause)
    );
    assert_eq!(
        JsonPayloadError::from(PayloadError::Overflow).message(),
        "Error that occur during reading payload: A payload reached size limit."
    );
}

#[test]
fn message_with_cause_places_cause_after_prefix() {
    let err = JsonPayloadError::from(PayloadError::EncodingCorrupted);
    assert_eq!(
        err.message_with_cause("boom"),
        "Error that occur during reading payload: boom"
    );
    assert_eq!(
        JsonPayloadError::Overflow.message_with_cause("boom"),
        "Json payload size is bigger than allowed"
    );
    let err = WsClientError::from(WsProtocolError::Overflow);
    assert_eq!(err.message_with_cause("boom"), "boom");
    assert_eq!(
        WsClientError::MissingConnectionHeader.message_with_cause("boom"),
        "Missing CONNECTION header"
    );
}

#[test]
fn rendering_twice_gives_same_text() {
    let err = JsonPayloadError::from(decode_failure());
    assert_eq!(err.message(), err.message());
    let err = WsClientError::from(WsProtocolError::InvalidLength(300));
    assert_eq!(err.message(), err.message());
    let err = WsClientError::MissingWebSocketAcceptHeader;
    assert_eq!(err.message(), err.message());
}

#[test]
fn deserialize_cause_is_the_wrapped_failure() {
    let original = decode_failure();
    let line = original.line();
    let column = original.column();
    let text = original.to_string();
    let err = JsonPayloadError::from(original);
    let cause = err.deserialize_cause().expect("a Deserialize error wraps its cause");
    assert_eq!(cause.line(), line);
    assert_eq!(cause.column(), column);
    assert_eq!(cause.to_string(), text);
    assert!(JsonPayloadError::Overflow.deserialize_cause().is_none());
    assert!(JsonPayloadError::from(PayloadError::Overflow).deserialize_cause().is_none());
}

#[test]
fn url_without_host_wraps_that_url_error() {
    let err = WsClientError::from(InvalidUrl::MissingHost);
    assert!(matches!(
        err,
        WsClientError::SendRequest(SendRequestError::Url(InvalidUrl::MissingHost))
    ));
    assert_eq!(err.message(), "Invalid URL: Missing host name");
}
