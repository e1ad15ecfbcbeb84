//! Error types of an HTTP and WebSocket client: how failures of the transport,
//! the handshake and JSON decoding are classified, rendered, and turned into
//! status-only HTTP responses.
pub mod error;
mod imported;
pub mod response;
