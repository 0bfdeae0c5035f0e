//! Error kinds for client operations, with classification predicates.

use vstd::prelude::*;
use crate::json::JsonValue;

verus! {

/// Errors that can occur when using the client.
#[derive(Debug)]
pub enum SensoctoError {
    /// Connection to the server failed.
    ConnectionFailed(String),
    /// Low-level socket fault, described in text.
    WebSocketError(String),
    /// Channel join failed; `reason` carries the server's response body.
    ChannelJoinFailed { topic: String, reason: JsonValue },
    /// Channel not joined.
    ChannelNotJoined(String),
    /// Authentication failed.
    AuthenticationFailed(String),
    /// Server replied with a non-ok status; the response body is carried.
    ServerError(JsonValue),
    /// Request timed out after the given number of milliseconds.
    Timeout(u64),
    /// Invalid configuration.
    InvalidConfig(String),
    /// Payload encoding or decoding failed.
    JsonError(String),
    /// URL parsing failed.
    UrlError(String),
    /// The outbound write queue rejected a frame.
    ChannelSendError(String),
    /// The client is disconnected.
    Disconnected,
    /// Invalid attribute ID format.
    InvalidAttributeId(String),
    /// Generic error.
    Other(String),
}

impl SensoctoError {
    /// Whether this error indicates a connection problem.
    pub fn is_connection_error(&self) -> (r: bool)
        ensures
            r == (*self matches SensoctoError::ConnectionFailed(_) || *self
                matches SensoctoError::WebSocketError(_) || *self
                matches SensoctoError::Disconnected),
    {
        match self {
            SensoctoError::ConnectionFailed(_) => true,
            SensoctoError::WebSocketError(_) => true,
            SensoctoError::Disconnected => true,
            _ => false,
        }
    }

    /// Whether this error indicates an authentication problem.
    pub fn is_auth_error(&self) -> (r: bool)
        ensures
            r == (*self matches SensoctoError::AuthenticationFailed(_)),
    {
        match self {
            SensoctoError::AuthenticationFailed(_) => true,
            _ => false,
        }
    }

    /// Whether this error is recoverable by retrying.
    pub fn is_recoverable(&self) -> (r: bool)
        ensures
            r == (*self matches SensoctoError::Timeout(_) || *self
                matches SensoctoError::ConnectionFailed(_) || *self
                matches SensoctoError::WebSocketError(_)),
    {
        match self {
            SensoctoError::Timeout(_) => true,
            SensoctoError::ConnectionFailed(_) => true,
            SensoctoError::WebSocketError(_) => true,
            _ => false,
        }
    }
}

} // verus!
