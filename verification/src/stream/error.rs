//! The error taxonomy of the streaming subsystem. Every failure a feed
//! session can end with is one of these four.

use vstd::prelude::*;

verus! {

/// Why a stream operation failed.
#[derive(Debug, Clone)]
pub enum StreamError {
    /// A socket-level failure, with the transport's message.
    WebSocket(String),
    /// A frame that was not the JSON the feed promises; carries the raw
    /// text for diagnostics.
    Json(String),
    /// The handshake's affirmative-reply check failed; carries the raw
    /// server reply.
    AuthFailed(String),
    /// The server closed the connection cleanly.
    ConnectionClosed,
}

} // verus!
