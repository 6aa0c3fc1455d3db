//! Error taxonomy of the connect and close handshakes, and of the hub.

use vstd::prelude::*;
use crate::event::CloseEvent;

verus! {

/// Every failure the connect and close handshakes can report.
#[allow(inconsistent_fields)]
#[derive(Debug, PartialEq, Eq)]
pub enum WsError {
    /// The transport rejected the URL's syntax at creation.
    InvalidUrl { supplied: String },
    /// The handshake completed with an immediate close instead of an open;
    /// carries the close metadata the transport reported.
    ConnectionFailed { event: CloseEvent },
    /// An opaque platform error code raised during transport creation.
    Dom(u16),
    /// An unstructured platform error raised during transport creation.
    Other(String),
    /// A close was requested on a connection that is already closed.
    ConnectionNotOpen,
    /// The transport rejected the numeric close code.
    InvalidCloseCode { supplied: u16 },
    /// The close reason exceeds the transport's limit of 123 bytes; checked
    /// before any transport contact.
    ReasonStringTooLong,
}

/// Failure of registering with a hub that was explicitly shut down. The
/// handshakes never shut the hub they use, so they treat this as a logic
/// error rather than a recoverable result.
#[derive(Clone, Copy, PartialEq, Eq, Structural, Debug)]
pub enum HubError {
    HubClosed,
}

} // verus!
