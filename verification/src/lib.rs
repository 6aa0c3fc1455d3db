//! Verified core of an async handle to a push-based socket transport.
//!
//! The platform reports lifecycle changes (open, error, close) only through
//! callbacks. This crate holds the verified logic that bridges those
//! callbacks into awaitable results: the event model, the broadcast hub that
//! fans events out to filtered subscribers, the decision logic of the connect
//! and close handshakes, and the cleanup decisions taken when a pending
//! connect is abandoned. The unverified shell that owns the actual transport
//! and the native callbacks drives these functions with plain values.

pub mod close;
pub mod error;
pub mod event;
pub mod handshake;
pub mod hub;
