//! Decision logic of the close handshake: the pre-transport checks, the
//! broadcast after the transport's verdict, and the extraction of the close
//! metadata from the awaited terminal event.

use vstd::prelude::*;
use crate::error::WsError;
use crate::event::{CloseEvent, WsEvent, WsState};
use crate::hub::ObserverHub;

verus! {

/// The transport's limit on the byte length of a close reason.
pub const MAX_REASON_BYTES: usize = 123;

/// What the close handshake does before any transport contact.
#[derive(Debug, PartialEq, Eq)]
pub enum CloseStep {
    /// No transport contact at all; fail with this error.
    Fail(WsError),
    /// A close is already in flight: issue nothing, only await the terminal
    /// `Closed` event.
    AwaitClosed,
    /// Ask the transport to close, then broadcast `Closing` and await the
    /// terminal `Closed` event.
    IssueRequest,
}

/// The pre-transport decision of the close handshake, from the connection's
/// current state and the byte length of the optional close reason: a closed
/// connection is rejected outright, a closing one is not asked again, an
/// over-long reason is rejected before any round trip, and otherwise the
/// close request is issued.
pub open spec fn spec_close_step(state: WsState, reason_len: Option<usize>) -> CloseStep {
    if state is Closed {
        CloseStep::Fail(WsError::ConnectionNotOpen)
    } else if state is Closing {
        CloseStep::AwaitClosed
    } else {
        match reason_len {
            Some(n) => if n > MAX_REASON_BYTES {
                CloseStep::Fail(WsError::ReasonStringTooLong)
            } else {
                CloseStep::IssueRequest
            },
            None => CloseStep::IssueRequest,
        }
    }
}

/// Decide the close handshake's first step; `reason_len` is the byte length
/// of the close reason, or `None` when closing with a bare code.
pub fn close_step(state: WsState, reason_len: Option<usize>) -> (s: CloseStep)
    ensures
        s == spec_close_step(state, reason_len),
{
    match state {
        WsState::Closed => CloseStep::Fail(WsError::ConnectionNotOpen),
        WsState::Closing => CloseStep::AwaitClosed,
        _ => match reason_len {
            Some(n) => if n > MAX_REASON_BYTES {
                CloseStep::Fail(WsError::ReasonStringTooLong)
            } else {
                CloseStep::IssueRequest
            },
            None => CloseStep::IssueRequest,
        },
    }
}

/// Decide the first step of a close that carries a reason string; the
/// reason's byte length is what the transport limits.
pub fn close_reason_step(state: WsState, reason: &str) -> (s: CloseStep)
    ensures
        s == spec_close_step(state, Some(reason.len())),
{
    close_step(state, Some(reason.len()))
}

/// Act on the transport's verdict on an issued close request: acceptance
/// broadcasts `Closing` on the hub so every observer sees the transition; a
/// rejected close code fails without broadcasting anything.
pub fn close_request_result(hub: &mut ObserverHub, accepted: bool, code: u16) -> (r: Result<
    (),
    WsError,
>)
    ensures
        accepted ==> r is Ok && final(hub)@ == old(hub)@.notified(WsEvent::Closing),
        !accepted ==> r == Err::<(), WsError>(WsError::InvalidCloseCode { supplied: code })
            && final(hub)@ == old(hub)@,
        old(hub)@.wf() ==> final(hub)@.wf(),
{
    if accepted {
        hub.notify(WsEvent::Closing);
        Ok(())
    } else {
        Err(WsError::InvalidCloseCode { supplied: code })
    }
}

/// Extract the close metadata from the awaited terminal event.
pub fn finish_close(e: WsEvent) -> (r: CloseEvent)
    requires
        e is Closed,
    ensures
        e == WsEvent::Closed(r),
{
    match e {
        WsEvent::Closed(info) => info,
        _ => vstd::pervasive::unreached(),
    }
}

/// Of two overlapping close calls on an open connection, only the first
/// reaches the transport: a call that finds the close already in flight
/// issues nothing and only awaits, whatever reason it carries.
pub proof fn lemma_second_close_is_silent(reason_len: Option<usize>)
    ensures
        spec_close_step(WsState::Closing, reason_len) == CloseStep::AwaitClosed,
{
}

/// A close requested on an already-closed connection is rejected without
/// any transport contact, whatever reason it carries.
pub proof fn lemma_close_on_closed_rejected(reason_len: Option<usize>)
    ensures
        spec_close_step(WsState::Closed, reason_len) == CloseStep::Fail(WsError::ConnectionNotOpen),
{
}

} // verus!
