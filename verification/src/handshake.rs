//! Decision logic of the connect handshake: translating transport-creation
//! failures, resolving the first Open-or-Closed event, and the cleanup owed
//! when a pending connect is abandoned.

use vstd::prelude::*;
use crate::error::WsError;
use crate::event::{CloseEvent, WsEvent, WsState};

verus! {

/// The platform error code that signals a rejected URL syntax.
pub const SYNTAX_ERR: u16 = 12;

/// Translate a transport-creation failure, reported as the platform's
/// numeric error code plus its optional message text, into this library's
/// error: a syntax code rejects the supplied URL, code zero surfaces the
/// message unstructured, and any other code is surfaced as-is.
pub fn creation_failure(code: u16, message: Option<String>, supplied: String) -> (r: WsError)
    ensures
        code == SYNTAX_ERR ==> r == (WsError::InvalidUrl { supplied }),
        code == 0 ==> match message {
            Some(m) => r == WsError::Other(m),
            None => r matches WsError::Other(m) && m@ == "None"@,
        },
        code != 0 && code != SYNTAX_ERR ==> r == WsError::Dom(code),
{
    if code == SYNTAX_ERR {
        WsError::InvalidUrl { supplied }
    } else if code == 0 {
        match message {
            Some(m) => WsError::Other(m),
            None => WsError::Other("None".to_owned()),
        }
    } else {
        WsError::Dom(code)
    }
}

/// How the handshake resolves once its first Open-or-Closed event arrives:
/// a close ends it with `ConnectionFailed` carrying exactly the reported
/// metadata; anything else lets it proceed.
pub open spec fn spec_handshake_outcome(e: WsEvent) -> Result<(), WsError> {
    match e {
        WsEvent::Closed(info) => Err(WsError::ConnectionFailed { event: info }),
        _ => Ok(()),
    }
}

/// Resolve the connect handshake from the first event its subscription
/// yielded.
pub fn handshake_outcome(e: WsEvent) -> (r: Result<(), WsError>)
    ensures
        r == spec_handshake_outcome(e),
{
    match e {
        WsEvent::Closed(info) => Err(WsError::ConnectionFailed { event: info }),
        _ => Ok(()),
    }
}

/// A handshake whose first event is a close resolves to `ConnectionFailed`
/// carrying exactly the reported close metadata, and never to success.
pub proof fn lemma_failed_handshake(info: CloseEvent)
    ensures
        spec_handshake_outcome(WsEvent::Closed(info)) == Err::<(), WsError>(
            WsError::ConnectionFailed { event: info },
        ),
        !(spec_handshake_outcome(WsEvent::Closed(info)) is Ok),
{
}

/// What an abandoned connect owes the transport: the callback registrations
/// are always cleared, and a close request is issued exactly when the
/// transport reports `Open`.
pub struct AbandonCleanup {
    pub clear_callbacks: bool,
    pub issue_close: bool,
}

/// Scoped responsibility for the window between callback registration and
/// the hand-off of the transport: armed while the connect handshake is in
/// flight, disarmed exactly once when the hand-off happens. A disarmed
/// guard owes no cleanup.
pub struct CancelGuard {
    pub armed: bool,
}

impl CancelGuard {
    pub fn arm() -> (g: CancelGuard)
        ensures
            g.armed,
    {
        CancelGuard { armed: true }
    }

    /// Transfer the cleanup responsibility away; idempotent.
    pub fn disarm(&mut self)
        ensures
            !final(self).armed,
    {
        self.armed = false;
    }

    /// The cleanup owed when the connect future is dropped: nothing when the
    /// guard was disarmed, and otherwise clear the callbacks and close the
    /// transport exactly when its raw ready-state reports `Open`.
    pub fn on_drop(&self, raw_state: u16) -> (c: AbandonCleanup)
        ensures
            c.clear_callbacks == self.armed,
            c.issue_close == (self.armed && WsState::spec_from_raw(raw_state) == Some(
                WsState::Open,
            )),
    {
        let issue = match WsState::from_raw(raw_state) {
            Some(WsState::Open) => true,
            _ => false,
        };
        AbandonCleanup { clear_callbacks: self.armed, issue_close: self.armed && issue }
    }
}

} // verus!
