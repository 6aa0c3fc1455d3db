//! Lifecycle events of the socket, its discrete state, and filter predicates
//! used by subscribers of the broadcast hub.

use vstd::prelude::*;

verus! {

/// Discrete lifecycle state of the transport. Transitions are monotonic
/// (`Connecting` → `Open` → `Closing` → `Closed`) and `Closed` is terminal;
/// the state is derived from the platform's raw numeric ready-state code.
#[derive(Clone, Copy, PartialEq, Eq, Structural, Debug)]
pub enum WsState {
    Connecting,
    Open,
    Closing,
    Closed,
}

impl WsState {
    /// Meaning of each raw ready-state code; a code outside the documented
    /// range names no state.
    pub open spec fn spec_from_raw(raw: u16) -> Option<WsState> {
        if raw == 0 {
            Some(WsState::Connecting)
        } else if raw == 1 {
            Some(WsState::Open)
        } else if raw == 2 {
            Some(WsState::Closing)
        } else if raw == 3 {
            Some(WsState::Closed)
        } else {
            None
        }
    }

    /// Translate the transport's raw ready-state code. An out-of-range code
    /// yields `None`; callers treat that as a broken platform contract, not
    /// as a recoverable error.
    pub fn from_raw(raw: u16) -> (r: Option<WsState>)
        ensures
            r == Self::spec_from_raw(raw),
    {
        match raw {
            0 => Some(WsState::Connecting),
            1 => Some(WsState::Open),
            2 => Some(WsState::Closing),
            3 => Some(WsState::Closed),
            _ => None,
        }
    }
}

/// Metadata the transport reports exactly once when a connection closes.
#[derive(Debug, PartialEq, Eq)]
pub struct CloseEvent {
    pub code: u16,
    pub reason: String,
    pub was_clean: bool,
}

impl Clone for CloseEvent {
    fn clone(&self) -> (r: Self)
        ensures
            r == *self,
    {
        CloseEvent {
            code: self.code,
            reason: self.reason.clone(),
            was_clean: self.was_clean,
        }
    }
}

/// A lifecycle event, as forwarded from the native callbacks into the hub.
#[derive(Debug, PartialEq, Eq)]
pub enum WsEvent {
    /// The connect handshake succeeded.
    Open,
    /// A transport-level error signal; the platform attaches no payload.
    Error,
    /// A close request was accepted and closure is in progress.
    Closing,
    /// Closure completed, with the reported metadata.
    Closed(CloseEvent),
}

impl Clone for WsEvent {
    fn clone(&self) -> (r: Self)
        ensures
            r == *self,
    {
        match self {
            WsEvent::Open => WsEvent::Open,
            WsEvent::Error => WsEvent::Error,
            WsEvent::Closing => WsEvent::Closing,
            WsEvent::Closed(info) => WsEvent::Closed(info.clone()),
        }
    }
}

impl WsEvent {
    pub fn is_open(&self) -> (r: bool)
        ensures
            r == (self is Open),
    {
        match self {
            WsEvent::Open => true,
            _ => false,
        }
    }

    pub fn is_closed(&self) -> (r: bool)
        ensures
            r == (self is Closed),
    {
        match self {
            WsEvent::Closed(_) => true,
            _ => false,
        }
    }
}

/// A predicate over [`WsEvent`], used to register filtered interest with the
/// hub: one flag per variant.
#[derive(Clone, Copy, PartialEq, Eq, Structural, Debug)]
pub struct EventFilter {
    pub accept_open: bool,
    pub accept_error: bool,
    pub accept_closing: bool,
    pub accept_closed: bool,
}

impl EventFilter {
    /// Whether the filter accepts the given event.
    pub open spec fn spec_accepts(self, e: WsEvent) -> bool {
        match e {
            WsEvent::Open => self.accept_open,
            WsEvent::Error => self.accept_error,
            WsEvent::Closing => self.accept_closing,
            WsEvent::Closed(_) => self.accept_closed,
        }
    }

    pub fn accepts(&self, e: &WsEvent) -> (r: bool)
        ensures
            r == self.spec_accepts(*e),
    {
        match e {
            WsEvent::Open => self.accept_open,
            WsEvent::Error => self.accept_error,
            WsEvent::Closing => self.accept_closing,
            WsEvent::Closed(_) => self.accept_closed,
        }
    }

    /// Accepts every event.
    pub fn any() -> (f: EventFilter)
        ensures
            f == (EventFilter {
                accept_open: true,
                accept_error: true,
                accept_closing: true,
                accept_closed: true,
            }),
    {
        EventFilter {
            accept_open: true,
            accept_error: true,
            accept_closing: true,
            accept_closed: true,
        }
    }

    /// The connect handshake's filter: its first matching event decides the
    /// handshake, so it listens for `Open` and `Closed` only.
    pub fn open_or_closed() -> (f: EventFilter)
        ensures
            f == (EventFilter {
                accept_open: true,
                accept_error: false,
                accept_closing: false,
                accept_closed: true,
            }),
    {
        EventFilter {
            accept_open: true,
            accept_error: false,
            accept_closing: false,
            accept_closed: true,
        }
    }

    /// The close handshake's filter: only the terminal `Closed` event.
    pub fn closed_only() -> (f: EventFilter)
        ensures
            f == (EventFilter {
                accept_open: false,
                accept_error: false,
                accept_closing: false,
                accept_closed: true,
            }),
    {
        EventFilter {
            accept_open: false,
            accept_error: false,
            accept_closing: false,
            accept_closed: true,
        }
    }
}

} // verus!
