use ws_handle::event::{CloseEvent, EventFilter, WsEvent, WsState};

#[test]
fn ready_state_translation_covers_documented_codes() {
    assert_eq!(WsState::from_raw(0), Some(WsState::Connecting));
    assert_eq!(WsState::from_raw(1), Some(WsState::Open));
    assert_eq!(WsState::from_raw(2), Some(WsState::Closing));
    assert_eq!(WsState::from_raw(3), Some(WsState::Closed));
}

#[test]
fn ready_state_translation_rejects_out_of_range_codes() {
    assert_eq!(WsState::from_raw(4), None);
    assert_eq!(WsState::from_raw(99), None);
    assert_eq!(WsState::from_raw(u16::MAX), None);
}

#[test]
fn event_predicates() {
    let info = CloseEvent { code: 1000, reason: String::from("bye"), was_clean: true };
    assert!(WsEvent::Open.is_open());
    assert!(!WsEvent::Open.is_closed());
    assert!(WsEvent::Closed(info).is_closed());
    assert!(!WsEvent::Error.is_open());
    assert!(!WsEvent::Closing.is_closed());
}

#[test]
fn open_or_closed_filter_accepts_exactly_open_and_closed() {
    let f = EventFilter::open_or_closed();
    let info = CloseEvent { code: 1006, reason: String::new(), was_clean: false };
    assert!(f.accepts(&WsEvent::Open));
    assert!(f.accepts(&WsEvent::Closed(info)));
    assert!(!f.accepts(&WsEvent::Error));
    assert!(!f.accepts(&WsEvent::Closing));
}

#[test]
fn closed_only_filter_accepts_exactly_closed() {
    let f = EventFilter::closed_only();
    let info = CloseEvent { code: 1000, reason: String::new(), was_clean: true };
    assert!(f.accepts(&WsEvent::Closed(info)));
    assert!(!f.accepts(&WsEvent::Open));
    assert!(!f.accepts(&WsEvent::Error));
    assert!(!f.accepts(&WsEvent::Closing));
}

#[test]
fn any_filter_accepts_everything() {
    let f = EventFilter::any();
    let info = CloseEvent { code: 1001, reason: String::from("away"), was_clean: true };
    assert!(f.accepts(&WsEvent::Open));
    assert!(f.accepts(&WsEvent::Error));
    assert!(f.accepts(&WsEvent::Closing));
    assert!(f.accepts(&WsEvent::Closed(info)));
}

#[test]
fn cloning_keeps_close_metadata() {
    let info = CloseEvent { code: 4000, reason: String::from("app reason"), was_clean: false };
    let copy = info.clone();
    assert_eq!(copy, info);
    let ev = WsEvent::Closed(info);
    assert_eq!(ev.clone(), ev);
}
