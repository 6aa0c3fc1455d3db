use ws_handle::error::HubError;
use ws_handle::event::{CloseEvent, EventFilter, WsEvent};
use ws_handle::hub::ObserverHub;

fn closed(code: u16, reason: &str, was_clean: bool) -> WsEvent {
    WsEvent::Closed(CloseEvent { code, reason: String::from(reason), was_clean })
}

#[test]
fn events_fan_out_to_every_matching_subscriber() {
    let mut hub = ObserverHub::new();
    let a = hub.observe(EventFilter::any()).unwrap();
    let b = hub.observe(EventFilter::open_or_closed()).unwrap();
    let c = hub.observe(EventFilter::closed_only()).unwrap();

    hub.notify(WsEvent::Open);

    assert_eq!(hub.next_event(a), Some(WsEvent::Open));
    assert_eq!(hub.next_event(b), Some(WsEvent::Open));
    assert_eq!(hub.next_event(c), None);
}

#[test]
fn delivery_keeps_firing_order() {
    let mut hub = ObserverHub::new();
    let a = hub.observe(EventFilter::any()).unwrap();

    hub.notify(WsEvent::Open);
    hub.notify(WsEvent::Error);
    hub.notify(WsEvent::Closing);
    hub.notify(closed(1000, "done", true));

    assert_eq!(hub.next_event(a), Some(WsEvent::Open));
    assert_eq!(hub.next_event(a), Some(WsEvent::Error));
    assert_eq!(hub.next_event(a), Some(WsEvent::Closing));
    assert_eq!(hub.next_event(a), Some(closed(1000, "done", true)));
    assert_eq!(hub.next_event(a), None);
}

#[test]
fn filtered_subscriber_sees_only_its_subsequence() {
    let mut hub = ObserverHub::new();
    let a = hub.observe(EventFilter::open_or_closed()).unwrap();

    hub.notify(WsEvent::Error);
    hub.notify(WsEvent::Open);
    hub.notify(WsEvent::Closing);
    hub.notify(closed(1001, "away", true));

    assert_eq!(hub.next_event(a), Some(WsEvent::Open));
    assert_eq!(hub.next_event(a), Some(closed(1001, "away", true)));
    assert_eq!(hub.next_event(a), None);
}

#[test]
fn concurrent_close_waiters_receive_the_same_close_event() {
    let mut hub = ObserverHub::new();
    let first = hub.observe(EventFilter::closed_only()).unwrap();
    let second = hub.observe(EventFilter::closed_only()).unwrap();

    hub.notify(closed(1000, "normal", true));

    let got_first = hub.next_event(first);
    let got_second = hub.next_event(second);
    assert_eq!(got_first, Some(closed(1000, "normal", true)));
    assert_eq!(got_first, got_second);
}

#[test]
fn late_subscriber_still_receives_terminal_close_exactly_once() {
    let mut hub = ObserverHub::new();
    hub.notify(closed(1006, "abnormal", false));

    let late = hub.observe(EventFilter::closed_only()).unwrap();
    assert_eq!(hub.next_event(late), Some(closed(1006, "abnormal", false)));
    assert_eq!(hub.next_event(late), None);
}

#[test]
fn only_the_first_close_is_retained_as_terminal() {
    let mut hub = ObserverHub::new();
    hub.notify(closed(1000, "first", true));
    hub.notify(closed(1006, "second", false));

    let late = hub.observe(EventFilter::closed_only()).unwrap();
    assert_eq!(hub.next_event(late), Some(closed(1000, "first", true)));
    assert_eq!(hub.next_event(late), None);
}

#[test]
fn late_subscriber_not_interested_in_close_gets_nothing() {
    let mut hub = ObserverHub::new();
    hub.notify(closed(1000, "done", true));

    let late = hub.observe(EventFilter {
        accept_open: true,
        accept_error: true,
        accept_closing: true,
        accept_closed: false,
    })
    .unwrap();
    assert_eq!(hub.next_event(late), None);
}

#[test]
fn unsubscribed_consumer_receives_nothing_more() {
    let mut hub = ObserverHub::new();
    let a = hub.observe(EventFilter::any()).unwrap();
    let b = hub.observe(EventFilter::any()).unwrap();

    hub.notify(WsEvent::Open);
    hub.unsubscribe(a);
    hub.notify(WsEvent::Error);

    assert_eq!(hub.next_event(a), None);
    assert_eq!(hub.next_event(b), Some(WsEvent::Open));
    assert_eq!(hub.next_event(b), Some(WsEvent::Error));
}

#[test]
fn observing_a_shut_hub_fails() {
    let mut hub = ObserverHub::new();
    let a = hub.observe(EventFilter::any()).unwrap();
    hub.shut_down();
    assert_eq!(hub.observe(EventFilter::any()), Err(HubError::HubClosed));
    // existing subscribers keep their pending events
    assert_eq!(hub.next_event(a), None);
}

#[test]
fn unknown_subscription_id_yields_nothing() {
    let mut hub = ObserverHub::new();
    assert_eq!(hub.next_event(0), None);
    assert_eq!(hub.next_event(17), None);
}
