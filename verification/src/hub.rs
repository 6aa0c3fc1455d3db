//! The observer hub: a broadcast primitive that fans lifecycle events out to
//! every registered subscriber whose filter accepts them.
//!
//! Each subscriber owns a queue of pending events in delivery order. The hub
//! retains the terminal close event, so that a subscriber interested in close
//! events who registers after the close has already fired still receives it.

use vstd::prelude::*;
use crate::error::HubError;
use crate::event::{CloseEvent, EventFilter, WsEvent};

verus! {

/// One registered consumer: its filter, its pending events in delivery
/// order, and whether it is still active. Cancelled subscribers stay in
/// place, marked dead, so that subscription ids remain stable.
pub struct Subscriber {
    pub filter: EventFilter,
    pub queue: Vec<WsEvent>,
    pub live: bool,
}

/// Mathematical model of a [`Subscriber`].
#[verifier::ext_equal]
pub struct SubModel {
    pub filter: EventFilter,
    pub queue: Seq<WsEvent>,
    pub live: bool,
}

impl View for Subscriber {
    type V = SubModel;

    open spec fn view(&self) -> SubModel {
        SubModel { filter: self.filter, queue: self.queue@, live: self.live }
    }
}

/// Mathematical model of the hub: the subscribers in registration order, the
/// retained terminal close event, and whether the hub was shut down.
#[verifier::ext_equal]
pub struct HubModel {
    pub subs: Seq<SubModel>,
    pub terminal: Option<CloseEvent>,
    pub shut: bool,
}

impl HubModel {
    /// Every queued event was accepted by its subscriber's filter.
    pub open spec fn wf(self) -> bool {
        forall|i: int, k: int|
            0 <= i < self.subs.len() && 0 <= k < self.subs[i].queue.len()
                ==> self.subs[i].filter.spec_accepts(#[trigger] self.subs[i].queue[k])
    }

    /// The queue a fresh subscriber starts with: the retained terminal close
    /// event when the filter accepts close events, and empty otherwise.
    pub open spec fn seed_queue(filter: EventFilter, terminal: Option<CloseEvent>) -> Seq<WsEvent> {
        match terminal {
            Some(info) => if filter.accept_closed {
                seq![WsEvent::Closed(info)]
            } else {
                Seq::empty()
            },
            None => Seq::empty(),
        }
    }

    /// The hub after registering one subscriber with the given filter.
    pub open spec fn observed(self, filter: EventFilter) -> HubModel {
        HubModel {
            subs: self.subs.push(
                SubModel { filter, queue: Self::seed_queue(filter, self.terminal), live: true },
            ),
            ..self
        }
    }

    /// One subscriber after a broadcast: the event is appended exactly when
    /// the subscriber is live and its filter accepts the event.
    pub open spec fn sub_after(s: SubModel, e: WsEvent) -> SubModel {
        if s.live && s.filter.spec_accepts(e) {
            SubModel { queue: s.queue.push(e), ..s }
        } else {
            s
        }
    }

    /// The hub after broadcasting one event to every subscriber. The first
    /// close event is retained as the terminal one.
    pub open spec fn notified(self, e: WsEvent) -> HubModel {
        HubModel {
            subs: Seq::new(self.subs.len(), |i: int| Self::sub_after(self.subs[i], e)),
            terminal: match e {
                WsEvent::Closed(info) => if self.terminal is None {
                    Some(info)
                } else {
                    self.terminal
                },
                _ => self.terminal,
            },
            shut: self.shut,
        }
    }

    /// The hub after one subscriber consumed the head of its queue.
    pub open spec fn consumed(self, id: int) -> HubModel {
        HubModel {
            subs: self.subs.update(
                id,
                SubModel { queue: self.subs[id].queue.drop_first(), ..self.subs[id] },
            ),
            ..self
        }
    }

    /// The hub after a subscriber cancelled: marked dead, queue dropped.
    pub open spec fn unsubscribed(self, id: int) -> HubModel {
        if 0 <= id < self.subs.len() {
            HubModel {
                subs: self.subs.update(
                    id,
                    SubModel { queue: Seq::empty(), live: false, ..self.subs[id] },
                ),
                ..self
            }
        } else {
            self
        }
    }
}

/// The broadcast hub. Producers call [`ObserverHub::notify`]; consumers
/// register with [`ObserverHub::observe`] and drain their queue with
/// [`ObserverHub::next_event`].
pub struct ObserverHub {
    pub subs: Vec<Subscriber>,
    pub terminal: Option<CloseEvent>,
    pub shut: bool,
}

impl View for ObserverHub {
    type V = HubModel;

    open spec fn view(&self) -> HubModel {
        HubModel {
            subs: self.subs@.map_values(|s: Subscriber| s@),
            terminal: self.terminal,
            shut: self.shut,
        }
    }
}

impl ObserverHub {
    pub fn new() -> (h: ObserverHub)
        ensures
            h@.subs.len() == 0,
            h@.terminal is None,
            !h@.shut,
            h@.wf(),
    {
        ObserverHub { subs: Vec::new(), terminal: None, shut: false }
    }

    /// Register a subscriber. Fails exactly when the hub was shut down;
    /// otherwise the returned id names the new subscriber, whose queue is
    /// seeded with the retained terminal close event when the filter accepts
    /// close events.
    pub fn observe(&mut self, filter: EventFilter) -> (r: Result<usize, HubError>)
        ensures
            old(self)@.shut ==> r == Err::<usize, HubError>(HubError::HubClosed) && final(self)@
                == old(self)@,
            !old(self)@.shut ==> r == Ok::<usize, HubError>(old(self).subs.len()) && final(self)@
                == old(self)@.observed(filter),
            old(self)@.wf() ==> final(self)@.wf(),
    {
        if self.shut {
            return Err(HubError::HubClosed);
        }
        let mut queue: Vec<WsEvent> = Vec::new();
        if filter.accept_closed {
            match &self.terminal {
                Some(info) => queue.push(WsEvent::Closed(info.clone())),
                None => (),
            }
        }
        let id = self.subs.len();
        self.subs.push(Subscriber { filter, queue, live: true });
        proof {
            assert(self@.subs =~~= old(self)@.observed(filter).subs);
            assert(self@ =~~= old(self)@.observed(filter));
        }
        Ok(id)
    }

    /// Broadcast one event: it is appended to the queue of every live
    /// subscriber whose filter accepts it, every other subscriber is left
    /// unchanged, and the first close event is retained as the terminal one.
    pub fn notify(&mut self, e: WsEvent)
        ensures
            final(self)@ == old(self)@.notified(e),
            old(self)@.wf() ==> final(self)@.wf(),
    {
        let ghost pre = self@;
        let n = self.subs.len();
        let mut i: usize = 0;
        while i < n
            invariant
                i <= n,
                n == pre.subs.len(),
                self.subs@.len() == n,
                self.terminal == pre.terminal,
                self.shut == pre.shut,
                forall|j: int|
                    0 <= j < n ==> #[trigger] self.subs@[j]@ == if j < i {
                        HubModel::sub_after(pre.subs[j], e)
                    } else {
                        pre.subs[j]
                    },
            decreases n - i,
        {
            let ghost before = self.subs@;
            let mut sub = self.subs.remove(i);
            if sub.live && sub.filter.accepts(&e) {
                sub.queue.push(e.clone());
            }
            proof {
                assert(sub@ == HubModel::sub_after(before[i as int]@, e));
            }
            self.subs.insert(i, sub);
            proof {
                assert(self.subs@ =~= before.update(i as int, sub));
            }
            i = i + 1;
        }
        match &e {
            WsEvent::Closed(info) => {
                if self.terminal.is_none() {
                    self.terminal = Some(info.clone());
                }
            },
            _ => (),
        }
        proof {
            assert(self@.subs =~~= pre.notified(e).subs);
            assert(self@ =~~= pre.notified(e));
            if pre.wf() {
                lemma_notified_wf(pre, e);
            }
        }
    }

    /// Hand the subscriber its next pending event, in delivery order. Yields
    /// `None`, leaving the hub unchanged, when the id is unknown or the
    /// queue is empty.
    pub fn next_event(&mut self, id: usize) -> (r: Option<WsEvent>)
        ensures
            id < old(self)@.subs.len() && old(self)@.subs[id as int].queue.len() > 0 ==> r == Some(
                old(self)@.subs[id as int].queue[0],
            ) && final(self)@ == old(self)@.consumed(id as int),
            !(id < old(self)@.subs.len() && old(self)@.subs[id as int].queue.len() > 0) ==> r
                is None && final(self)@ == old(self)@,
            old(self)@.wf() ==> final(self)@.wf(),
    {
        if id >= self.subs.len() {
            return None;
        }
        if self.subs[id].queue.len() == 0 {
            return None;
        }
        let mut sub = self.subs.remove(id);
        let ev = sub.queue.remove(0);
        self.subs.insert(id, sub);
        proof {
            assert(self@.subs =~~= old(self)@.consumed(id as int).subs);
            assert(self@ =~~= old(self)@.consumed(id as int));
        }
        Some(ev)
    }

    /// Cancel a subscription: the subscriber is marked dead and its pending
    /// events are dropped; ids of other subscribers are unaffected.
    pub fn unsubscribe(&mut self, id: usize)
        ensures
            final(self)@ == old(self)@.unsubscribed(id as int),
            old(self)@.wf() ==> final(self)@.wf(),
    {
        if id >= self.subs.len() {
            return;
        }
        let mut sub = self.subs.remove(id);
        sub.live = false;
        sub.queue.clear();
        self.subs.insert(id, sub);
        proof {
            assert(self@.subs =~~= old(self)@.unsubscribed(id as int).subs);
            assert(self@ =~~= old(self)@.unsubscribed(id as int));
        }
    }

    /// Shut the hub down: later registrations fail; existing subscribers
    /// keep their pending events.
    pub fn shut_down(&mut self)
        ensures
            final(self)@ == (HubModel { shut: true, ..old(self)@ }),
            old(self)@.wf() ==> final(self)@.wf(),
    {
        self.shut = true;
        proof {
            assert(self@ =~~= (HubModel { shut: true, ..old(self)@ }));
        }
    }
}

/// A broadcast preserves the hub's well-formedness: only accepted events are
/// ever queued.
pub proof fn lemma_notified_wf(h: HubModel, e: WsEvent)
    requires
        h.wf(),
    ensures
        h.notified(e).wf(),
{
    let hn = h.notified(e);
    assert forall|i: int, k: int|
        0 <= i < hn.subs.len() && 0 <= k < hn.subs[i].queue.len() implies hn.subs[
        i
    ].filter.spec_accepts(hn.subs[i].queue[k]) by {
        if h.subs[i].live && h.subs[i].filter.spec_accepts(e) {
            if k < h.subs[i].queue.len() {
                assert(hn.subs[i].queue[k] == h.subs[i].queue[k]);
            } else {
                assert(hn.subs[i].queue[k] == e);
            }
        }
    }
}

/// Every broadcast is appended to the queue of every live subscriber whose
/// filter accepts it, and leaves every other subscriber's queue unchanged.
pub proof fn lemma_notify_delivery(h: HubModel, e: WsEvent, i: int)
    requires
        0 <= i < h.subs.len(),
    ensures
        h.subs[i].live && h.subs[i].filter.spec_accepts(e) ==> h.notified(e).subs[i].queue
            == h.subs[i].queue.push(e),
        !(h.subs[i].live && h.subs[i].filter.spec_accepts(e)) ==> h.notified(e).subs[i].queue
            == h.subs[i].queue,
{
}

/// Broadcasts reach each subscriber in the order they were fired: after two
/// broadcasts that a live subscriber's filter accepts, its queue holds the
/// two events in firing order.
pub proof fn lemma_delivery_order(h: HubModel, e1: WsEvent, e2: WsEvent, i: int)
    requires
        0 <= i < h.subs.len(),
        h.subs[i].live,
        h.subs[i].filter.spec_accepts(e1),
        h.subs[i].filter.spec_accepts(e2),
    ensures
        h.notified(e1).notified(e2).subs[i].queue == h.subs[i].queue.push(e1).push(e2),
{
}

/// A close broadcast delivers the same close metadata to every live
/// subscriber whose filter accepts close events; two such subscribers that
/// were idle both find exactly that event at the head of their queue.
pub proof fn lemma_closed_fanout(h: HubModel, info: CloseEvent, i: int, j: int)
    requires
        0 <= i < h.subs.len(),
        0 <= j < h.subs.len(),
        h.subs[i].live && h.subs[i].filter.accept_closed && h.subs[i].queue.len() == 0,
        h.subs[j].live && h.subs[j].filter.accept_closed && h.subs[j].queue.len() == 0,
    ensures
        h.notified(WsEvent::Closed(info)).subs[i].queue == seq![WsEvent::Closed(info)],
        h.notified(WsEvent::Closed(info)).subs[j].queue == seq![WsEvent::Closed(info)],
{
    let hn = h.notified(WsEvent::Closed(info));
    assert(hn.subs[i].queue =~= seq![WsEvent::Closed(info)]);
    assert(hn.subs[j].queue =~= seq![WsEvent::Closed(info)]);
}

/// A subscriber interested in close events who registers only after the
/// terminal close has fired still receives that close event, exactly once.
pub proof fn lemma_late_subscriber_sees_close(h: HubModel, f: EventFilter, info: CloseEvent)
    requires
        h.terminal is None,
        f.accept_closed,
    ensures
        h.notified(WsEvent::Closed(info)).observed(f).subs.last().queue == seq![
            WsEvent::Closed(info),
        ],
{
}

} // verus!
