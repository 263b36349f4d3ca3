//! Cooperative event scheduler.
//!
//! An [`Event`] is one schedulable unit of work: a disposition (idle, pending
//! immediately, or pending at an instant) and an optional period. An
//! [`EventQueue`] holds events in bind order; each call to
//! [`EventQueue::run_once`] scans every bound event against the current tick
//! count and returns, in bind order, the handles of the events that were due.
//! A due event is re-armed from its previous deadline (never from "now"), so
//! periodic dispatch does not drift.
use vstd::prelude::*;

use crate::time::{tick_reached, wrap_add, wrapping_add_ticks, Duration, Instant};

verus! {

/// Disposition of an event.
#[derive(Clone, Copy, Debug, PartialEq, Eq)]
pub enum EventState {
    /// Not scheduled; never due.
    Idle,
    /// Due at the next scan, whatever the tick count.
    PendingImmediate,
    /// Due once the given tick deadline is reached (wraparound-safe).
    PendingAt(u32),
}

/// One schedulable unit of work.
#[derive(Clone, Copy, Debug, PartialEq, Eq)]
pub struct Event {
    /// Current disposition.
    pub state: EventState,
    /// If set, a dispatched event is re-armed at its previous deadline plus
    /// this many ticks.
    pub period: Option<u32>,
}

/// Whether an event is due at tick count `now`.
pub open spec fn due_spec(e: Event, now: u32) -> bool {
    match e.state {
        EventState::Idle => false,
        EventState::PendingImmediate => true,
        EventState::PendingAt(t) => tick_reached(t, now),
    }
}

/// The deadline a dispatched event is re-armed from: its previous deadline
/// where it had one, the current tick count otherwise.
pub open spec fn event_time_spec(e: Event, now: u32) -> u32 {
    match e.state {
        EventState::PendingAt(t) => t,
        _ => now,
    }
}

/// The event after one scan at `now`: a due event becomes idle, or is
/// re-armed one period after its previous deadline; any other event is left
/// as it was.
pub open spec fn after_poll(e: Event, now: u32) -> Event {
    if due_spec(e, now) {
        match e.period {
            None => Event { state: EventState::Idle, period: e.period },
            Some(p) => Event {
                state: EventState::PendingAt(wrap_add(event_time_spec(e, now), p)),
                period: e.period,
            },
        }
    } else {
        e
    }
}

impl Event {
    /// A fresh event: idle, with no period.
    pub fn new() -> (r: Event)
        ensures
            r.state == EventState::Idle,
            r.period == Option::<u32>::None,
    {
        Event { state: EventState::Idle, period: None }
    }

    /// Post the event for immediate dispatch.
    pub fn call(&mut self)
        ensures
            final(self).state == EventState::PendingImmediate,
            final(self).period == old(self).period,
    {
        self.state = EventState::PendingImmediate;
    }

    /// Post the event for dispatch once the given tick count is reached.
    pub fn call_on(&mut self, time: u32)
        ensures
            final(self).state == EventState::PendingAt(time),
            final(self).period == old(self).period,
    {
        self.state = EventState::PendingAt(time);
    }

    /// Post the event for dispatch once the given instant is reached.
    pub fn call_at(&mut self, instant: Instant)
        ensures
            final(self).state == EventState::PendingAt(instant.ticks),
            final(self).period == old(self).period,
    {
        self.state = EventState::PendingAt(instant.ticks);
    }

    /// Cancel dispatch of the event. Forces the disposition to idle whatever
    /// it was before; on an already-idle event this changes nothing.
    pub fn cancel(&mut self)
        ensures
            final(self).state == EventState::Idle,
            final(self).period == old(self).period,
            old(self).state == EventState::Idle ==> *final(self) == *old(self),
    {
        self.state = EventState::Idle;
    }

    /// Set the period for repeated dispatch.
    pub fn period(&mut self, period: u32)
        ensures
            final(self).state == old(self).state,
            final(self).period == Some(period),
    {
        self.period = Some(period);
    }

    /// Set the period for repeated dispatch, as a duration.
    pub fn set_period(&mut self, period: Duration)
        ensures
            final(self).state == old(self).state,
            final(self).period == Some(period.ticks),
    {
        self.period = Some(period.ticks);
    }

    /// Evaluate the event against the current tick count: report whether it
    /// is due and apply the dispatch transition to its disposition.
    pub fn poll(&mut self, now: u32) -> (dispatch: bool)
        ensures
            dispatch == due_spec(*old(self), now),
            *final(self) == after_poll(*old(self), now),
    {
        let dispatch: bool;
        let event_time: u32;
        match self.state {
            EventState::Idle => {
                dispatch = false;
                event_time = now;
            },
            EventState::PendingImmediate => {
                dispatch = true;
                event_time = now;
            },
            EventState::PendingAt(t) => {
                dispatch = crate::time::ticks_since(t, now) < crate::time::HALF_RANGE;
                event_time = t;
            },
        }
        if dispatch {
            match self.period {
                None => {
                    self.state = EventState::Idle;
                },
                Some(p) => {
                    self.state = EventState::PendingAt(wrapping_add_ticks(event_time, p));
                },
            }
        }
        dispatch
    }
}

/// The handles of the due events in `s`, in bind order.
pub open spec fn due_indices(s: Seq<Event>, now: u32) -> Seq<usize>
    decreases s.len(),
{
    if s.len() == 0 {
        Seq::empty()
    } else {
        due_indices(s.drop_last(), now) + if due_spec(s.last(), now) {
            seq![(s.len() - 1) as usize]
        } else {
            Seq::empty()
        }
    }
}

/// A cooperative dispatcher over a fixed set of bound events, scanned in
/// bind order.
pub struct EventQueue {
    events: Vec<Event>,
}

impl EventQueue {
    /// The bound events, in bind order.
    pub closed spec fn view(&self) -> Seq<Event> {
        self.events@
    }

    /// An empty queue.
    pub fn new() -> (r: EventQueue)
        ensures
            r@ =~= Seq::<Event>::empty(),
    {
        EventQueue { events: Vec::new() }
    }

    /// Number of bound events.
    pub fn len(&self) -> (r: usize)
        ensures
            r == self@.len(),
    {
        self.events.len()
    }

    /// Register an event for consideration by the scan; returns its handle.
    /// Events are scanned in bind order.
    pub fn bind(&mut self, event: Event) -> (id: usize)
        ensures
            final(self)@ =~= old(self)@.push(event),
            id == old(self)@.len(),
    {
        let id = self.events.len();
        self.events.push(event);
        id
    }

    /// The event bound under `id`.
    pub fn get(&self, id: usize) -> (r: Event)
        requires
            id < self@.len(),
        ensures
            r == self@[id as int],
    {
        self.events[id]
    }

    /// Post the event bound under `id` for immediate dispatch.
    pub fn call(&mut self, id: usize)
        requires
            id < old(self)@.len(),
        ensures
            final(self)@ =~= old(self)@.update(
                id as int,
                Event { state: EventState::PendingImmediate, period: old(self)@[id as int].period },
            ),
    {
        let mut e = self.events[id];
        e.call();
        self.events.set(id, e);
    }

    /// Post the event bound under `id` for dispatch at `instant`.
    pub fn call_at(&mut self, id: usize, instant: Instant)
        requires
            id < old(self)@.len(),
        ensures
            final(self)@ =~= old(self)@.update(
                id as int,
                Event {
                    state: EventState::PendingAt(instant.ticks),
                    period: old(self)@[id as int].period,
                },
            ),
    {
        let mut e = self.events[id];
        e.call_at(instant);
        self.events.set(id, e);
    }

    /// Cancel the event bound under `id`.
    pub fn cancel(&mut self, id: usize)
        requires
            id < old(self)@.len(),
        ensures
            final(self)@ =~= old(self)@.update(
                id as int,
                Event { state: EventState::Idle, period: old(self)@[id as int].period },
            ),
    {
        let mut e = self.events[id];
        e.cancel();
        self.events.set(id, e);
    }

    /// Set the period of the event bound under `id`.
    pub fn set_period(&mut self, id: usize, period: Duration)
        requires
            id < old(self)@.len(),
        ensures
            final(self)@ =~= old(self)@.update(
                id as int,
                Event { state: old(self)@[id as int].state, period: Some(period.ticks) },
            ),
    {
        let mut e = self.events[id];
        e.set_period(period);
        self.events.set(id, e);
    }

    /// Scan every bound event once against the tick count `now`. Each due
    /// event has the dispatch transition applied to its disposition, and its
    /// handle appears exactly once in the result, in bind order; every other
    /// event is untouched. The caller runs the handler of each returned
    /// handle after the scan.
    pub fn run_once(&mut self, now: u32) -> (due: Vec<usize>)
        ensures
            final(self)@.len() == old(self)@.len(),
            forall|i: int|
                0 <= i < final(self)@.len() ==> final(self)@[i] == after_poll(
                    #[trigger] old(self)@[i],
                    now,
                ),
            due@ == due_indices(old(self)@, now),
    {
        let ghost orig = self.events@;
        let mut due: Vec<usize> = Vec::new();
        let n = self.events.len();
        let mut i: usize = 0;
        while i < n
            invariant
                n == orig.len(),
                i <= n,
                self.events@.len() == n,
                forall|j: int| 0 <= j < i ==> self.events@[j] == after_poll(#[trigger] orig[j], now),
                forall|j: int| i <= j < n ==> self.events@[j] == #[trigger] orig[j],
                due@ == due_indices(orig.take(i as int), now),
            decreases n - i,
        {
            let mut e = self.events[i];
            let dispatch = e.poll(now);
            self.events.set(i, e);
            if dispatch {
                due.push(i);
            }
            proof {
                assert(orig.take(i + 1 as int).drop_last() =~= orig.take(i as int));
                assert(orig.take(i + 1 as int).last() == orig[i as int]);
            }
            i = i + 1;
        }
        proof {
            assert(orig.take(n as int) =~= orig);
        }
        due
    }
}

/// The handles returned by one scan are strictly increasing: no handle is
/// ever returned twice.
pub proof fn lemma_due_indices_strictly_increasing(s: Seq<Event>, now: u32)
    requires
        s.len() <= usize::MAX,
    ensures
        forall|j: int, k: int|
            0 <= j < k < due_indices(s, now).len() ==> due_indices(s, now)[j] < due_indices(
                s,
                now,
            )[k],
    decreases s.len(),
{
    if s.len() > 0 {
        lemma_due_indices_strictly_increasing(s.drop_last(), now);
        lemma_due_indices_bounded(s.drop_last(), now);
        let dl = due_indices(s.drop_last(), now);
        let whole = due_indices(s, now);
        if !due_spec(s.last(), now) {
            assert(whole =~= dl);
        }
        assert forall|j: int, k: int| 0 <= j < k < whole.len() implies whole[j] < whole[k] by {
            if k < dl.len() {
                assert(whole[j] == dl[j] && whole[k] == dl[k]);
            } else {
                assert(whole[k] == (s.len() - 1) as usize);
                assert(whole[j] == dl[j]);
                assert(dl[j] < s.drop_last().len());
            }
        }
    }
}

/// Every handle returned by a scan is a valid index into the scanned events.
pub proof fn lemma_due_indices_bounded(s: Seq<Event>, now: u32)
    requires
        s.len() <= usize::MAX,
    ensures
        forall|j: int|
            0 <= j < due_indices(s, now).len() ==> (#[trigger] due_indices(s, now)[j]) < s.len(),
    decreases s.len(),
{
    if s.len() > 0 {
        lemma_due_indices_bounded(s.drop_last(), now);
        let dl = due_indices(s.drop_last(), now);
        let whole = due_indices(s, now);
        if !due_spec(s.last(), now) {
            assert(whole =~= dl);
        }
        assert forall|j: int| 0 <= j < whole.len() implies (#[trigger] whole[j]) < s.len() by {
            if j < dl.len() {
                assert(whole[j] == dl[j]);
                assert(dl[j] < s.drop_last().len());
            } else {
                assert(whole[j] == (s.len() - 1) as usize);
            }
        }
    }
}

/// A scan dispatches an event if and only if it was due: handle `i` appears
/// in the scan's result exactly when event `i` was due at `now` — pending
/// immediately, or pending at a deadline that `now` has reached modulo
/// wraparound — and was not idle (canceled) at scan time.
pub proof fn lemma_dispatched_iff_due(s: Seq<Event>, now: u32, i: usize)
    requires
        i < s.len(),
        s.len() <= usize::MAX,
    ensures
        due_indices(s, now).contains(i) <==> due_spec(s[i as int], now),
    decreases s.len(),
{
    let dl = due_indices(s.drop_last(), now);
    let whole = due_indices(s, now);
    if !due_spec(s.last(), now) {
        assert(whole =~= dl);
    }
    if i + 1 == s.len() {
        lemma_due_indices_bounded(s.drop_last(), now);
        if due_spec(s[i as int], now) {
            assert(whole[whole.len() - 1] == i);
            assert(whole.contains(i));
        } else {
            if whole.contains(i) {
                let j = choose|j: int| 0 <= j < whole.len() && whole[j] == i;
                assert(dl[j] == i);
                assert(dl[j] < s.drop_last().len());
            }
        }
    } else {
        lemma_dispatched_iff_due(s.drop_last(), now, i);
        assert(s.drop_last()[i as int] == s[i as int]);
        if due_spec(s[i as int], now) {
            assert(dl.contains(i));
            let j = choose|j: int| 0 <= j < dl.len() && dl[j] == i;
            assert(whole[j] == i);
            assert(whole.contains(i));
        } else {
            if whole.contains(i) {
                let j = choose|j: int| 0 <= j < whole.len() && whole[j] == i;
                if j < dl.len() {
                    assert(dl[j] == i);
                } else {
                    assert(whole[j] == (s.len() - 1) as usize);
                }
            }
        }
    }
}

/// Together with the above: a scheduled deadline is dispatched exactly once
/// by the scan that first evaluates at a tick that has reached it, unless the
/// event was canceled or re-posted before that scan. Dispatch empties the
/// disposition (or re-arms it one period later), so a second scan at the same
/// tick does not dispatch the event again.
pub proof fn lemma_dispatch_consumes_event(e: Event, now: u32)
    requires
        due_spec(e, now),
        (e.period is None),
    ensures
        !due_spec(after_poll(e, now), now),
{
}

/// Periodic re-arm never drifts: when an event pending at deadline `d` with
/// period `p` is dispatched at any tick that has reached `d`, its next
/// deadline is `d + p` (modulo wraparound), not "now + p".
pub proof fn lemma_periodic_rearm_no_drift(e: Event, now: u32, d: u32, p: u32)
    requires
        e.state == EventState::PendingAt(d),
        e.period == Some(p),
        due_spec(e, now),
    ensures
        after_poll(e, now).state == EventState::PendingAt(wrap_add(d, p)),
{
}

/// Canceling an already-idle event is a no-op: the event is unchanged, so
/// every later scan behaves exactly as it would have without the cancel.
pub proof fn lemma_cancel_idle_noop(e: Event)
    requires
        e.state == EventState::Idle,
    ensures
        (Event { state: EventState::Idle, period: e.period } == e),
        (forall|now: u32|
            after_poll(Event { state: EventState::Idle, period: e.period }, now) == after_poll(
                e,
                now,
            )),
{
}

} // verus!
