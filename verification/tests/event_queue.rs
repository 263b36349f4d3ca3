use sentry::event::{Event, EventQueue, EventState};
use sentry::time::Instant;

#[test]
fn test_fn_handler() {
    let mut queue = EventQueue::new();
    let id = queue.bind(Event::new());
    queue.call(id);

    let due = queue.run_once(0);
    let done = due.contains(&id);

    assert!(done);
}

#[test]
fn test_fnmut_handler() {
    let mut done = false;
    {
        let mut queue = EventQueue::new();
        let id = queue.bind(Event::new());
        queue.call(id);
        for d in queue.run_once(0) {
            if d == id {
                done = true;
            }
        }
    }
    assert!(done);
}

#[test]
fn test_post_multiple_times() {
    let mut done = 0;

    let mut queue = EventQueue::new();
    let id = queue.bind(Event::new());

    queue.call(id);
    assert_eq!(done, 0);

    done += queue.run_once(0).len();
    assert_eq!(done, 1);

    done += queue.run_once(100).len();
    assert_eq!(done, 1);

    queue.call(id);
    done += queue.run_once(200).len();
    assert_eq!(done, 2);
}

#[test]
fn test_delayed_post() {
    let mut queue = EventQueue::new();
    let id = queue.bind(Event::new());

    queue.call_at(id, Instant::from_ticks(100));

    let mut done = !queue.run_once(0).is_empty();
    assert!(!done);

    done = !queue.run_once(50).is_empty();
    assert!(!done);

    done = !queue.run_once(100).is_empty();
    assert!(done);

    // Check that the event doesn't dispatch again.
    done = !queue.run_once(110).is_empty();
    assert!(!done);
}

#[test]
fn test_periodic_event() {
    let mut done = 0;

    let mut event = Event::new();
    event.period(100);

    let mut queue = EventQueue::new();
    let id = queue.bind(event);

    queue.call(id);
    assert_eq!(done, 0);

    done += queue.run_once(7).len();
    assert_eq!(done, 1);

    done += queue.run_once(106).len();
    assert_eq!(done, 1);

    done += queue.run_once(107).len();
    assert_eq!(done, 2);

    done += queue.run_once(210).len();
    assert_eq!(done, 3);
}

#[test]
fn test_post_static_event() {
    let mut event = Event::new();
    event.call();

    let mut queue = EventQueue::new();
    let id = queue.bind(event);

    let done = queue.run_once(0).contains(&id);

    assert!(done);
}

#[test]
fn periodic_rearm_has_no_drift() {
    // The first firing happens seven ticks late; the next deadline is still
    // the previous deadline plus the period, not "now" plus the period.
    let mut event = Event::new();
    event.period(100);

    let mut queue = EventQueue::new();
    let id = queue.bind(event);
    queue.call_at(id, Instant::from_ticks(100));

    assert_eq!(queue.run_once(107).len(), 1);
    assert_eq!(queue.get(id).state, EventState::PendingAt(200));

    assert!(queue.run_once(199).is_empty());
    assert_eq!(queue.run_once(200).len(), 1);
}

#[test]
fn cancel_on_idle_event_is_noop() {
    let mut queue = EventQueue::new();
    let id = queue.bind(Event::new());

    let before = queue.get(id);
    queue.cancel(id);
    assert_eq!(queue.get(id), before);
    assert!(queue.run_once(1000).is_empty());

    // Cancel disarms a pending event; canceling twice behaves like once.
    queue.call_at(id, Instant::from_ticks(10));
    queue.cancel(id);
    queue.cancel(id);
    assert!(queue.run_once(10).is_empty());
    assert!(queue.run_once(2000).is_empty());
}

#[test]
fn deadline_comparison_wraps_around() {
    let mut queue = EventQueue::new();
    let id = queue.bind(Event::new());

    queue.call_at(id, Instant::from_ticks(u32::MAX - 5));
    assert!(queue.run_once(u32::MAX - 10).is_empty());
    assert_eq!(queue.run_once(3).len(), 1);

    // A periodic deadline re-arms across the wrap as well.
    let mut event = Event::new();
    event.period(100);
    let id2 = queue.bind(event);
    queue.call_at(id2, Instant::from_ticks(u32::MAX - 5));
    assert_eq!(queue.run_once(0).len(), 1);
    assert_eq!(queue.get(id2).state, EventState::PendingAt(94));
    assert!(queue.run_once(93).is_empty());
    assert_eq!(queue.run_once(94).len(), 1);
}

#[test]
fn events_dispatch_in_bind_order() {
    let mut queue = EventQueue::new();
    let first = queue.bind(Event::new());
    let second = queue.bind(Event::new());
    let third = queue.bind(Event::new());

    queue.call(third);
    queue.call(first);
    queue.call(second);

    let due = queue.run_once(0);
    assert_eq!(due, vec![first, second, third]);
}

#[test]
fn idle_events_are_never_due() {
    let mut queue = EventQueue::new();
    queue.bind(Event::new());
    queue.bind(Event::new());
    assert!(queue.run_once(0).is_empty());
    assert!(queue.run_once(u32::MAX).is_empty());
}
