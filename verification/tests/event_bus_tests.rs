use recipe_core::event_bus::{BusError, EventBus, Received};
use recipe_core::shutdown::{ShutdownCause, ShutdownSignal};
use recipe_core::sse::Notification;

fn event(number: usize) -> Notification {
    Notification::new_recipe(format!("recipe {}", number))
}

fn drain(bus: &mut EventBus, id: u64) -> Vec<Received> {
    let mut all = Vec::new();
    loop {
        match bus.recv(id) {
            Received::Empty | Received::Closed | Received::Detached => return all,
            other => all.push(other),
        }
    }
}

#[test]
fn three_subscribers_one_stalls() {
    let shutdown = ShutdownSignal::new();
    let mut bus = EventBus::new(16).expect("the capacity is not zero");
    let first = bus.subscribe(&shutdown).expect("the bus is open");
    let stalled = bus.subscribe(&shutdown).expect("the bus is open");
    let third = bus.subscribe(&shutdown).expect("the bus is open");
    assert_eq!(bus.subscriber_count(), 3);

    let mut seen_by_first = Vec::new();
    let mut seen_by_third = Vec::new();
    for number in 1..=20 {
        assert_eq!(bus.publish(event(number)), Ok(()));
        seen_by_first.extend(drain(&mut bus, first));
        seen_by_third.extend(drain(&mut bus, third));
    }

    let all: Vec<Received> = (1..=20).map(|number| Received::Event(event(number))).collect();
    assert_eq!(seen_by_first, all);
    assert_eq!(seen_by_third, all);

    let seen_by_stalled = drain(&mut bus, stalled);
    assert_eq!(
        seen_by_stalled,
        vec![
            Received::Lagged(16),
            Received::Event(event(17)),
            Received::Event(event(18)),
            Received::Event(event(19)),
            Received::Event(event(20)),
        ]
    );
    assert_eq!(bus.recv(stalled), Received::Empty);
}

#[test]
fn stalled_subscriber_gets_one_lag_indicator_then_fresh_events() {
    for capacity in 1..=8usize {
        for published in (capacity + 1)..=(4 * capacity + 3) {
            let shutdown = ShutdownSignal::new();
            let mut bus = EventBus::new(capacity).expect("the capacity is not zero");
            let id = bus.subscribe(&shutdown).expect("the bus is open");
            for number in 0..published {
                assert_eq!(bus.publish(event(number)), Ok(()));
            }
            let missed = capacity * ((published - 1) / capacity);
            assert_eq!(bus.missed(id), Some(missed as u64));
            assert_eq!(bus.pending(id), Some(published - missed));
            let received = drain(&mut bus, id);
            let mut expected = vec![Received::Lagged(missed as u64)];
            for number in missed..published {
                expected.push(Received::Event(event(number)));
            }
            assert_eq!(received, expected);
            let lag_indicators =
                received.iter().filter(|r| matches!(r, Received::Lagged(_))).count();
            assert_eq!(lag_indicators, 1);
            assert_eq!(bus.missed(id), Some(0));
        }
    }
}

#[test]
fn subscriber_with_room_receives_everything_in_order() {
    let shutdown = ShutdownSignal::new();
    let mut bus = EventBus::new(4).expect("the capacity is not zero");
    let id = bus.subscribe(&shutdown).expect("the bus is open");
    for number in 0..4 {
        bus.publish(event(number)).expect("the bus is open");
    }
    assert_eq!(bus.pending(id), Some(4));
    assert_eq!(bus.missed(id), Some(0));
    for number in 0..4 {
        assert_eq!(bus.recv(id), Received::Event(event(number)));
    }
    assert_eq!(bus.recv(id), Received::Empty);
}

#[test]
fn delivery_resumes_after_the_lag_indicator() {
    let shutdown = ShutdownSignal::new();
    let mut bus = EventBus::new(2).expect("the capacity is not zero");
    let id = bus.subscribe(&shutdown).expect("the bus is open");
    for number in 0..3 {
        bus.publish(event(number)).expect("the bus is open");
    }
    assert_eq!(bus.recv(id), Received::Lagged(2));
    bus.publish(event(3)).expect("the bus is open");
    assert_eq!(bus.recv(id), Received::Event(event(2)));
    assert_eq!(bus.recv(id), Received::Event(event(3)));
    assert_eq!(bus.recv(id), Received::Empty);
    bus.publish(event(4)).expect("the bus is open");
    assert_eq!(bus.recv(id), Received::Event(event(4)));
}

#[test]
fn capacity_of_one_keeps_the_newest_event() {
    let shutdown = ShutdownSignal::new();
    let mut bus = EventBus::new(1).expect("the capacity is not zero");
    assert_eq!(bus.capacity(), 1);
    let id = bus.subscribe(&shutdown).expect("the bus is open");
    for number in 0..5 {
        bus.publish(event(number)).expect("the bus is open");
    }
    assert_eq!(bus.recv(id), Received::Lagged(4));
    assert_eq!(bus.recv(id), Received::Event(event(4)));
    assert_eq!(bus.recv(id), Received::Empty);
}

#[test]
fn new_subscriber_starts_from_now() {
    let shutdown = ShutdownSignal::new();
    let mut bus = EventBus::new(4).expect("the capacity is not zero");
    let early = bus.subscribe(&shutdown).expect("the bus is open");
    bus.publish(event(1)).expect("the bus is open");
    let late = bus.subscribe(&shutdown).expect("the bus is open");
    assert_ne!(early, late);
    assert_eq!(bus.recv(late), Received::Empty);
    bus.publish(event(2)).expect("the bus is open");
    assert_eq!(bus.recv(late), Received::Event(event(2)));
    assert_eq!(bus.recv(early), Received::Event(event(1)));
    assert_eq!(bus.recv(early), Received::Event(event(2)));
}

#[test]
fn publish_without_subscribers_is_taken() {
    let mut bus = EventBus::new(1).expect("the capacity is not zero");
    assert_eq!(bus.subscriber_count(), 0);
    assert_eq!(bus.publish(event(1)), Ok(()));
}

#[test]
fn identifiers_are_handed_out_in_order_and_not_reused() {
    let shutdown = ShutdownSignal::new();
    let mut bus = EventBus::new(1).expect("the capacity is not zero");
    assert_eq!(bus.subscribe(&shutdown), Some(0));
    assert_eq!(bus.subscribe(&shutdown), Some(1));
    assert!(bus.unsubscribe(0));
    assert_eq!(bus.subscribe(&shutdown), Some(2));
    assert!(bus.is_attached(1));
    assert!(bus.is_attached(2));
    assert!(!bus.is_attached(0));
}

#[test]
fn unsubscribe_detaches_one_subscriber_only() {
    let shutdown = ShutdownSignal::new();
    let mut bus = EventBus::new(4).expect("the capacity is not zero");
    let first = bus.subscribe(&shutdown).expect("the bus is open");
    let second = bus.subscribe(&shutdown).expect("the bus is open");
    bus.publish(event(1)).expect("the bus is open");
    assert!(bus.unsubscribe(first));
    assert!(!bus.unsubscribe(first));
    assert_eq!(bus.subscriber_count(), 1);
    assert_eq!(bus.recv(first), Received::Detached);
    assert_eq!(bus.pending(first), None);
    assert_eq!(bus.missed(first), None);
    assert_eq!(bus.recv(second), Received::Event(event(1)));
    assert!(!bus.unsubscribe(99));
}

#[test]
fn closed_bus_refuses_events_and_subscribers_and_drains() {
    let shutdown = ShutdownSignal::new();
    let mut bus = EventBus::new(4).expect("the capacity is not zero");
    let id = bus.subscribe(&shutdown).expect("the bus is open");
    bus.publish(event(1)).expect("the bus is open");
    assert!(!bus.is_closed());
    bus.close();
    assert!(bus.is_closed());
    assert_eq!(bus.publish(event(2)), Err(BusError::Closed));
    assert_eq!(bus.subscribe(&shutdown), None);
    assert_eq!(bus.recv(id), Received::Event(event(1)));
    assert_eq!(bus.recv(id), Received::Closed);
    assert_eq!(bus.recv(id), Received::Closed);
}

#[test]
fn closed_bus_still_reports_the_lag_first() {
    let shutdown = ShutdownSignal::new();
    let mut bus = EventBus::new(1).expect("the capacity is not zero");
    let id = bus.subscribe(&shutdown).expect("the bus is open");
    bus.publish(event(1)).expect("the bus is open");
    bus.publish(event(2)).expect("the bus is open");
    bus.close();
    assert_eq!(bus.recv(id), Received::Lagged(1));
    assert_eq!(bus.recv(id), Received::Event(event(2)));
    assert_eq!(bus.recv(id), Received::Closed);
}

#[test]
fn no_subscriber_after_shutdown() {
    let mut shutdown = ShutdownSignal::new();
    let mut bus = EventBus::new(4).expect("the capacity is not zero");
    let before = bus.subscribe(&shutdown);
    assert_eq!(before, Some(0));
    assert!(shutdown.fire(ShutdownCause::Operator));
    assert_eq!(bus.subscribe(&shutdown), None);
    assert_eq!(bus.subscriber_count(), 1);
    assert_eq!(bus.publish(event(1)), Ok(()));
    assert_eq!(bus.recv(0), Received::Event(event(1)));
}

#[test]
fn shutdown_signal_fires_once() {
    let mut shutdown = ShutdownSignal::new();
    assert!(!shutdown.is_fired());
    assert_eq!(shutdown.fired_cause(), None);
    assert!(shutdown.fire(ShutdownCause::Job(2)));
    assert!(shutdown.is_fired());
    assert!(!shutdown.fire(ShutdownCause::Operator));
    assert!(!shutdown.fire(ShutdownCause::Termination));
    assert!(shutdown.is_fired());
    assert_eq!(shutdown.fired_cause(), Some(ShutdownCause::Job(2)));
}

#[test]
fn capacity_of_zero_is_refused() {
    assert!(EventBus::new(0).is_none());
    assert!(EventBus::new(1).is_some());
    assert!(EventBus::new(usize::MAX).is_some());
}
