use recipe_core::event_bus::{EventBus, Received};
use recipe_core::shutdown::{ShutdownCause, ShutdownSignal};
use recipe_core::sse::{
    BridgeAction, BridgeStatus, CloseReason, LagPolicy, NewRecipe, Notification, StreamBridge,
    WireEvent,
};

fn event(number: usize) -> Notification {
    Notification::new_recipe(format!("recipe {}", number))
}

fn deliver(number: usize) -> BridgeAction {
    BridgeAction::Deliver(WireEvent::Notification(event(number)))
}

#[test]
fn notification_is_named_new_recipe() {
    let notification = Notification::new_recipe(String::from("gulyás"));
    assert_eq!(notification.name(), "new_recipe");
    assert_eq!(
        notification,
        Notification::NewRecipe(NewRecipe { name: String::from("gulyás") })
    );
    assert_eq!(notification.clone(), notification);
}

#[test]
fn wire_event_names() {
    assert_eq!(WireEvent::Notification(event(1)).name(), "new_recipe");
    assert_eq!(WireEvent::Lagged(3).name(), "lagged");
}

#[test]
fn bridge_pumps_events_in_order() {
    let shutdown = ShutdownSignal::new();
    let mut bus = EventBus::new(4).expect("the capacity is not zero");
    let mut bridge =
        StreamBridge::attach(&mut bus, &shutdown, LagPolicy::Resume).expect("the bus is open");
    assert_eq!(bridge.status(), BridgeStatus::Active);
    assert_eq!(bridge.policy(), LagPolicy::Resume);
    assert!(bus.is_attached(bridge.subscriber()));
    assert_eq!(bridge.poll(&mut bus, &shutdown), BridgeAction::Wait);
    bus.publish(event(1)).expect("the bus is open");
    bus.publish(event(2)).expect("the bus is open");
    assert_eq!(bridge.poll(&mut bus, &shutdown), deliver(1));
    assert_eq!(bridge.poll(&mut bus, &shutdown), deliver(2));
    assert_eq!(bridge.poll(&mut bus, &shutdown), BridgeAction::Wait);
    assert_eq!(bridge.close_reason(), None);
}

#[test]
fn bridge_terminates_on_shutdown_and_releases_its_subscriber() {
    let mut shutdown = ShutdownSignal::new();
    let mut bus = EventBus::new(4).expect("the capacity is not zero");
    let mut bridge =
        StreamBridge::attach(&mut bus, &shutdown, LagPolicy::Resume).expect("the bus is open");
    let id = bridge.subscriber();
    bus.publish(event(1)).expect("the bus is open");
    shutdown.fire(ShutdownCause::Termination);
    assert_eq!(bridge.poll(&mut bus, &shutdown), BridgeAction::Close(CloseReason::Shutdown));
    assert_eq!(bridge.status(), BridgeStatus::Closed(CloseReason::Shutdown));
    assert!(!bus.is_attached(id));
    assert_eq!(bus.subscriber_count(), 0);
    assert!(StreamBridge::attach(&mut bus, &shutdown, LagPolicy::Resume).is_none());
    bus.publish(event(2)).expect("the bus is open");
    assert_eq!(bridge.poll(&mut bus, &shutdown), BridgeAction::Close(CloseReason::Shutdown));
}

#[test]
fn every_active_bridge_terminates_after_shutdown() {
    let mut shutdown = ShutdownSignal::new();
    let mut bus = EventBus::new(2).expect("the capacity is not zero");
    let mut bridges = Vec::new();
    for _ in 0..5 {
        bridges.push(
            StreamBridge::attach(&mut bus, &shutdown, LagPolicy::Resume).expect("the bus is open"),
        );
    }
    for number in 0..3 {
        bus.publish(event(number)).expect("the bus is open");
    }
    assert_eq!(bridges[0].poll(&mut bus, &shutdown), BridgeAction::Deliver(WireEvent::Lagged(2)));
    shutdown.fire(ShutdownCause::Operator);
    for bridge in bridges.iter_mut() {
        assert_eq!(bridge.poll(&mut bus, &shutdown), BridgeAction::Close(CloseReason::Shutdown));
    }
    assert_eq!(bus.subscriber_count(), 0);
}

#[test]
fn bridge_terminates_when_the_bus_is_closed_and_drained() {
    let shutdown = ShutdownSignal::new();
    let mut bus = EventBus::new(4).expect("the capacity is not zero");
    let mut bridge =
        StreamBridge::attach(&mut bus, &shutdown, LagPolicy::Resume).expect("the bus is open");
    bus.publish(event(1)).expect("the bus is open");
    bus.close();
    assert_eq!(bridge.poll(&mut bus, &shutdown), deliver(1));
    assert_eq!(bridge.poll(&mut bus, &shutdown), BridgeAction::Close(CloseReason::BusClosed));
    assert_eq!(bridge.close_reason(), Some(CloseReason::BusClosed));
    assert_eq!(bus.subscriber_count(), 0);
}

#[test]
fn bridge_terminates_when_delivery_fails() {
    let shutdown = ShutdownSignal::new();
    let mut bus = EventBus::new(4).expect("the capacity is not zero");
    let mut gone =
        StreamBridge::attach(&mut bus, &shutdown, LagPolicy::Resume).expect("the bus is open");
    let mut other =
        StreamBridge::attach(&mut bus, &shutdown, LagPolicy::Resume).expect("the bus is open");
    bus.publish(event(1)).expect("the bus is open");
    bus.publish(event(2)).expect("the bus is open");
    assert_eq!(gone.poll(&mut bus, &shutdown), deliver(1));
    assert_eq!(gone.delivery_failed(&mut bus), BridgeAction::Close(CloseReason::ConsumerGone));
    assert_eq!(gone.poll(&mut bus, &shutdown), BridgeAction::Close(CloseReason::ConsumerGone));
    assert_eq!(gone.delivery_failed(&mut bus), BridgeAction::Close(CloseReason::ConsumerGone));
    assert!(!bus.is_attached(gone.subscriber()));
    assert!(!bus.is_closed());
    assert_eq!(other.poll(&mut bus, &shutdown), deliver(1));
    assert_eq!(other.poll(&mut bus, &shutdown), deliver(2));
}

#[test]
fn lagging_bridge_surfaces_the_loss_and_goes_on() {
    let shutdown = ShutdownSignal::new();
    let mut bus = EventBus::new(16).expect("the capacity is not zero");
    let mut bridge =
        StreamBridge::attach(&mut bus, &shutdown, LagPolicy::Resume).expect("the bus is open");
    for number in 1..=20 {
        bus.publish(event(number)).expect("the bus is open");
    }
    assert_eq!(bridge.poll(&mut bus, &shutdown), BridgeAction::Deliver(WireEvent::Lagged(16)));
    for number in 17..=20 {
        assert_eq!(bridge.poll(&mut bus, &shutdown), deliver(number));
    }
    assert_eq!(bridge.poll(&mut bus, &shutdown), BridgeAction::Wait);
    assert_eq!(bridge.status(), BridgeStatus::Active);
}

#[test]
fn lagging_bridge_closes_after_the_marker_when_told_to() {
    let shutdown = ShutdownSignal::new();
    let mut bus = EventBus::new(2).expect("the capacity is not zero");
    let mut bridge =
        StreamBridge::attach(&mut bus, &shutdown, LagPolicy::Close).expect("the bus is open");
    for number in 0..3 {
        bus.publish(event(number)).expect("the bus is open");
    }
    assert_eq!(bridge.poll(&mut bus, &shutdown), BridgeAction::Deliver(WireEvent::Lagged(2)));
    assert_eq!(bridge.status(), BridgeStatus::Closing);
    assert_eq!(bridge.poll(&mut bus, &shutdown), BridgeAction::Close(CloseReason::Lagged));
    assert_eq!(bridge.status(), BridgeStatus::Closed(CloseReason::Lagged));
    assert_eq!(bus.subscriber_count(), 0);
}

#[test]
fn closing_bridge_reports_shutdown_if_it_comes_first() {
    let mut shutdown = ShutdownSignal::new();
    let mut bus = EventBus::new(1).expect("the capacity is not zero");
    let mut bridge =
        StreamBridge::attach(&mut bus, &shutdown, LagPolicy::Close).expect("the bus is open");
    bus.publish(event(0)).expect("the bus is open");
    bus.publish(event(1)).expect("the bus is open");
    assert_eq!(bridge.poll(&mut bus, &shutdown), BridgeAction::Deliver(WireEvent::Lagged(1)));
    shutdown.fire(ShutdownCause::Operator);
    assert_eq!(bridge.poll(&mut bus, &shutdown), BridgeAction::Close(CloseReason::Shutdown));
}

#[test]
fn bridge_whose_subscription_was_removed_closes() {
    let shutdown = ShutdownSignal::new();
    let mut bus = EventBus::new(4).expect("the capacity is not zero");
    let mut bridge =
        StreamBridge::attach(&mut bus, &shutdown, LagPolicy::Resume).expect("the bus is open");
    assert!(bus.unsubscribe(bridge.subscriber()));
    assert_eq!(bridge.poll(&mut bus, &shutdown), BridgeAction::Close(CloseReason::Detached));
}

#[test]
fn bridge_is_refused_on_a_closed_bus() {
    let shutdown = ShutdownSignal::new();
    let mut bus = EventBus::new(4).expect("the capacity is not zero");
    bus.close();
    assert!(StreamBridge::attach(&mut bus, &shutdown, LagPolicy::Resume).is_none());
    assert_eq!(bus.recv(0), Received::Detached);
}
