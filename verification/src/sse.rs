//! The notifications that the service pushes to its clients, and the bridge
//! that turns one subscription to the bus into one client's stream.

use crate::event_bus::{BusState, EventBus, Received};
use crate::shutdown::ShutdownSignal;
use vstd::prelude::*;

verus! {

/// A recipe was added.
#[derive(Debug, PartialEq, Eq)]
pub struct NewRecipe {
    /// The recipe's name.
    pub name: String,
}

impl Clone for NewRecipe {
    fn clone(&self) -> (copy: NewRecipe)
        ensures
            copy == *self,
    {
        NewRecipe { name: self.name.clone() }
    }
}

/// A domain event, broadcast by value to every attached client.
#[derive(Debug, PartialEq, Eq)]
pub enum Notification {
    /// A recipe was added.
    NewRecipe(NewRecipe),
}

impl Clone for Notification {
    fn clone(&self) -> (copy: Notification)
        ensures
            copy == *self,
    {
        match self {
            Notification::NewRecipe(recipe) => Notification::NewRecipe(recipe.clone()),
        }
    }
}

impl Notification {
    /// The kind of the notification as clients see it.
    pub open spec fn kind(&self) -> Seq<char> {
        match self {
            Notification::NewRecipe(_) => "new_recipe"@,
        }
    }

    /// The notification that the recipe `name` was added.
    pub fn new_recipe(name: String) -> (notification: Notification)
        ensures
            notification == Notification::NewRecipe(NewRecipe { name }),
    {
        Notification::NewRecipe(NewRecipe { name })
    }

    /// The name under which the notification is sent to clients.
    pub fn name(&self) -> (name: &'static str)
        ensures
            name@ == self.kind(),
    {
        match self {
            Notification::NewRecipe(_) => "new_recipe",
        }
    }
}

/// One unit of a client's stream: a named event with its payload.
#[derive(Debug, PartialEq, Eq)]
pub enum WireEvent {
    /// A notification, sent under its own name.
    Notification(Notification),
    /// The number of notifications that this client missed.
    Lagged(u64),
}

impl WireEvent {
    /// The name under which the unit is sent.
    pub open spec fn kind(&self) -> Seq<char> {
        match self {
            WireEvent::Notification(notification) => notification.kind(),
            WireEvent::Lagged(_) => "lagged"@,
        }
    }

    /// The name under which the unit is sent.
    pub fn name(&self) -> (name: &'static str)
        ensures
            name@ == self.kind(),
    {
        match self {
            WireEvent::Notification(notification) => notification.name(),
            WireEvent::Lagged(_) => "lagged",
        }
    }
}

/// What a bridge does once it has told its client of a loss.
#[derive(Clone, Copy, Debug, PartialEq, Eq, Structural)]
pub enum LagPolicy {
    /// Go on with the events that are left.
    Resume,
    /// Close the stream.
    Close,
}

/// Why a bridge closed its stream.
#[derive(Clone, Copy, Debug, PartialEq, Eq, Structural)]
pub enum CloseReason {
    /// The bus was closed and nothing was left to deliver.
    BusClosed,
    /// A delivery to the client failed.
    ConsumerGone,
    /// The shutdown signal fired.
    Shutdown,
    /// The client fell behind, and the bridge closes on that.
    Lagged,
    /// The subscription was taken off the bus by someone else.
    Detached,
}

/// Where a bridge stands.
#[derive(Clone, Copy, Debug, PartialEq, Eq, Structural)]
pub enum BridgeStatus {
    /// Events are pumped to the client.
    Active,
    /// The client has been told of a loss, and the stream closes next.
    Closing,
    /// The stream is closed and the subscription released.
    Closed(CloseReason),
}

/// What the bridge asks of the code that owns the connection.
#[derive(Debug, PartialEq, Eq)]
pub enum BridgeAction {
    /// Send this to the client, and report a failure to do so with
    /// [`StreamBridge::delivery_failed`].
    Deliver(WireEvent),
    /// Nothing to send now: wait for the next publish, for the bus to close
    /// or for shutdown, and ask again.
    Wait,
    /// The stream has ended for the given reason; the subscription is
    /// released.
    Close(CloseReason),
}

/// A bridge as its contracts see it.
pub struct BridgeState {
    /// The identifier of the bridge's subscription.
    pub subscriber: u64,
    /// What the bridge does after a loss.
    pub policy: LagPolicy,
    /// Where the bridge stands.
    pub status: BridgeStatus,
}

impl BridgeState {
    /// The end of the stream: the subscription is released and the reason
    /// recorded.
    pub open spec fn terminate(self, bus: BusState, reason: CloseReason) -> (
        BridgeState,
        BusState,
        BridgeAction,
    ) {
        (
            BridgeState { status: BridgeStatus::Closed(reason), ..self },
            bus.detach(self.subscriber),
            BridgeAction::Close(reason),
        )
    }

    /// What the bridge does with what its subscription yielded.
    pub open spec fn forward(self, bus: BusState, received: Received) -> (
        BridgeState,
        BusState,
        BridgeAction,
    ) {
        match received {
            Received::Event(notification) => (
                self,
                bus,
                BridgeAction::Deliver(WireEvent::Notification(notification)),
            ),
            Received::Lagged(missed) => (
                BridgeState {
                    status: if self.policy == LagPolicy::Close {
                        BridgeStatus::Closing
                    } else {
                        BridgeStatus::Active
                    },
                    ..self
                },
                bus,
                BridgeAction::Deliver(WireEvent::Lagged(missed)),
            ),
            Received::Empty => (self, bus, BridgeAction::Wait),
            Received::Closed => self.terminate(bus, CloseReason::BusClosed),
            Received::Detached => self.terminate(bus, CloseReason::Detached),
        }
    }

    /// One step of the pump, on the bus as it is and the shutdown signal as
    /// it stands. A closed bridge stays closed and touches nothing. Shutdown
    /// ends the stream before anything else is looked at. A bridge that is
    /// closing after a loss closes. Otherwise the next thing that the
    /// subscription yields decides.
    pub open spec fn poll(self, bus: BusState, shutdown_fired: bool) -> (
        BridgeState,
        BusState,
        BridgeAction,
    ) {
        match self.status {
            BridgeStatus::Closed(reason) => (self, bus, BridgeAction::Close(reason)),
            BridgeStatus::Closing => if shutdown_fired {
                self.terminate(bus, CloseReason::Shutdown)
            } else {
                self.terminate(bus, CloseReason::Lagged)
            },
            BridgeStatus::Active => if shutdown_fired {
                self.terminate(bus, CloseReason::Shutdown)
            } else {
                self.forward(bus.receive(self.subscriber).0, bus.receive(self.subscriber).1)
            },
        }
    }

    /// A delivery failed: the client is gone, and the stream ends. A closed
    /// bridge stays as it is.
    pub open spec fn delivery_failed(self, bus: BusState) -> (
        BridgeState,
        BusState,
        BridgeAction,
    ) {
        match self.status {
            BridgeStatus::Closed(reason) => (self, bus, BridgeAction::Close(reason)),
            _ => self.terminate(bus, CloseReason::ConsumerGone),
        }
    }

    /// Once the shutdown signal has fired, a bridge that is asked again ends
    /// its stream in that one step and releases its subscription, and the
    /// bus admits no new subscriber.
    pub proof fn lemma_shutdown_ends_stream(self, bus: BusState)
        ensures
            self.poll(bus, true).2 is Close,
            self.poll(bus, true).0.status is Closed,
            !(self.status is Closed) ==> !self.poll(bus, true).1.subscribers.contains_key(
                self.subscriber,
            ),
            !bus.admits(true),
            !self.poll(bus, true).1.admits(true),
    {
    }

    /// Nothing is delivered once a stream has ended: a closed bridge answers
    /// with the reason it closed for, and leaves the bus as it is.
    pub proof fn lemma_closed_stays_closed(self, bus: BusState, shutdown_fired: bool)
        requires
            self.status is Closed,
        ensures
            self.poll(bus, shutdown_fired) == (
                self,
                bus,
                BridgeAction::Close(self.status->Closed_0),
            ),
            self.delivery_failed(bus) == (self, bus, BridgeAction::Close(self.status->Closed_0)),
    {
    }
}

/// The pump between one subscription and one client.
pub struct StreamBridge {
    subscriber: u64,
    policy: LagPolicy,
    status: BridgeStatus,
}

impl View for StreamBridge {
    type V = BridgeState;

    closed spec fn view(&self) -> BridgeState {
        BridgeState { subscriber: self.subscriber, policy: self.policy, status: self.status }
    }
}

impl StreamBridge {
    /// Subscribes to the bus and returns the bridge for the subscription, or
    /// `None` when the bus admits no subscriber: after shutdown, and once it
    /// is closed.
    pub fn attach(bus: &mut EventBus, shutdown: &ShutdownSignal, policy: LagPolicy) -> (bridge:
        Option<StreamBridge>)
        ensures
            bridge is Some <==> old(bus)@.admits(shutdown.fired()),
            bridge matches Some(b) ==> final(bus)@ == old(bus)@.attach() && b@ == (BridgeState {
                subscriber: old(bus)@.next_id,
                policy,
                status: BridgeStatus::Active,
            }),
            bridge is None ==> final(bus)@ == old(bus)@,
    {
        match bus.subscribe(shutdown) {
            Some(subscriber) => Some(
                StreamBridge { subscriber, policy, status: BridgeStatus::Active },
            ),
            None => None,
        }
    }

    /// The identifier of the bridge's subscription.
    pub fn subscriber(&self) -> (id: u64)
        ensures
            id == self@.subscriber,
    {
        self.subscriber
    }

    /// Where the bridge stands.
    pub fn status(&self) -> (status: BridgeStatus)
        ensures
            status == self@.status,
    {
        self.status
    }

    /// What the bridge does after a loss.
    pub fn policy(&self) -> (policy: LagPolicy)
        ensures
            policy == self@.policy,
    {
        self.policy
    }

    /// The reason the stream ended for, once it has.
    pub fn close_reason(&self) -> (reason: Option<CloseReason>)
        ensures
            reason == (match self@.status {
                BridgeStatus::Closed(r) => Some(r),
                _ => None,
            }),
    {
        match self.status {
            BridgeStatus::Closed(reason) => Some(reason),
            _ => None,
        }
    }

    fn terminate(&mut self, bus: &mut EventBus, reason: CloseReason) -> (action: BridgeAction)
        ensures
            (final(self)@, final(bus)@, action) == old(self)@.terminate(old(bus)@, reason),
    {
        bus.unsubscribe(self.subscriber);
        self.status = BridgeStatus::Closed(reason);
        BridgeAction::Close(reason)
    }

    /// One step of the pump: see [`BridgeState::poll`].
    pub fn poll(&mut self, bus: &mut EventBus, shutdown: &ShutdownSignal) -> (action: BridgeAction)
        ensures
            (final(self)@, final(bus)@, action) == old(self)@.poll(old(bus)@, shutdown.fired()),
    {
        match self.status {
            BridgeStatus::Closed(reason) => BridgeAction::Close(reason),
            BridgeStatus::Closing => {
                if shutdown.is_fired() {
                    self.terminate(bus, CloseReason::Shutdown)
                } else {
                    self.terminate(bus, CloseReason::Lagged)
                }
            },
            BridgeStatus::Active => {
                if shutdown.is_fired() {
                    self.terminate(bus, CloseReason::Shutdown)
                } else {
                    match bus.recv(self.subscriber) {
                        Received::Event(notification) => BridgeAction::Deliver(
                            WireEvent::Notification(notification),
                        ),
                        Received::Lagged(missed) => {
                            if self.policy == LagPolicy::Close {
                                self.status = BridgeStatus::Closing;
                            }
                            BridgeAction::Deliver(WireEvent::Lagged(missed))
                        },
                        Received::Empty => BridgeAction::Wait,
                        Received::Closed => self.terminate(bus, CloseReason::BusClosed),
                        Received::Detached => self.terminate(bus, CloseReason::Detached),
                    }
                }
            },
        }
    }

    /// Tells the bridge that a delivery failed: see
    /// [`BridgeState::delivery_failed`].
    pub fn delivery_failed(&mut self, bus: &mut EventBus) -> (action: BridgeAction)
        ensures
            (final(self)@, final(bus)@, action) == old(self)@.delivery_failed(old(bus)@),
    {
        match self.status {
            BridgeStatus::Closed(reason) => BridgeAction::Close(reason),
            _ => self.terminate(bus, CloseReason::ConsumerGone),
        }
    }
}

} // verus!
