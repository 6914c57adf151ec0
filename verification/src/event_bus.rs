//! The broadcaster of notifications: one producer side, any number of
//! subscribers, each with its own bounded buffer.
//!
//! A subscriber that falls behind loses events, and only that subscriber:
//! when an event arrives at a full buffer, the buffered events are dropped
//! and counted, and the new event starts the buffer afresh. The next receive
//! then yields the count of what was missed, once, and the events that
//! follow it are the ones published after the loss.

use crate::shutdown::ShutdownSignal;
use crate::sse::Notification;
use std::collections::VecDeque;
use vstd::prelude::*;

verus! {

/// What a subscriber gets when it asks for its next event.
#[derive(Debug, PartialEq, Eq)]
pub enum Received {
    /// The oldest buffered event.
    Event(Notification),
    /// The number of events that were dropped since the last receive.
    Lagged(u64),
    /// Nothing is buffered; more may come.
    Empty,
    /// Nothing is buffered, and the bus is closed.
    Closed,
    /// The subscriber is not attached to the bus.
    Detached,
}

/// Why the bus did not take an event.
#[derive(Debug, Clone, Copy, PartialEq, Eq, Structural)]
pub enum BusError {
    /// The bus is closed.
    Closed,
}

/// One subscriber as the bus sees it.
pub struct SubscriberState {
    /// The events waiting to be received, oldest first.
    pub buffer: Seq<Notification>,
    /// The events dropped since the last receive.
    pub missed: u64,
}

impl SubscriberState {
    /// A subscriber that has just been attached.
    pub open spec fn fresh() -> SubscriberState {
        SubscriberState { buffer: Seq::empty(), missed: 0 }
    }

    /// The subscriber after `event` was published. There is room for it as
    /// long as fewer than `capacity` events are buffered. Otherwise the
    /// buffered events are dropped and counted, and the buffer holds the new
    /// event alone.
    pub open spec fn offer(self, event: Notification, capacity: nat) -> SubscriberState {
        if self.buffer.len() < capacity {
            SubscriberState { buffer: self.buffer.push(event), missed: self.missed }
        } else {
            SubscriberState {
                buffer: seq![event],
                missed: if self.missed + self.buffer.len() > u64::MAX {
                    u64::MAX
                } else {
                    (self.missed + self.buffer.len()) as u64
                },
            }
        }
    }

    /// The subscriber after each of `events` was published in turn.
    pub open spec fn offer_all(self, events: Seq<Notification>, capacity: nat) -> SubscriberState
        decreases events.len(),
    {
        if events.len() == 0 {
            self
        } else {
            self.offer_all(events.drop_last(), capacity).offer(events.last(), capacity)
        }
    }

    /// One receive: the count of missed events if there is one, which resets
    /// it; else the oldest buffered event; else `Closed` or `Empty`.
    pub open spec fn receive(self, closed: bool) -> (SubscriberState, Received) {
        if self.missed > 0 {
            (SubscriberState { buffer: self.buffer, missed: 0 }, Received::Lagged(self.missed))
        } else if self.buffer.len() > 0 {
            (
                SubscriberState { buffer: self.buffer.drop_first(), missed: 0 },
                Received::Event(self.buffer[0]),
            )
        } else if closed {
            (self, Received::Closed)
        } else {
            (self, Received::Empty)
        }
    }

    /// What a subscriber receives if it keeps receiving, on an open bus to
    /// which nothing more is published, until nothing is left.
    pub open spec fn drain(self) -> Seq<Received>
        decreases self.buffer.len() + (if self.missed > 0 { 1nat } else { 0nat }),
    {
        if self.missed == 0 && self.buffer.len() == 0 {
            Seq::empty()
        } else {
            seq![self.receive(false).1] + self.receive(false).0.drain()
        }
    }
}

impl SubscriberState {
    /// A subscriber that missed nothing receives what it has buffered, in
    /// order, and nothing else.
    pub proof fn lemma_drain_buffer(self)
        requires
            self.missed == 0,
        ensures
            self.drain() == self.buffer.map_values(|e: Notification| Received::Event(e)),
        decreases self.buffer.len(),
    {
        let events = self.buffer.map_values(|e: Notification| Received::Event(e));
        if self.buffer.len() > 0 {
            let rest = self.receive(false).0;
            rest.lemma_drain_buffer();
            assert(self.drain() =~= events);
        } else {
            assert(self.drain() =~= events);
        }
    }

    /// A subscriber with room for what is published loses nothing: it holds
    /// every event, in the order of publication, behind what it held before.
    pub proof fn lemma_subscriber_with_room_keeps_all(
        self,
        events: Seq<Notification>,
        capacity: nat,
    )
        requires
            self.buffer.len() + events.len() <= capacity,
        ensures
            self.offer_all(events, capacity) == (SubscriberState {
                buffer: self.buffer + events,
                missed: self.missed,
            }),
        decreases events.len(),
    {
        if events.len() == 0 {
            assert(self.buffer + events =~= self.buffer);
        } else {
            self.lemma_subscriber_with_room_keeps_all(events.drop_last(), capacity);
            assert((self.buffer + events.drop_last()).push(events.last()) =~= self.buffer + events);
        }
    }

    proof fn lemma_offer_all_shape(
        held: Seq<Notification>,
        events: Seq<Notification>,
        capacity: nat,
    ) -> (rounds: nat)
        requires
            capacity >= 1,
            held.len() <= capacity,
            held.len() + events.len() <= u64::MAX,
        ensures
            ({
                let s = SubscriberState { buffer: held, missed: 0 }.offer_all(events, capacity);
                &&& s.missed == rounds * capacity
                &&& s.missed + s.buffer.len() == held.len() + events.len()
                &&& s.buffer == (held + events).skip(s.missed as int)
                &&& s.buffer.len() <= capacity
                &&& held.len() + events.len() > 0 ==> s.buffer.len() >= 1
                &&& held.len() + events.len() > capacity ==> rounds >= 1
            }),
        decreases events.len(),
    {
        let start = SubscriberState { buffer: held, missed: 0 };
        if events.len() == 0 {
            assert(held + events =~= held);
            assert(held.skip(0) =~= held);
            assert(0 * capacity == 0) by (nonlinear_arith);
            0
        } else {
            let earlier = events.drop_last();
            let before = start.offer_all(earlier, capacity);
            let rounds = Self::lemma_offer_all_shape(held, earlier, capacity);
            let after = start.offer_all(events, capacity);
            assert(held + events =~= (held + earlier).push(events.last()));
            if before.buffer.len() < capacity {
                assert(after.buffer =~= (held + events).skip(after.missed as int));
                if held.len() + events.len() > capacity {
                    assert(before.missed > 0);
                    assert(rounds >= 1) by {
                        if rounds == 0 {
                            assert(0 * capacity == 0) by (nonlinear_arith);
                        }
                    }
                }
                rounds
            } else {
                assert((rounds + 1) * capacity == rounds * capacity + capacity)
                    by (nonlinear_arith);
                assert(after.buffer =~= (held + events).skip(after.missed as int));
                rounds + 1
            }
        }
    }

    /// A subscriber that stops receiving while more events are published than
    /// its buffer holds gets exactly one count of missed events when it
    /// receives again, and after it the newest events in the order of their
    /// publication, each once. The count is the largest multiple of the
    /// capacity that leaves at least one event, so everything delivered was
    /// published after everything that was dropped, and nothing that the
    /// subscriber held when it stopped is delivered.
    pub proof fn lemma_stalled_subscriber_lags_once(
        held: Seq<Notification>,
        events: Seq<Notification>,
        capacity: nat,
    )
        requires
            capacity >= 1,
            held.len() <= capacity,
            events.len() > capacity,
            held.len() + events.len() <= u64::MAX,
        ensures
            ({
                let all = held + events;
                let missed = capacity * ((all.len() - 1) / (capacity as int));
                let s = SubscriberState { buffer: held, missed: 0 }.offer_all(events, capacity);
                &&& held.len() <= capacity <= missed < all.len()
                &&& all.len() - missed <= capacity
                &&& s.missed == missed
                &&& s.buffer == all.skip(missed)
                &&& s.drain() == seq![Received::Lagged(missed as u64)] + all.skip(
                    missed,
                ).map_values(|e: Notification| Received::Event(e))
            }),
    {
        let all = held + events;
        let s = SubscriberState { buffer: held, missed: 0 }.offer_all(events, capacity);
        let rounds = Self::lemma_offer_all_shape(held, events, capacity);
        let left = s.buffer.len() - 1;
        assert(all.len() - 1 == rounds * capacity + left);
        vstd::arithmetic::div_mod::lemma_fundamental_div_mod_converse_div(
            all.len() - 1,
            capacity as int,
            rounds as int,
            left,
        );
        assert(rounds * capacity == capacity * rounds) by (nonlinear_arith);
        assert(rounds * capacity >= capacity) by (nonlinear_arith)
            requires
                rounds >= 1,
        ;
        let rest = s.receive(false).0;
        rest.lemma_drain_buffer();
        assert(s.drain() =~= seq![Received::Lagged(s.missed)] + rest.drain());
    }
}

/// The bus as its contracts see it.
pub struct BusState {
    /// The number of events that a subscriber's buffer holds at most.
    pub capacity: nat,
    /// The attached subscribers, by their identifiers.
    pub subscribers: Map<u64, SubscriberState>,
    /// The identifier that the next subscriber gets.
    pub next_id: u64,
    /// Whether the bus has been closed.
    pub closed: bool,
}

impl BusState {
    /// What holds of every bus: its subscribers are finitely many, each was
    /// attached under an identifier that is spent, and none has more events
    /// buffered than the capacity allows.
    pub open spec fn wf(self) -> bool {
        &&& self.capacity >= 1
        &&& self.subscribers.dom().finite()
        &&& forall|id: u64| #[trigger]
            self.subscribers.contains_key(id) ==> id < self.next_id
                && self.subscribers[id].buffer.len() <= self.capacity
    }

    /// An open bus without subscribers.
    pub open spec fn empty(capacity: nat) -> BusState {
        BusState { capacity, subscribers: Map::empty(), next_id: 0, closed: false }
    }

    /// The bus after `event` was published: every attached subscriber is
    /// offered the event. A closed bus takes nothing.
    pub open spec fn publish(self, event: Notification) -> BusState {
        if self.closed {
            self
        } else {
            BusState {
                subscribers: self.subscribers.map_values(
                    |s: SubscriberState| s.offer(event, self.capacity),
                ),
                ..self
            }
        }
    }

    /// Whether a new subscriber can be attached: not after shutdown, not to
    /// a closed bus, and not once the identifiers have run out.
    pub open spec fn admits(self, shutdown_fired: bool) -> bool {
        !shutdown_fired && !self.closed && self.next_id < u64::MAX
    }

    /// The bus after a subscriber was attached under the next identifier. It
    /// starts empty: nothing published before reaches it.
    pub open spec fn attach(self) -> BusState {
        BusState {
            subscribers: self.subscribers.insert(self.next_id, SubscriberState::fresh()),
            next_id: (self.next_id + 1) as u64,
            ..self
        }
    }

    /// The bus after the subscriber `id` was detached.
    pub open spec fn detach(self, id: u64) -> BusState {
        BusState { subscribers: self.subscribers.remove(id), ..self }
    }

    /// One receive by the subscriber `id`, which leaves every other
    /// subscriber as it was.
    pub open spec fn receive(self, id: u64) -> (BusState, Received) {
        if self.subscribers.contains_key(id) {
            let (subscriber, received) = self.subscribers[id].receive(self.closed);
            (BusState { subscribers: self.subscribers.insert(id, subscriber), ..self }, received)
        } else {
            (self, Received::Detached)
        }
    }

    /// The bus once closed. What is buffered can still be received.
    pub open spec fn close(self) -> BusState {
        BusState { closed: true, ..self }
    }

    /// The bus after each of `events` was published in turn.
    pub open spec fn publish_all(self, events: Seq<Notification>) -> BusState
        decreases events.len(),
    {
        if events.len() == 0 {
            self
        } else {
            self.publish_all(events.drop_last()).publish(events.last())
        }
    }

    /// What is published on an open bus reaches every attached subscriber,
    /// each through its own buffer: after a sequence of publishes a
    /// subscriber is where the same sequence of offers takes it, whatever
    /// the other subscribers hold.
    pub proof fn lemma_publish_all_offers_each(self, events: Seq<Notification>, id: u64)
        requires
            !self.closed,
            self.subscribers.contains_key(id),
        ensures
            self.publish_all(events).subscribers.contains_key(id),
            self.publish_all(events).subscribers[id] == self.subscribers[id].offer_all(
                events,
                self.capacity,
            ),
            self.publish_all(events).capacity == self.capacity,
            !self.publish_all(events).closed,
        decreases events.len(),
    {
        if events.len() > 0 {
            self.lemma_publish_all_offers_each(events.drop_last(), id);
        }
    }

    /// A receive by one subscriber leaves every other subscriber as it was.
    pub proof fn lemma_receive_leaves_others(self, id: u64, other: u64)
        requires
            id != other,
        ensures
            self.receive(id).0.subscribers.contains_key(other) == self.subscribers.contains_key(
                other,
            ),
            self.receive(id).0.subscribers[other] == self.subscribers[other],
    {
    }
}

struct Mailbox {
    id: u64,
    queue: VecDeque<Notification>,
    missed: u64,
}

impl Mailbox {
    spec fn state(&self) -> SubscriberState {
        SubscriberState { buffer: self.queue@, missed: self.missed }
    }

    fn offer(&mut self, event: Notification, capacity: usize)
        requires
            capacity >= 1,
            old(self).queue@.len() <= capacity,
        ensures
            final(self).id == old(self).id,
            final(self).state() == old(self).state().offer(event, capacity as nat),
            final(self).queue@.len() <= capacity,
    {
        let buffered = self.queue.len();
        if buffered < capacity {
            self.queue.push_back(event);
        } else {
            self.queue.clear();
            self.queue.push_back(event);
            self.missed = self.missed.saturating_add(buffered as u64);
            assert(self.queue@ =~= seq![event]);
        }
    }

    fn receive(&mut self, closed: bool) -> (received: Received)
        ensures
            final(self).id == old(self).id,
            final(self).queue@.len() <= old(self).queue@.len(),
            (final(self).state(), received) == old(self).state().receive(closed),
    {
        if self.missed > 0 {
            let missed = self.missed;
            self.missed = 0;
            Received::Lagged(missed)
        } else {
            match self.queue.pop_front() {
                Some(event) => {
                    assert(self.queue@ =~= old(self).queue@.drop_first());
                    Received::Event(event)
                },
                None => if closed {
                    Received::Closed
                } else {
                    Received::Empty
                },
            }
        }
    }
}

spec fn has_id(boxes: Seq<Mailbox>, id: u64) -> bool {
    exists|i: int| 0 <= i < boxes.len() && (#[trigger] boxes[i]).id == id
}

spec fn slot_of(boxes: Seq<Mailbox>, id: u64) -> int {
    choose|i: int| 0 <= i < boxes.len() && (#[trigger] boxes[i]).id == id
}

spec fn table(boxes: Seq<Mailbox>) -> Map<u64, SubscriberState> {
    Map::new(|id: u64| has_id(boxes, id), |id: u64| boxes[slot_of(boxes, id)].state())
}

spec fn distinct(boxes: Seq<Mailbox>) -> bool {
    forall|i: int, j: int|
        0 <= i < j < boxes.len() ==> (#[trigger] boxes[i]).id != (#[trigger] boxes[j]).id
}

spec fn below(boxes: Seq<Mailbox>, bound: u64) -> bool {
    forall|i: int| 0 <= i < boxes.len() ==> (#[trigger] boxes[i]).id < bound
}

spec fn bounded(boxes: Seq<Mailbox>, capacity: usize) -> bool {
    forall|i: int| 0 <= i < boxes.len() ==> (#[trigger] boxes[i]).queue@.len() <= capacity
}

proof fn lemma_table_lookup(boxes: Seq<Mailbox>, i: int)
    requires
        distinct(boxes),
        0 <= i < boxes.len(),
    ensures
        has_id(boxes, boxes[i].id),
        slot_of(boxes, boxes[i].id) == i,
        table(boxes).contains_key(boxes[i].id),
        table(boxes)[boxes[i].id] == boxes[i].state(),
{
    let id = boxes[i].id;
    let k = slot_of(boxes, id);
    assert(0 <= k < boxes.len() && boxes[k].id == id);
    if k < i {
        assert(boxes[k].id != boxes[i].id);
    } else if i < k {
        assert(boxes[i].id != boxes[k].id);
    }
}

proof fn lemma_table_push(boxes: Seq<Mailbox>, added: Mailbox)
    requires
        distinct(boxes),
        !has_id(boxes, added.id),
    ensures
        distinct(boxes.push(added)),
        table(boxes.push(added)) == table(boxes).insert(added.id, added.state()),
{
    let after = boxes.push(added);
    assert(distinct(after)) by {
        assert forall|i: int, j: int| 0 <= i < j < after.len() implies (#[trigger] after[i]).id != (
        #[trigger] after[j]).id by {
            if j == boxes.len() {
                assert(boxes[i].id != added.id);
            } else {
                assert(boxes[i].id != boxes[j].id);
            }
        }
    }
    assert forall|id: u64| has_id(after, id) <==> (id == added.id || has_id(boxes, id)) by {
        if has_id(after, id) {
            let k = slot_of(after, id);
            if k < boxes.len() {
                assert(boxes[k].id == id);
            }
        }
        if has_id(boxes, id) {
            let k = slot_of(boxes, id);
            assert(after[k].id == id);
        }
        if id == added.id {
            assert(after[boxes.len() as int].id == id);
        }
    }
    assert forall|id: u64| has_id(after, id) implies #[trigger] table(after)[id] == table(
        boxes,
    ).insert(added.id, added.state())[id] by {
        let k = slot_of(after, id);
        lemma_table_lookup(after, k);
        if k < boxes.len() {
            lemma_table_lookup(boxes, k);
        }
    }
    assert(table(after) =~= table(boxes).insert(added.id, added.state()));
}

proof fn lemma_table_remove(boxes: Seq<Mailbox>, at: int)
    requires
        distinct(boxes),
        0 <= at < boxes.len(),
    ensures
        distinct(boxes.remove(at)),
        table(boxes.remove(at)) == table(boxes).remove(boxes[at].id),
{
    let after = boxes.remove(at);
    let gone = boxes[at].id;
    assert forall|k: int| 0 <= k < after.len() implies (#[trigger] after[k]) == boxes[if k < at {
        k
    } else {
        k + 1
    }] by {}
    assert(distinct(after)) by {
        assert forall|i: int, j: int| 0 <= i < j < after.len() implies (#[trigger] after[i]).id != (
        #[trigger] after[j]).id by {
            let a = if i < at { i } else { i + 1 };
            let b = if j < at { j } else { j + 1 };
            assert(boxes[a].id != boxes[b].id);
        }
    }
    assert forall|id: u64| has_id(after, id) <==> (id != gone && has_id(boxes, id)) by {
        if has_id(after, id) {
            let k = slot_of(after, id);
            let a = if k < at { k } else { k + 1 };
            assert(boxes[a].id == id);
            if a < at {
                assert(boxes[a].id != boxes[at].id);
            } else {
                assert(boxes[at].id != boxes[a].id);
            }
        }
        if id != gone && has_id(boxes, id) {
            let k = slot_of(boxes, id);
            let a = if k < at { k } else { k - 1 };
            assert(after[a].id == id);
        }
    }
    assert forall|id: u64| has_id(after, id) implies #[trigger] table(after)[id] == table(
        boxes,
    ).remove(gone)[id] by {
        let k = slot_of(after, id);
        lemma_table_lookup(after, k);
        lemma_table_lookup(boxes, if k < at { k } else { k + 1 });
    }
    assert(table(after) =~= table(boxes).remove(gone));
}

proof fn lemma_table_update(boxes: Seq<Mailbox>, at: int, changed: Mailbox)
    requires
        distinct(boxes),
        0 <= at < boxes.len(),
        changed.id == boxes[at].id,
    ensures
        distinct(boxes.update(at, changed)),
        table(boxes.update(at, changed)) == table(boxes).insert(changed.id, changed.state()),
{
    let after = boxes.update(at, changed);
    assert(distinct(after)) by {
        assert forall|i: int, j: int| 0 <= i < j < after.len() implies (#[trigger] after[i]).id != (
        #[trigger] after[j]).id by {
            assert(boxes[i].id != boxes[j].id);
        }
    }
    assert forall|id: u64| has_id(after, id) <==> has_id(boxes, id) by {
        if has_id(after, id) {
            let k = slot_of(after, id);
            assert(boxes[k].id == id);
        }
        if has_id(boxes, id) {
            let k = slot_of(boxes, id);
            assert(after[k].id == id);
        }
    }
    lemma_table_lookup(boxes, at);
    assert forall|id: u64| has_id(after, id) implies #[trigger] table(after)[id] == table(
        boxes,
    ).insert(changed.id, changed.state())[id] by {
        let k = slot_of(after, id);
        lemma_table_lookup(after, k);
        lemma_table_lookup(boxes, k);
    }
    assert(table(after) =~= table(boxes).insert(changed.id, changed.state()));
}

proof fn lemma_table_offered(
    before: Seq<Mailbox>,
    after: Seq<Mailbox>,
    event: Notification,
    capacity: nat,
)
    requires
        distinct(before),
        after.len() == before.len(),
        forall|i: int|
            0 <= i < before.len() ==> (#[trigger] after[i]).id == before[i].id && after[i].state()
                == before[i].state().offer(event, capacity),
    ensures
        distinct(after),
        table(after) == table(before).map_values(|s: SubscriberState| s.offer(event, capacity)),
{
    assert(distinct(after)) by {
        assert forall|i: int, j: int| 0 <= i < j < after.len() implies (#[trigger] after[i]).id != (
        #[trigger] after[j]).id by {
            assert(before[i].id != before[j].id);
        }
    }
    assert forall|id: u64| has_id(after, id) <==> has_id(before, id) by {
        if has_id(after, id) {
            let k = slot_of(after, id);
            assert(before[k].id == id);
        }
        if has_id(before, id) {
            let k = slot_of(before, id);
            assert(after[k].id == id);
        }
    }
    let mapped = table(before).map_values(|s: SubscriberState| s.offer(event, capacity));
    assert forall|id: u64| has_id(after, id) implies #[trigger] table(after)[id] == mapped[id] by {
        let k = slot_of(after, id);
        lemma_table_lookup(after, k);
        lemma_table_lookup(before, k);
    }
    assert(table(after) =~= mapped);
}

proof fn lemma_table_size(boxes: Seq<Mailbox>)
    requires
        distinct(boxes),
    ensures
        table(boxes).dom().finite(),
        table(boxes).dom().len() == boxes.len(),
    decreases boxes.len(),
{
    if boxes.len() == 0 {
        assert(table(boxes).dom() =~= Set::<u64>::empty());
    } else {
        let front = boxes.drop_last();
        let last = boxes.last();
        assert(distinct(front)) by {
            assert forall|i: int, j: int| 0 <= i < j < front.len() implies (#[trigger] front[i]).id
                != (#[trigger] front[j]).id by {
                assert(boxes[i].id != boxes[j].id);
            }
        }
        if has_id(front, last.id) {
            let k = slot_of(front, last.id);
            assert(boxes[k].id != boxes[boxes.len() - 1].id);
        }
        lemma_table_size(front);
        lemma_table_push(front, last);
        assert(front.push(last) =~= boxes);
        assert(table(boxes).dom() =~= table(front).dom().insert(last.id));
    }
}

/// The broadcaster. Subscribers are known by the identifiers that
/// [`EventBus::subscribe`] hands out.
pub struct EventBus {
    capacity: usize,
    boxes: Vec<Mailbox>,
    next_id: u64,
    closed: bool,
}

impl View for EventBus {
    type V = BusState;

    closed spec fn view(&self) -> BusState {
        BusState {
            capacity: self.capacity as nat,
            subscribers: table(self.boxes@),
            next_id: self.next_id,
            closed: self.closed,
        }
    }
}

impl EventBus {
    #[verifier::type_invariant]
    spec fn inv(self) -> bool {
        &&& self.capacity >= 1
        &&& distinct(self.boxes@)
        &&& below(self.boxes@, self.next_id)
        &&& bounded(self.boxes@, self.capacity)
    }

    proof fn lemma_wf(&self)
        requires
            self.inv(),
        ensures
            self@.wf(),
    {
        lemma_table_size(self.boxes@);
        assert forall|id: u64| #[trigger] self@.subscribers.contains_key(id) implies id
            < self@.next_id && self@.subscribers[id].buffer.len() <= self@.capacity by {
            let k = slot_of(self.boxes@, id);
            assert(self.boxes@[k].id < self.next_id);
            assert(self.boxes@[k].queue@.len() <= self.capacity);
        }
    }

    /// An open bus without subscribers, whose subscribers will each buffer up
    /// to `capacity` events; or `None` for a capacity of zero, since a buffer
    /// has to hold at least one event.
    pub fn new(capacity: usize) -> (bus: Option<EventBus>)
        ensures
            bus is Some <==> capacity >= 1,
            bus matches Some(b) ==> b@ == BusState::empty(capacity as nat) && b@.wf(),
    {
        if capacity == 0 {
            return None;
        }
        let bus = EventBus { capacity, boxes: Vec::new(), next_id: 0, closed: false };
        proof {
            assert(table(bus.boxes@) =~= Map::<u64, SubscriberState>::empty());
            bus.lemma_wf();
        }
        Some(bus)
    }

    fn find(&self, id: u64) -> (slot: Option<usize>)
        ensures
            slot is Some <==> has_id(self.boxes@, id),
            slot matches Some(i) ==> i < self.boxes@.len() && self.boxes@[i as int].id == id,
    {
        let mut i: usize = 0;
        while i < self.boxes.len()
            invariant
                i <= self.boxes@.len(),
                forall|j: int| 0 <= j < i ==> (#[trigger] self.boxes@[j]).id != id,
            decreases self.boxes@.len() - i,
        {
            if self.boxes[i].id == id {
                return Some(i);
            }
            i += 1;
        }
        None
    }

    /// Attaches a new subscriber and returns its identifier, or `None` when
    /// the bus admits none: see [`BusState::admits`].
    pub fn subscribe(&mut self, shutdown: &ShutdownSignal) -> (id: Option<u64>)
        ensures
            id is Some <==> old(self)@.admits(shutdown.fired()),
            id is Some ==> id == Some(old(self)@.next_id) && final(self)@ == old(self)@.attach(),
            id is None ==> final(self)@ == old(self)@,
            final(self)@.wf(),
    {
        proof {
            use_type_invariant(&*self);
            self.lemma_wf();
        }
        if shutdown.is_fired() || self.closed || self.next_id == u64::MAX {
            return None;
        }
        let id = self.next_id;
        let added = Mailbox { id, queue: VecDeque::new(), missed: 0 };
        proof {
            if has_id(self.boxes@, id) {
                let k = slot_of(self.boxes@, id);
                assert(self.boxes@[k].id < self.next_id);
            }
            lemma_table_push(self.boxes@, added);
            assert(below(self.boxes@.push(added), (id + 1) as u64)) by {
                assert forall|i: int| 0 <= i < self.boxes@.push(added).len() implies (
                #[trigger] self.boxes@.push(added)[i]).id < id + 1 by {
                    if i < self.boxes@.len() {
                        assert(self.boxes@[i].id < self.next_id);
                    }
                }
            }
            assert(bounded(self.boxes@.push(added), self.capacity)) by {
                assert forall|i: int| 0 <= i < self.boxes@.push(added).len() implies (
                #[trigger] self.boxes@.push(added)[i]).queue@.len() <= self.capacity by {
                    if i < self.boxes@.len() {
                        assert(self.boxes@[i].queue@.len() <= self.capacity);
                    }
                }
            }
        }
        let mut boxes = Vec::new();
        std::mem::swap(&mut self.boxes, &mut boxes);
        boxes.push(added);
        self.next_id = id + 1;
        self.boxes = boxes;
        proof {
            use_type_invariant(&*self);
            self.lemma_wf();
        }
        Some(id)
    }

    /// Detaches the subscriber `id` and drops what it had buffered. Returns
    /// whether it was attached.
    pub fn unsubscribe(&mut self, id: u64) -> (was_attached: bool)
        ensures
            was_attached == old(self)@.subscribers.contains_key(id),
            final(self)@ == old(self)@.detach(id),
            final(self)@.wf(),
    {
        proof {
            use_type_invariant(&*self);
            self.lemma_wf();
        }
        match self.find(id) {
            Some(i) => {
                proof {
                    lemma_table_remove(self.boxes@, i as int);
                    assert(below(self.boxes@.remove(i as int), self.next_id)) by {
                        assert forall|k: int|
                            0 <= k < self.boxes@.remove(i as int).len() implies (
                        #[trigger] self.boxes@.remove(i as int)[k]).id < self.next_id by {
                            assert(self.boxes@[if k < i { k } else { k + 1 }].id < self.next_id);
                        }
                    }
                    assert(bounded(self.boxes@.remove(i as int), self.capacity)) by {
                        assert forall|k: int|
                            0 <= k < self.boxes@.remove(i as int).len() implies (
                        #[trigger] self.boxes@.remove(i as int)[k]).queue@.len()
                            <= self.capacity by {
                            assert(self.boxes@[if k < i { k } else { k + 1 }].queue@.len()
                                <= self.capacity);
                        }
                    }
                }
                let mut boxes = Vec::new();
                std::mem::swap(&mut self.boxes, &mut boxes);
                boxes.remove(i);
                self.boxes = boxes;
                proof {
                    use_type_invariant(&*self);
                    self.lemma_wf();
                }
                true
            },
            None => {
                assert(self@.subscribers.remove(id) =~= self@.subscribers);
                false
            },
        }
    }

    /// Publishes `event` to every attached subscriber: see
    /// [`BusState::publish`]. A closed bus refuses it.
    pub fn publish(&mut self, event: Notification) -> (taken: Result<(), BusError>)
        ensures
            taken is Ok <==> !old(self)@.closed,
            final(self)@ == old(self)@.publish(event),
            final(self)@.wf(),
    {
        proof {
            use_type_invariant(&*self);
            self.lemma_wf();
        }
        if self.closed {
            return Err(BusError::Closed);
        }
        let capacity = self.capacity;
        let mut boxes = Vec::new();
        std::mem::swap(&mut self.boxes, &mut boxes);
        let ghost before = boxes@;
        let mut i: usize = 0;
        while i < boxes.len()
            invariant
                i <= boxes@.len(),
                boxes@.len() == before.len(),
                capacity >= 1,
                bounded(boxes@, capacity),
                forall|j: int|
                    0 <= j < i ==> (#[trigger] boxes@[j]).id == before[j].id && boxes@[j].state()
                        == before[j].state().offer(event, capacity as nat),
                forall|j: int| i <= j < boxes@.len() ==> boxes@[j] == before[j],
            decreases boxes@.len() - i,
        {
            boxes[i].offer(event.clone(), capacity);
            i += 1;
        }
        proof {
            lemma_table_offered(before, boxes@, event, capacity as nat);
            assert(below(boxes@, self.next_id)) by {
                assert forall|k: int| 0 <= k < boxes@.len() implies (#[trigger] boxes@[k]).id
                    < self.next_id by {
                    assert(before[k].id < self.next_id);
                }
            }
        }
        self.boxes = boxes;
        proof {
            use_type_invariant(&*self);
            self.lemma_wf();
        }
        Ok(())
    }

    /// One receive by the subscriber `id`: see [`BusState::receive`].
    pub fn recv(&mut self, id: u64) -> (received: Received)
        ensures
            (final(self)@, received) == old(self)@.receive(id),
            final(self)@.wf(),
    {
        proof {
            use_type_invariant(&*self);
            self.lemma_wf();
        }
        match self.find(id) {
            Some(i) => {
                let closed = self.closed;
                let mut boxes = Vec::new();
                std::mem::swap(&mut self.boxes, &mut boxes);
                let ghost before = boxes@;
                let received = boxes[i].receive(closed);
                proof {
                    lemma_table_lookup(before, i as int);
                    lemma_table_update(before, i as int, boxes@[i as int]);
                    assert(boxes@ =~= before.update(i as int, boxes@[i as int]));
                    assert(below(boxes@, self.next_id)) by {
                        assert forall|k: int| 0 <= k < boxes@.len() implies (#[trigger] boxes@[k]).id
                            < self.next_id by {
                            assert(before[k].id < self.next_id);
                        }
                    }
                    assert(bounded(boxes@, self.capacity)) by {
                        assert forall|k: int| 0 <= k < boxes@.len() implies (
                        #[trigger] boxes@[k]).queue@.len() <= self.capacity by {
                            assert(before[k].queue@.len() <= self.capacity);
                        }
                    }
                }
                self.boxes = boxes;
                proof {
                    use_type_invariant(&*self);
                    self.lemma_wf();
                }
                received
            },
            None => Received::Detached,
        }
    }

    /// The number of events that a subscriber's buffer holds at most.
    pub fn capacity(&self) -> (capacity: usize)
        ensures
            capacity == self@.capacity,
    {
        self.capacity
    }

    /// Whether the bus has been closed.
    pub fn is_closed(&self) -> (closed: bool)
        ensures
            closed == self@.closed,
    {
        self.closed
    }

    /// The number of attached subscribers.
    pub fn subscriber_count(&self) -> (count: usize)
        ensures
            count == self@.subscribers.len(),
    {
        proof {
            use_type_invariant(self);
            lemma_table_size(self.boxes@);
        }
        self.boxes.len()
    }

    /// Whether the subscriber `id` is attached.
    pub fn is_attached(&self, id: u64) -> (attached: bool)
        ensures
            attached == self@.subscribers.contains_key(id),
    {
        self.find(id).is_some()
    }

    /// The number of events that wait for the subscriber `id`, if it is
    /// attached.
    pub fn pending(&self, id: u64) -> (pending: Option<usize>)
        ensures
            pending is Some <==> self@.subscribers.contains_key(id),
            pending matches Some(n) ==> n == self@.subscribers[id].buffer.len(),
    {
        proof {
            use_type_invariant(self);
        }
        match self.find(id) {
            Some(i) => {
                proof {
                    lemma_table_lookup(self.boxes@, i as int);
                }
                Some(self.boxes[i].queue.len())
            },
            None => None,
        }
    }

    /// The number of events that the subscriber `id` has missed since its
    /// last receive, if it is attached.
    pub fn missed(&self, id: u64) -> (missed: Option<u64>)
        ensures
            missed is Some <==> self@.subscribers.contains_key(id),
            missed matches Some(n) ==> n == self@.subscribers[id].missed,
    {
        proof {
            use_type_invariant(self);
        }
        match self.find(id) {
            Some(i) => {
                proof {
                    lemma_table_lookup(self.boxes@, i as int);
                }
                Some(self.boxes[i].missed)
            },
            None => None,
        }
    }

    /// Closes the bus: nothing more is published, and no subscriber is
    /// attached. What is buffered can still be received.
    pub fn close(&mut self)
        ensures
            final(self)@ == old(self)@.close(),
            final(self)@.wf(),
    {
        proof {
            use_type_invariant(&*self);
        }
        self.closed = true;
        proof {
            use_type_invariant(&*self);
            self.lemma_wf();
        }
    }
}

} // verus!
