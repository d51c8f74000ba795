//! A broadcast bus: every message that is published reaches every consumer
//! that has subscribed, in the order of publication, through a bounded
//! queue of the consumer's own.

use crate::module::Message;
use std::collections::VecDeque;
use vstd::prelude::*;

verus! {

/// What can travel on the bus: a value of which an equal second one can be
/// made for each consumer.
pub trait Payload: Sized {
    fn duplicate(&self) -> (r: Self)
        ensures
            r == *self,
    ;
}

impl Payload for Message {
    fn duplicate(&self) -> (r: Self) {
        self.clone()
    }
}

/// What producers put on the bus.
#[derive(Debug)]
pub enum BusMessage<T> {
    Message(T),
    Close,
}

/// One consumer's queue, as the bus's model sees it.
pub struct QueueView<T> {
    /// What has been delivered and not yet received, oldest first.
    pub pending: Seq<T>,
    /// Whether the consumer has gone.
    pub dropped: bool,
}

/// The bus's model.
pub struct BusView<T> {
    /// How many messages a queue holds at most.
    pub capacity: nat,
    /// What producers have sent and the bus has not yet taken up.
    pub ingress: Seq<BusMessage<T>>,
    /// The consumers' queues, in the order in which they subscribed.
    pub queues: Seq<QueueView<T>>,
    /// Whether the bus has stopped.
    pub closed: bool,
}

/// One thing that happens on a running bus.
pub enum BusEvent<T> {
    /// The bus publishes a message.
    Publish(T),
    /// A consumer subscribes.
    Subscribe,
    /// The consumer with this number receives.
    Receive(int),
    /// The consumer with this number goes.
    Leave(int),
}

impl<T> BusView<T> {
    /// A bus without consumers or messages.
    pub open spec fn fresh(capacity: nat) -> BusView<T> {
        BusView { capacity, ingress: Seq::empty(), queues: Seq::empty(), closed: false }
    }

    /// No queue holds more than the capacity.
    pub open spec fn bounded(self) -> bool {
        &&& self.ingress.len() <= self.capacity
        &&& forall|j: int|
            0 <= j < self.queues.len() ==> (#[trigger] self.queues[j]).pending.len()
                <= self.capacity
    }

    /// Whether consumer `j` is there.
    pub open spec fn is_live(self, j: int) -> bool {
        0 <= j < self.queues.len() && !self.queues[j].dropped
    }

    /// Whether consumer `j` is there and its queue is full.
    pub open spec fn is_full(self, j: int) -> bool {
        self.is_live(j) && self.queues[j].pending.len() >= self.capacity
    }

    /// The number of the first consumer at or after `from` whose queue is
    /// full; the number of consumers if there is none.
    pub open spec fn first_full_from(self, from: int) -> int
        decreases self.queues.len() - from,
    {
        if from < 0 || from >= self.queues.len() {
            self.queues.len() as int
        } else if self.is_full(from) {
            from
        } else {
            self.first_full_from(from + 1)
        }
    }

    /// The queues after `msg` has been delivered to the first `n`
    /// consumers: it stands at the end of the queue of each of them that is
    /// there.
    pub open spec fn delivered(self, msg: T, n: int) -> Seq<QueueView<T>> {
        Seq::new(
            self.queues.len(),
            |j: int|
                if j < n && !self.queues[j].dropped {
                    QueueView { pending: self.queues[j].pending.push(msg), ..self.queues[j] }
                } else {
                    self.queues[j]
                },
        )
    }

    /// The bus after it has published `msg`: the message is delivered to
    /// the consumers in the order in which they subscribed. A consumer
    /// that has gone is passed over. At the first consumer whose queue is
    /// full the bus stops, and the consumers from that one on do not get
    /// the message.
    pub open spec fn published(self, msg: T) -> BusView<T> {
        let stop = self.first_full_from(0);
        BusView { queues: self.delivered(msg, stop), closed: stop < self.queues.len(), ..self }
    }

    /// The bus after a consumer has subscribed: it has one more queue, which
    /// is empty.
    pub open spec fn subscribed(self) -> BusView<T> {
        BusView {
            queues: self.queues.push(QueueView { pending: Seq::empty(), dropped: false }),
            ..self
        }
    }

    /// What consumer `j` receives next, if anything.
    pub open spec fn next_for(self, j: int) -> Option<T> {
        if self.is_live(j) && self.queues[j].pending.len() > 0 {
            Some(self.queues[j].pending[0])
        } else {
            None
        }
    }

    /// The bus after consumer `j` has received: the oldest message has left
    /// its queue.
    pub open spec fn received(self, j: int) -> BusView<T> {
        if self.next_for(j) is Some {
            BusView {
                queues: self.queues.update(
                    j,
                    QueueView { pending: self.queues[j].pending.drop_first(), ..self.queues[j] },
                ),
                ..self
            }
        } else {
            self
        }
    }

    /// The bus after consumer `j` has gone: its queue is empty and takes
    /// nothing more.
    pub open spec fn left(self, j: int) -> BusView<T> {
        if 0 <= j < self.queues.len() {
            BusView {
                queues: self.queues.update(j, QueueView { pending: Seq::empty(), dropped: true }),
                ..self
            }
        } else {
            self
        }
    }

    /// The bus after a producer has sent `item`, where it was taken.
    pub open spec fn sent(self, item: BusMessage<T>) -> BusView<T> {
        BusView { ingress: self.ingress.push(item), ..self }
    }

    /// Whether the bus takes what a producer sends.
    pub open spec fn takes(self) -> bool {
        !self.closed && self.ingress.len() < self.capacity
    }

    /// The bus after it has worked through what producers have sent: each
    /// message is published in turn, until nothing is left, a producer has
    /// asked to close, or a queue was full. A bus that has stopped does
    /// nothing more.
    pub open spec fn started(self) -> BusView<T>
        decreases self.ingress.len(),
    {
        if self.closed || self.ingress.len() == 0 {
            self
        } else {
            let rest = BusView { ingress: self.ingress.drop_first(), ..self };
            match self.ingress[0] {
                BusMessage::Close => BusView { closed: true, ..rest },
                BusMessage::Message(msg) => rest.published(msg).started(),
            }
        }
    }

    /// The bus after one event. A bus that has stopped publishes nothing.
    pub open spec fn after(self, event: BusEvent<T>) -> BusView<T> {
        match event {
            BusEvent::Publish(msg) => if self.closed {
                self
            } else {
                self.published(msg)
            },
            BusEvent::Subscribe => self.subscribed(),
            BusEvent::Receive(j) => self.received(j),
            BusEvent::Leave(j) => self.left(j),
        }
    }

    /// The bus after a sequence of events.
    pub open spec fn after_all(self, events: Seq<BusEvent<T>>) -> BusView<T>
        decreases events.len(),
    {
        if events.len() == 0 {
            self
        } else {
            self.after_all(events.drop_last()).after(events.last())
        }
    }

    /// The messages that consumer `i` receives in the course of `events`,
    /// in the order in which it receives them.
    pub open spec fn taken_by(self, events: Seq<BusEvent<T>>, i: int) -> Seq<T>
        decreases events.len(),
    {
        if events.len() == 0 {
            Seq::empty()
        } else {
            let before = self.taken_by(events.drop_last(), i);
            match events.last() {
                BusEvent::Receive(j) => if j == i {
                    match self.after_all(events.drop_last()).next_for(i) {
                        Some(msg) => before.push(msg),
                        None => before,
                    }
                } else {
                    before
                },
                _ => before,
            }
        }
    }
}

/// The messages that are published in the course of `events`, in order.
pub open spec fn publications<T>(events: Seq<BusEvent<T>>) -> Seq<T>
    decreases events.len(),
{
    if events.len() == 0 {
        Seq::empty()
    } else {
        match events.last() {
            BusEvent::Publish(msg) => publications(events.drop_last()).push(msg),
            _ => publications(events.drop_last()),
        }
    }
}

/// Whether consumer `i` goes in the course of `events`.
pub open spec fn leaves<T>(events: Seq<BusEvent<T>>, i: int) -> bool {
    exists|k: int| 0 <= k < events.len() && #[trigger] events[k] == BusEvent::<T>::Leave(i)
}

/// The first full queue from `from` on is where `first_full_from` says,
/// and no queue before it is full.
proof fn lemma_first_full_from<T>(bus: BusView<T>, from: int)
    requires
        0 <= from <= bus.queues.len(),
    ensures
        from <= bus.first_full_from(from) <= bus.queues.len(),
        bus.first_full_from(from) < bus.queues.len() ==> bus.is_full(bus.first_full_from(from)),
        forall|j: int| from <= j < bus.first_full_from(from) ==> !bus.is_full(j),
    decreases bus.queues.len() - from,
{
    if from < bus.queues.len() && !bus.is_full(from) {
        lemma_first_full_from(bus, from + 1);
    }
}

/// A bus that has stopped stays stopped, and consumers keep their numbers.
proof fn lemma_after_all_keeps<T>(bus: BusView<T>, events: Seq<BusEvent<T>>)
    ensures
        bus.closed ==> bus.after_all(events).closed,
        bus.queues.len() <= bus.after_all(events).queues.len(),
        bus.after_all(events).capacity == bus.capacity,
    decreases events.len(),
{
    if events.len() > 0 {
        lemma_after_all_keeps(bus, events.drop_last());
        let before = bus.after_all(events.drop_last());
        match events.last() {
            BusEvent::Publish(msg) => {
                lemma_first_full_from(before, 0);
            },
            _ => {},
        }
    }
}

/// The messages that reach consumer `i` in the course of `events`, in
/// order: those that are published while the bus runs and no queue before
/// the consumer's, nor its own, is full.
pub open spec fn deliveries<T>(bus: BusView<T>, events: Seq<BusEvent<T>>, i: int) -> Seq<T>
    decreases events.len(),
{
    if events.len() == 0 {
        Seq::empty()
    } else {
        let earlier = deliveries(bus, events.drop_last(), i);
        let before = bus.after_all(events.drop_last());
        match events.last() {
            BusEvent::Publish(msg) => if !before.closed && i < before.first_full_from(0) {
                earlier.push(msg)
            } else {
                earlier
            },
            _ => earlier,
        }
    }
}

/// For a consumer that is there before `events` and does not go in their
/// course, what it has received in their course, followed by what waits in
/// its queue afterwards, is what waited in its queue before, followed by
/// the messages that reached it, in the order of their publication.
pub proof fn lemma_consumer_gets_deliveries<T>(bus: BusView<T>, events: Seq<BusEvent<T>>, i: int)
    requires
        bus.is_live(i),
        !leaves(events, i),
    ensures
        bus.after_all(events).is_live(i),
        bus.taken_by(events, i) + bus.after_all(events).queues[i].pending == bus.queues[i].pending
            + deliveries(bus, events, i),
    decreases events.len(),
{
    if events.len() == 0 {
        assert(bus.taken_by(events, i) + bus.queues[i].pending =~= bus.queues[i].pending
            + deliveries(bus, events, i));
    } else {
        let earlier = events.drop_last();
        let before = bus.after_all(earlier);
        let last = events.last();
        assert(!leaves(earlier, i)) by {
            if leaves(earlier, i) {
                let k = choose|k: int|
                    0 <= k < earlier.len() && #[trigger] earlier[k] == BusEvent::<T>::Leave(i);
                assert(events[k] == BusEvent::<T>::Leave(i));
            }
        }
        lemma_consumer_gets_deliveries(bus, earlier, i);
        let taken = bus.taken_by(earlier, i);
        let waiting = before.queues[i].pending;
        let after = before.after(last);
        match last {
            BusEvent::Publish(msg) => {
                lemma_first_full_from(before, 0);
                if !before.closed && i < before.first_full_from(0) {
                    assert(after.queues[i].pending == waiting.push(msg));
                    assert(taken + waiting.push(msg) =~= (taken + waiting).push(msg));
                    assert((bus.queues[i].pending + deliveries(bus, earlier, i)).push(msg)
                        =~= bus.queues[i].pending + deliveries(bus, earlier, i).push(msg));
                } else {
                    assert(after.queues[i].pending == waiting);
                }
            },
            BusEvent::Subscribe => {},
            BusEvent::Receive(j) => {
                if j == i && waiting.len() > 0 {
                    assert(taken.push(waiting[0]) + waiting.drop_first() =~= taken + waiting);
                }
            },
            BusEvent::Leave(j) => {
                assert(events[events.len() - 1] == last);
                assert(j != i);
            },
        }
    }
}

/// On a bus that still runs after `events`, every message published in
/// their course has reached every consumer that was there before them.
pub proof fn lemma_running_bus_delivers_all<T>(bus: BusView<T>, events: Seq<BusEvent<T>>, i: int)
    requires
        0 <= i < bus.queues.len(),
        !bus.after_all(events).closed,
    ensures
        deliveries(bus, events, i) == publications(events),
    decreases events.len(),
{
    if events.len() > 0 {
        let earlier = events.drop_last();
        let before = bus.after_all(earlier);
        let last = events.last();
        assert(!before.closed) by {
            if before.closed {
                lemma_after_all_keeps(before, seq![last]);
                assert(seq![last].drop_last() =~= Seq::<BusEvent<T>>::empty());
                assert(before.after_all(seq![last]) == before.after(last));
            }
        }
        lemma_running_bus_delivers_all(bus, earlier, i);
        lemma_after_all_keeps(bus, earlier);
        lemma_first_full_from(before, 0);
    }
}

/// Every consumer receives exactly the messages that are published while
/// it is subscribed, in the order of publication: for a consumer that is
/// there before `events` and does not go in their course, and a bus that
/// still runs after them, what the consumer has received in their course,
/// followed by what waits in its queue, is what waited in its queue
/// before, followed by the messages published in their course.
pub proof fn lemma_consumer_gets_publications<T>(
    bus: BusView<T>,
    events: Seq<BusEvent<T>>,
    i: int,
)
    requires
        bus.is_live(i),
        !leaves(events, i),
        !bus.after_all(events).closed,
    ensures
        bus.after_all(events).is_live(i),
        bus.taken_by(events, i) + bus.after_all(events).queues[i].pending == bus.queues[i].pending
            + publications(events),
{
    lemma_consumer_gets_deliveries(bus, events, i);
    lemma_running_bus_delivers_all(bus, events, i);
}

/// A consumer that subscribes receives the messages published from then
/// on, and no other.
pub proof fn lemma_new_consumer_gets_later_publications<T>(
    bus: BusView<T>,
    events: Seq<BusEvent<T>>,
)
    requires
        !leaves(events, bus.queues.len() as int),
        !bus.subscribed().after_all(events).closed,
    ensures
        ({
            let i = bus.queues.len() as int;
            let joined = bus.subscribed();
            joined.taken_by(events, i) + joined.after_all(events).queues[i].pending
                == publications(events)
        }),
{
    let i = bus.queues.len() as int;
    lemma_consumer_gets_publications(bus.subscribed(), events, i);
    assert(Seq::<T>::empty() + publications(events) =~= publications(events));
}

/// A consumer that has gone receives nothing more.
pub proof fn lemma_gone_consumer_gets_nothing<T>(bus: BusView<T>, events: Seq<BusEvent<T>>, i: int)
    requires
        0 <= i < bus.queues.len(),
    ensures
        bus.left(i).taken_by(events, i) == Seq::<T>::empty(),
        bus.left(i).after_all(events).queues[i].pending == Seq::<T>::empty(),
        bus.left(i).after_all(events).queues[i].dropped,
    decreases events.len(),
{
    if events.len() > 0 {
        lemma_gone_consumer_gets_nothing(bus, events.drop_last(), i);
        lemma_after_all_keeps(bus.left(i), events.drop_last());
        let before = bus.left(i).after_all(events.drop_last());
        match events.last() {
            BusEvent::Publish(msg) => {
                lemma_first_full_from(before, 0);
            },
            _ => {},
        }
    }
}

/// Publishing keeps every queue within the capacity.
pub proof fn lemma_published_is_bounded<T>(bus: BusView<T>, msg: T)
    requires
        bus.bounded(),
    ensures
        bus.published(msg).bounded(),
{
    lemma_first_full_from(bus, 0);
    let after = bus.published(msg);
    assert forall|j: int| 0 <= j < after.queues.len() implies (#[trigger] after.queues[j]).pending.len()
        <= after.capacity by {
        assert(bus.queues[j].pending.len() <= bus.capacity);
        if j < bus.first_full_from(0) {
            assert(!bus.is_full(j));
        }
    }
}

/// One consumer's queue.
struct Subscriber<T> {
    pending: VecDeque<T>,
    dropped: bool,
}

impl<T> View for Subscriber<T> {
    type V = QueueView<T>;

    closed spec fn view(&self) -> QueueView<T> {
        QueueView { pending: self.pending@, dropped: self.dropped }
    }
}

/// The bus.
pub struct MessageBus<T> {
    capacity: usize,
    ingress: VecDeque<BusMessage<T>>,
    queues: Vec<Subscriber<T>>,
    closed: bool,
}

impl<T> View for MessageBus<T> {
    type V = BusView<T>;

    closed spec fn view(&self) -> BusView<T> {
        BusView {
            capacity: self.capacity as nat,
            ingress: self.ingress@,
            queues: self.queues@.map_values(|s: Subscriber<T>| s@),
            closed: self.closed,
        }
    }
}

/// A consumer's handle: the number under which it subscribed.
#[derive(Debug)]
pub struct BusRx {
    pub number: usize,
}

/// What a consumer gets when it asks for its next message.
#[derive(Debug, PartialEq, Eq)]
pub enum Received<T> {
    /// The oldest message of its queue.
    Message(T),
    /// Nothing yet.
    Empty,
    /// Nothing, and nothing will come: the bus has stopped, or the consumer
    /// is not subscribed.
    Closed,
}

/// Why the bus did not take what a producer sent. The item comes back.
#[derive(Debug, PartialEq, Eq)]
pub enum SendError<T> {
    /// The bus holds as much as it can: send again once it has run.
    Full(T),
    /// The bus has stopped.
    Closed(T),
}

impl<T: Payload> MessageBus<T> {
    /// A bus whose queues hold `capacity` messages each.
    pub fn new(capacity: usize) -> (r: Self)
        ensures
            r@ == BusView::<T>::fresh(capacity as nat),
    {
        let r = MessageBus { capacity, ingress: VecDeque::new(), queues: Vec::new(), closed: false };
        assert(r@.queues =~= Seq::<QueueView<T>>::empty());
        r
    }

    /// A handle for a producer.
    pub fn add_tx(&mut self) -> (r: BusTx)
        ensures
            final(self)@ == old(self)@,
    {
        BusTx {  }
    }

    /// Subscribes a consumer. It will receive what is published from now
    /// on.
    pub fn add_rx(&mut self) -> (r: BusRx)
        ensures
            final(self)@ == old(self)@.subscribed(),
            r.number == old(self)@.queues.len(),
    {
        let number = self.queues.len();
        self.queues.push(Subscriber { pending: VecDeque::new(), dropped: false });
        assert(self@.queues =~= old(self)@.subscribed().queues);
        BusRx { number }
    }

    /// Publishes one message.
    fn publish(&mut self, msg: T)
        requires
            !old(self)@.closed,
        ensures
            final(self)@ == old(self)@.published(msg),
    {
        let ghost before = self@;
        let mut j: usize = 0;
        assert(self@.queues =~= before.delivered(msg, 0));
        while j < self.queues.len()
            invariant
                j <= self.queues.len(),
                before == old(self)@,
                self.queues.len() == before.queues.len(),
                self@.capacity == before.capacity,
                self@.ingress == before.ingress,
                self@.closed == before.closed,
                self@.queues == before.delivered(msg, j as int),
                before.first_full_from(0) == before.first_full_from(j as int),
            decreases self.queues.len() - j,
        {
            assert(self@.queues[j as int] == before.queues[j as int]);
            if !self.queues[j].dropped {
                if self.queues[j].pending.len() >= self.capacity {
                    self.closed = true;
                    proof {
                        assert(before.is_full(j as int));
                        assert(before.first_full_from(j as int) == j);
                        let after = before.published(msg);
                        assert(self@.queues == after.queues);
                        assert(self@.closed == after.closed);
                        assert(self@.capacity == after.capacity);
                        assert(self@.ingress == after.ingress);
                    }
                    return ;
                }
                let copy = msg.duplicate();
                let ghost queues = self.queues@;
                self.queues[j].pending.push_back(copy);
                proof {
                    assert(!before.is_full(j as int));
                    assert forall|k: int| 0 <= k < self@.queues.len() implies self@.queues[k]
                        == before.delivered(msg, j + 1)[k] by {
                        if k != j {
                            assert(self.queues@[k] == queues[k]);
                            assert(queues[k]@ == before.delivered(msg, j as int)[k]);
                        } else {
                            assert(queues[k]@ == before.delivered(msg, j as int)[k]);
                        }
                    }
                }
            } else {
                proof {
                    assert(!before.is_full(j as int));
                    assert forall|k: int| 0 <= k < self@.queues.len() implies self@.queues[k]
                        == before.delivered(msg, j + 1)[k] by {
                        assert(self@.queues[k] == before.delivered(msg, j as int)[k]);
                    }
                }
            }
            assert(self@.queues =~= before.delivered(msg, j + 1));
            j += 1;
        }
    }

    /// Works through what producers have sent, as `BusView::started`
    /// describes. Says whether the bus still runs.
    pub fn start(&mut self) -> (running: bool)
        ensures
            final(self)@ == old(self)@.started(),
            running == !final(self)@.closed,
    {
        while !self.closed && self.ingress.len() > 0
            invariant
                self@.started() == old(self)@.started(),
            decreases self.ingress.len(),
        {
            let ghost before = self@;
            let item = self.ingress.pop_front();
            assert(self@.ingress =~= before.ingress.drop_first());
            match item {
                Some(BusMessage::Message(msg)) => {
                    self.publish(msg);
                },
                _ => {
                    self.closed = true;
                },
            }
        }
        !self.closed
    }

    /// Hands consumer `rx` its next message.
    pub fn recv(&mut self, rx: &BusRx) -> (r: Received<T>)
        ensures
            final(self)@ == old(self)@.received(rx.number as int),
            match old(self)@.next_for(rx.number as int) {
                Some(msg) => r == Received::Message(msg),
                None => r == if old(self)@.closed || !old(self)@.is_live(rx.number as int) {
                    Received::<T>::Closed
                } else {
                    Received::<T>::Empty
                },
            },
    {
        let j = rx.number;
        if j >= self.queues.len() || self.queues[j].dropped {
            return Received::Closed;
        }
        match self.queues[j].pending.pop_front() {
            Some(msg) => {
                assert(self@.queues =~= old(self)@.received(j as int).queues);
                Received::Message(msg)
            },
            None => {
                assert(self@.queues =~= old(self)@.queues);
                if self.closed {
                    Received::Closed
                } else {
                    Received::Empty
                }
            },
        }
    }

    /// Takes note that consumer `rx` has gone.
    pub fn drop_rx(&mut self, rx: BusRx)
        ensures
            final(self)@ == old(self)@.left(rx.number as int),
    {
        let j = rx.number;
        if j < self.queues.len() {
            self.queues[j].pending.clear();
            self.queues[j].dropped = true;
            assert(self@.queues =~= old(self)@.left(j as int).queues);
        }
    }

    /// Whether the bus has stopped.
    pub fn is_closed(&self) -> (b: bool)
        ensures
            b == self@.closed,
    {
        self.closed
    }
}

/// A producer's handle.
#[derive(Debug)]
pub struct BusTx {}

impl BusTx {
    /// Puts `item` among what the bus is to work through.
    fn put<T: Payload>(bus: &mut MessageBus<T>, item: BusMessage<T>) -> (r: Result<
        (),
        BusMessage<T>,
    >)
        ensures
            old(bus)@.takes() ==> r is Ok && final(bus)@ == old(bus)@.sent(item),
            !old(bus)@.takes() ==> r == Err::<(), BusMessage<T>>(item) && final(bus)@ == old(
                bus,
            )@,
    {
        if bus.closed || bus.ingress.len() >= bus.capacity {
            return Err(item);
        }
        bus.ingress.push_back(item);
        Ok(())
    }

    /// Sends a message for publication. A bus that has stopped or is full
    /// hands the message back.
    pub fn send<T: Payload>(&self, bus: &mut MessageBus<T>, msg: T) -> (r: Result<(), SendError<T>>)
        ensures
            old(bus)@.takes() ==> r is Ok && final(bus)@ == old(bus)@.sent(BusMessage::Message(msg)),
            !old(bus)@.takes() ==> final(bus)@ == old(bus)@ && r == Err::<(), SendError<T>>(
                if old(bus)@.closed {
                    SendError::Closed(msg)
                } else {
                    SendError::Full(msg)
                },
            ),
    {
        let closed = bus.closed;
        match BusTx::put(bus, BusMessage::Message(msg)) {
            Ok(()) => Ok(()),
            Err(BusMessage::Message(m)) => if closed {
                Err(SendError::Closed(m))
            } else {
                Err(SendError::Full(m))
            },
            Err(BusMessage::Close) => Ok(()),
        }
    }

    /// Asks the bus to stop once it has published what was sent before. A
    /// bus that has stopped or is full does not take the request.
    pub fn close<T: Payload>(&self, bus: &mut MessageBus<T>) -> (r: Result<(), SendError<()>>)
        ensures
            old(bus)@.takes() ==> r is Ok && final(bus)@ == old(bus)@.sent(BusMessage::Close),
            !old(bus)@.takes() ==> final(bus)@ == old(bus)@ && r == Err::<(), SendError<()>>(
                if old(bus)@.closed {
                    SendError::Closed(())
                } else {
                    SendError::Full(())
                },
            ),
    {
        let closed = bus.closed;
        match BusTx::put(bus, BusMessage::Close) {
            Ok(()) => Ok(()),
            Err(_) => if closed {
                Err(SendError::Closed(()))
            } else {
                Err(SendError::Full(()))
            },
        }
    }
}

impl Clone for BusTx {
    fn clone(&self) -> (r: Self) {
        BusTx {  }
    }
}

} // verus!
