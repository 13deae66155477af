//! The event bus: one publisher, any number of subscribers, each with a
//! cursor of its own. The channel is tokio's broadcast channel.

use vstd::prelude::*;
use crate::event::{Event, EventView};
use crate::snapshot::RiverSnapshot;

verus! {

#[verifier::external_type_specification]
#[verifier::external_body]
#[verifier::reject_recursive_types(T)]
pub struct ExSender<T>(tokio::sync::broadcast::Sender<T>);

#[verifier::external_type_specification]
#[verifier::external_body]
#[verifier::reject_recursive_types(T)]
pub struct ExReceiver<T>(tokio::sync::broadcast::Receiver<T>);

/// The number of events that the bus holds for a subscriber that has fallen
/// behind, unless it is made with another.
pub const DEFAULT_CAPACITY: usize = 1024;

/// What a subscriber finds when it pulls from the bus.
#[derive(Clone, Debug)]
pub enum BusItem {
    /// The next event, in the order of publication.
    Event(Event),
    /// The subscriber fell behind and this many events are lost to it; the
    /// events that follow are still to come.
    Lagged(u64),
    /// The bus is closed and the subscriber has seen all that it held.
    Closed,
}

pub enum BusItemView {
    Event(EventView),
    Lagged(u64),
    Closed,
}

impl View for BusItem {
    type V = BusItemView;

    open spec fn view(&self) -> BusItemView {
        match *self {
            BusItem::Event(e) => BusItemView::Event(e@),
            BusItem::Lagged(n) => BusItemView::Lagged(n),
            BusItem::Closed => BusItemView::Closed,
        }
    }
}

/// `tokio::sync::broadcast::channel`, which panics on a capacity of zero or
/// above `usize::MAX / 2`: the contract leaves both out and says nothing of
/// the two ends that it returns.
#[verifier::external_body]
fn channel(capacity: usize) -> (ends: (
    tokio::sync::broadcast::Sender<Event>,
    tokio::sync::broadcast::Receiver<Event>,
))
    requires
        0 < capacity <= usize::MAX / 2,
{
    tokio::sync::broadcast::channel(capacity)
}

/// `Sender::send` of tokio's broadcast channel. It fails only while the
/// channel has no receiver, and then hands the value back; else it returns how
/// many receivers there are, which is not zero.
#[verifier::external_body]
fn send(tx: &tokio::sync::broadcast::Sender<Event>, event: Event) -> (r: Result<usize, Event>)
    ensures
        r matches Err(back) ==> back == event,
        r matches Ok(n) ==> n > 0,
{
    match tx.send(event) {
        Ok(n) => Ok(n),
        Err(e) => Err(e.0),
    }
}

/// `Sender::subscribe` of tokio's broadcast channel: a receiver for what is
/// sent from now on. Nothing is claimed of it. tokio gives up once a channel
/// has a quarter of `usize::MAX` receivers, which no process can hold.
#[verifier::external_body]
fn subscribe(tx: &tokio::sync::broadcast::Sender<Event>) -> (rx: tokio::sync::broadcast::Receiver<
    Event,
>) {
    tx.subscribe()
}

/// `Receiver::resubscribe` of tokio's broadcast channel: another receiver on
/// the same channel, for what is sent from now on. Nothing is claimed of it.
/// The limit on receivers is that of `subscribe`.
#[verifier::external_body]
fn resubscribe(rx: &tokio::sync::broadcast::Receiver<Event>) -> (other:
    tokio::sync::broadcast::Receiver<Event>) {
    rx.resubscribe()
}

/// `Receiver::try_recv` of tokio's broadcast channel, with "empty" as `None`.
/// What comes back depends on what other holders of the channel have done; the
/// contract says only that a reported lag is not zero.
#[verifier::external_body]
fn try_recv(rx: &mut tokio::sync::broadcast::Receiver<Event>) -> (r: Option<BusItem>)
    ensures
        r matches Some(BusItem::Lagged(n)) ==> n > 0,
{
    match rx.try_recv() {
        Ok(event) => Some(BusItem::Event(event)),
        Err(tokio::sync::broadcast::error::TryRecvError::Empty) => None,
        Err(tokio::sync::broadcast::error::TryRecvError::Closed) => Some(BusItem::Closed),
        Err(tokio::sync::broadcast::error::TryRecvError::Lagged(n)) => Some(BusItem::Lagged(n)),
    }
}

/// The publishing side of the bus.
pub struct EventBus {
    tx: Option<tokio::sync::broadcast::Sender<Event>>,
    keep: tokio::sync::broadcast::Receiver<Event>,
    capacity: usize,
}

/// One subscriber's place in the stream of events.
pub struct BusCursor {
    rx: tokio::sync::broadcast::Receiver<Event>,
    late: bool,
}

impl EventBus {
    /// The capacity that the bus was made with.
    pub closed spec fn spec_capacity(&self) -> usize {
        self.capacity
    }

    /// Whether the bus has been closed.
    pub closed spec fn is_closed(&self) -> bool {
        self.tx is None
    }

    /// An open bus that holds up to `capacity` events for a subscriber that
    /// has fallen behind.
    pub fn new(capacity: usize) -> (bus: EventBus)
        requires
            0 < capacity <= usize::MAX / 2,
        ensures
            bus.spec_capacity() == capacity,
            !bus.is_closed(),
    {
        let (tx, keep) = channel(capacity);
        EventBus { tx: Some(tx), keep, capacity }
    }

    /// An open bus of the default capacity.
    pub fn with_default_capacity() -> (bus: EventBus)
        ensures
            bus.spec_capacity() == DEFAULT_CAPACITY,
            !bus.is_closed(),
    {
        EventBus::new(DEFAULT_CAPACITY)
    }

    #[verifier::when_used_as_spec(spec_capacity)]
    pub fn capacity(&self) -> (c: usize)
        ensures
            c == self.spec_capacity(),
    {
        self.capacity
    }

    /// Hands an event to every subscriber and returns at once. On an open bus
    /// the result is the number of receivers on the channel, which counts the
    /// one that the bus keeps for itself beside the cursors; on a closed bus
    /// the event comes back.
    pub fn publish(&self, event: Event) -> (r: Result<usize, Event>)
        ensures
            self.is_closed() ==> r == Err::<usize, Event>(event),
            r matches Err(back) ==> back == event,
            r matches Ok(n) ==> n > 0 && !self.is_closed(),
    {
        match &self.tx {
            Some(tx) => send(tx, event),
            None => Err(event),
        }
    }

    /// A new cursor. It sees what is published from now on; on a closed bus it
    /// finds the closure.
    pub fn subscribe(&self) -> (cursor: BusCursor)
        ensures
            cursor.came_late() == self.is_closed(),
    {
        match &self.tx {
            Some(tx) => BusCursor { rx: subscribe(tx), late: false },
            None => BusCursor { rx: resubscribe(&self.keep), late: true },
        }
    }

    /// Closes the bus: every cursor finds the closure once it has seen the
    /// events published before.
    pub fn close(&mut self)
        ensures
            final(self).is_closed(),
            final(self).spec_capacity() == old(self).spec_capacity(),
    {
        self.tx = None;
    }
}

impl BusCursor {
    /// The receiving end of the channel that the cursor holds, for a caller
    /// that waits on it in its own way.
    pub fn into_receiver(self) -> (rx: tokio::sync::broadcast::Receiver<Event>)
        ensures
            rx == self.receiver(),
    {
        self.rx
    }

    /// The next item for this cursor, or `None` where nothing is waiting. A
    /// cursor that was made when the bus was closed already finds the closure
    /// and nothing else; for any other cursor the channel decides.
    pub fn poll(&mut self) -> (r: Option<BusItem>)
        ensures
            final(self).came_late() == old(self).came_late(),
            old(self).came_late() ==> r == Some(BusItem::Closed),
            r matches Some(BusItem::Lagged(n)) ==> n > 0,
    {
        if self.late {
            Some(BusItem::Closed)
        } else {
            try_recv(&mut self.rx)
        }
    }

    /// Whether the bus was closed already when the cursor was made.
    pub closed spec fn came_late(&self) -> bool {
        self.late
    }

    /// The receiving end of the channel that the cursor holds.
    pub closed spec fn receiver(&self) -> tokio::sync::broadcast::Receiver<Event> {
        self.rx
    }
}

/// Takes one event in: the snapshot is brought up to date first, then the
/// event is published. The result is what `publish` returned.
pub fn ingest(snapshot: &mut RiverSnapshot, bus: &EventBus, event: Event) -> (r: Result<
    usize,
    Event,
>)
    ensures
        final(snapshot)@ == old(snapshot)@.apply(event@),
        bus.is_closed() ==> r == Err::<usize, Event>(event),
        r matches Err(back) ==> back == event,
        r matches Ok(n) ==> n > 0 && !bus.is_closed(),
{
    snapshot.apply_event(&event);
    bus.publish(event)
}

} // verus!
