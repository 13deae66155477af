//! The serving side of the subscription protocol: one connection's state, and
//! what it does with each thing that happens to it.

use vstd::prelude::*;
use crate::bus::{BusItem, BusItemView};
use crate::event::RiverEventType;
use crate::filter::{lets_through, EventFilter};
use crate::frame::{ClientFrame, ClientFrameView, ServerFrame, ServerFrameView};
use crate::payload::{payload_of, RiverEvent};
use crate::strmap::StrMap;

verus! {

/// Where a connection stands.
#[derive(Clone, Copy, Debug, PartialEq, Eq, Structural)]
pub enum ConnState {
    /// Nothing has been received yet.
    AwaitingInit,
    /// The handshake is done and no subscription has been made.
    Acked,
    /// A subscription has been made.
    Active,
    /// The connection is over.
    Closed,
}

/// One thing that happens to a connection.
#[derive(Clone, Debug)]
pub enum ConnInput {
    /// The peer sent `connection_init`.
    ConnectionInit,
    /// The peer sent `subscribe`, and its query asks for the events that the
    /// filter lets through.
    Subscribe { id: String, filter: EventFilter },
    /// The peer sent `subscribe` with a query that asks for nothing that can
    /// be served; `message` says why.
    Rejected { id: String, message: String },
    /// The peer sent `complete`.
    Complete { id: String },
    /// The peer sent a frame of a type that only the server sends.
    Misdirected,
    /// The peer sent a frame of a kind that the server does not know.
    Unrecognized,
    /// The forwarding of a subscription pulled an item from the bus.
    Item { id: String, item: BusItem },
    /// The transport has closed.
    TransportClosed,
    /// Writing to the transport failed.
    WriteFailed,
}

pub enum ConnInputView {
    ConnectionInit,
    Subscribe { id: Seq<char>, filter: Set<RiverEventType> },
    Rejected { id: Seq<char>, message: Seq<char> },
    Complete { id: Seq<char> },
    Misdirected,
    Unrecognized,
    Item { id: Seq<char>, item: BusItemView },
    TransportClosed,
    WriteFailed,
}

impl View for ConnInput {
    type V = ConnInputView;

    open spec fn view(&self) -> ConnInputView {
        match *self {
            ConnInput::ConnectionInit => ConnInputView::ConnectionInit,
            ConnInput::Subscribe { id, filter } => ConnInputView::Subscribe {
                id: id@,
                filter: filter@,
            },
            ConnInput::Rejected { id, message } => ConnInputView::Rejected {
                id: id@,
                message: message@,
            },
            ConnInput::Complete { id } => ConnInputView::Complete { id: id@ },
            ConnInput::Misdirected => ConnInputView::Misdirected,
            ConnInput::Unrecognized => ConnInputView::Unrecognized,
            ConnInput::Item { id, item } => ConnInputView::Item { id: id@, item: item@ },
            ConnInput::TransportClosed => ConnInputView::TransportClosed,
            ConnInput::WriteFailed => ConnInputView::WriteFailed,
        }
    }
}

/// The input that a frame of the peer makes. For a `subscribe` frame,
/// `resolved` is what its query asks for: a filter, or the reason why the
/// query cannot be served.
pub open spec fn input_of(
    frame: ClientFrameView,
    resolved: Result<Set<RiverEventType>, Seq<char>>,
) -> ConnInputView {
    match frame {
        ClientFrameView::ConnectionInit => ConnInputView::ConnectionInit,
        ClientFrameView::Subscribe { id, query } => match resolved {
            Ok(filter) => ConnInputView::Subscribe { id, filter },
            Err(message) => ConnInputView::Rejected { id, message },
        },
        ClientFrameView::Complete { id } => ConnInputView::Complete { id },
        ClientFrameView::Misdirected => ConnInputView::Misdirected,
        ClientFrameView::Unrecognized => ConnInputView::Unrecognized,
    }
}

pub open spec fn resolved_view(resolved: Result<EventFilter, String>) -> Result<
    Set<RiverEventType>,
    Seq<char>,
> {
    match resolved {
        Ok(filter) => Ok(filter@),
        Err(message) => Err(message@),
    }
}

impl ClientFrame {
    /// The input that the frame makes.
    pub fn into_input(self, resolved: Result<EventFilter, String>) -> (input: ConnInput)
        ensures
            input@ == input_of(self@, resolved_view(resolved)),
    {
        match self {
            ClientFrame::ConnectionInit => ConnInput::ConnectionInit,
            ClientFrame::Subscribe { id, query } => match resolved {
                Ok(filter) => ConnInput::Subscribe { id, filter },
                Err(message) => ConnInput::Rejected { id, message },
            },
            ClientFrame::Complete { id } => ConnInput::Complete { id },
            ClientFrame::Misdirected => ConnInput::Misdirected,
            ClientFrame::Unrecognized => ConnInput::Unrecognized,
        }
    }
}

/// A connection as a mathematical value: its state, and the filter of each
/// subscription that is open on it, by the subscription's id.
pub struct ConnView {
    pub state: ConnState,
    pub subscriptions: Map<Seq<char>, Set<RiverEventType>>,
}

impl ConnView {
    /// A connection on which nothing has happened yet.
    pub open spec fn start() -> ConnView {
        ConnView { state: ConnState::AwaitingInit, subscriptions: Map::empty() }
    }

    /// A connection that is over. It has no subscription.
    pub open spec fn closed() -> ConnView {
        ConnView { state: ConnState::Closed, subscriptions: Map::empty() }
    }

    /// Only an active connection has subscriptions.
    pub open spec fn wf(self) -> bool {
        self.state != ConnState::Active ==> self.subscriptions == Map::<
            Seq<char>,
            Set<RiverEventType>,
        >::empty()
    }

    /// What one input does to the connection, and the frames that go out for
    /// it, in order.
    ///
    /// A closed connection takes nothing in and sends nothing. Before the
    /// handshake, `connection_init` is answered with `connection_ack`; a
    /// frame of unknown kind and a stray bus item are passed over; everything
    /// else ends the connection without a frame. After the handshake, a second
    /// `connection_init`, a frame of a type that only the server sends, and a
    /// `subscribe` under an id that is in use end the connection without a
    /// frame; a frame of unknown kind is passed over; a `subscribe` under a
    /// new id opens the subscription, or is answered with `error` where its
    /// query cannot be served; `complete` ends the subscription without a
    /// reply; an event from the bus goes out as `next` if the subscription is
    /// open and its filter lets the event through; a lag is passed over; the
    /// closure of the bus ends the subscription with one `complete`. The
    /// transport closing or failing ends the connection and every
    /// subscription on it.
    pub open spec fn step(self, input: ConnInputView) -> (ConnView, Seq<ServerFrameView>) {
        match self.state {
            ConnState::Closed => (self, Seq::empty()),
            ConnState::AwaitingInit => match input {
                ConnInputView::ConnectionInit => (
                    ConnView { state: ConnState::Acked, ..self },
                    seq![ServerFrameView::ConnectionAck],
                ),
                ConnInputView::Unrecognized => (self, Seq::empty()),
                ConnInputView::Item { .. } => (self, Seq::empty()),
                _ => (ConnView::closed(), Seq::empty()),
            },
            _ => match input {
                ConnInputView::ConnectionInit => (ConnView::closed(), Seq::empty()),
                ConnInputView::Misdirected => (ConnView::closed(), Seq::empty()),
                ConnInputView::Subscribe { id, filter } => {
                    if self.subscriptions.contains_key(id) {
                        (ConnView::closed(), Seq::empty())
                    } else {
                        (
                            ConnView {
                                state: ConnState::Active,
                                subscriptions: self.subscriptions.insert(id, filter),
                            },
                            Seq::empty(),
                        )
                    }
                },
                ConnInputView::Rejected { id, message } => {
                    if self.subscriptions.contains_key(id) {
                        (ConnView::closed(), Seq::empty())
                    } else {
                        (self, seq![ServerFrameView::Error { id, message }])
                    }
                },
                ConnInputView::Complete { id } => (
                    ConnView { subscriptions: self.subscriptions.remove(id), ..self },
                    Seq::empty(),
                ),
                ConnInputView::Unrecognized => (self, Seq::empty()),
                ConnInputView::Item { id, item } => {
                    if !self.subscriptions.contains_key(id) {
                        (self, Seq::empty())
                    } else {
                        match item {
                            BusItemView::Event(e) => {
                                if lets_through(self.subscriptions[id], e.kind()) {
                                    (
                                        self,
                                        seq![ServerFrameView::Next { id, payload: payload_of(e) }],
                                    )
                                } else {
                                    (self, Seq::empty())
                                }
                            },
                            BusItemView::Lagged(_) => (self, Seq::empty()),
                            BusItemView::Closed => (
                                ConnView { subscriptions: self.subscriptions.remove(id), ..self },
                                seq![ServerFrameView::Complete { id }],
                            ),
                        }
                    }
                },
                ConnInputView::TransportClosed => (ConnView::closed(), Seq::empty()),
                ConnInputView::WriteFailed => (ConnView::closed(), Seq::empty()),
            },
        }
    }

    /// What a sequence of inputs does to the connection, first to last, and
    /// all the frames that go out for them.
    pub open spec fn run(self, inputs: Seq<ConnInputView>) -> (ConnView, Seq<ServerFrameView>)
        decreases inputs.len(),
    {
        if inputs.len() == 0 {
            (self, Seq::empty())
        } else {
            let (before, sent) = self.run(inputs.drop_last());
            let (now, more) = before.step(inputs.last());
            (now, sent + more)
        }
    }
}

/// The views of a list of frames.
pub open spec fn frames_view(frames: Seq<ServerFrame>) -> Seq<ServerFrameView> {
    frames.map_values(|f: ServerFrame| f@)
}

/// One connection of the server.
pub struct Connection {
    state: ConnState,
    subscriptions: StrMap<EventFilter>,
}

impl View for Connection {
    type V = ConnView;

    closed spec fn view(&self) -> ConnView {
        ConnView { state: self.state, subscriptions: self.subscriptions@ }
    }
}

fn no_frames() -> (frames: Vec<ServerFrame>)
    ensures
        frames_view(frames@) == Seq::<ServerFrameView>::empty(),
{
    let frames: Vec<ServerFrame> = Vec::new();
    assert(frames_view(frames@) =~= Seq::<ServerFrameView>::empty());
    frames
}

fn one_frame(frame: ServerFrame) -> (frames: Vec<ServerFrame>)
    ensures
        frames_view(frames@) == seq![frame@],
{
    let mut frames: Vec<ServerFrame> = Vec::new();
    frames.push(frame);
    assert(frames_view(frames@) =~= seq![frame@]);
    frames
}

impl Connection {
    #[verifier::type_invariant]
    spec fn inv(&self) -> bool {
        self@.wf()
    }

    /// A connection on which nothing has happened yet.
    pub fn new() -> (c: Connection)
        ensures
            c@ == ConnView::start(),
    {
        Connection { state: ConnState::AwaitingInit, subscriptions: StrMap::new() }
    }

    /// Where the connection stands.
    pub fn state(&self) -> (s: ConnState)
        ensures
            s == self@.state,
            self@.wf(),
    {
        proof {
            use_type_invariant(self);
        }
        self.state
    }

    /// Whether a subscription is open under the id. The forwarding of a
    /// subscription is to stop once this is false.
    pub fn is_subscribed(&self, id: &str) -> (b: bool)
        ensures
            b == self@.subscriptions.contains_key(id@),
    {
        self.subscriptions.contains_key(id)
    }

    fn close(&mut self) -> (frames: Vec<ServerFrame>)
        ensures
            final(self)@ == ConnView::closed(),
            frames_view(frames@) == Seq::<ServerFrameView>::empty(),
    {
        proof {
            use_type_invariant(&*self);
        }
        self.subscriptions = StrMap::new();
        self.state = ConnState::Closed;
        no_frames()
    }

    fn open_subscription(&mut self, id: String, filter: EventFilter)
        requires
            old(self)@.state == ConnState::Acked || old(self)@.state == ConnState::Active,
        ensures
            final(self)@ == (ConnView {
                state: ConnState::Active,
                subscriptions: old(self)@.subscriptions.insert(id@, filter@),
            }),
    {
        proof {
            use_type_invariant(&*self);
        }
        self.state = ConnState::Active;
        let mut subscriptions: StrMap<EventFilter> = StrMap::new();
        std::mem::swap(&mut subscriptions, &mut self.subscriptions);
        subscriptions.insert(id, filter);
        self.subscriptions = subscriptions;
    }

    fn end_subscription(&mut self, id: &str)
        ensures
            final(self)@ == (ConnView {
                subscriptions: old(self)@.subscriptions.remove(id@),
                ..old(self)@
            }),
    {
        proof {
            use_type_invariant(&*self);
        }
        let mut subscriptions: StrMap<EventFilter> = StrMap::new();
        std::mem::swap(&mut subscriptions, &mut self.subscriptions);
        subscriptions.remove(id);
        proof {
            if self.state != ConnState::Active {
                assert(subscriptions@ =~= Map::<Seq<char>, Set<RiverEventType>>::empty());
            }
        }
        self.subscriptions = subscriptions;
    }

    /// Takes one input and returns the frames to send for it, in order. What
    /// happens is what `ConnView::step` states.
    pub fn handle(&mut self, input: ConnInput) -> (frames: Vec<ServerFrame>)
        ensures
            (final(self)@, frames_view(frames@)) == old(self)@.step(input@),
            frames@.len() == old(self)@.step(input@).1.len(),
            forall|i: int|
                0 <= i < frames@.len() ==> (#[trigger] frames@[i])@ == old(self)@.step(input@).1[i],
    {
        proof {
            use_type_invariant(&*self);
        }
        match self.state {
            ConnState::Closed => no_frames(),
            ConnState::AwaitingInit => match input {
                ConnInput::ConnectionInit => {
                    self.state = ConnState::Acked;
                    one_frame(ServerFrame::ConnectionAck)
                },
                ConnInput::Unrecognized => no_frames(),
                ConnInput::Item { .. } => no_frames(),
                _ => self.close(),
            },
            _ => match input {
                ConnInput::ConnectionInit => self.close(),
                ConnInput::Misdirected => self.close(),
                ConnInput::Subscribe { id, filter } => {
                    if self.subscriptions.contains_key(id.as_str()) {
                        self.close()
                    } else {
                        self.open_subscription(id, filter);
                        no_frames()
                    }
                },
                ConnInput::Rejected { id, message } => {
                    if self.subscriptions.contains_key(id.as_str()) {
                        self.close()
                    } else {
                        one_frame(ServerFrame::Error { id, message })
                    }
                },
                ConnInput::Complete { id } => {
                    self.end_subscription(id.as_str());
                    no_frames()
                },
                ConnInput::Unrecognized => no_frames(),
                ConnInput::Item { id, item } => {
                    let wanted = match self.subscriptions.get(id.as_str()) {
                        Some(filter) => match &item {
                            BusItem::Event(event) => Some(filter.accepts(event)),
                            _ => Some(false),
                        },
                        None => None,
                    };
                    match wanted {
                        None => no_frames(),
                        Some(through) => match item {
                            BusItem::Event(event) => {
                                if through {
                                    one_frame(
                                        ServerFrame::Next { id, payload: RiverEvent::from(event) },
                                    )
                                } else {
                                    no_frames()
                                }
                            },
                            BusItem::Lagged(_) => no_frames(),
                            BusItem::Closed => {
                                self.end_subscription(id.as_str());
                                one_frame(ServerFrame::Complete { id })
                            },
                        },
                    }
                },
                ConnInput::TransportClosed => self.close(),
                ConnInput::WriteFailed => self.close(),
            },
        }
    }
}

/// Whether an input asks for a subscription under the id.
pub open spec fn asks_for(input: ConnInputView, id: Seq<char>) -> bool {
    match input {
        ConnInputView::Subscribe { id: asked, .. } => asked == id,
        ConnInputView::Rejected { id: asked, .. } => asked == id,
        _ => false,
    }
}

/// The inputs that a subscription's forwarding makes of a sequence of events
/// pulled from the bus.
pub open spec fn items_of(id: Seq<char>, events: Seq<crate::event::EventView>) -> Seq<
    ConnInputView,
> {
    events.map_values(
        |e: crate::event::EventView| ConnInputView::Item { id, item: BusItemView::Event(e) },
    )
}

/// The `next` frames for the events that a filter lets through, in the order
/// of the events.
pub open spec fn forwarded(
    id: Seq<char>,
    filter: Set<RiverEventType>,
    events: Seq<crate::event::EventView>,
) -> Seq<ServerFrameView>
    decreases events.len(),
{
    if events.len() == 0 {
        Seq::empty()
    } else {
        let before = forwarded(id, filter, events.drop_last());
        if lets_through(filter, events.last().kind()) {
            before.push(ServerFrameView::Next { id, payload: payload_of(events.last()) })
        } else {
            before
        }
    }
}

/// Only an active connection has subscriptions, whatever happens to it.
pub proof fn lemma_step_keeps_wf(c: ConnView, input: ConnInputView)
    requires
        c.wf(),
    ensures
        c.step(input).0.wf(),
{
    let next = c.step(input).0;
    if next.state != ConnState::Active {
        assert(next.subscriptions =~= Map::<Seq<char>, Set<RiverEventType>>::empty());
    }
}

/// A closed connection stays closed and sends nothing, whatever happens to it.
pub proof fn lemma_closed_is_silent(c: ConnView, inputs: Seq<ConnInputView>)
    requires
        c.state == ConnState::Closed,
    ensures
        c.run(inputs) == (c, Seq::<ServerFrameView>::empty()),
    decreases inputs.len(),
{
    if inputs.len() > 0 {
        lemma_closed_is_silent(c, inputs.drop_last());
    }
}

/// A `subscribe` before the handshake ends the connection, and no frame is
/// ever sent on it: none for the `subscribe`, none for anything after it.
pub proof fn lemma_subscribe_before_init(
    c: ConnView,
    id: Seq<char>,
    filter: Set<RiverEventType>,
    later: Seq<ConnInputView>,
)
    requires
        c.state == ConnState::AwaitingInit,
    ensures
        c.step(ConnInputView::Subscribe { id, filter }) == (
            ConnView::closed(),
            Seq::<ServerFrameView>::empty(),
        ),
        ConnView::closed().run(later).1 == Seq::<ServerFrameView>::empty(),
{
    lemma_closed_is_silent(ConnView::closed(), later);
}

/// While nothing asks for a subscription under an id that has none, no frame
/// goes out for that id.
pub proof fn lemma_silent_without_subscription(
    c: ConnView,
    id: Seq<char>,
    inputs: Seq<ConnInputView>,
)
    requires
        !c.subscriptions.contains_key(id),
        forall|i: int| 0 <= i < inputs.len() ==> !asks_for(#[trigger] inputs[i], id),
    ensures
        !c.run(inputs).0.subscriptions.contains_key(id),
        forall|j: int|
            0 <= j < c.run(inputs).1.len() ==> (#[trigger] c.run(inputs).1[j]).subscription()
                != Some(id),
    decreases inputs.len(),
{
    if inputs.len() > 0 {
        let head = inputs.drop_last();
        assert forall|i: int| 0 <= i < head.len() implies !asks_for(#[trigger] head[i], id) by {
            assert(head[i] == inputs[i]);
        }
        lemma_silent_without_subscription(c, id, head);
        assert(!asks_for(inputs[inputs.len() - 1], id));
    }
}

/// When the bus closes, an open subscription gets one `complete` and is
/// over: nothing goes out for its id after that, unless the peer asks for a
/// subscription under the id anew.
pub proof fn lemma_bus_closure_completes_once(
    c: ConnView,
    id: Seq<char>,
    later: Seq<ConnInputView>,
)
    requires
        c.wf(),
        c.subscriptions.contains_key(id),
        forall|i: int| 0 <= i < later.len() ==> !asks_for(#[trigger] later[i], id),
    ensures
        c.step(ConnInputView::Item { id, item: BusItemView::Closed }).1
            == seq![ServerFrameView::Complete { id }],
        ({
            let after = c.step(ConnInputView::Item { id, item: BusItemView::Closed }).0;
            &&& after == ConnView { subscriptions: c.subscriptions.remove(id), ..c }
            &&& forall|j: int|
                0 <= j < after.run(later).1.len() ==> (#[trigger] after.run(
                    later,
                ).1[j]).subscription() != Some(id)
        }),
{
    let after = c.step(ConnInputView::Item { id, item: BusItemView::Closed }).0;
    lemma_silent_without_subscription(after, id, later);
}

/// A `complete` from the peer ends the subscription without a reply, and
/// nothing goes out for its id after that, unless the peer asks for a
/// subscription under the id anew.
pub proof fn lemma_complete_cancels(c: ConnView, id: Seq<char>, later: Seq<ConnInputView>)
    requires
        c.wf(),
        forall|i: int| 0 <= i < later.len() ==> !asks_for(#[trigger] later[i], id),
    ensures
        c.step(ConnInputView::Complete { id }).1 == Seq::<ServerFrameView>::empty(),
        forall|j: int|
            0 <= j < c.step(ConnInputView::Complete { id }).0.run(later).1.len() ==> (
            #[trigger] c.step(ConnInputView::Complete { id }).0.run(later).1[j]).subscription()
                != Some(id),
{
    let after = c.step(ConnInputView::Complete { id }).0;
    lemma_silent_without_subscription(after, id, later);
}

/// A subscription receives the events that its filter lets through, each as
/// one `next` frame, in the order in which they were pulled from the bus, and
/// nothing else.
pub proof fn lemma_forwarding_filters_in_order(
    c: ConnView,
    id: Seq<char>,
    events: Seq<crate::event::EventView>,
)
    requires
        c.wf(),
        c.subscriptions.contains_key(id),
    ensures
        c.run(items_of(id, events)) == (c, forwarded(id, c.subscriptions[id], events)),
    decreases events.len(),
{
    if events.len() > 0 {
        lemma_forwarding_filters_in_order(c, id, events.drop_last());
        assert(items_of(id, events).drop_last() =~= items_of(id, events.drop_last()));
        assert(items_of(id, events).last() == ConnInputView::Item {
            id,
            item: BusItemView::Event(events.last()),
        });
        let sent = forwarded(id, c.subscriptions[id], events.drop_last());
        if lets_through(c.subscriptions[id], events.last().kind()) {
            assert(sent + seq![
                ServerFrameView::Next { id, payload: payload_of(events.last()) },
            ] =~= sent.push(ServerFrameView::Next { id, payload: payload_of(events.last()) }));
        } else {
            assert(sent + Seq::<ServerFrameView>::empty() =~= sent);
        }
    }
}

/// Whether an input is an event or a lag that some subscription's forwarding
/// pulled from the bus.
pub open spec fn is_pulled(input: ConnInputView) -> bool {
    match input {
        ConnInputView::Item { item, .. } => item != BusItemView::Closed,
        _ => false,
    }
}

/// The events among the inputs that were pulled for one subscription, in
/// order.
pub open spec fn events_for(inputs: Seq<ConnInputView>, id: Seq<char>) -> Seq<
    crate::event::EventView,
>
    decreases inputs.len(),
{
    if inputs.len() == 0 {
        Seq::empty()
    } else {
        let before = events_for(inputs.drop_last(), id);
        match inputs.last() {
            ConnInputView::Item { id: pulled_for, item: BusItemView::Event(e) } => {
                if pulled_for == id {
                    before.push(e)
                } else {
                    before
                }
            },
            _ => before,
        }
    }
}

/// The frames among `frames` that belong to one subscription, in order.
pub open spec fn frames_for(frames: Seq<ServerFrameView>, id: Seq<char>) -> Seq<ServerFrameView>
    decreases frames.len(),
{
    if frames.len() == 0 {
        Seq::empty()
    } else {
        let before = frames_for(frames.drop_last(), id);
        if frames.last().subscription() == Some(id) {
            before.push(frames.last())
        } else {
            before
        }
    }
}

/// What a subscription receives depends on what was pulled for it alone:
/// however the items pulled for other subscriptions are interleaved with its
/// own, and whether or not anything is pulled for them at all, it receives
/// the `next` frames of its own events that its filter lets through, all of
/// them and in order.
pub proof fn lemma_subscriptions_are_independent(
    c: ConnView,
    id: Seq<char>,
    inputs: Seq<ConnInputView>,
)
    requires
        c.wf(),
        c.subscriptions.contains_key(id),
        forall|i: int| 0 <= i < inputs.len() ==> is_pulled(#[trigger] inputs[i]),
    ensures
        c.run(inputs).0 == c,
        frames_for(c.run(inputs).1, id) == forwarded(
            id,
            c.subscriptions[id],
            events_for(inputs, id),
        ),
    decreases inputs.len(),
{
    if inputs.len() > 0 {
        let head = inputs.drop_last();
        assert forall|i: int| 0 <= i < head.len() implies is_pulled(#[trigger] head[i]) by {
            assert(head[i] == inputs[i]);
        }
        lemma_subscriptions_are_independent(c, id, head);
        assert(is_pulled(inputs[inputs.len() - 1]));
        let sent = c.run(head).1;
        let more = c.step(inputs.last()).1;
        if more.len() == 0 {
            assert(sent + more =~= sent);
        } else {
            assert(more.len() == 1);
            assert((sent + more).drop_last() =~= sent);
            assert((sent + more).last() == more[0]);
        }
        match inputs.last() {
            ConnInputView::Item { id: pulled_for, item: BusItemView::Event(e) } => {
                if pulled_for == id {
                    assert(events_for(inputs, id).drop_last() =~= events_for(head, id));
                }
            },
            _ => {},
        }
    }
}

} // verus!
