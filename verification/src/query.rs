//! The query surface: what a client can ask of the snapshot at a point in
//! time, and the stream of events that it can subscribe to.

use vstd::prelude::*;
use crate::bus::{BusCursor, BusItem, BusItemView, EventBus};
use crate::event::RiverEventType;
use crate::filter::{lets_through, EventFilter};
use crate::payload::{payload_of, GSeatFocusedOutput, GSeatFocusedView, GSeatMode, RiverEvent,
    RiverEventView};
use crate::snapshot::{NamedOutputIdView, OutputState, OutputStateView, RiverSnapshot};
use crate::text::{opt_as_str, opt_str_view, opt_view};

verus! {

/// The state of an output as a query returns it.
#[derive(Clone, Debug)]
pub struct GOutputState {
    pub output_id: String,
    pub name: Option<String>,
    pub focused_tags: Option<u32>,
    pub view_tags: Option<Vec<u32>>,
    pub urgent_tags: Option<u32>,
    pub layout_name: Option<String>,
}

impl View for GOutputState {
    type V = OutputStateView;

    open spec fn view(&self) -> OutputStateView {
        OutputStateView {
            output_id: self.output_id@,
            name: opt_view(self.name),
            focused_tags: self.focused_tags,
            view_tags: match self.view_tags {
                Some(v) => Some(v@),
                None => None,
            },
            urgent_tags: self.urgent_tags,
            layout_name: opt_view(self.layout_name),
        }
    }
}

impl From<OutputState> for GOutputState {
    fn from(state: OutputState) -> (r: GOutputState)
        ensures
            r@ == state@,
    {
        GOutputState {
            output_id: state.output_id,
            name: state.name,
            focused_tags: state.focused_tags,
            view_tags: state.view_tags,
            urgent_tags: state.urgent_tags,
            layout_name: state.layout_name,
        }
    }
}

impl vstd::std_specs::convert::FromSpecImpl<OutputState> for GOutputState {
    open spec fn obeys_from_spec() -> bool {
        true
    }

    open spec fn from_spec(state: OutputState) -> GOutputState {
        GOutputState {
            output_id: state.output_id,
            name: state.name,
            focused_tags: state.focused_tags,
            view_tags: state.view_tags,
            urgent_tags: state.urgent_tags,
            layout_name: state.layout_name,
        }
    }
}

impl From<&OutputState> for GOutputState {
    fn from(state: &OutputState) -> (r: GOutputState)
        ensures
            r@ == state@,
    {
        GOutputState::from(state.duplicate())
    }
}

/// The conversion from a borrowed state copies it; its result is stated over
/// views.
impl vstd::std_specs::convert::FromSpecImpl<&OutputState> for GOutputState {
    open spec fn obeys_from_spec() -> bool {
        false
    }

    open spec fn from_spec(state: &OutputState) -> GOutputState {
        choose|r: GOutputState| r@ == state@
    }
}

impl GOutputState {
    pub fn output_id(&self) -> (r: &String)
        ensures
            r == self.output_id,
    {
        &self.output_id
    }

    pub fn name(&self) -> (r: Option<&str>)
        ensures
            opt_str_view(r) == opt_view(self.name),
    {
        opt_as_str(&self.name)
    }

    pub fn focused_tags(&self) -> (r: Option<u32>)
        ensures
            r == self.focused_tags,
    {
        self.focused_tags
    }

    pub fn view_tags(&self) -> (r: Option<&Vec<u32>>)
        ensures
            r == match self.view_tags {
                Some(v) => Some(&v),
                None => None::<&Vec<u32>>,
            },
    {
        self.view_tags.as_ref()
    }

    pub fn urgent_tags(&self) -> (r: Option<u32>)
        ensures
            r == self.urgent_tags,
    {
        self.urgent_tags
    }

    pub fn layout_name(&self) -> (r: Option<&str>)
        ensures
            opt_str_view(r) == opt_view(self.layout_name),
    {
        opt_as_str(&self.layout_name)
    }
}

/// The queries on the snapshot.
#[derive(Clone, Copy, Debug)]
pub struct QueryRoot;

impl QueryRoot {
    /// A word that tells that the service is up.
    pub fn hello(&self) -> (r: &'static str)
        ensures
            r@ == "ok"@,
    {
        "ok"
    }

    /// Every output's state, each output once.
    pub fn outputs(&self, snapshot: &RiverSnapshot) -> (r: Vec<GOutputState>)
        ensures
            forall|i: int|
                0 <= i < r.len() ==> snapshot@.outputs.contains_key(#[trigger] r[i]@.output_id)
                    && snapshot@.outputs[r[i]@.output_id] == r[i]@,
            forall|i: int, j: int|
                0 <= i < j < r.len() ==> #[trigger] r[i]@.output_id != #[trigger] r[j]@.output_id,
            forall|k: Seq<char>| #[trigger]
                snapshot@.outputs.contains_key(k) ==> exists|i: int|
                    0 <= i < r.len() && #[trigger] r[i]@.output_id == k,
    {
        let states = snapshot.outputs();
        let mut r: Vec<GOutputState> = Vec::new();
        let mut i: usize = 0;
        while i < states.len()
            invariant
                i <= states.len(),
                r.len() == i,
                forall|j: int| 0 <= j < i ==> #[trigger] r[j]@ == states[j]@,
            decreases states.len() - i,
        {
            r.push(GOutputState::from(&states[i]));
            i = i + 1;
        }
        proof {
            assert forall|k: Seq<char>| #[trigger]
                snapshot@.outputs.contains_key(k) implies exists|i: int|
                0 <= i < r.len() && #[trigger] r[i]@.output_id == k by {
                let i = choose|i: int| 0 <= i < states.len() && #[trigger] states[i]@.output_id == k;
                assert(r[i]@.output_id == k);
            }
        }
        r
    }

    /// The state of the output that carries the label, if one does.
    pub fn output(&self, snapshot: &RiverSnapshot, name: String) -> (r: Option<GOutputState>)
        ensures
            r is Some <==> snapshot@.output_names.contains_key(name@),
            r matches Some(state) ==> state@ == snapshot@.outputs[snapshot@.output_names[name@]]
                && state@.name == Some(name@),
    {
        match snapshot.output_by_name(name.as_str()) {
            Some(state) => Some(GOutputState::from(state)),
            None => None,
        }
    }

    /// The output that the seat focused last.
    pub fn seat_focused_output(&self, snapshot: &RiverSnapshot) -> (r: Option<GSeatFocusedOutput>)
        ensures
            r is Some <==> snapshot@.seat_focused_output is Some,
            r matches Some(g) ==> snapshot@.seat_focused_output == Some(
                NamedOutputIdView { output_id: g.output_id@, name: opt_view(g.name) },
            ),
    {
        match snapshot.seat_focused_output() {
            Some(named) => Some(GSeatFocusedOutput { output_id: named.output_id, name: named.name }),
            None => None,
        }
    }

    /// The view that the seat focuses, by its title.
    pub fn seat_focused_view(&self, snapshot: &RiverSnapshot) -> (r: Option<GSeatFocusedView>)
        ensures
            r is Some <==> snapshot@.seat_focused_view is Some,
            r matches Some(g) ==> snapshot@.seat_focused_view == Some(g.title@),
    {
        match snapshot.seat_focused_view() {
            Some(title) => Some(GSeatFocusedView { title }),
            None => None,
        }
    }

    /// The seat's mode.
    pub fn seat_mode(&self, snapshot: &RiverSnapshot) -> (r: Option<GSeatMode>)
        ensures
            r is Some <==> snapshot@.seat_mode is Some,
            r matches Some(g) ==> snapshot@.seat_mode == Some(g.name@),
    {
        match snapshot.seat_mode() {
            Some(name) => Some(GSeatMode { name }),
            None => None,
        }
    }
}

/// What a stream of events makes of one item from the bus.
#[derive(Clone, Debug)]
pub enum StreamStep {
    /// This event is the stream's next.
    Yield(RiverEvent),
    /// The item is not for the stream; the stream goes on.
    Skip,
    /// The stream is over.
    End,
}

pub enum StreamStepView {
    Yield(RiverEventView),
    Skip,
    End,
}

impl View for StreamStep {
    type V = StreamStepView;

    open spec fn view(&self) -> StreamStepView {
        match *self {
            StreamStep::Yield(e) => StreamStepView::Yield(e@),
            StreamStep::Skip => StreamStepView::Skip,
            StreamStep::End => StreamStepView::End,
        }
    }
}

/// What a stream with the given filter makes of an item: an event that the
/// filter lets through is the stream's next, in its outgoing shape; any other
/// event and a lag are skipped; the closure of the bus ends the stream.
pub open spec fn stream_step(filter: Set<RiverEventType>, item: BusItemView) -> StreamStepView {
    match item {
        BusItemView::Event(e) => if lets_through(filter, e.kind()) {
            StreamStepView::Yield(payload_of(e))
        } else {
            StreamStepView::Skip
        },
        BusItemView::Lagged(_) => StreamStepView::Skip,
        BusItemView::Closed => StreamStepView::End,
    }
}

/// What a stream with the given filter makes of an item from the bus.
pub fn accept_item(filter: &EventFilter, item: BusItem) -> (step: StreamStep)
    ensures
        step@ == stream_step(filter@, item@),
{
    match item {
        BusItem::Event(event) => {
            if filter.accepts(&event) {
                StreamStep::Yield(RiverEvent::from(event))
            } else {
                StreamStep::Skip
            }
        },
        BusItem::Lagged(_) => StreamStep::Skip,
        BusItem::Closed => StreamStep::End,
    }
}

/// A stream of the events of the kinds that a subscriber asked for.
pub struct EventStream {
    cursor: BusCursor,
    filter: EventFilter,
}

impl EventStream {
    /// The kinds of event that the stream was asked for.
    pub closed spec fn spec_filter(&self) -> Set<RiverEventType> {
        self.filter@
    }

    /// What the stream makes of an item from the bus.
    pub fn accept(&self, item: BusItem) -> (step: StreamStep)
        ensures
            step@ == stream_step(self.spec_filter(), item@),
    {
        accept_item(&self.filter, item)
    }

    /// What the stream makes of the next item that waits on the bus; `None`
    /// where nothing waits. The item is whatever the bus hands out; the step
    /// is what `accept` makes of it. A stream that was asked for when the bus
    /// was closed already is over at once.
    pub fn try_next(&mut self) -> (step: Option<StreamStep>)
        ensures
            final(self).spec_filter() == old(self).spec_filter(),
            final(self).came_late() == old(self).came_late(),
            old(self).came_late() ==> step is Some && step->0@ == StreamStepView::End,
            step matches Some(s) ==> exists|item: BusItemView|
                s@ == #[trigger] stream_step(old(self).spec_filter(), item),
    {
        match self.cursor.poll() {
            Some(item) => {
                let ghost pulled = item@;
                let step = self.accept(item);
                assert(step@ == stream_step(old(self).spec_filter(), pulled));
                Some(step)
            },
            None => None,
        }
    }

    /// The stream's cursor on the bus and its filter, for a caller that waits
    /// on the bus in its own way.
    pub fn into_parts(self) -> (parts: (BusCursor, EventFilter))
        ensures
            parts.0.came_late() == self.came_late(),
            parts.1@ == self.spec_filter(),
    {
        (self.cursor, self.filter)
    }

    /// Whether the bus was closed already when the stream was asked for.
    pub closed spec fn came_late(&self) -> bool {
        self.cursor.came_late()
    }
}

/// The subscriptions.
#[derive(Clone, Copy, Debug)]
pub struct SubscriptionRoot;

impl SubscriptionRoot {
    /// A stream of the events that are published from now on, of the kinds
    /// listed; of every kind where no kind is listed.
    pub fn events(&self, bus: &EventBus, types: Option<Vec<RiverEventType>>) -> (stream:
        EventStream)
        ensures
            stream.spec_filter() == match types {
                Some(kinds) => kinds@.to_set(),
                None => Set::<RiverEventType>::empty(),
            },
            stream.came_late() == bus.is_closed(),
    {
        let cursor = bus.subscribe();
        EventStream { cursor, filter: EventFilter::new(types) }
    }
}

} // verus!
