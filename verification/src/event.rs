//! Status events as the upstream source delivers them.

use vstd::prelude::*;
use crate::text::{opt_view, str_eq};

verus! {

/// Handle of an upstream object. It is opaque: the library files state under
/// `key` and looks labels up under `protocol_id`, and reads nothing else from it.
#[derive(Clone, Debug)]
pub struct ObjectId {
    pub protocol_id: u32,
    pub key: String,
}

pub struct ObjectIdView {
    pub protocol_id: u32,
    pub key: Seq<char>,
}

impl View for ObjectId {
    type V = ObjectIdView;

    open spec fn view(&self) -> ObjectIdView {
        ObjectIdView { protocol_id: self.protocol_id, key: self.key@ }
    }
}

/// One status change. Output events carry the identity of the output and its
/// label, if one is known at the time.
#[derive(Clone, Debug)]
pub enum Event {
    OutputFocusedTags { id: ObjectId, name: Option<String>, tags: u32 },
    OutputViewTags { id: ObjectId, name: Option<String>, tags: Vec<u32> },
    OutputUrgentTags { id: ObjectId, name: Option<String>, tags: u32 },
    OutputLayoutName { id: ObjectId, name: Option<String>, layout: String },
    OutputLayoutNameClear { id: ObjectId, name: Option<String> },
    SeatFocusedOutput { id: ObjectId, name: Option<String> },
    SeatUnfocusedOutput { id: ObjectId, name: Option<String> },
    SeatFocusedView { title: String },
    SeatMode { name: String },
}

pub enum EventView {
    OutputFocusedTags { id: ObjectIdView, name: Option<Seq<char>>, tags: u32 },
    OutputViewTags { id: ObjectIdView, name: Option<Seq<char>>, tags: Seq<u32> },
    OutputUrgentTags { id: ObjectIdView, name: Option<Seq<char>>, tags: u32 },
    OutputLayoutName { id: ObjectIdView, name: Option<Seq<char>>, layout: Seq<char> },
    OutputLayoutNameClear { id: ObjectIdView, name: Option<Seq<char>> },
    SeatFocusedOutput { id: ObjectIdView, name: Option<Seq<char>> },
    SeatUnfocusedOutput { id: ObjectIdView, name: Option<Seq<char>> },
    SeatFocusedView { title: Seq<char> },
    SeatMode { name: Seq<char> },
}

impl View for Event {
    type V = EventView;

    open spec fn view(&self) -> EventView {
        match *self {
            Event::OutputFocusedTags { id, name, tags } => EventView::OutputFocusedTags {
                id: id@,
                name: opt_view(name),
                tags,
            },
            Event::OutputViewTags { id, name, tags } => EventView::OutputViewTags {
                id: id@,
                name: opt_view(name),
                tags: tags@,
            },
            Event::OutputUrgentTags { id, name, tags } => EventView::OutputUrgentTags {
                id: id@,
                name: opt_view(name),
                tags,
            },
            Event::OutputLayoutName { id, name, layout } => EventView::OutputLayoutName {
                id: id@,
                name: opt_view(name),
                layout: layout@,
            },
            Event::OutputLayoutNameClear { id, name } => EventView::OutputLayoutNameClear {
                id: id@,
                name: opt_view(name),
            },
            Event::SeatFocusedOutput { id, name } => EventView::SeatFocusedOutput {
                id: id@,
                name: opt_view(name),
            },
            Event::SeatUnfocusedOutput { id, name } => EventView::SeatUnfocusedOutput {
                id: id@,
                name: opt_view(name),
            },
            Event::SeatFocusedView { title } => EventView::SeatFocusedView { title: title@ },
            Event::SeatMode { name } => EventView::SeatMode { name: name@ },
        }
    }
}

/// The kind of an event, without what it carries.
#[derive(Clone, Copy, Debug, PartialEq, Eq, Structural, Hash)]
pub enum RiverEventType {
    OutputFocusedTags,
    OutputViewTags,
    OutputUrgentTags,
    OutputLayoutName,
    OutputLayoutNameClear,
    SeatFocusedOutput,
    SeatUnfocusedOutput,
    SeatFocusedView,
    SeatMode,
}

/// The name under which a kind of event is asked for.
pub open spec fn kind_name(kind: RiverEventType) -> Seq<char> {
    match kind {
        RiverEventType::OutputFocusedTags => "OUTPUT_FOCUSED_TAGS"@,
        RiverEventType::OutputViewTags => "OUTPUT_VIEW_TAGS"@,
        RiverEventType::OutputUrgentTags => "OUTPUT_URGENT_TAGS"@,
        RiverEventType::OutputLayoutName => "OUTPUT_LAYOUT_NAME"@,
        RiverEventType::OutputLayoutNameClear => "OUTPUT_LAYOUT_NAME_CLEAR"@,
        RiverEventType::SeatFocusedOutput => "SEAT_FOCUSED_OUTPUT"@,
        RiverEventType::SeatUnfocusedOutput => "SEAT_UNFOCUSED_OUTPUT"@,
        RiverEventType::SeatFocusedView => "SEAT_FOCUSED_VIEW"@,
        RiverEventType::SeatMode => "SEAT_MODE"@,
    }
}

/// The kind of event that a name asks for, if it is the name of one.
pub open spec fn kind_named(name: Seq<char>) -> Option<RiverEventType> {
    if name == kind_name(RiverEventType::OutputFocusedTags) {
        Some(RiverEventType::OutputFocusedTags)
    } else if name == kind_name(RiverEventType::OutputViewTags) {
        Some(RiverEventType::OutputViewTags)
    } else if name == kind_name(RiverEventType::OutputUrgentTags) {
        Some(RiverEventType::OutputUrgentTags)
    } else if name == kind_name(RiverEventType::OutputLayoutName) {
        Some(RiverEventType::OutputLayoutName)
    } else if name == kind_name(RiverEventType::OutputLayoutNameClear) {
        Some(RiverEventType::OutputLayoutNameClear)
    } else if name == kind_name(RiverEventType::SeatFocusedOutput) {
        Some(RiverEventType::SeatFocusedOutput)
    } else if name == kind_name(RiverEventType::SeatUnfocusedOutput) {
        Some(RiverEventType::SeatUnfocusedOutput)
    } else if name == kind_name(RiverEventType::SeatFocusedView) {
        Some(RiverEventType::SeatFocusedView)
    } else if name == kind_name(RiverEventType::SeatMode) {
        Some(RiverEventType::SeatMode)
    } else {
        None
    }
}

impl RiverEventType {
    /// The name under which the kind is asked for.
    pub fn name(&self) -> (r: &'static str)
        ensures
            r@ == kind_name(*self),
    {
        match self {
            RiverEventType::OutputFocusedTags => "OUTPUT_FOCUSED_TAGS",
            RiverEventType::OutputViewTags => "OUTPUT_VIEW_TAGS",
            RiverEventType::OutputUrgentTags => "OUTPUT_URGENT_TAGS",
            RiverEventType::OutputLayoutName => "OUTPUT_LAYOUT_NAME",
            RiverEventType::OutputLayoutNameClear => "OUTPUT_LAYOUT_NAME_CLEAR",
            RiverEventType::SeatFocusedOutput => "SEAT_FOCUSED_OUTPUT",
            RiverEventType::SeatUnfocusedOutput => "SEAT_UNFOCUSED_OUTPUT",
            RiverEventType::SeatFocusedView => "SEAT_FOCUSED_VIEW",
            RiverEventType::SeatMode => "SEAT_MODE",
        }
    }

    /// The kind that a name asks for, if it is the name of one.
    pub fn from_name(name: &str) -> (r: Option<RiverEventType>)
        ensures
            r == kind_named(name@),
    {
        if str_eq(name, "OUTPUT_FOCUSED_TAGS") {
            Some(RiverEventType::OutputFocusedTags)
        } else if str_eq(name, "OUTPUT_VIEW_TAGS") {
            Some(RiverEventType::OutputViewTags)
        } else if str_eq(name, "OUTPUT_URGENT_TAGS") {
            Some(RiverEventType::OutputUrgentTags)
        } else if str_eq(name, "OUTPUT_LAYOUT_NAME") {
            Some(RiverEventType::OutputLayoutName)
        } else if str_eq(name, "OUTPUT_LAYOUT_NAME_CLEAR") {
            Some(RiverEventType::OutputLayoutNameClear)
        } else if str_eq(name, "SEAT_FOCUSED_OUTPUT") {
            Some(RiverEventType::SeatFocusedOutput)
        } else if str_eq(name, "SEAT_UNFOCUSED_OUTPUT") {
            Some(RiverEventType::SeatUnfocusedOutput)
        } else if str_eq(name, "SEAT_FOCUSED_VIEW") {
            Some(RiverEventType::SeatFocusedView)
        } else if str_eq(name, "SEAT_MODE") {
            Some(RiverEventType::SeatMode)
        } else {
            None
        }
    }
}

impl EventView {
    /// The kind of the event.
    pub open spec fn kind(self) -> RiverEventType {
        match self {
            EventView::OutputFocusedTags { .. } => RiverEventType::OutputFocusedTags,
            EventView::OutputViewTags { .. } => RiverEventType::OutputViewTags,
            EventView::OutputUrgentTags { .. } => RiverEventType::OutputUrgentTags,
            EventView::OutputLayoutName { .. } => RiverEventType::OutputLayoutName,
            EventView::OutputLayoutNameClear { .. } => RiverEventType::OutputLayoutNameClear,
            EventView::SeatFocusedOutput { .. } => RiverEventType::SeatFocusedOutput,
            EventView::SeatUnfocusedOutput { .. } => RiverEventType::SeatUnfocusedOutput,
            EventView::SeatFocusedView { .. } => RiverEventType::SeatFocusedView,
            EventView::SeatMode { .. } => RiverEventType::SeatMode,
        }
    }
}

impl From<&Event> for RiverEventType {
    fn from(e: &Event) -> (r: RiverEventType) {
        match e {
            Event::OutputFocusedTags { .. } => RiverEventType::OutputFocusedTags,
            Event::OutputViewTags { .. } => RiverEventType::OutputViewTags,
            Event::OutputUrgentTags { .. } => RiverEventType::OutputUrgentTags,
            Event::OutputLayoutName { .. } => RiverEventType::OutputLayoutName,
            Event::OutputLayoutNameClear { .. } => RiverEventType::OutputLayoutNameClear,
            Event::SeatFocusedOutput { .. } => RiverEventType::SeatFocusedOutput,
            Event::SeatUnfocusedOutput { .. } => RiverEventType::SeatUnfocusedOutput,
            Event::SeatFocusedView { .. } => RiverEventType::SeatFocusedView,
            Event::SeatMode { .. } => RiverEventType::SeatMode,
        }
    }
}

impl vstd::std_specs::convert::FromSpecImpl<&Event> for RiverEventType {
    open spec fn obeys_from_spec() -> bool {
        true
    }

    open spec fn from_spec(e: &Event) -> RiverEventType {
        e@.kind()
    }
}

} // verus!
