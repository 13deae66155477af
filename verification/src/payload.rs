//! The shapes in which events and output state go out to subscribers.

use vstd::prelude::*;
use crate::event::{Event, EventView, RiverEventType};
use crate::json::{decimal, decimal_text, json_list, json_quote, json_string, list_text};
use crate::text::{opt_as_str, opt_str_view, opt_view};

verus! {

#[derive(Clone, Debug)]
pub struct OutputIdPayload {
    pub output_id: String,
}

#[derive(Clone, Debug)]
pub struct SeatIdPayload {
    pub seat_id: String,
}

#[derive(Clone, Debug)]
pub struct GOutputFocusedTags {
    pub output_id: String,
    pub name: Option<String>,
    pub tags: u32,
}

#[derive(Clone, Debug)]
pub struct GOutputViewTags {
    pub output_id: String,
    pub name: Option<String>,
    pub tags: Vec<u32>,
}

#[derive(Clone, Debug)]
pub struct GOutputUrgentTags {
    pub output_id: String,
    pub name: Option<String>,
    pub tags: u32,
}

#[derive(Clone, Debug)]
pub struct GOutputLayoutName {
    pub output_id: String,
    pub output_name: Option<String>,
    pub layout: String,
}

#[derive(Clone, Debug)]
pub struct GOutputLayoutNameClear {
    pub output_id: String,
    pub output_name: Option<String>,
}

#[derive(Clone, Debug)]
pub struct GSeatFocusedOutput {
    pub output_id: String,
    pub name: Option<String>,
}

#[derive(Clone, Debug)]
pub struct GSeatUnfocusedOutput {
    pub output_id: String,
    pub name: Option<String>,
}

#[derive(Clone, Debug)]
pub struct GSeatFocusedView {
    pub title: String,
}

#[derive(Clone, Debug)]
pub struct GSeatMode {
    pub name: String,
}

impl GOutputFocusedTags {
    pub fn tags(&self) -> (r: u32)
        ensures
            r == self.tags,
    {
        self.tags
    }

    pub fn output_id(&self) -> (r: &String)
        ensures
            r == self.output_id,
    {
        &self.output_id
    }

    pub fn name(&self) -> (r: Option<&str>)
        ensures
            opt_str_view(r) == opt_view(self.name),
    {
        opt_as_str(&self.name)
    }
}

impl GOutputViewTags {
    pub fn tags(&self) -> (r: &Vec<u32>)
        ensures
            r == self.tags,
    {
        &self.tags
    }

    pub fn output_id(&self) -> (r: &String)
        ensures
            r == self.output_id,
    {
        &self.output_id
    }

    pub fn name(&self) -> (r: Option<&str>)
        ensures
            opt_str_view(r) == opt_view(self.name),
    {
        opt_as_str(&self.name)
    }
}

impl GOutputUrgentTags {
    pub fn tags(&self) -> (r: u32)
        ensures
            r == self.tags,
    {
        self.tags
    }

    pub fn output_id(&self) -> (r: &String)
        ensures
            r == self.output_id,
    {
        &self.output_id
    }

    pub fn name(&self) -> (r: Option<&str>)
        ensures
            opt_str_view(r) == opt_view(self.name),
    {
        opt_as_str(&self.name)
    }
}

impl GOutputLayoutName {
    pub fn layout(&self) -> (r: &str)
        ensures
            r@ == self.layout@,
    {
        self.layout.as_str()
    }

    pub fn output_id(&self) -> (r: &String)
        ensures
            r == self.output_id,
    {
        &self.output_id
    }

    pub fn output_name(&self) -> (r: Option<&str>)
        ensures
            opt_str_view(r) == opt_view(self.output_name),
    {
        opt_as_str(&self.output_name)
    }
}

impl GOutputLayoutNameClear {
    pub fn output_id(&self) -> (r: &String)
        ensures
            r == self.output_id,
    {
        &self.output_id
    }

    pub fn output_name(&self) -> (r: Option<&str>)
        ensures
            opt_str_view(r) == opt_view(self.output_name),
    {
        opt_as_str(&self.output_name)
    }
}

impl GSeatFocusedOutput {
    pub fn output_id(&self) -> (r: &String)
        ensures
            r == self.output_id,
    {
        &self.output_id
    }

    pub fn name(&self) -> (r: Option<&str>)
        ensures
            opt_str_view(r) == opt_view(self.name),
    {
        opt_as_str(&self.name)
    }
}

impl GSeatUnfocusedOutput {
    pub fn output_id(&self) -> (r: &String)
        ensures
            r == self.output_id,
    {
        &self.output_id
    }

    pub fn name(&self) -> (r: Option<&str>)
        ensures
            opt_str_view(r) == opt_view(self.name),
    {
        opt_as_str(&self.name)
    }
}

impl GSeatFocusedView {
    pub fn title(&self) -> (r: &str)
        ensures
            r@ == self.title@,
    {
        self.title.as_str()
    }
}

impl GSeatMode {
    pub fn name(&self) -> (r: &str)
        ensures
            r@ == self.name@,
    {
        self.name.as_str()
    }
}

/// An event in the shape in which it is sent out.
#[derive(Clone, Debug)]
pub enum RiverEvent {
    OutputFocusedTags(GOutputFocusedTags),
    OutputViewTags(GOutputViewTags),
    OutputUrgentTags(GOutputUrgentTags),
    OutputLayoutName(GOutputLayoutName),
    OutputLayoutNameClear(GOutputLayoutNameClear),
    SeatFocusedOutput(GSeatFocusedOutput),
    SeatUnfocusedOutput(GSeatUnfocusedOutput),
    SeatFocusedView(GSeatFocusedView),
    SeatMode(GSeatMode),
}

pub enum RiverEventView {
    OutputFocusedTags { output_id: Seq<char>, name: Option<Seq<char>>, tags: u32 },
    OutputViewTags { output_id: Seq<char>, name: Option<Seq<char>>, tags: Seq<u32> },
    OutputUrgentTags { output_id: Seq<char>, name: Option<Seq<char>>, tags: u32 },
    OutputLayoutName { output_id: Seq<char>, output_name: Option<Seq<char>>, layout: Seq<char> },
    OutputLayoutNameClear { output_id: Seq<char>, output_name: Option<Seq<char>> },
    SeatFocusedOutput { output_id: Seq<char>, name: Option<Seq<char>> },
    SeatUnfocusedOutput { output_id: Seq<char>, name: Option<Seq<char>> },
    SeatFocusedView { title: Seq<char> },
    SeatMode { name: Seq<char> },
}

impl View for RiverEvent {
    type V = RiverEventView;

    open spec fn view(&self) -> RiverEventView {
        match *self {
            RiverEvent::OutputFocusedTags(g) => RiverEventView::OutputFocusedTags {
                output_id: g.output_id@,
                name: opt_view(g.name),
                tags: g.tags,
            },
            RiverEvent::OutputViewTags(g) => RiverEventView::OutputViewTags {
                output_id: g.output_id@,
                name: opt_view(g.name),
                tags: g.tags@,
            },
            RiverEvent::OutputUrgentTags(g) => RiverEventView::OutputUrgentTags {
                output_id: g.output_id@,
                name: opt_view(g.name),
                tags: g.tags,
            },
            RiverEvent::OutputLayoutName(g) => RiverEventView::OutputLayoutName {
                output_id: g.output_id@,
                output_name: opt_view(g.output_name),
                layout: g.layout@,
            },
            RiverEvent::OutputLayoutNameClear(g) => RiverEventView::OutputLayoutNameClear {
                output_id: g.output_id@,
                output_name: opt_view(g.output_name),
            },
            RiverEvent::SeatFocusedOutput(g) => RiverEventView::SeatFocusedOutput {
                output_id: g.output_id@,
                name: opt_view(g.name),
            },
            RiverEvent::SeatUnfocusedOutput(g) => RiverEventView::SeatUnfocusedOutput {
                output_id: g.output_id@,
                name: opt_view(g.name),
            },
            RiverEvent::SeatFocusedView(g) => RiverEventView::SeatFocusedView { title: g.title@ },
            RiverEvent::SeatMode(g) => RiverEventView::SeatMode { name: g.name@ },
        }
    }
}

/// The outgoing shape of an event. The mapping is total and keeps the kind:
/// every event has one shape, under the tag of its own kind.
pub open spec fn payload_of(e: EventView) -> RiverEventView {
    match e {
        EventView::OutputFocusedTags { id, name, tags } => RiverEventView::OutputFocusedTags {
            output_id: id.key,
            name,
            tags,
        },
        EventView::OutputViewTags { id, name, tags } => RiverEventView::OutputViewTags {
            output_id: id.key,
            name,
            tags,
        },
        EventView::OutputUrgentTags { id, name, tags } => RiverEventView::OutputUrgentTags {
            output_id: id.key,
            name,
            tags,
        },
        EventView::OutputLayoutName { id, name, layout } => RiverEventView::OutputLayoutName {
            output_id: id.key,
            output_name: name,
            layout,
        },
        EventView::OutputLayoutNameClear { id, name } => RiverEventView::OutputLayoutNameClear {
            output_id: id.key,
            output_name: name,
        },
        EventView::SeatFocusedOutput { id, name } => RiverEventView::SeatFocusedOutput {
            output_id: id.key,
            name,
        },
        EventView::SeatUnfocusedOutput { id, name } => RiverEventView::SeatUnfocusedOutput {
            output_id: id.key,
            name,
        },
        EventView::SeatFocusedView { title } => RiverEventView::SeatFocusedView { title },
        EventView::SeatMode { name } => RiverEventView::SeatMode { name },
    }
}

impl From<Event> for RiverEvent {
    fn from(value: Event) -> (r: RiverEvent)
        ensures
            r@ == payload_of(value@),
            r@.kind() == value@.kind(),
    {
        match value {
            Event::OutputFocusedTags { id, name, tags } => RiverEvent::OutputFocusedTags(
                GOutputFocusedTags { output_id: id.key, name, tags },
            ),
            Event::OutputViewTags { id, name, tags } => RiverEvent::OutputViewTags(
                GOutputViewTags { output_id: id.key, name, tags },
            ),
            Event::OutputUrgentTags { id, name, tags } => RiverEvent::OutputUrgentTags(
                GOutputUrgentTags { output_id: id.key, name, tags },
            ),
            Event::OutputLayoutName { id, name, layout } => RiverEvent::OutputLayoutName(
                GOutputLayoutName { output_id: id.key, output_name: name, layout },
            ),
            Event::OutputLayoutNameClear { id, name } => RiverEvent::OutputLayoutNameClear(
                GOutputLayoutNameClear { output_id: id.key, output_name: name },
            ),
            Event::SeatFocusedOutput { id, name } => RiverEvent::SeatFocusedOutput(
                GSeatFocusedOutput { output_id: id.key, name },
            ),
            Event::SeatUnfocusedOutput { id, name } => RiverEvent::SeatUnfocusedOutput(
                GSeatUnfocusedOutput { output_id: id.key, name },
            ),
            Event::SeatFocusedView { title } => RiverEvent::SeatFocusedView(
                GSeatFocusedView { title },
            ),
            Event::SeatMode { name } => RiverEvent::SeatMode(GSeatMode { name }),
        }
    }
}

/// The conversion's result is stated by `payload_of` over views; no value of
/// `RiverEvent` is singled out for it, since a string is known by its
/// characters only.
impl vstd::std_specs::convert::FromSpecImpl<Event> for RiverEvent {
    open spec fn obeys_from_spec() -> bool {
        false
    }

    open spec fn from_spec(value: Event) -> RiverEvent {
        choose|r: RiverEvent| r@ == payload_of(value@)
    }
}

impl RiverEventView {
    /// The kind of event that the shape is the shape of: its tag.
    pub open spec fn kind(self) -> RiverEventType {
        match self {
            RiverEventView::OutputFocusedTags { .. } => RiverEventType::OutputFocusedTags,
            RiverEventView::OutputViewTags { .. } => RiverEventType::OutputViewTags,
            RiverEventView::OutputUrgentTags { .. } => RiverEventType::OutputUrgentTags,
            RiverEventView::OutputLayoutName { .. } => RiverEventType::OutputLayoutName,
            RiverEventView::OutputLayoutNameClear { .. } => RiverEventType::OutputLayoutNameClear,
            RiverEventView::SeatFocusedOutput { .. } => RiverEventType::SeatFocusedOutput,
            RiverEventView::SeatUnfocusedOutput { .. } => RiverEventType::SeatUnfocusedOutput,
            RiverEventView::SeatFocusedView { .. } => RiverEventType::SeatFocusedView,
            RiverEventView::SeatMode { .. } => RiverEventType::SeatMode,
        }
    }
}

impl RiverEvent {
    /// The kind of event that the shape is the shape of: its tag.
    pub fn kind(&self) -> (k: RiverEventType)
        ensures
            k == self@.kind(),
    {
        match self {
            RiverEvent::OutputFocusedTags(_) => RiverEventType::OutputFocusedTags,
            RiverEvent::OutputViewTags(_) => RiverEventType::OutputViewTags,
            RiverEvent::OutputUrgentTags(_) => RiverEventType::OutputUrgentTags,
            RiverEvent::OutputLayoutName(_) => RiverEventType::OutputLayoutName,
            RiverEvent::OutputLayoutNameClear(_) => RiverEventType::OutputLayoutNameClear,
            RiverEvent::SeatFocusedOutput(_) => RiverEventType::SeatFocusedOutput,
            RiverEvent::SeatUnfocusedOutput(_) => RiverEventType::SeatUnfocusedOutput,
            RiverEvent::SeatFocusedView(_) => RiverEventType::SeatFocusedView,
            RiverEvent::SeatMode(_) => RiverEventType::SeatMode,
        }
    }
}

/// Every event goes out under the tag of its own kind.
pub proof fn lemma_payload_keeps_kind(e: EventView)
    ensures
        payload_of(e).kind() == e.kind(),
{
}

/// The member that carries a label under the key `name`, with the comma
/// before it; nothing where no label is known.
pub open spec fn name_member(label: Option<Seq<char>>) -> Seq<char> {
    match label {
        Some(l) => ",\"name\":"@ + json_string(l),
        None => Seq::empty(),
    }
}

/// The member that carries a label under the key `outputName`, with the comma
/// before it; nothing where no label is known.
pub open spec fn output_name_member(label: Option<Seq<char>>) -> Seq<char> {
    match label {
        Some(l) => ",\"outputName\":"@ + json_string(l),
        None => Seq::empty(),
    }
}

impl RiverEventView {
    /// The event as a JSON object: its tag under `__typename`, then its
    /// members by key. The identity of the output is not written; its label is,
    /// where one is known.
    pub open spec fn json(self) -> Seq<char> {
        match self {
            RiverEventView::OutputFocusedTags { output_id, name, tags } => {
                "{\"__typename\":\"OutputFocusedTags\""@ + name_member(name) + ",\"tags\":"@
                    + decimal(tags as nat) + "}"@
            },
            RiverEventView::OutputViewTags { output_id, name, tags } => {
                "{\"__typename\":\"OutputViewTags\""@ + name_member(name) + ",\"tags\":"@
                    + json_list(tags) + "}"@
            },
            RiverEventView::OutputUrgentTags { output_id, name, tags } => {
                "{\"__typename\":\"OutputUrgentTags\""@ + name_member(name) + ",\"tags\":"@
                    + decimal(tags as nat) + "}"@
            },
            RiverEventView::OutputLayoutName { output_id, output_name, layout } => {
                "{\"__typename\":\"OutputLayoutName\",\"layout\":"@ + json_string(layout)
                    + output_name_member(output_name) + "}"@
            },
            RiverEventView::OutputLayoutNameClear { output_id, output_name } => {
                "{\"__typename\":\"OutputLayoutNameClear\""@ + output_name_member(output_name)
                    + "}"@
            },
            RiverEventView::SeatFocusedOutput { output_id, name } => {
                "{\"__typename\":\"SeatFocusedOutput\""@ + name_member(name) + "}"@
            },
            RiverEventView::SeatUnfocusedOutput { output_id, name } => {
                "{\"__typename\":\"SeatUnfocusedOutput\""@ + name_member(name) + "}"@
            },
            RiverEventView::SeatFocusedView { title } => {
                "{\"__typename\":\"SeatFocusedView\",\"title\":"@ + json_string(title) + "}"@
            },
            RiverEventView::SeatMode { name } => {
                "{\"__typename\":\"SeatMode\",\"name\":"@ + json_string(name) + "}"@
            },
        }
    }
}

fn append_name(out: &mut String, label: &Option<String>)
    ensures
        final(out)@ == old(out)@ + name_member(opt_view(*label)),
{
    match label {
        Some(l) => {
            out.append(",\"name\":");
            let quoted = json_quote(l.as_str());
            out.append(quoted.as_str());
            assert(out@ =~= old(out)@ + name_member(opt_view(*label)));
        },
        None => {
            assert(out@ =~= old(out)@ + name_member(opt_view(*label)));
        },
    }
}

fn append_output_name(out: &mut String, label: &Option<String>)
    ensures
        final(out)@ == old(out)@ + output_name_member(opt_view(*label)),
{
    match label {
        Some(l) => {
            out.append(",\"outputName\":");
            let quoted = json_quote(l.as_str());
            out.append(quoted.as_str());
            assert(out@ =~= old(out)@ + output_name_member(opt_view(*label)));
        },
        None => {
            assert(out@ =~= old(out)@ + output_name_member(opt_view(*label)));
        },
    }
}

impl RiverEvent {
    /// The event as JSON text.
    pub fn to_json(&self) -> (r: String)
        ensures
            r@ == self@.json(),
    {
        match self {
            RiverEvent::OutputFocusedTags(g) => {
                let mut out = String::from_str("{\"__typename\":\"OutputFocusedTags\"");
                append_name(&mut out, &g.name);
                out.append(",\"tags\":");
                out.append(decimal_text(g.tags).as_str());
                out.append("}");
                out
            },
            RiverEvent::OutputViewTags(g) => {
                let mut out = String::from_str("{\"__typename\":\"OutputViewTags\"");
                append_name(&mut out, &g.name);
                out.append(",\"tags\":");
                out.append(list_text(&g.tags).as_str());
                out.append("}");
                out
            },
            RiverEvent::OutputUrgentTags(g) => {
                let mut out = String::from_str("{\"__typename\":\"OutputUrgentTags\"");
                append_name(&mut out, &g.name);
                out.append(",\"tags\":");
                out.append(decimal_text(g.tags).as_str());
                out.append("}");
                out
            },
            RiverEvent::OutputLayoutName(g) => {
                let mut out = String::from_str("{\"__typename\":\"OutputLayoutName\",\"layout\":");
                out.append(json_quote(g.layout.as_str()).as_str());
                append_output_name(&mut out, &g.output_name);
                out.append("}");
                out
            },
            RiverEvent::OutputLayoutNameClear(g) => {
                let mut out = String::from_str("{\"__typename\":\"OutputLayoutNameClear\"");
                append_output_name(&mut out, &g.output_name);
                out.append("}");
                out
            },
            RiverEvent::SeatFocusedOutput(g) => {
                let mut out = String::from_str("{\"__typename\":\"SeatFocusedOutput\"");
                append_name(&mut out, &g.name);
                out.append("}");
                out
            },
            RiverEvent::SeatUnfocusedOutput(g) => {
                let mut out = String::from_str("{\"__typename\":\"SeatUnfocusedOutput\"");
                append_name(&mut out, &g.name);
                out.append("}");
                out
            },
            RiverEvent::SeatFocusedView(g) => {
                let mut out = String::from_str("{\"__typename\":\"SeatFocusedView\",\"title\":");
                out.append(json_quote(g.title.as_str()).as_str());
                out.append("}");
                out
            },
            RiverEvent::SeatMode(g) => {
                let mut out = String::from_str("{\"__typename\":\"SeatMode\",\"name\":");
                out.append(json_quote(g.name.as_str()).as_str());
                out.append("}");
                out
            },
        }
    }
}

} // verus!
