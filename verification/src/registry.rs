//! The registry of outputs: what each output has said of itself, which
//! status object reports on which output, and the events that are made of
//! what the status objects report.

use std::collections::HashMap;
use vstd::prelude::*;
use crate::event::{Event, EventView, ObjectId, ObjectIdView};
use crate::label::{OutputInfo, OutputInfoView};
use crate::text::{opt_clone, opt_view};

verus! {

broadcast use vstd::std_specs::hash::group_hash_axioms;

/// The value of four bytes read with the lowest byte first.
pub open spec fn le_u32(b0: u8, b1: u8, b2: u8, b3: u8) -> int {
    b0 as int + 256 * (b1 as int) + 65536 * (b2 as int) + 16777216 * (b3 as int)
}

/// The value of four bytes read with the highest byte first.
pub open spec fn be_u32(b0: u8, b1: u8, b2: u8, b3: u8) -> int {
    le_u32(b3, b2, b1, b0)
}

/// `u32::from_ne_bytes` of std: the four bytes read in the byte order of the
/// machine, which is one of the two there are. Which one it is, the contract
/// does not say.
#[verifier::external_body]
fn ne_u32(b0: u8, b1: u8, b2: u8, b3: u8) -> (r: u32)
    ensures
        r == le_u32(b0, b1, b2, b3) || r == be_u32(b0, b1, b2, b3),
{
    u32::from_ne_bytes([b0, b1, b2, b3])
}

/// The value of four bytes read in one of the two byte orders.
pub open spec fn word_of(b0: u8, b1: u8, b2: u8, b3: u8, little: bool) -> int {
    if little {
        le_u32(b0, b1, b2, b3)
    } else {
        be_u32(b0, b1, b2, b3)
    }
}

/// Whether `words` is `bytes` read four at a time, every word in the same
/// byte order: with the lowest byte first if `little`, else with the highest
/// first. Bytes left over at the end, fewer than four, are not read.
pub open spec fn is_reading(bytes: Seq<u8>, words: Seq<u32>, little: bool) -> bool {
    &&& words.len() == bytes.len() / 4
    &&& forall|i: int|
        0 <= i < words.len() ==> #[trigger] words[i] == word_of(
            bytes[4 * i],
            bytes[4 * i + 1],
            bytes[4 * i + 2],
            bytes[4 * i + 3],
            little,
        )
}

/// Whether `words` is `bytes` read four at a time in one byte order, the same
/// for every word: that of the machine, whichever of the two it is.
pub open spec fn is_native_reading(bytes: Seq<u8>, words: Seq<u32>) -> bool {
    is_reading(bytes, words, true) || is_reading(bytes, words, false)
}

fn read_word(b0: u8, b1: u8, b2: u8, b3: u8, little: bool) -> (word: u32)
    ensures
        word == word_of(b0, b1, b2, b3, little),
{
    if little {
        b0 as u32 + 256 * (b1 as u32) + 65536 * (b2 as u32) + 16777216 * (b3 as u32)
    } else {
        b3 as u32 + 256 * (b2 as u32) + 65536 * (b1 as u32) + 16777216 * (b0 as u32)
    }
}

/// Reads an array of 32-bit numbers as the compositor sends it: in the byte
/// order of the machine. The machine is asked once which of the two orders
/// it reads a one in; every word is then read in that order.
pub fn parse_u32_array(bytes: &[u8]) -> (words: Vec<u32>)
    ensures
        is_native_reading(bytes@, words@),
{
    let little = ne_u32(1, 0, 0, 0) == 1;
    let mut words: Vec<u32> = Vec::new();
    let mut i: usize = 0;
    while bytes.len() - i >= 4
        invariant
            i <= bytes@.len(),
            i == 4 * words@.len(),
            forall|k: int|
                0 <= k < words@.len() ==> #[trigger] words@[k] == word_of(
                    bytes@[4 * k],
                    bytes@[4 * k + 1],
                    bytes@[4 * k + 2],
                    bytes@[4 * k + 3],
                    little,
                ),
        decreases bytes@.len() - i,
    {
        let word = read_word(bytes[i], bytes[i + 1], bytes[i + 2], bytes[i + 3], little);
        words.push(word);
        i = i + 4;
    }
    assert(is_reading(bytes@, words@, little));
    words
}

impl ObjectId {
    /// A copy of the handle.
    pub fn duplicate(&self) -> (r: ObjectId)
        ensures
            r@ == self@,
    {
        ObjectId { protocol_id: self.protocol_id, key: self.key.clone() }
    }
}

impl OutputInfo {
    /// A copy of what the output has said.
    pub fn duplicate(&self) -> (r: OutputInfo)
        ensures
            r@ == self@,
    {
        OutputInfo {
            name: opt_clone(&self.name),
            description: opt_clone(&self.description),
            make: opt_clone(&self.make),
            model: opt_clone(&self.model),
        }
    }
}

/// Something that an output says of itself.
#[derive(Clone, Debug)]
pub enum InfoUpdate {
    Name(String),
    Description(String),
    Geometry { make: String, model: String },
}

pub enum InfoUpdateView {
    Name(Seq<char>),
    Description(Seq<char>),
    Geometry { make: Seq<char>, model: Seq<char> },
}

impl View for InfoUpdate {
    type V = InfoUpdateView;

    open spec fn view(&self) -> InfoUpdateView {
        match *self {
            InfoUpdate::Name(name) => InfoUpdateView::Name(name@),
            InfoUpdate::Description(description) => InfoUpdateView::Description(description@),
            InfoUpdate::Geometry { make, model } => InfoUpdateView::Geometry {
                make: make@,
                model: model@,
            },
        }
    }
}

impl OutputInfoView {
    /// An output that has said nothing yet.
    pub open spec fn silent() -> OutputInfoView {
        OutputInfoView { name: None, description: None, make: None, model: None }
    }

    /// What the output has said once `update` is taken in.
    pub open spec fn updated(self, update: InfoUpdateView) -> OutputInfoView {
        match update {
            InfoUpdateView::Name(name) => OutputInfoView { name: Some(name), ..self },
            InfoUpdateView::Description(description) => OutputInfoView {
                description: Some(description),
                ..self
            },
            InfoUpdateView::Geometry { make, model } => OutputInfoView {
                make: Some(make),
                model: Some(model),
                ..self
            },
        }
    }
}

/// What a status object reports of its output.
#[derive(Clone, Debug)]
pub enum OutputStatus {
    FocusedTags { tags: u32 },
    /// The tags of the views, as the bytes of an array of 32-bit numbers.
    ViewTags { tags: Vec<u8> },
    UrgentTags { tags: u32 },
    LayoutName { name: String },
    LayoutNameClear,
}

/// What a status object reports of the seat.
#[derive(Clone, Debug)]
pub enum SeatStatus {
    FocusedOutput { output: ObjectId },
    UnfocusedOutput { output: ObjectId },
    FocusedView { title: String },
    Mode { name: String },
}

/// The registry as a mathematical value: what each output has said, by the
/// output's protocol id, and the output of each status object, by the status
/// object's protocol id.
pub struct RegistryView {
    pub infos: Map<u32, OutputInfoView>,
    pub owners: Map<u32, ObjectIdView>,
}

impl RegistryView {
    /// The registry that knows no output.
    pub open spec fn empty() -> RegistryView {
        RegistryView { infos: Map::empty(), owners: Map::empty() }
    }

    /// What the output has said so far; nothing, if it is not known.
    pub open spec fn info_or_silent(self, protocol_id: u32) -> OutputInfoView {
        if self.infos.contains_key(protocol_id) {
            self.infos[protocol_id]
        } else {
            OutputInfoView::silent()
        }
    }

    /// The label of an output: the label that follows from what it has said,
    /// and none for an output that is not known.
    pub open spec fn label(self, protocol_id: u32) -> Option<Seq<char>> {
        if self.infos.contains_key(protocol_id) {
            self.infos[protocol_id].label()
        } else {
            None
        }
    }

    /// The event that a report of the seat makes.
    pub open spec fn seat_event(self, status: SeatStatus) -> EventView {
        match status {
            SeatStatus::FocusedOutput { output } => EventView::SeatFocusedOutput {
                id: output@,
                name: self.label(output.protocol_id),
            },
            SeatStatus::UnfocusedOutput { output } => EventView::SeatUnfocusedOutput {
                id: output@,
                name: self.label(output.protocol_id),
            },
            SeatStatus::FocusedView { title } => EventView::SeatFocusedView { title: title@ },
            SeatStatus::Mode { name } => EventView::SeatMode { name: name@ },
        }
    }

    /// Whether `event` is the event that a report of an output makes: it
    /// carries the output that the status object reports on, the label of
    /// that output, and what was reported; the tags of the views are the
    /// reported bytes read as numbers.
    pub open spec fn is_output_event(self, status_id: u32, status: OutputStatus, event: EventView) -> bool {
        let id = self.owners[status_id];
        let name = self.label(id.protocol_id);
        match status {
            OutputStatus::FocusedTags { tags } => event == EventView::OutputFocusedTags {
                id,
                name,
                tags,
            },
            OutputStatus::ViewTags { tags: bytes } => {
                &&& event matches EventView::OutputViewTags { id: i, name: n, tags: words }
                &&& i == id
                &&& n == name
                &&& is_native_reading(bytes@, words)
            },
            OutputStatus::UrgentTags { tags } => event == EventView::OutputUrgentTags {
                id,
                name,
                tags,
            },
            OutputStatus::LayoutName { name: layout } => event == EventView::OutputLayoutName {
                id,
                name,
                layout: layout@,
            },
            OutputStatus::LayoutNameClear => event == EventView::OutputLayoutNameClear {
                id,
                name,
            },
        }
    }
}

/// The registry of outputs.
pub struct Registry {
    output_info: HashMap<u32, OutputInfo>,
    output_status_owner: HashMap<u32, ObjectId>,
}

impl View for Registry {
    type V = RegistryView;

    closed spec fn view(&self) -> RegistryView {
        RegistryView {
            infos: self.output_info@.map_values(|info: OutputInfo| info@),
            owners: self.output_status_owner@.map_values(|id: ObjectId| id@),
        }
    }
}

impl Registry {
    /// A registry that knows no output.
    pub fn new() -> (r: Registry)
        ensures
            r@ == RegistryView::empty(),
    {
        let r = Registry { output_info: HashMap::new(), output_status_owner: HashMap::new() };
        assert(r@.infos =~= Map::<u32, OutputInfoView>::empty());
        assert(r@.owners =~= Map::<u32, ObjectIdView>::empty());
        r
    }

    /// Makes an output known, if it is not yet. What it has said stays.
    pub fn track_output(&mut self, output: &ObjectId)
        ensures
            final(self)@.infos == old(self)@.infos.insert(
                output.protocol_id,
                old(self)@.info_or_silent(output.protocol_id),
            ),
            final(self)@.owners == old(self)@.owners,
    {
        if !self.output_info.contains_key(&output.protocol_id) {
            self.output_info.insert(output.protocol_id, OutputInfo::default());
        }
        assert(self@.infos =~= old(self)@.infos.insert(
            output.protocol_id,
            old(self)@.info_or_silent(output.protocol_id),
        ));
    }

    /// Notes that a status object reports on an output.
    pub fn bind_status(&mut self, status_id: u32, output: ObjectId)
        ensures
            final(self)@.owners == old(self)@.owners.insert(status_id, output@),
            final(self)@.infos == old(self)@.infos,
    {
        let ghost o = output@;
        self.output_status_owner.insert(status_id, output);
        assert(self@.owners =~= old(self)@.owners.insert(status_id, o));
    }

    /// Takes in something that an output says of itself. An output that was
    /// not known is known from then on.
    pub fn update_output_info(&mut self, id: &ObjectId, update: InfoUpdate)
        ensures
            final(self)@.infos == old(self)@.infos.insert(
                id.protocol_id,
                old(self)@.info_or_silent(id.protocol_id).updated(update@),
            ),
            final(self)@.owners == old(self)@.owners,
    {
        let mut info = match self.output_info.get(&id.protocol_id) {
            Some(known) => known.duplicate(),
            None => OutputInfo::default(),
        };
        assert(info@ == old(self)@.info_or_silent(id.protocol_id));
        match update {
            InfoUpdate::Name(name) => {
                info.name = Some(name);
            },
            InfoUpdate::Description(description) => {
                info.description = Some(description);
            },
            InfoUpdate::Geometry { make, model } => {
                info.make = Some(make);
                info.model = Some(model);
            },
        }
        let ghost updated = info@;
        self.output_info.insert(id.protocol_id, info);
        assert(self@.infos =~= old(self)@.infos.insert(id.protocol_id, updated));
    }

    /// The label of an output, if it has one.
    pub fn output_label(&self, id: &ObjectId) -> (r: Option<String>)
        ensures
            opt_view(r) == self@.label(id.protocol_id),
    {
        match self.output_info.get(&id.protocol_id) {
            Some(info) => info.label(),
            None => None,
        }
    }

    /// The event that a report of an output makes; none if the status object
    /// is not known to report on any output.
    pub fn output_status_event(&self, status_id: u32, status: OutputStatus) -> (r: Option<Event>)
        ensures
            r is Some <==> self@.owners.contains_key(status_id),
            r matches Some(event) ==> self@.is_output_event(status_id, status, event@),
    {
        let id = match self.output_status_owner.get(&status_id) {
            Some(owner) => owner.duplicate(),
            None => {
                return None;
            },
        };
        let name = self.output_label(&id);
        Some(
            match status {
                OutputStatus::FocusedTags { tags } => Event::OutputFocusedTags { id, name, tags },
                OutputStatus::ViewTags { tags } => Event::OutputViewTags {
                    id,
                    name,
                    tags: parse_u32_array(tags.as_slice()),
                },
                OutputStatus::UrgentTags { tags } => Event::OutputUrgentTags { id, name, tags },
                OutputStatus::LayoutName { name: layout } => Event::OutputLayoutName {
                    id,
                    name,
                    layout,
                },
                OutputStatus::LayoutNameClear => Event::OutputLayoutNameClear { id, name },
            },
        )
    }

    /// The event that a report of the seat makes.
    pub fn seat_status_event(&self, status: SeatStatus) -> (event: Event)
        ensures
            event@ == self@.seat_event(status),
    {
        match status {
            SeatStatus::FocusedOutput { output } => {
                let name = self.output_label(&output);
                Event::SeatFocusedOutput { id: output, name }
            },
            SeatStatus::UnfocusedOutput { output } => {
                let name = self.output_label(&output);
                Event::SeatUnfocusedOutput { id: output, name }
            },
            SeatStatus::FocusedView { title } => Event::SeatFocusedView { title },
            SeatStatus::Mode { name } => Event::SeatMode { name },
        }
    }
}

} // verus!
