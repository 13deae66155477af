//! The snapshot store: the current state of every output and of the seat,
//! brought up to date one event at a time.

use vstd::prelude::*;
use crate::event::{Event, EventView, ObjectId};
use crate::strmap::StrMap;
use crate::text::{opt_clone, opt_is, opt_view, str_eq};

verus! {

/// What is known of one output.
#[derive(Clone, Debug)]
pub struct OutputState {
    pub output_id: String,
    pub name: Option<String>,
    pub focused_tags: Option<u32>,
    pub view_tags: Option<Vec<u32>>,
    pub urgent_tags: Option<u32>,
    pub layout_name: Option<String>,
}

pub struct OutputStateView {
    pub output_id: Seq<char>,
    pub name: Option<Seq<char>>,
    pub focused_tags: Option<u32>,
    pub view_tags: Option<Seq<u32>>,
    pub urgent_tags: Option<u32>,
    pub layout_name: Option<Seq<char>>,
}

impl View for OutputState {
    type V = OutputStateView;

    open spec fn view(&self) -> OutputStateView {
        OutputStateView {
            output_id: self.output_id@,
            name: opt_view(self.name),
            focused_tags: self.focused_tags,
            view_tags: match self.view_tags {
                Some(v) => Some(v@),
                None => None,
            },
            urgent_tags: self.urgent_tags,
            layout_name: opt_view(self.layout_name),
        }
    }
}

/// The one field of an output's state that an output event sets.
pub enum OutputChange {
    FocusedTags(u32),
    ViewTags(Seq<u32>),
    UrgentTags(u32),
    LayoutName(Seq<char>),
    LayoutNameClear,
}

impl OutputStateView {
    /// The state of an output of which nothing has been heard yet.
    pub open spec fn fresh(output_id: Seq<char>) -> OutputStateView {
        OutputStateView {
            output_id,
            name: None,
            focused_tags: None,
            view_tags: None,
            urgent_tags: None,
            layout_name: None,
        }
    }

    /// The state with the one field set that `change` names.
    pub open spec fn changed(self, change: OutputChange) -> OutputStateView {
        match change {
            OutputChange::FocusedTags(tags) => OutputStateView { focused_tags: Some(tags), ..self },
            OutputChange::ViewTags(tags) => OutputStateView { view_tags: Some(tags), ..self },
            OutputChange::UrgentTags(tags) => OutputStateView { urgent_tags: Some(tags), ..self },
            OutputChange::LayoutName(layout) => OutputStateView {
                layout_name: Some(layout),
                ..self
            },
            OutputChange::LayoutNameClear => OutputStateView { layout_name: None, ..self },
        }
    }
}

impl OutputState {
    /// A copy of the state.
    pub fn duplicate(&self) -> (r: OutputState)
        ensures
            r@ == self@,
    {
        OutputState {
            output_id: self.output_id.clone(),
            name: opt_clone(&self.name),
            focused_tags: self.focused_tags,
            view_tags: match &self.view_tags {
                Some(v) => Some(v.clone()),
                None => None,
            },
            urgent_tags: self.urgent_tags,
            layout_name: opt_clone(&self.layout_name),
        }
    }
}

/// An output by its identity and, where known, its label.
#[derive(Clone, Debug)]
pub struct NamedOutputId {
    pub output_id: String,
    pub name: Option<String>,
}

pub struct NamedOutputIdView {
    pub output_id: Seq<char>,
    pub name: Option<Seq<char>>,
}

impl View for NamedOutputId {
    type V = NamedOutputIdView;

    open spec fn view(&self) -> NamedOutputIdView {
        NamedOutputIdView { output_id: self.output_id@, name: opt_view(self.name) }
    }
}

pub open spec fn opt_named_view(o: Option<NamedOutputId>) -> Option<NamedOutputIdView> {
    match o {
        Some(n) => Some(n@),
        None => None,
    }
}

/// The snapshot as a mathematical value: the outputs by identity, the label
/// index from label to identity, and the seat.
pub struct SnapshotView {
    pub outputs: Map<Seq<char>, OutputStateView>,
    pub output_names: Map<Seq<char>, Seq<char>>,
    pub seat_focused_output: Option<NamedOutputIdView>,
    pub seat_focused_view: Option<Seq<char>>,
    pub seat_mode: Option<Seq<char>>,
}

impl SnapshotView {
    /// The snapshot before any event.
    pub open spec fn empty() -> SnapshotView {
        SnapshotView {
            outputs: Map::empty(),
            output_names: Map::empty(),
            seat_focused_output: None,
            seat_focused_view: None,
            seat_mode: None,
        }
    }

    /// The label index and the outputs agree: every output is filed under its
    /// own identity, and the index leads from a label to an output exactly
    /// when that output carries the label. So no two outputs carry one label.
    pub open spec fn consistent(self) -> bool {
        &&& forall|k: Seq<char>| #[trigger]
            self.outputs.contains_key(k) ==> self.outputs[k].output_id == k
        &&& forall|l: Seq<char>| #[trigger]
            self.output_names.contains_key(l) ==> self.outputs.contains_key(self.output_names[l])
                && self.outputs[self.output_names[l]].name == Some(l)
        &&& forall|k: Seq<char>| #[trigger]
            self.outputs.contains_key(k) && self.outputs[k].name is Some
                ==> self.output_names.contains_key(self.outputs[k].name->0)
                && self.output_names[self.outputs[k].name->0] == k
    }

    /// The outputs after output `key` has reported the label `name`, if any:
    /// every other output that carried the label has given it up and carries
    /// none.
    pub open spec fn yielded(self, key: Seq<char>, name: Option<Seq<char>>) -> Map<
        Seq<char>,
        OutputStateView,
    > {
        match name {
            Some(n) => Map::new(
                |k: Seq<char>| self.outputs.contains_key(k),
                |k: Seq<char>|
                    if k != key && self.outputs[k].name == Some(n) {
                        OutputStateView { name: None, ..self.outputs[k] }
                    } else {
                        self.outputs[k]
                    },
            ),
            None => self.outputs,
        }
    }

    /// The state that an event for output `key` starts from.
    pub open spec fn output_or_fresh(self, key: Seq<char>) -> OutputStateView {
        if self.outputs.contains_key(key) {
            self.outputs[key]
        } else {
            OutputStateView::fresh(key)
        }
    }

    /// The label index after output `key` has reported the label `name`, if
    /// any: a label that the output gives up leaves the index, and the label
    /// that it reports leads to it.
    pub open spec fn relabelled(self, key: Seq<char>, name: Option<Seq<char>>) -> Map<
        Seq<char>,
        Seq<char>,
    > {
        match name {
            Some(n) => {
                let kept = match self.output_or_fresh(key).name {
                    Some(old) => if old != n {
                        self.output_names.remove(old)
                    } else {
                        self.output_names
                    },
                    None => self.output_names,
                };
                kept.insert(n, key)
            },
            None => self.output_names,
        }
    }

    /// One output event: the output is made known if it was not, takes the
    /// label that the event carries, if any, from whichever output carried it,
    /// and has one field set.
    pub open spec fn update_output(
        self,
        key: Seq<char>,
        name: Option<Seq<char>>,
        change: OutputChange,
    ) -> SnapshotView {
        let base = self.output_or_fresh(key);
        let labelled = OutputStateView {
            output_id: key,
            name: if name is Some {
                name
            } else {
                base.name
            },
            ..base
        };
        SnapshotView {
            outputs: self.yielded(key, name).insert(key, labelled.changed(change)),
            output_names: self.relabelled(key, name),
            ..self
        }
    }

    /// The snapshot after one event.
    pub open spec fn apply(self, event: EventView) -> SnapshotView {
        match event {
            EventView::OutputFocusedTags { id, name, tags } => self.update_output(
                id.key,
                name,
                OutputChange::FocusedTags(tags),
            ),
            EventView::OutputViewTags { id, name, tags } => self.update_output(
                id.key,
                name,
                OutputChange::ViewTags(tags),
            ),
            EventView::OutputUrgentTags { id, name, tags } => self.update_output(
                id.key,
                name,
                OutputChange::UrgentTags(tags),
            ),
            EventView::OutputLayoutName { id, name, layout } => self.update_output(
                id.key,
                name,
                OutputChange::LayoutName(layout),
            ),
            EventView::OutputLayoutNameClear { id, name } => self.update_output(
                id.key,
                name,
                OutputChange::LayoutNameClear,
            ),
            EventView::SeatFocusedOutput { id, name } => SnapshotView {
                seat_focused_output: Some(NamedOutputIdView { output_id: id.key, name }),
                ..self
            },
            EventView::SeatUnfocusedOutput { .. } => self,
            EventView::SeatFocusedView { title } => SnapshotView {
                seat_focused_view: Some(title),
                ..self
            },
            EventView::SeatMode { name } => SnapshotView { seat_mode: Some(name), ..self },
        }
    }

    /// The snapshot after a sequence of events, applied first to last.
    pub open spec fn apply_all(self, events: Seq<EventView>) -> SnapshotView
        decreases events.len(),
    {
        if events.len() == 0 {
            self
        } else {
            self.apply_all(events.drop_last()).apply(events.last())
        }
    }
}

/// The snapshot store. Its view is always `consistent`.
pub struct RiverSnapshot {
    outputs: StrMap<OutputState>,
    output_names: StrMap<String>,
    seat_focused_output: Option<NamedOutputId>,
    seat_focused_view: Option<String>,
    seat_mode: Option<String>,
}

impl View for RiverSnapshot {
    type V = SnapshotView;

    closed spec fn view(&self) -> SnapshotView {
        SnapshotView {
            outputs: self.outputs@,
            output_names: self.output_names@,
            seat_focused_output: opt_named_view(self.seat_focused_output),
            seat_focused_view: opt_view(self.seat_focused_view),
            seat_mode: opt_view(self.seat_mode),
        }
    }
}

/// What an output event sets, as the store receives it.
enum Update {
    FocusedTags(u32),
    ViewTags(Vec<u32>),
    UrgentTags(u32),
    LayoutName(String),
    LayoutNameClear,
}

impl View for Update {
    type V = OutputChange;

    closed spec fn view(&self) -> OutputChange {
        match *self {
            Update::FocusedTags(tags) => OutputChange::FocusedTags(tags),
            Update::ViewTags(tags) => OutputChange::ViewTags(tags@),
            Update::UrgentTags(tags) => OutputChange::UrgentTags(tags),
            Update::LayoutName(layout) => OutputChange::LayoutName(layout@),
            Update::LayoutNameClear => OutputChange::LayoutNameClear,
        }
    }
}

impl Default for RiverSnapshot {
    fn default() -> (s: RiverSnapshot)
        ensures
            s@ == SnapshotView::empty(),
    {
        RiverSnapshot {
            outputs: StrMap::new(),
            output_names: StrMap::new(),
            seat_focused_output: None,
            seat_focused_view: None,
            seat_mode: None,
        }
    }
}

impl RiverSnapshot {
    #[verifier::type_invariant]
    spec fn agrees(&self) -> bool {
        self@.consistent()
    }

    /// The empty snapshot.
    pub fn new() -> (s: RiverSnapshot)
        ensures
            s@ == SnapshotView::empty(),
    {
        RiverSnapshot::default()
    }

    fn update_output_state(&mut self, id: &ObjectId, name: &Option<String>, update: Update)
        ensures
            final(self)@ == old(self)@.update_output(id.key@, opt_view(*name), update@),
    {
        proof {
            use_type_invariant(&*self);
        }
        let ghost before = self@;
        let mut taken = RiverSnapshot::default();
        std::mem::swap(&mut taken, self);
        let RiverSnapshot {
            outputs,
            output_names,
            seat_focused_output,
            seat_focused_view,
            seat_mode,
        } = taken;
        let mut outputs = outputs;
        let mut names = output_names;
        match name {
            Some(label) => {
                let owner = match names.get(label.as_str()) {
                    Some(key) => Some(key.clone()),
                    None => None,
                };
                match owner {
                    Some(key) => {
                        if !str_eq(key.as_str(), id.key.as_str()) {
                            let yielding = match outputs.get(key.as_str()) {
                                Some(state) => Some(state.duplicate()),
                                None => None,
                            };
                            match yielding {
                                Some(state) => {
                                    let mut state = state;
                                    state.name = None;
                                    outputs.insert(key, state);
                                },
                                None => {},
                            }
                        }
                    },
                    None => {},
                }
            },
            None => {},
        }
        assert(outputs@ =~= before.yielded(id.key@, opt_view(*name)));
        let mut entry = match outputs.get(id.key.as_str()) {
            Some(state) => state.duplicate(),
            None => OutputState {
                output_id: id.key.clone(),
                name: None,
                focused_tags: None,
                view_tags: None,
                urgent_tags: None,
                layout_name: None,
            },
        };
        assert(entry@ == before.output_or_fresh(id.key@));
        entry.output_id = id.key.clone();
        match name {
            Some(label) => {
                if !opt_is(&entry.name, label.as_str()) {
                    match &entry.name {
                        Some(stale) => {
                            names.remove(stale.as_str());
                        },
                        None => {},
                    }
                }
                names.insert(label.clone(), id.key.clone());
                entry.name = Some(label.clone());
            },
            None => {},
        }
        match update {
            Update::FocusedTags(tags) => {
                entry.focused_tags = Some(tags);
            },
            Update::ViewTags(tags) => {
                entry.view_tags = Some(tags);
            },
            Update::UrgentTags(tags) => {
                entry.urgent_tags = Some(tags);
            },
            Update::LayoutName(layout) => {
                entry.layout_name = Some(layout);
            },
            Update::LayoutNameClear => {
                entry.layout_name = None;
            },
        }
        outputs.insert(id.key.clone(), entry);
        proof {
            lemma_update_consistent(before, id.key@, opt_view(*name), update@);
        }
        *self = RiverSnapshot {
            outputs,
            output_names: names,
            seat_focused_output,
            seat_focused_view,
            seat_mode,
        };
    }

    /// Brings the snapshot up to date with one event. An output event touches
    /// the state of its output and the label index; a seat event touches the
    /// seat. A seat leaving an output changes nothing: the snapshot keeps the
    /// output that the seat focused last.
    pub fn apply_event(&mut self, event: &Event)
        ensures
            final(self)@ == old(self)@.apply(event@),
    {
        proof {
            use_type_invariant(&*self);
        }
        match event {
            Event::OutputFocusedTags { id, name, tags } => {
                self.update_output_state(id, name, Update::FocusedTags(*tags));
            },
            Event::OutputViewTags { id, name, tags } => {
                self.update_output_state(id, name, Update::ViewTags(tags.clone()));
            },
            Event::OutputUrgentTags { id, name, tags } => {
                self.update_output_state(id, name, Update::UrgentTags(*tags));
            },
            Event::OutputLayoutName { id, name, layout } => {
                self.update_output_state(id, name, Update::LayoutName(layout.clone()));
            },
            Event::OutputLayoutNameClear { id, name } => {
                self.update_output_state(id, name, Update::LayoutNameClear);
            },
            Event::SeatFocusedOutput { id, name } => {
                self.seat_focused_output = Some(
                    NamedOutputId { output_id: id.key.clone(), name: opt_clone(name) },
                );
            },
            Event::SeatUnfocusedOutput { .. } => {},
            Event::SeatFocusedView { title } => {
                self.seat_focused_view = Some(title.clone());
            },
            Event::SeatMode { name } => {
                self.seat_mode = Some(name.clone());
            },
        }
    }
}

impl RiverSnapshot {
    /// The agreement between label index and outputs, which every snapshot
    /// has, handed to a caller that holds one.
    pub fn check_consistent(&self)
        ensures
            self@.consistent(),
    {
        proof {
            use_type_invariant(self);
        }
    }

    /// The state of the output with this identity, if the snapshot knows it.
    pub fn get(&self, id: &ObjectId) -> (r: Option<OutputState>)
        ensures
            r is Some <==> self@.outputs.contains_key(id.key@),
            r matches Some(state) ==> state@ == self@.outputs[id.key@],
    {
        match self.outputs.get(id.key.as_str()) {
            Some(state) => Some(state.duplicate()),
            None => None,
        }
    }

    /// The state of the output that carries the label, if one does. The
    /// label index knows every label that an output carries.
    pub fn output_by_name(&self, name: &str) -> (r: Option<OutputState>)
        ensures
            r is Some <==> self@.output_names.contains_key(name@),
            r matches Some(state) ==> state@ == self@.outputs[self@.output_names[name@]]
                && state@.name == Some(name@),
    {
        proof {
            use_type_invariant(self);
        }
        match self.output_names.get(name) {
            Some(key) => match self.outputs.get(key.as_str()) {
                Some(state) => Some(state.duplicate()),
                None => None,
            },
            None => None,
        }
    }

    /// Every output's state, each output once.
    pub fn outputs(&self) -> (r: Vec<OutputState>)
        ensures
            forall|i: int|
                0 <= i < r.len() ==> self@.outputs.contains_key(#[trigger] r[i]@.output_id)
                    && self@.outputs[r[i]@.output_id] == r[i]@,
            forall|i: int, j: int|
                0 <= i < j < r.len() ==> #[trigger] r[i]@.output_id != #[trigger] r[j]@.output_id,
            forall|k: Seq<char>| #[trigger]
                self@.outputs.contains_key(k) ==> exists|i: int|
                    0 <= i < r.len() && #[trigger] r[i]@.output_id == k,
    {
        proof {
            use_type_invariant(self);
        }
        let n = self.outputs.len();
        let mut r: Vec<OutputState> = Vec::new();
        let mut i: usize = 0;
        while i < n
            invariant
                n == self.outputs.order().len(),
                i <= n,
                r.len() == i,
                self.outputs.order_lists_keys(),
                self@.consistent(),
                forall|j: int|
                    0 <= j < i ==> #[trigger] r[j]@.output_id == self.outputs.order()[j]
                        && self@.outputs.contains_key(r[j]@.output_id)
                        && self@.outputs[r[j]@.output_id] == r[j]@,
            decreases n - i,
        {
            let state = self.outputs.value_at(i);
            proof {
                assert(self.outputs.order().contains(self.outputs.order()[i as int]));
            }
            r.push(state.duplicate());
            i = i + 1;
        }
        proof {
            assert forall|k: Seq<char>| #[trigger] self@.outputs.contains_key(k) implies exists|
                i: int,
            |
                0 <= i < r.len() && #[trigger] r[i]@.output_id == k by {
                assert(self.outputs.order().contains(k));
                let j = self.outputs.order().index_of(k);
                assert(self.outputs.order()[j] == k);
                assert(r[j]@.output_id == k);
            }
        }
        r
    }

    /// The output that the seat focused last, if it has focused one.
    pub fn seat_focused_output(&self) -> (r: Option<NamedOutputId>)
        ensures
            opt_named_view(r) == self@.seat_focused_output,
    {
        match &self.seat_focused_output {
            Some(named) => Some(
                NamedOutputId { output_id: named.output_id.clone(), name: opt_clone(&named.name) },
            ),
            None => None,
        }
    }

    /// The title of the view that the seat focuses, once one was reported.
    pub fn seat_focused_view(&self) -> (r: Option<String>)
        ensures
            opt_view(r) == self@.seat_focused_view,
    {
        opt_clone(&self.seat_focused_view)
    }

    /// The seat's mode, once one was reported.
    pub fn seat_mode(&self) -> (r: Option<String>)
        ensures
            opt_view(r) == self@.seat_mode,
    {
        opt_clone(&self.seat_mode)
    }
}

/// An output event keeps the label index and the outputs in agreement.
pub proof fn lemma_update_consistent(
    s: SnapshotView,
    key: Seq<char>,
    name: Option<Seq<char>>,
    change: OutputChange,
)
    requires
        s.consistent(),
    ensures
        s.update_output(key, name, change).consistent(),
{
}

/// Applying an event keeps the label index and the outputs in agreement.
pub proof fn lemma_apply_consistent(s: SnapshotView, event: EventView)
    requires
        s.consistent(),
    ensures
        s.apply(event).consistent(),
{
}

/// Every snapshot reached from the empty one has its label index and its
/// outputs in agreement.
pub proof fn lemma_reachable_consistent(events: Seq<EventView>)
    ensures
        SnapshotView::empty().apply_all(events).consistent(),
    decreases events.len(),
{
    if events.len() > 0 {
        lemma_reachable_consistent(events.drop_last());
        lemma_apply_consistent(SnapshotView::empty().apply_all(events.drop_last()), events.last());
    }
}

/// An event touches the state of one output, or the seat: an output event
/// leaves the seat as it was, and every other output too, but for the label
/// that such an output gives up to the output of the event; a seat event
/// leaves every output and the label index as they were.
pub proof fn lemma_apply_touches_one(s: SnapshotView, event: EventView)
    ensures
        match event {
            EventView::OutputFocusedTags { id, name, .. }
            | EventView::OutputViewTags { id, name, .. }
            | EventView::OutputUrgentTags { id, name, .. }
            | EventView::OutputLayoutName { id, name, .. }
            | EventView::OutputLayoutNameClear { id, name } => {
                &&& s.apply(event).outputs.remove(id.key) == s.yielded(id.key, name).remove(id.key)
                &&& s.apply(event).outputs.contains_key(id.key)
                &&& s.apply(event).seat_focused_output == s.seat_focused_output
                &&& s.apply(event).seat_focused_view == s.seat_focused_view
                &&& s.apply(event).seat_mode == s.seat_mode
            },
            _ => {
                &&& s.apply(event).outputs == s.outputs
                &&& s.apply(event).output_names == s.output_names
            },
        },
{
    match event {
        EventView::OutputFocusedTags { id, name, .. }
        | EventView::OutputViewTags { id, name, .. }
        | EventView::OutputUrgentTags { id, name, .. }
        | EventView::OutputLayoutName { id, name, .. }
        | EventView::OutputLayoutNameClear { id, name } => {
            assert(s.apply(event).outputs.remove(id.key) =~= s.yielded(id.key, name).remove(
                id.key,
            ));
        },
        _ => {},
    }
}

/// Applying the same event a second time changes nothing.
pub proof fn lemma_apply_idempotent(s: SnapshotView, event: EventView)
    ensures
        s.apply(event).apply(event) == s.apply(event),
{
    let once = s.apply(event);
    let twice = once.apply(event);
    assert(twice.outputs =~= once.outputs);
    assert(twice.output_names =~= once.output_names);
}

/// An output that reports a label is the one output that carries it: the
/// index leads from the label to that output, and an output that carried the
/// label before carries none. A label that the output gives up for it is
/// known no more.
pub proof fn lemma_relabel(s: SnapshotView, key: Seq<char>, label: Seq<char>, change: OutputChange)
    requires
        s.consistent(),
    ensures
        ({
            let t = s.update_output(key, Some(label), change);
            &&& t.output_names.contains_key(label)
            &&& t.output_names[label] == key
            &&& t.outputs[key].name == Some(label)
            &&& forall|k: Seq<char>|
                k != key && #[trigger] t.outputs.contains_key(k) ==> t.outputs[k].name != Some(
                    label,
                )
            &&& forall|k: Seq<char>|
                k != key && #[trigger] s.outputs.contains_key(k) && s.outputs[k].name == Some(label)
                    ==> t.outputs[k] == (OutputStateView { name: None, ..s.outputs[k] })
            &&& forall|old: Seq<char>|
                s.outputs.contains_key(key) && s.outputs[key].name == Some(old) && old != label
                    ==> !t.output_names.contains_key(old)
        }),
{
}

/// One label has one owner: in a snapshot whose index and outputs agree, two
/// outputs that carry the same label are the same output.
pub proof fn lemma_one_owner(s: SnapshotView, a: Seq<char>, b: Seq<char>, label: Seq<char>)
    requires
        s.consistent(),
        s.outputs.contains_key(a),
        s.outputs.contains_key(b),
        s.outputs[a].name == Some(label),
        s.outputs[b].name == Some(label),
    ensures
        a == b,
{
    assert(s.output_names[label] == a);
    assert(s.output_names[label] == b);
}

} // verus!
