//! Filters: which kinds of event a subscription wants.

use vstd::prelude::*;
use crate::event::{Event, RiverEventType};

verus! {

/// The kinds of event that a subscription asked for. A filter that names no
/// kind lets every event through.
#[derive(Clone, Debug)]
pub struct EventFilter {
    pub kinds: Vec<RiverEventType>,
}

impl View for EventFilter {
    type V = Set<RiverEventType>;

    open spec fn view(&self) -> Set<RiverEventType> {
        self.kinds@.to_set()
    }
}

/// Whether a filter lets a kind of event through.
pub open spec fn lets_through(filter: Set<RiverEventType>, kind: RiverEventType) -> bool {
    filter == Set::<RiverEventType>::empty() || filter.contains(kind)
}

impl EventFilter {
    /// The filter for a list of kinds; without a list, the filter that lets
    /// every event through.
    pub fn new(types: Option<Vec<RiverEventType>>) -> (f: EventFilter)
        ensures
            f@ == match types {
                Some(kinds) => kinds@.to_set(),
                None => Set::<RiverEventType>::empty(),
            },
            f.kinds@ == match types {
                Some(kinds) => kinds@,
                None => Seq::<RiverEventType>::empty(),
            },
    {
        match types {
            Some(kinds) => EventFilter { kinds },
            None => {
                let f = EventFilter { kinds: Vec::new() };
                assert(f@ =~= Set::<RiverEventType>::empty());
                f
            },
        }
    }

    /// A copy of the filter.
    pub fn duplicate(&self) -> (f: EventFilter)
        ensures
            f@ == self@,
    {
        let mut kinds: Vec<RiverEventType> = Vec::new();
        let mut i: usize = 0;
        while i < self.kinds.len()
            invariant
                i <= self.kinds.len(),
                kinds@ == self.kinds@.subrange(0, i as int),
            decreases self.kinds.len() - i,
        {
            kinds.push(self.kinds[i]);
            assert(kinds@ =~= self.kinds@.subrange(0, i as int + 1));
            i = i + 1;
        }
        assert(kinds@ =~= self.kinds@);
        EventFilter { kinds }
    }

    /// Whether the filter lets a kind of event through.
    pub fn accepts_kind(&self, kind: RiverEventType) -> (b: bool)
        ensures
            b == lets_through(self@, kind),
    {
        if self.kinds.len() == 0 {
            assert(self@ =~= Set::<RiverEventType>::empty());
            return true;
        }
        assert(self@.contains(self.kinds@[0]));
        let mut i: usize = 0;
        while i < self.kinds.len()
            invariant
                i <= self.kinds.len(),
                forall|j: int| 0 <= j < i ==> self.kinds@[j] != kind,
            decreases self.kinds.len() - i,
        {
            if self.kinds[i] == kind {
                assert(self@.contains(self.kinds@[i as int]));
                return true;
            }
            i = i + 1;
        }
        false
    }

    /// Whether the filter lets an event through.
    pub fn accepts(&self, event: &Event) -> (b: bool)
        ensures
            b == lets_through(self@, event@.kind()),
    {
        self.accepts_kind(RiverEventType::from(event))
    }
}

} // verus!
