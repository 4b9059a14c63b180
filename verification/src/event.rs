//! Input events, and the table that maps them to a module's reactions.

use vstd::prelude::*;

verus! {

/// An input event that a module can be told of.
#[derive(Debug, Clone, Copy, PartialEq, Eq, Structural, Hash)]
pub enum MouseEvent {
    LeftClick,
    MiddleClick,
    RightClick,
    ScrollUp,
    ScrollDown,
}

impl MouseEvent {
    /// How many events there are.
    pub const NUM_VARIANTS: usize = 5;

    /// The place of this event among the events, from 0.
    pub open spec fn spec_index(self) -> usize {
        match self {
            MouseEvent::LeftClick => 0,
            MouseEvent::MiddleClick => 1,
            MouseEvent::RightClick => 2,
            MouseEvent::ScrollUp => 3,
            MouseEvent::ScrollDown => 4,
        }
    }

    /// The place of this event among the events, from 0.
    #[verifier::when_used_as_spec(spec_index)]
    pub fn index(self) -> (i: usize)
        ensures
            i == self.spec_index(),
            i < Self::NUM_VARIANTS,
    {
        match self {
            MouseEvent::LeftClick => 0,
            MouseEvent::MiddleClick => 1,
            MouseEvent::RightClick => 2,
            MouseEvent::ScrollUp => 3,
            MouseEvent::ScrollDown => 4,
        }
    }
}

/// A table from input events to ordered lists of reactions. An event either
/// has a list, which may be empty, or is unmapped.
#[derive(Debug)]
pub struct EventMap<R> {
    slots: Vec<Option<Vec<R>>>,
}

impl<R> View for EventMap<R> {
    type V = Map<MouseEvent, Seq<R>>;

    closed spec fn view(&self) -> Map<MouseEvent, Seq<R>> {
        Map::new(
            |event: MouseEvent| self.slots@[event.spec_index() as int] is Some,
            |event: MouseEvent| self.slots@[event.spec_index() as int]->Some_0@,
        )
    }
}

impl<R> EventMap<R> {
    #[verifier::type_invariant]
    spec fn one_slot_per_event(self) -> bool {
        self.slots@.len() == MouseEvent::NUM_VARIANTS
    }

    /// The table in which every event is unmapped.
    pub fn new() -> (table: Self)
        ensures
            table@ == Map::<MouseEvent, Seq<R>>::empty(),
    {
        let mut slots: Vec<Option<Vec<R>>> = Vec::new();
        slots.push(None);
        slots.push(None);
        slots.push(None);
        slots.push(None);
        slots.push(None);
        let table = EventMap { slots };
        assert(table@ =~= Map::<MouseEvent, Seq<R>>::empty());
        table
    }

    /// This table with an event mapped to a list of reactions, in place of
    /// the list that the event had, if it had one.
    pub fn with(self, event: MouseEvent, reactions: Vec<R>) -> (table: Self)
        ensures
            table@ == self@.insert(event, reactions@),
    {
        proof {
            use_type_invariant(&self);
        }
        let mut slots = self.slots;
        slots.set(event.index(), Some(reactions));
        let table = EventMap { slots };
        assert(table@ =~= self@.insert(event, reactions@));
        table
    }

    /// The reactions that an event is mapped to, in their order; `None` for
    /// an unmapped event.
    pub fn callbacks(&self, event: MouseEvent) -> (reactions: Option<&Vec<R>>)
        ensures
            match reactions {
                Some(list) => self@.contains_key(event) && list@ == self@[event],
                None => !self@.contains_key(event),
            },
    {
        proof {
            use_type_invariant(self);
        }
        match &self.slots[event.index()] {
            Some(list) => Some(list),
            None => None,
        }
    }
}

} // verus!
