//! Systems: the units of engine logic that map a snapshot and an event to
//! effects.
use vstd::prelude::*;
use crate::effect::Effect;
use crate::event::Event;
use crate::world::Snapshot;

verus! {

/// A system over component bundles of type `C`.
///
/// `ready` says on which snapshot and event `process` may be called, and
/// `produces` which effects it may return for them.
pub trait System<C> {
    spec fn ready(&self, snapshot: Snapshot<'_, C>, event: Event) -> bool;

    spec fn produces(&self, snapshot: Snapshot<'_, C>, event: Event, effects: Vec<Effect>) -> bool;

    fn process(&self, snapshot: &Snapshot<'_, C>, event: &Event) -> (r: Vec<Effect>)
        requires
            self.ready(*snapshot, *event),
        ensures
            self.produces(*snapshot, *event, r),
    ;
}

/// Every function from a snapshot and an event to effects is a system; it is
/// ready wherever its own precondition holds, and produces what the function
/// returns.
impl<C, F: Fn(&Snapshot<'_, C>, &Event) -> Vec<Effect>> System<C> for F {
    open spec fn ready(&self, snapshot: Snapshot<'_, C>, event: Event) -> bool {
        call_requires(*self, (&snapshot, &event))
    }

    open spec fn produces(&self, snapshot: Snapshot<'_, C>, event: Event, effects: Vec<Effect>) -> bool {
        call_ensures(*self, (&snapshot, &event), effects)
    }

    fn process(&self, snapshot: &Snapshot<'_, C>, event: &Event) -> Vec<Effect> {
        self(snapshot, event)
    }
}

} // verus!
