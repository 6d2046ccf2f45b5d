//! The registry that routes each event to the systems registered for its type.
use vstd::prelude::*;
use crate::event::{event_type_name, Event};
use crate::text::{chars_eq, chars_of};

verus! {

/// The systems, in registration order, of the entries whose event types
/// include `event_type`.
pub open spec fn systems_for<S>(entries: Seq<(S, Seq<Seq<char>>)>, event_type: Seq<char>) -> Seq<S>
    decreases entries.len(),
{
    if entries.len() == 0 {
        Seq::empty()
    } else {
        let earlier = systems_for(entries.drop_last(), event_type);
        if entries.last().1.contains(event_type) {
            earlier.push(entries.last().0)
        } else {
            earlier
        }
    }
}

/// Systems together with the event types each one handles.
pub struct SystemRegistry<S> {
    entries: Vec<(S, Vec<Vec<char>>)>,
}

impl<S> SystemRegistry<S> {
    /// The registered systems with their event types, in registration order.
    pub closed spec fn entries(&self) -> Seq<(S, Seq<Seq<char>>)> {
        self.entries@.map_values(|e: (S, Vec<Vec<char>>)| (e.0, e.1@.map_values(|t: Vec<char>| t@)))
    }

    /// An empty registry.
    pub fn new() -> (r: Self)
        ensures
            r.entries().len() == 0,
    {
        let r = Self { entries: Vec::new() };
        assert(r.entries() =~= Seq::empty());
        r
    }

    /// Registers `system` for the events whose type is one of `event_types`.
    pub fn register(&mut self, system: S, event_types: &[&str])
        ensures
            final(self).entries() == old(self).entries().push(
                (system, event_types@.map_values(|t: &str| t@)),
            ),
    {
        let mut types: Vec<Vec<char>> = Vec::new();
        let mut i: usize = 0;
        while i < event_types.len()
            invariant
                i <= event_types@.len(),
                types@.len() == i,
                types@.map_values(|t: Vec<char>| t@) == event_types@.take(i as int).map_values(
                    |t: &str| t@,
                ),
            decreases event_types@.len() - i,
        {
            let t = chars_of(event_types[i]);
            let ghost prev = types@;
            types.push(t);
            assert forall|j: int| 0 <= j < i implies #[trigger] types@[j]@ == event_types@[j]@ by {
                assert(types@[j] == prev[j]);
                assert(prev.map_values(|t: Vec<char>| t@)[j] == event_types@.take(i as int).map_values(|t: &str| t@)[j]);
            }
            assert(types@.map_values(|t: Vec<char>| t@) =~= event_types@.take(i + 1).map_values(
                |t: &str| t@,
            ));
            i += 1;
        }
        assert(event_types@.take(event_types@.len() as int) =~= event_types@);
        let ghost before = self.entries();
        self.entries.push((system, types));
        assert(self.entries() =~= before.push((system, event_types@.map_values(|t: &str| t@))));
    }

    /// Whether the list of event types `types` holds `event_type`.
    fn handles(types: &Vec<Vec<char>>, event_type: &Vec<char>) -> (r: bool)
        ensures
            r == types@.map_values(|t: Vec<char>| t@).contains(event_type@),
    {
        let ghost names = types@.map_values(|t: Vec<char>| t@);
        let mut i: usize = 0;
        while i < types.len()
            invariant
                i <= types@.len(),
                names == types@.map_values(|t: Vec<char>| t@),
                forall|j: int| 0 <= j < i ==> names[j] != event_type@,
            decreases types@.len() - i,
        {
            if chars_eq(types[i].as_slice(), event_type.as_slice()) {
                assert(names[i as int] == event_type@);
                return true;
            }
            i += 1;
        }
        false
    }

    /// The systems registered for the event's type, in registration order.
    pub fn get_systems_for_event(&self, event: &Event) -> (r: Vec<&S>)
        ensures
            r@.map_values(|s: &S| *s) == systems_for(self.entries(), event_type_name(*event)),
    {
        let event_type = chars_of(event.event_type());
        let ghost t = event_type_name(*event);
        let mut out: Vec<&S> = Vec::new();
        let mut i: usize = 0;
        while i < self.entries.len()
            invariant
                i <= self.entries@.len(),
                event_type@ == t,
                self.entries().len() == self.entries@.len(),
                out@.map_values(|s: &S| *s) == systems_for(self.entries().take(i as int), t),
            decreases self.entries@.len() - i,
        {
            assert(self.entries().take(i + 1).drop_last() =~= self.entries().take(i as int));
            assert(self.entries()[i as int].1 == self.entries@[i as int].1@.map_values(|t: Vec<char>| t@));
            let ghost before = out@;
            if Self::handles(&self.entries[i].1, &event_type) {
                out.push(&self.entries[i].0);
                assert(out@.map_values(|s: &S| *s) =~= before.map_values(|s: &S| *s).push(self.entries()[i as int].0));
            }
            i += 1;
        }
        assert(self.entries().take(self.entries@.len() as int) =~= self.entries());
        out
    }
}

impl<S> Default for SystemRegistry<S> {
    fn default() -> (r: Self)
        ensures
            r.entries().len() == 0,
    {
        Self::new()
    }
}

} // verus!
