//! The world: a bundle of components, read through snapshots and mutated
//! only by the effect executor.
use vstd::prelude::*;

verus! {

/// Access to one component of type `C` inside a component bundle.
///
/// `component` is the value of that component, and `with_component` the
/// bundle with that component replaced and every other part as it was; `get`
/// reads the component and `get_mut` hands out a mutable reference to exactly
/// that component.
pub trait HasComponent<C>: Sized {
    spec fn component(&self) -> C;

    spec fn with_component(&self, value: C) -> Self;

    fn get(&self) -> (r: &C)
        ensures
            *r == self.component(),
    ;

    fn get_mut(&mut self) -> (r: &mut C)
        ensures
            *r == old(self).component(),
            final(self).component() == *final(r),
            *final(self) == old(self).with_component(*final(r)),
    ;
}

/// The engine's state: one bundle of components.
pub struct World<Components> {
    components: Components,
}

impl<Components> World<Components> {
    /// The component bundle this world holds.
    pub closed spec fn state(&self) -> Components {
        self.components
    }

    pub fn new(components: Components) -> (r: Self)
        ensures
            r.state() == components,
    {
        Self { components }
    }

    /// Reads the component of type `C`.
    pub fn get<C>(&self) -> (r: &C)
        where Components: HasComponent<C>,
        ensures
            *r == self.state().component(),
    {
        self.components.get()
    }

    /// A mutable reference to the component of type `C`; what is written
    /// through it becomes that component of the world, and nothing else of
    /// the world changes.
    pub fn get_mut<C>(&mut self) -> (r: &mut C)
        where Components: HasComponent<C>,
        ensures
            *r == old(self).state().component(),
            final(self).state().component() == *final(r),
            final(self).state() == old(self).state().with_component(*final(r)),
    {
        self.components.get_mut()
    }

    /// A mutable reference to the whole component bundle.
    pub(crate) fn components_mut(&mut self) -> (r: &mut Components)
        ensures
            *r == old(self).state(),
            final(self).state() == *final(r),
    {
        &mut self.components
    }

    /// A read-only view of the current components.
    pub fn snapshot(&self) -> (r: Snapshot<'_, Components>)
        ensures
            r.state() == self.state(),
    {
        Snapshot::new(&self.components)
    }
}

/// A read-only view of a component bundle, handed to systems.
pub struct Snapshot<'a, C> {
    components: &'a C,
}

impl<'a, C> Snapshot<'a, C> {
    /// The component bundle this snapshot shows.
    pub closed spec fn state(&self) -> C {
        *self.components
    }

    pub fn new(components: &'a C) -> (r: Self)
        ensures
            r.state() == *components,
    {
        Self { components }
    }

    /// Reads the component of type `Comp`.
    pub fn get<Comp>(&self) -> (r: &Comp)
        where C: HasComponent<Comp>,
        ensures
            *r == self.state().component(),
    {
        self.components.get()
    }
}

} // verus!
