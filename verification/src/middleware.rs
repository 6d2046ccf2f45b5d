//! Onion-style middleware pipeline for events.
//!
//! Middleware can inspect, transform, or short-circuit events before they
//! reach the engine systems.
use vstd::prelude::*;
use crate::event::Event;

verus! {

/// What a middleware does, as a model: `passes_on` says which event, if any,
/// it hands to `next` for a given event, and `responds` what it returns for
/// that event given what `next` gave back (`None` when it did not call
/// `next`).
pub trait MiddlewareModel {
    spec fn passes_on(&self, event: Event) -> Option<Event>;

    spec fn responds(&self, event: Event, inner: Option<Event>) -> Event;
}

/// A middleware receives an event and the continuation `next`. It may
/// transform the event, pass it on with `next.run(event)`, or return without
/// calling `next`; it does so as its model says.
pub trait Middleware: MiddlewareModel + Sized {
    fn process(&self, event: Event, next: Next<'_, Self>) -> (r: Event)
        ensures
            r == match self.passes_on(event) {
                Some(passed) => self.responds(event, Some(next.outcome(passed))),
                None => self.responds(event, None),
            },
    ;
}

/// What the middlewares from position `index` on make of `event`: past the
/// last one the event itself; otherwise what the middleware at `index`
/// responds, given what the rest of the pipeline made of the event it passed
/// on, if it passed one on.
pub open spec fn pipeline_result<M: MiddlewareModel>(middlewares: Seq<M>, index: int, event: Event) -> Event
    decreases middlewares.len() - index,
{
    if 0 <= index < middlewares.len() {
        let m = middlewares[index];
        match m.passes_on(event) {
            Some(passed) => m.responds(event, Some(pipeline_result(middlewares, index + 1, passed))),
            None => m.responds(event, None),
        }
    } else {
        event
    }
}

/// Continuation passed to each middleware: the rest of the pipeline.
pub struct Next<'a, M> {
    pipeline: &'a MiddlewarePipeline<M>,
    index: usize,
}

impl<'a, M> Next<'a, M> {
    /// The pipeline this continuation belongs to.
    pub closed spec fn pipeline(&self) -> MiddlewarePipeline<M> {
        *self.pipeline
    }

    /// The position in the pipeline of the middleware this continuation runs.
    pub closed spec fn position(&self) -> int {
        self.index as int
    }
}

impl<'a, M: MiddlewareModel> Next<'a, M> {
    /// What running the rest of the pipeline makes of `event`.
    pub open spec fn outcome(&self, event: Event) -> Event {
        pipeline_result(self.pipeline().middlewares(), self.position(), event)
    }
}

impl<'a, M: Middleware> Next<'a, M> {
    /// Runs the next middleware, or, after the last one, returns the event as
    /// it reaches the engine.
    pub fn run(self, event: Event) -> (r: Event)
        ensures
            r == self.outcome(event),
            self.position() >= self.pipeline().middlewares().len() ==> r == event,
    {
        self.pipeline.run_internal(event, self.index)
    }
}

/// Onion-style middleware pipeline: each middleware wraps the ones added after
/// it.
pub struct MiddlewarePipeline<M> {
    middlewares: Vec<M>,
}

impl<M> MiddlewarePipeline<M> {
    /// The middlewares, outermost first.
    pub closed spec fn middlewares(&self) -> Seq<M> {
        self.middlewares@
    }
}

impl<M: Middleware> MiddlewarePipeline<M> {
    /// An empty pipeline.
    pub fn new() -> (r: Self)
        ensures
            r.middlewares().len() == 0,
    {
        Self { middlewares: Vec::new() }
    }

    /// Adds a middleware to the end (the innermost layer) of the pipeline.
    pub fn add(&mut self, mw: M)
        ensures
            final(self).middlewares() == old(self).middlewares().push(mw),
    {
        self.middlewares.push(mw);
    }

    /// Runs an event through the pipeline; with no middleware the event comes
    /// out unchanged.
    pub fn run(&self, event: Event) -> (r: Event)
        ensures
            r == pipeline_result(self.middlewares(), 0, event),
            self.middlewares().len() == 0 ==> r == event,
    {
        self.run_internal(event, 0)
    }

    /// Runs an event through the middlewares from position `index` on.
    fn run_internal(&self, event: Event, index: usize) -> (r: Event)
        ensures
            r == pipeline_result(self.middlewares(), index as int, event),
            index >= self.middlewares().len() ==> r == event,
    {
        if index >= self.middlewares.len() {
            return event;
        }
        let next = Next { pipeline: self, index: index + 1 };
        assert(next.pipeline().middlewares() == self.middlewares());
        self.middlewares[index].process(event, next)
    }
}

/// A copy of a pipeline holds copies of its middlewares, in order, and is
/// independent of it: adding to one does not change the other.
impl<M: Clone> Clone for MiddlewarePipeline<M> {
    fn clone(&self) -> (r: Self)
        ensures
            r.middlewares().len() == self.middlewares().len(),
            forall|i: int| 0 <= i < self.middlewares().len() ==> cloned::<M>(
                self.middlewares()[i],
                #[trigger] r.middlewares()[i],
            ),
    {
        MiddlewarePipeline { middlewares: self.middlewares.clone() }
    }
}

impl<M: Middleware> Default for MiddlewarePipeline<M> {
    fn default() -> (r: Self)
        ensures
            r.middlewares().len() == 0,
    {
        Self::new()
    }
}

} // verus!
