//! Aborting a run: records why, and notifies every registered handler.
use vstd::prelude::*;

verus! {

/// Whether an abort handler accepts every reason.
pub open spec fn accepts_all_reasons<H: Fn(String)>(handler: H) -> bool {
    forall|reason: String| call_requires(handler, (reason,))
}

/// Records whether the run has been aborted and why, and calls the handlers
/// registered with `on_abort` when it is.
pub struct AbortManager<H: Fn(String)> {
    handlers: Vec<H>,
    abort_reason: Option<String>,
    notified: Ghost<Seq<(int, Seq<char>)>>,
}

impl<H: Fn(String)> AbortManager<H> {
    #[verifier::type_invariant]
    spec fn wf(&self) -> bool {
        forall|i: int| 0 <= i < self.handlers@.len() ==> accepts_all_reasons(#[trigger] self.handlers@[i])
    }

    /// The reason of the latest abort, or `None` while the run has not been
    /// aborted.
    pub closed spec fn reason(&self) -> Option<Seq<char>> {
        match self.abort_reason {
            Some(r) => Some(r@),
            None => None,
        }
    }

    /// The registered handlers, in registration order.
    pub closed spec fn handlers(&self) -> Seq<H> {
        self.handlers@
    }

    /// The handler calls made so far, in order: the position of the handler
    /// and the reason it was called with.
    pub closed spec fn notifications(&self) -> Seq<(int, Seq<char>)> {
        self.notified@
    }

    /// A manager that has not aborted and has no handlers.
    pub fn new() -> (r: Self)
        ensures
            r.reason() is None,
            r.handlers().len() == 0,
            r.notifications().len() == 0,
    {
        Self { handlers: Vec::new(), abort_reason: None, notified: Ghost(Seq::empty()) }
    }

    pub fn is_aborted(&self) -> (r: bool)
        ensures
            r == self.reason() is Some,
    {
        self.abort_reason.is_some()
    }

    pub fn abort_reason(&self) -> (r: Option<&str>)
        ensures
            r is None <==> self.reason() is None,
            r matches Some(s) ==> self.reason() == Some(s@),
    {
        match &self.abort_reason {
            Some(s) => Some(s.as_str()),
            None => None,
        }
    }

    /// Records `reason` as the reason of the abort, then calls every handler,
    /// in registration order, with a copy of it. Every handler has been
    /// called with a string equal to the reason, and one notification per
    /// handler, in order, is recorded.
    pub fn abort(&mut self, reason: String)
        ensures
            final(self).reason() == Some(reason@),
            final(self).handlers() == old(self).handlers(),
            forall|i: int| 0 <= i < old(self).handlers().len() ==> exists|s: String|
                s@ == reason@ && call_ensures(#[trigger] old(self).handlers()[i], (s,), ()),
            final(self).notifications() == old(self).notifications() + Seq::new(
                old(self).handlers().len(),
                |i: int| (i, reason@),
            ),
    {
        proof {
            use_type_invariant(&*self);
        }
        self.abort_reason = Some(reason.clone());
        let ghost handlers = self.handlers@;
        let ghost start = self.notified@;
        let mut i: usize = 0;
        while i < self.handlers.len()
            invariant
                i <= self.handlers@.len(),
                self.handlers@ == handlers,
                self.abort_reason matches Some(r) && r@ == reason@,
                forall|j: int| 0 <= j < self.handlers@.len() ==> accepts_all_reasons(#[trigger] self.handlers@[j]),
                self.notified@ == start + Seq::new(i as nat, |j: int| (j, reason@)),
                forall|j: int| 0 <= j < i ==> exists|s: String|
                    s@ == reason@ && call_ensures(#[trigger] handlers[j], (s,), ()),
            decreases self.handlers@.len() - i,
        {
            let handler = &self.handlers[i];
            let copy = reason.clone();
            let ghost passed = copy;
            handler(copy);
            proof {
                assert(call_ensures(handlers[i as int], (passed,), ()));
                assert(forall|j: int| 0 <= j < i + 1 ==> exists|s: String|
                    s@ == reason@ && call_ensures(#[trigger] handlers[j], (s,), ())) by {
                    assert forall|j: int| 0 <= j < i + 1 implies exists|s: String|
                        s@ == reason@ && call_ensures(#[trigger] handlers[j], (s,), ()) by {
                        if j == i {
                            assert(passed@ == reason@ && call_ensures(handlers[j], (passed,), ()));
                        }
                    }
                }
                self.notified@ = self.notified@.push((i as int, reason@));
            }
            assert(start + Seq::new((i + 1) as nat, |j: int| (j, reason@)) =~= (start + Seq::new(
                i as nat,
                |j: int| (j, reason@),
            )).push((i as int, reason@)));
            i += 1;
        }
    }

    /// Registers a handler to be called with the reason of every later
    /// abort.
    pub fn on_abort(&mut self, handler: H)
        requires
            accepts_all_reasons(handler),
        ensures
            final(self).handlers() == old(self).handlers().push(handler),
            final(self).reason() == old(self).reason(),
            final(self).notifications() == old(self).notifications(),
    {
        proof {
            use_type_invariant(&*self);
        }
        let mut handlers: Vec<H> = Vec::new();
        std::mem::swap(&mut handlers, &mut self.handlers);
        handlers.push(handler);
        self.handlers = handlers;
    }
}

impl<H: Fn(String)> Default for AbortManager<H> {
    fn default() -> (r: Self)
        ensures
            r.reason() is None,
            r.handlers().len() == 0,
            r.notifications().len() == 0,
    {
        Self::new()
    }
}

} // verus!
