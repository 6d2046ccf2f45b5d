//! The engine's systems: pure functions from a snapshot of the world and an
//! event to the effects they request.
use vstd::prelude::*;
use crate::components::{ConfigComponent, LoopComponent, MessagesComponent};
use crate::world::HasComponent;

pub mod hook;
pub mod input;
pub mod output;
pub mod provider;
pub mod tool;

verus! {

/// The loop component of a bundle.
pub open spec fn loop_of<C: HasComponent<LoopComponent>>(c: C) -> LoopComponent {
    c.component()
}

/// The configuration component of a bundle.
pub open spec fn config_of<C: HasComponent<ConfigComponent>>(c: C) -> ConfigComponent {
    c.component()
}

/// The message history of a bundle.
pub open spec fn messages_of<C: HasComponent<MessagesComponent>>(c: C) -> MessagesComponent {
    c.component()
}

/// Whether the loop may take another step: it has not been stopped and the
/// step budget is not spent.
pub open spec fn may_continue(l: LoopComponent, config: ConfigComponent) -> bool {
    l.should_continue && l.step < config.max_steps
}

/// The step budget bounds the loop: a loop that has used up its steps
/// (`step >= max_steps`), or has been stopped, may not continue, and one that
/// may continue has not been stopped and has a step left.
pub proof fn lemma_step_budget_bounds_loop(l: LoopComponent, config: ConfigComponent)
    ensures
        l.step >= config.max_steps ==> !may_continue(l, config),
        !l.should_continue ==> !may_continue(l, config),
        may_continue(l, config) ==> l.should_continue && l.step < config.max_steps,
{
}

} // verus!
