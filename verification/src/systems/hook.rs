//! Hook handling: after each step, decide whether the loop continues.
use vstd::prelude::*;
use crate::components::{ConfigComponent, LoopComponent};
use crate::effect::{emits_hook, sets_should_continue, Effect, UpdateFn};
use crate::event::{Event, SystemEvent};
use crate::systems::{config_of, loop_of, may_continue};
use crate::text::str_eq;
use crate::world::Snapshot;

verus! {

/// On the `afterStep` hook: record whether the loop may continue and trigger
/// `shouldContinue`. The `beforeStep` and `shouldContinue` hooks, other hooks
/// and every other event request nothing.
pub fn hook_system<C>(snapshot: &Snapshot<C>, event: &Event) -> (r: Vec<Effect>) where
    C: crate::world::HasComponent<LoopComponent> + crate::world::HasComponent<ConfigComponent>,

    ensures
        if event matches Event::System(SystemEvent::HookTrigger { hook }) && hook@ == "afterStep"@ {
            &&& r@.len() == 2
            &&& sets_should_continue(
                r@[0],
                may_continue(loop_of(snapshot.state()), config_of(snapshot.state())),
            )
            &&& emits_hook(r@[1], "shouldContinue"@)
        } else {
            r@.len() == 0
        },
        r@.len() > 0 && loop_of(snapshot.state()).step >= config_of(snapshot.state()).max_steps
            ==> sets_should_continue(r@[0], false),
        r@.len() > 0 && sets_should_continue(r@[0], true) ==> loop_of(snapshot.state()).should_continue
            && loop_of(snapshot.state()).step < config_of(snapshot.state()).max_steps,
{
    match event {
        Event::System(SystemEvent::HookTrigger { hook }) => {
            if str_eq(hook.as_str(), "afterStep") {
                let loop_state = snapshot.get::<LoopComponent>();
                let config = snapshot.get::<ConfigComponent>();
                let should_continue = loop_state.should_continue && loop_state.step < config.max_steps;
                let mut effects: Vec<Effect> = Vec::new();
                effects.push(
                    Effect::UpdateComponent {
                        entity: String::from_str("agent"),
                        update: UpdateFn::set_should_continue(should_continue),
                    },
                );
                effects.push(
                    Effect::Emit {
                        event: Event::System(
                            SystemEvent::HookTrigger { hook: String::from_str("shouldContinue") },
                        ),
                    },
                );
                effects
            } else {
                // `beforeStep` is reserved for future use; `shouldContinue` is a
                // no-op because the flag was already computed in `afterStep`.
                Vec::new()
            }
        },
        _ => Vec::new(),
    }
}

} // verus!
