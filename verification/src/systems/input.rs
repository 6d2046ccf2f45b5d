//! Turns user input into a new user message and the start of a step.
use vstd::prelude::*;
use crate::components::{ConfigComponent, LoopComponent};
use crate::effect::{appends_user_message, emits_hook, emits_step_start, sets_should_continue, Effect, UpdateFn};
use crate::event::{Event, InputEvent, SystemEvent};
use crate::systems::{config_of, loop_of, may_continue};
use crate::types::Message;
use crate::world::Snapshot;

verus! {

/// On user input: append the text as a user message, trigger `beforeStep`,
/// start the current step, and record whether the loop may continue.
/// Every other event requests nothing.
pub fn input_system<C>(snapshot: &Snapshot<C>, event: &Event) -> (r: Vec<Effect>) where
    C: crate::world::HasComponent<LoopComponent> + crate::world::HasComponent<ConfigComponent>,

    ensures
        match *event {
            Event::Input(InputEvent { content, .. }) => {
                let l = loop_of(snapshot.state());
                &&& r@.len() == 4
                &&& appends_user_message(r@[0], content@)
                &&& emits_hook(r@[1], "beforeStep"@)
                &&& emits_step_start(r@[2], l.step)
                &&& sets_should_continue(r@[3], may_continue(l, config_of(snapshot.state())))
            },
            _ => r@.len() == 0,
        },
        r@.len() == 4 && loop_of(snapshot.state()).step >= config_of(snapshot.state()).max_steps
            ==> sets_should_continue(r@[3], false),
        r@.len() == 4 && sets_should_continue(r@[3], true) ==> loop_of(snapshot.state()).should_continue
            && loop_of(snapshot.state()).step < config_of(snapshot.state()).max_steps,
{
    match event {
        Event::Input(InputEvent { content, .. }) => {
            let loop_state = snapshot.get::<LoopComponent>();
            let config = snapshot.get::<ConfigComponent>();
            let step = loop_state.step;
            let should_continue = loop_state.should_continue && step < config.max_steps;
            let mut effects: Vec<Effect> = Vec::new();
            effects.push(
                Effect::AppendMessage {
                    entity: String::from_str("agent"),
                    message: Message::User { content: content.clone() },
                },
            );
            effects.push(
                Effect::Emit {
                    event: Event::System(
                        SystemEvent::HookTrigger { hook: String::from_str("beforeStep") },
                    ),
                },
            );
            effects.push(Effect::Emit { event: Event::System(SystemEvent::StepStart { step }) });
            effects.push(
                Effect::UpdateComponent {
                    entity: String::from_str("agent"),
                    update: UpdateFn::set_should_continue(should_continue),
                },
            );
            effects
        },
        _ => Vec::new(),
    }
}

} // verus!
