//! Asks the model for the next turn when a step starts or a tool finishes.
use vstd::prelude::*;
use crate::components::{ConfigComponent, LoopComponent, MessagesComponent};
use crate::effect::{calls_llm, Effect};
use crate::event::{Event, SystemEvent, ToolEvent};
use crate::systems::{config_of, loop_of, may_continue, messages_of};
use crate::types::clone_messages;
use crate::world::Snapshot;

verus! {

/// Whether `event` is one that prompts a model call: the start of a step, or
/// the result or error of a tool.
pub open spec fn prompts_model_call(event: Event) -> bool {
    ||| event matches Event::System(SystemEvent::StepStart { .. })
    ||| event matches Event::Tool(ToolEvent::Result { .. })
    ||| event matches Event::Tool(ToolEvent::Error { .. })
}

/// On the start of a step or the result or error of a tool, call the model
/// with the whole history, unless the loop has been stopped or has used up
/// its steps. Every other event requests nothing.
pub fn provider_system<C>(snapshot: &Snapshot<C>, event: &Event) -> (r: Vec<Effect>) where
    C: crate::world::HasComponent<LoopComponent> + crate::world::HasComponent<
        ConfigComponent,
    > + crate::world::HasComponent<MessagesComponent>,

    ensures
        if prompts_model_call(*event) && may_continue(
            loop_of(snapshot.state()),
            config_of(snapshot.state()),
        ) {
            r@.len() == 1 && calls_llm(
                r@[0],
                messages_of(snapshot.state()).messages.deep_view(),
            )
        } else {
            r@.len() == 0
        },
        loop_of(snapshot.state()).step >= config_of(snapshot.state()).max_steps ==> r@.len() == 0,
        !loop_of(snapshot.state()).should_continue ==> r@.len() == 0,
        forall|i: int| 0 <= i < r@.len() ==> (#[trigger] r@[i] is CallLLM) && loop_of(snapshot.state()).step
            < config_of(snapshot.state()).max_steps,
{
    match event {
        Event::System(SystemEvent::StepStart { .. })
        | Event::Tool(ToolEvent::Result { .. })
        | Event::Tool(ToolEvent::Error { .. }) => {
            let loop_state = snapshot.get::<LoopComponent>();
            let config = snapshot.get::<ConfigComponent>();
            if !loop_state.should_continue || loop_state.step >= config.max_steps {
                return Vec::new();
            }
            let messages = clone_messages(&snapshot.get::<MessagesComponent>().messages);
            let mut effects: Vec<Effect> = Vec::new();
            effects.push(Effect::CallLLM { messages });
            effects
        },
        _ => Vec::new(),
    }
}

} // verus!
