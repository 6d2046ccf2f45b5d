//! Renders streamed model output and ends the step when the stream ends.
use vstd::prelude::*;
use crate::components::LoopComponent;
use crate::effect::{emits_step_end, renders, Effect, StreamType};
use crate::event::{Event, LLMStreamEvent, SystemEvent};
use crate::systems::loop_of;
use crate::world::Snapshot;

verus! {

/// Thinking and text deltas are rendered as they come; a tool call renders
/// `[Tool: <name>]`; a stream error renders `Error: <error>`; the end of the
/// stream renders a newline and emits the end of the current step. Every
/// other event requests nothing.
pub fn output_system<C>(snapshot: &Snapshot<C>, event: &Event) -> (r: Vec<Effect>) where
    C: crate::world::HasComponent<LoopComponent>,

    ensures
        match *event {
            Event::LLMStream(LLMStreamEvent::ThinkingDelta { delta }) => r@.len() == 1 && renders(
                r@[0],
                delta@,
                StreamType::Thinking,
            ),
            Event::LLMStream(LLMStreamEvent::TextDelta { delta }) => r@.len() == 1 && renders(
                r@[0],
                delta@,
                StreamType::Text,
            ),
            Event::LLMStream(LLMStreamEvent::ToolCall { tool_call }) => r@.len() == 1 && renders(
                r@[0],
                "[Tool: "@ + tool_call.function.name@ + "]"@,
                StreamType::Text,
            ),
            Event::LLMStream(LLMStreamEvent::StreamEnd { .. }) => {
                &&& r@.len() == 2
                &&& renders(r@[0], "\n"@, StreamType::Text)
                &&& emits_step_end(r@[1], loop_of(snapshot.state()).step)
            },
            Event::LLMStream(LLMStreamEvent::StreamError { error }) => r@.len() == 1 && renders(
                r@[0],
                "Error: "@ + error@,
                StreamType::Text,
            ),
            _ => r@.len() == 0,
        },
{
    let mut effects: Vec<Effect> = Vec::new();
    match event {
        Event::LLMStream(LLMStreamEvent::ThinkingDelta { delta }) => {
            effects.push(Effect::Render { content: delta.clone(), stream: StreamType::Thinking });
        },
        Event::LLMStream(LLMStreamEvent::TextDelta { delta }) => {
            effects.push(Effect::Render { content: delta.clone(), stream: StreamType::Text });
        },
        Event::LLMStream(LLMStreamEvent::ToolCall { tool_call }) => {
            let mut content = String::from_str("[Tool: ");
            content.append(tool_call.function.name.as_str());
            content.append("]");
            effects.push(Effect::Render { content, stream: StreamType::Text });
        },
        Event::LLMStream(LLMStreamEvent::StreamEnd { .. }) => {
            let step = snapshot.get::<LoopComponent>().step;
            effects.push(Effect::Render { content: String::from_str("\n"), stream: StreamType::Text });
            effects.push(Effect::Emit { event: Event::System(SystemEvent::StepEnd { step }) });
        },
        Event::LLMStream(LLMStreamEvent::StreamError { error }) => {
            let mut content = String::from_str("Error: ");
            content.append(error.as_str());
            effects.push(Effect::Render { content, stream: StreamType::Text });
        },
        _ => {},
    }
    effects
}

} // verus!
