//! Turns a tool call streamed by the model into a tool execution.
use vstd::prelude::*;
use crate::effect::Effect;
use crate::event::{Event, LLMStreamEvent};
use crate::json::{parse_json_or_null, parsed_or_null};
use crate::world::Snapshot;

verus! {

/// On a streamed tool call: execute the named tool with its arguments parsed
/// as JSON (`null` when they are not valid JSON). Every other event requests
/// nothing.
pub fn tool_system<C>(snapshot: &Snapshot<C>, event: &Event) -> (r: Vec<Effect>)
    ensures
        match *event {
            Event::LLMStream(LLMStreamEvent::ToolCall { tool_call }) => {
                &&& r@.len() == 1
                &&& r@[0] matches Effect::ExecuteTool { tool_name, args } && tool_name@
                    == tool_call.function.name@ && parsed_or_null(tool_call.function.arguments@, args)
            },
            _ => r@.len() == 0,
        },
{
    match event {
        Event::LLMStream(LLMStreamEvent::ToolCall { tool_call }) => {
            let args = parse_json_or_null(tool_call.function.arguments.as_str());
            let mut effects: Vec<Effect> = Vec::new();
            effects.push(
                Effect::ExecuteTool { tool_name: tool_call.function.name.clone(), args },
            );
            effects
        },
        _ => Vec::new(),
    }
}

} // verus!
