//! The events that flow through the engine.
use vstd::prelude::*;
use crate::types::{ToolCall, ToolCallView};

verus! {

#[derive(Debug, Clone, PartialEq)]
pub enum Event {
    Input(InputEvent),
    LLMStream(LLMStreamEvent),
    Tool(ToolEvent),
    System(SystemEvent),
}

#[derive(Debug, Clone, PartialEq)]
pub struct InputEvent {
    pub source: String,
    pub content: String,
}

#[derive(Debug, Clone, PartialEq)]
pub enum LLMStreamEvent {
    ThinkingDelta { delta: String },
    TextDelta { delta: String },
    ToolCall { tool_call: ToolCall },
    StreamEnd { stop_reason: String },
    StreamError { error: String },
}

#[derive(Debug, Clone, PartialEq)]
pub enum ToolEvent {
    CallRequest { tool_calls: Vec<ToolCall> },
    Result { tool_call_id: String, result: String },
    Error { tool_call_id: String, error: String },
}

#[derive(Debug, Clone, PartialEq)]
pub enum SystemEvent {
    StepStart { step: u32 },
    StepEnd { step: u32 },
    HookTrigger { hook: String },
}

/// A streamed model event as a mathematical value.
pub enum StreamEventView {
    ThinkingDelta { delta: Seq<char> },
    TextDelta { delta: Seq<char> },
    ToolCall { tool_call: ToolCallView },
    StreamEnd { stop_reason: Seq<char> },
    StreamError { error: Seq<char> },
}

impl View for LLMStreamEvent {
    type V = StreamEventView;

    open spec fn view(&self) -> StreamEventView {
        match self {
            LLMStreamEvent::ThinkingDelta { delta } => StreamEventView::ThinkingDelta { delta: delta@ },
            LLMStreamEvent::TextDelta { delta } => StreamEventView::TextDelta { delta: delta@ },
            LLMStreamEvent::ToolCall { tool_call } => StreamEventView::ToolCall { tool_call: tool_call@ },
            LLMStreamEvent::StreamEnd { stop_reason } => StreamEventView::StreamEnd { stop_reason: stop_reason@ },
            LLMStreamEvent::StreamError { error } => StreamEventView::StreamError { error: error@ },
        }
    }
}

impl DeepView for LLMStreamEvent {
    type V = StreamEventView;

    open spec fn deep_view(&self) -> StreamEventView {
        self@
    }
}

/// The type name under which an event is routed to subscribers and systems.
pub open spec fn event_type_name(e: Event) -> Seq<char> {
    match e {
        Event::Input(_) => "input.user"@,
        Event::LLMStream(s) => match s {
            LLMStreamEvent::ThinkingDelta { .. } => "llm.thinking_delta"@,
            LLMStreamEvent::TextDelta { .. } => "llm.text_delta"@,
            LLMStreamEvent::ToolCall { .. } => "llm.tool_call"@,
            LLMStreamEvent::StreamEnd { .. } => "llm.stream_end"@,
            LLMStreamEvent::StreamError { .. } => "llm.stream_error"@,
        },
        Event::Tool(t) => match t {
            ToolEvent::CallRequest { .. } => "tool.call_request"@,
            ToolEvent::Result { .. } => "tool.result"@,
            ToolEvent::Error { .. } => "tool.error"@,
        },
        Event::System(s) => match s {
            SystemEvent::StepStart { .. } => "system.step_start"@,
            SystemEvent::StepEnd { .. } => "system.step_end"@,
            SystemEvent::HookTrigger { .. } => "system.hook_trigger"@,
        },
    }
}

impl Event {
    /// The routing name of this event, such as `"input.user"`.
    pub fn event_type(&self) -> (r: &'static str)
        ensures
            r@ == event_type_name(*self),
    {
        match self {
            Event::Input(_) => "input.user",
            Event::LLMStream(e) => match e {
                LLMStreamEvent::ThinkingDelta { .. } => "llm.thinking_delta",
                LLMStreamEvent::TextDelta { .. } => "llm.text_delta",
                LLMStreamEvent::ToolCall { .. } => "llm.tool_call",
                LLMStreamEvent::StreamEnd { .. } => "llm.stream_end",
                LLMStreamEvent::StreamError { .. } => "llm.stream_error",
            },
            Event::Tool(e) => match e {
                ToolEvent::CallRequest { .. } => "tool.call_request",
                ToolEvent::Result { .. } => "tool.result",
                ToolEvent::Error { .. } => "tool.error",
            },
            Event::System(e) => match e {
                SystemEvent::StepStart { .. } => "system.step_start",
                SystemEvent::StepEnd { .. } => "system.step_end",
                SystemEvent::HookTrigger { .. } => "system.hook_trigger",
            },
        }
    }
}

} // verus!
