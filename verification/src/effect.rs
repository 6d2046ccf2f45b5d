//! Effects: the mutations and actions that systems request.
use vstd::prelude::*;
use crate::components::ComponentAccessor;
use crate::event::{Event, SystemEvent};
use crate::types::{Message, MessageView};

verus! {

#[derive(Debug, PartialEq)]
pub enum Effect {
    CallLLM { messages: Vec<Message> },
    ExecuteTool { tool_name: String, args: serde_json::Value },
    AppendMessage { entity: String, message: Message },
    UpdateComponent { entity: String, update: UpdateFn },
    Emit { event: Event },
    Render { content: String, stream: StreamType },
    Abort { reason: String },
}

/// A component update carried by `Effect::UpdateComponent`, applied through a
/// `ComponentAccessor`. Updates are opaque to comparison: `==` never holds
/// between two of them.
#[derive(Debug, Clone, Copy)]
pub enum UpdateFn {
    /// Set the loop's `should_continue` flag to the given value.
    SetShouldContinue(bool),
}

impl UpdateFn {
    /// The update that sets the loop's `should_continue` flag.
    pub fn set_should_continue(value: bool) -> (r: Self)
        ensures
            r == UpdateFn::SetShouldContinue(value),
    {
        UpdateFn::SetShouldContinue(value)
    }

    /// The loop component after this update, given the one before it.
    pub open spec fn updated_loop(self, before: crate::components::LoopComponent) -> crate::components::LoopComponent {
        match self {
            UpdateFn::SetShouldContinue(value) => crate::components::LoopComponent {
                should_continue: value,
                ..before
            },
        }
    }

    /// Applies the update to the components behind `accessor`.
    pub fn apply<A: ComponentAccessor>(&self, accessor: &mut A)
        ensures
            final(accessor).loop_state() == self.updated_loop(old(accessor).loop_state()),
            final(accessor).messages_state() == old(accessor).messages_state(),
            final(accessor).config_state() == old(accessor).config_state(),
            final(accessor).tools_state() == old(accessor).tools_state(),
    {
        match self {
            UpdateFn::SetShouldContinue(value) => {
                let l = accessor.loop_mut();
                l.should_continue = *value;
            },
        }
    }
}

impl PartialEq for UpdateFn {
    fn eq(&self, other: &Self) -> (r: bool) {
        false
    }
}

impl vstd::std_specs::cmp::PartialEqSpecImpl for UpdateFn {
    open spec fn obeys_eq_spec() -> bool {
        true
    }

    open spec fn eq_spec(&self, other: &Self) -> bool {
        false
    }
}

/// `e` emits the hook trigger named `name`.
pub open spec fn emits_hook(e: Effect, name: Seq<char>) -> bool {
    e matches Effect::Emit { event: Event::System(SystemEvent::HookTrigger { hook }) } && hook@ == name
}

/// `e` emits the start of step `step`.
pub open spec fn emits_step_start(e: Effect, step: u32) -> bool {
    e matches Effect::Emit { event: Event::System(SystemEvent::StepStart { step: s }) } && s == step
}

/// `e` emits the end of step `step`.
pub open spec fn emits_step_end(e: Effect, step: u32) -> bool {
    e matches Effect::Emit { event: Event::System(SystemEvent::StepEnd { step: s }) } && s == step
}

/// `e` sets the agent's `should_continue` flag to `value`.
pub open spec fn sets_should_continue(e: Effect, value: bool) -> bool {
    e matches Effect::UpdateComponent { entity, update } && entity@ == "agent"@ && update
        == UpdateFn::SetShouldContinue(value)
}

/// `e` appends a user message with the given text to the agent's history.
pub open spec fn appends_user_message(e: Effect, content: Seq<char>) -> bool {
    e matches Effect::AppendMessage { entity, message } && entity@ == "agent"@ && message@
        == MessageView::User { content }
}

/// `e` renders `content` on the given stream.
pub open spec fn renders(e: Effect, content: Seq<char>, stream: StreamType) -> bool {
    e matches Effect::Render { content: c, stream: s } && c@ == content && s == stream
}

/// `e` calls the model with the given history.
pub open spec fn calls_llm(e: Effect, messages: Seq<MessageView>) -> bool {
    e matches Effect::CallLLM { messages: m } && m.deep_view() == messages
}

#[derive(Debug, Clone, Copy, PartialEq, Eq)]
pub enum StreamType {
    Thinking,
    Text,
}

} // verus!
