//! Applies effects to the world, the event sink and the abort manager.
use vstd::prelude::*;
use crate::abort_manager::AbortManager;
use crate::components::ComponentAccessor;
use crate::effect::{Effect, StreamType};
use crate::event::{Event, LLMStreamEvent, SystemEvent, ToolEvent};
use crate::event_bus::EventSink;
use crate::ids::{hex_digits, uuid_simple};
use crate::json::{json_text, json_to_string};
use crate::tool_scheduler::{handled_calls, ran_call, scheduled, ToolResult, ToolScheduler};
use crate::types::{clone_tool_calls, FunctionCall, Message, MessageView, ToolCall};
use crate::world::World;

verus! {

/// What remains to be done after an effect has been applied: nothing, text to
/// render to the user, or a model call to stream (see `EffectExecutor::on_stream_event`).
#[derive(Debug)]
pub enum Outcome {
    Done,
    Render { content: String, stream: StreamType },
    CallLLM { messages: Vec<Message> },
}

/// The text and tool calls the model has streamed so far in one call.
#[derive(Debug)]
pub struct LlmTurn {
    pub assistant_content: String,
    pub tool_calls: Vec<ToolCall>,
}

impl LlmTurn {
    /// A turn in which nothing has been streamed yet.
    pub fn new() -> (r: Self)
        ensures
            r.assistant_content@.len() == 0,
            r.tool_calls@.len() == 0,
    {
        LlmTurn { assistant_content: String::new(), tool_calls: Vec::new() }
    }
}

/// The message and the event that executing a tool produces, given the
/// result the scheduler reported for the call `call`.
pub open spec fn tool_message(call: ToolCall, res: ToolResult) -> MessageView {
    match res.error {
        Some(err) => MessageView::Tool { content: "Error: "@ + err@, tool_call_id: res.tool_call_id@ },
        None => MessageView::Tool {
            content: match res.result {
                Some(out) => out@,
                None => Seq::empty(),
            },
            tool_call_id: res.tool_call_id@,
        },
    }
}

/// The event announcing the result or the error of a tool call.
pub open spec fn tool_event(res: ToolResult, event: Event) -> bool {
    match res.error {
        Some(err) => event matches Event::Tool(ToolEvent::Error { tool_call_id, error })
            && tool_call_id@ == res.tool_call_id@ && error@ == err@,
        None => event matches Event::Tool(ToolEvent::Result { tool_call_id, result })
            && tool_call_id@ == res.tool_call_id@ && result@ == match res.result {
                Some(out) => out@,
                None => Seq::empty(),
            },
    }
}

/// Applies the effects that systems request.
pub struct EffectExecutor<
    'a,
    Components,
    S: EventSink,
    T: Fn(serde_json::Value) -> String,
    A: Fn(String),
    P,
> {
    world: &'a mut World<Components>,
    event_sink: &'a mut S,
    tool_scheduler: &'a mut ToolScheduler<T>,
    abort_manager: &'a mut AbortManager<A>,
    provider: &'a P,
}

impl<
    'a,
    Components: ComponentAccessor,
    S: EventSink,
    T: Fn(serde_json::Value) -> String,
    A: Fn(String),
    P,
> EffectExecutor<'a, Components, S, T, A, P> {
    pub closed spec fn world(&self) -> World<Components> {
        *self.world
    }

    pub closed spec fn sink(&self) -> S {
        *self.event_sink
    }

    pub closed spec fn scheduler(&self) -> ToolScheduler<T> {
        *self.tool_scheduler
    }

    pub closed spec fn aborts(&self) -> AbortManager<A> {
        *self.abort_manager
    }

    pub closed spec fn provider_ref(&self) -> P {
        *self.provider
    }

    /// The borrow of the world the executor works through: once the
    /// executor is done, the world holds what `world()` last was.
    pub closed spec fn world_ref(&self) -> &'a mut World<Components> {
        self.world
    }

    /// The borrow of the event sink the executor works through.
    pub closed spec fn sink_ref(&self) -> &'a mut S {
        self.event_sink
    }

    /// The borrow of the tool scheduler the executor works through.
    pub closed spec fn scheduler_ref(&self) -> &'a mut ToolScheduler<T> {
        self.tool_scheduler
    }

    /// The borrow of the abort manager the executor works through.
    pub closed spec fn aborts_ref(&self) -> &'a mut AbortManager<A> {
        self.abort_manager
    }

    /// An executor over these parts. Once it is done with them, the world,
    /// the event sink, the tool scheduler and the abort manager hold what
    /// `world()`, `sink()`, `scheduler()` and `aborts()` last were.
    pub fn new(
        world: &'a mut World<Components>,
        event_sink: &'a mut S,
        tool_scheduler: &'a mut ToolScheduler<T>,
        abort_manager: &'a mut AbortManager<A>,
        provider: &'a P,
    ) -> (r: Self)
        ensures
            r.world() == *old(world),
            *final(r.world_ref()) == *final(world),
            r.sink() == *old(event_sink),
            *final(r.sink_ref()) == *final(event_sink),
            r.scheduler() == *old(tool_scheduler),
            *final(r.scheduler_ref()) == *final(tool_scheduler),
            r.aborts() == *old(abort_manager),
            *final(r.aborts_ref()) == *final(abort_manager),
            r.provider_ref() == *provider,
    {
        Self { world, event_sink, tool_scheduler, abort_manager, provider }
    }

    /// The model provider this executor streams from.
    pub fn provider(&self) -> (r: &'a P)
        ensures
            *r == self.provider_ref(),
    {
        self.provider
    }

    /// The tool scheduler this executor runs tools with.
    pub fn tool_scheduler(&self) -> (r: &ToolScheduler<T>)
        ensures
            *r == self.scheduler(),
    {
        &*self.tool_scheduler
    }

    /// The current step of the loop.
    pub fn loop_step(&mut self) -> (r: u32)
        ensures
            *final(final(self).world_ref()) == *final(old(self).world_ref()),
            *final(final(self).sink_ref()) == *final(old(self).sink_ref()),
            *final(final(self).scheduler_ref()) == *final(old(self).scheduler_ref()),
            *final(final(self).aborts_ref()) == *final(old(self).aborts_ref()),
            r == old(self).world().loop_state().step,
            final(self).world().loop_state() == old(self).world().loop_state(),
            final(self).world().messages_state() == old(self).world().messages_state(),
            final(self).world().config_state() == old(self).world().config_state(),
            final(self).world().tools_state() == old(self).world().tools_state(),
            final(self).sink() == old(self).sink(),
            final(self).aborts() == old(self).aborts(),
            final(self).scheduler() == old(self).scheduler(),
            final(self).provider_ref() == old(self).provider_ref(),
    {
        self.world.loop_mut().step
    }

    fn emit(&mut self, event: Event)
        ensures
            *final(final(self).world_ref()) == *final(old(self).world_ref()),
            *final(final(self).sink_ref()) == *final(old(self).sink_ref()),
            *final(final(self).scheduler_ref()) == *final(old(self).scheduler_ref()),
            *final(final(self).aborts_ref()) == *final(old(self).aborts_ref()),
            final(self).sink().delivered() == old(self).sink().delivered().push(event),
            final(self).world() == old(self).world(),
            final(self).aborts() == old(self).aborts(),
            final(self).scheduler() == old(self).scheduler(),
            final(self).provider_ref() == old(self).provider_ref(),
    {
        self.event_sink.emit(event);
    }

    fn append_message(&mut self, message: Message)
        ensures
            *final(final(self).world_ref()) == *final(old(self).world_ref()),
            *final(final(self).sink_ref()) == *final(old(self).sink_ref()),
            *final(final(self).scheduler_ref()) == *final(old(self).scheduler_ref()),
            *final(final(self).aborts_ref()) == *final(old(self).aborts_ref()),
            final(self).world().messages_state().messages@ == old(self).world().messages_state().messages@.push(message),
            final(self).world().loop_state() == old(self).world().loop_state(),
            final(self).world().config_state() == old(self).world().config_state(),
            final(self).world().tools_state() == old(self).world().tools_state(),
            final(self).sink() == old(self).sink(),
            final(self).aborts() == old(self).aborts(),
            final(self).scheduler() == old(self).scheduler(),
            final(self).provider_ref() == old(self).provider_ref(),
    {
        let messages = self.world.messages_mut();
        messages.messages.push(message);
    }

    /// Executes the named tool with the given arguments under a fresh call
    /// identifier, announces the result or error, and records it as a tool
    /// message.
    fn execute_tool(&mut self, tool_name: String, args: serde_json::Value)
        ensures
            *final(final(self).world_ref()) == *final(old(self).world_ref()),
            *final(final(self).sink_ref()) == *final(old(self).sink_ref()),
            *final(final(self).scheduler_ref()) == *final(old(self).scheduler_ref()),
            *final(final(self).aborts_ref()) == *final(old(self).aborts_ref()),
            exists|call: ToolCall, res: ToolResult, event: Event|
                {
                    &&& call.function.name@ == tool_name@
                    &&& call.function.arguments@ == json_text(args)
                    &&& call.call_type@ == "function"@
                    &&& (exists|n: u128| call.id@ == "tool_"@ + hex_digits(n))
                    &&& scheduled(old(self).scheduler().handlers(), call, res)
                    &&& ran_call(old(self).scheduler(), final(self).scheduler(), call, res)
                    &&& tool_event(res, event)
                    &&& final(self).sink().delivered() == old(self).sink().delivered().push(event)
                    &&& final(self).world().messages_state().messages.deep_view()
                        == old(self).world().messages_state().messages.deep_view().push(
                        tool_message(call, res),
                    )
                },
            final(self).world().loop_state() == old(self).world().loop_state(),
            final(self).world().config_state() == old(self).world().config_state(),
            final(self).world().tools_state() == old(self).world().tools_state(),
            final(self).aborts() == old(self).aborts(),
            final(self).provider_ref() == old(self).provider_ref(),
    {
        let mut id = String::from_str("tool_");
        let suffix = uuid_simple();
        id.append(suffix.as_str());
        let ghost n = choose|n: u128| suffix@ == hex_digits(n);
        assert(id@ == "tool_"@ + hex_digits(n));
        let arguments = json_to_string(&args);
        let call = ToolCall {
            id,
            call_type: String::from_str("function"),
            function: FunctionCall { name: tool_name, arguments },
        };
        let ghost call_value = call;
        let ghost scheduler_before = self.scheduler();
        let calls = [call];
        let results = self.tool_scheduler.schedule(&calls);
        assert(calls@[0] == call_value);
        proof {
            assert(calls@ =~= seq![call_value]);
            assert(calls@.take(0) =~= Seq::<ToolCall>::empty());
            assert(handled_calls(scheduler_before.handlers(), Seq::<ToolCall>::empty()) =~= Seq::<ToolCall>::empty());
            assert(ran_call(scheduler_before, self.scheduler(), call_value, results@[0]));
        }
        let res = &results[0];
        let ghost res_value = *res;
        let ghost old_messages = self.world.messages_state().messages.deep_view();
        let (event, message) = match &res.error {
            Some(err) => {
                let event = Event::Tool(
                    ToolEvent::Error { tool_call_id: res.tool_call_id.clone(), error: err.clone() },
                );
                let mut content = String::from_str("Error: ");
                content.append(err.as_str());
                (event, Message::Tool { content, tool_call_id: res.tool_call_id.clone() })
            },
            None => {
                let result = match &res.result {
                    Some(out) => out.clone(),
                    None => String::new(),
                };
                let event = Event::Tool(
                    ToolEvent::Result { tool_call_id: res.tool_call_id.clone(), result: result.clone() },
                );
                (event, Message::Tool { content: result, tool_call_id: res.tool_call_id.clone() })
            },
        };
        assert(message@ == tool_message(call_value, res_value));
        let ghost event_value = event;
        self.emit(event);
        self.append_message(message);
        assert(self.world().messages_state().messages.deep_view() =~= old_messages.push(
            tool_message(call_value, res_value),
        ));
        assert(tool_event(res_value, event_value));
        assert(scheduled(scheduler_before.handlers(), call_value, res_value));
        assert(exists|n: u128| call_value.id@ == "tool_"@ + hex_digits(n));
    }

    /// Applies one effect. Messages are appended to the world, component
    /// updates applied, events emitted, aborts recorded and tools executed
    /// here; text to render and model calls are handed back.
    pub fn apply(&mut self, effect: Effect) -> (r: Outcome)
        ensures
            *final(final(self).world_ref()) == *final(old(self).world_ref()),
            *final(final(self).sink_ref()) == *final(old(self).sink_ref()),
            *final(final(self).scheduler_ref()) == *final(old(self).scheduler_ref()),
            *final(final(self).aborts_ref()) == *final(old(self).aborts_ref()),
            !(effect is ExecuteTool) ==> final(self).scheduler() == old(self).scheduler(),
            final(self).provider_ref() == old(self).provider_ref(),
            match effect {
                Effect::AppendMessage { message, .. } => {
                    &&& r is Done
                    &&& final(self).world().messages_state().messages@ == old(self).world().messages_state().messages@.push(message)
                    &&& final(self).world().loop_state() == old(self).world().loop_state()
                    &&& final(self).world().config_state() == old(self).world().config_state()
                    &&& final(self).world().tools_state() == old(self).world().tools_state()
                    &&& final(self).sink() == old(self).sink()
                    &&& final(self).aborts() == old(self).aborts()
                },
                Effect::UpdateComponent { update, .. } => {
                    &&& r is Done
                    &&& final(self).world().loop_state() == update.updated_loop(old(self).world().loop_state())
                    &&& final(self).world().messages_state() == old(self).world().messages_state()
                    &&& final(self).world().config_state() == old(self).world().config_state()
                    &&& final(self).world().tools_state() == old(self).world().tools_state()
                    &&& final(self).sink() == old(self).sink()
                    &&& final(self).aborts() == old(self).aborts()
                },
                Effect::Emit { event } => {
                    &&& r is Done
                    &&& final(self).sink().delivered() == old(self).sink().delivered().push(event)
                    &&& final(self).world() == old(self).world()
                    &&& final(self).aborts() == old(self).aborts()
                },
                Effect::Render { content, stream } => {
                    &&& r matches Outcome::Render { content: c, stream: s } && c == content && s == stream
                    &&& final(self).world() == old(self).world()
                    &&& final(self).sink() == old(self).sink()
                    &&& final(self).aborts() == old(self).aborts()
                },
                Effect::Abort { reason } => {
                    &&& r is Done
                    &&& final(self).aborts().reason() == Some(reason@)
                    &&& final(self).aborts().handlers() == old(self).aborts().handlers()
                    &&& forall|i: int| 0 <= i < old(self).aborts().handlers().len() ==> exists|s: String|
                        s@ == reason@ && call_ensures(#[trigger] old(self).aborts().handlers()[i], (s,), ())
                    &&& final(self).aborts().notifications() == old(self).aborts().notifications() + Seq::new(
                        old(self).aborts().handlers().len(),
                        |i: int| (i, reason@),
                    )
                    &&& final(self).world() == old(self).world()
                    &&& final(self).sink() == old(self).sink()
                },
                Effect::ExecuteTool { tool_name, args } => {
                    &&& r is Done
                    &&& exists|call: ToolCall, res: ToolResult, event: Event|
                        {
                            &&& call.function.name@ == tool_name@
                            &&& call.function.arguments@ == json_text(args)
                            &&& call.call_type@ == "function"@
                            &&& (exists|n: u128| call.id@ == "tool_"@ + hex_digits(n))
                            &&& scheduled(old(self).scheduler().handlers(), call, res)
                            &&& ran_call(old(self).scheduler(), final(self).scheduler(), call, res)
                            &&& tool_event(res, event)
                            &&& final(self).sink().delivered() == old(self).sink().delivered().push(event)
                            &&& final(self).world().messages_state().messages.deep_view()
                                == old(self).world().messages_state().messages.deep_view().push(
                                tool_message(call, res),
                            )
                        }
                    &&& final(self).world().loop_state() == old(self).world().loop_state()
                    &&& final(self).world().config_state() == old(self).world().config_state()
                    &&& final(self).world().tools_state() == old(self).world().tools_state()
                    &&& final(self).aborts() == old(self).aborts()
                },
                Effect::CallLLM { messages } => {
                    &&& r matches Outcome::CallLLM { messages: m } && m == messages
                    &&& final(self).world() == old(self).world()
                    &&& final(self).sink() == old(self).sink()
                    &&& final(self).aborts() == old(self).aborts()
                },
            },
    {
        match effect {
            Effect::AppendMessage { entity: _, message } => {
                self.append_message(message);
                Outcome::Done
            },
            Effect::UpdateComponent { entity: _, update } => {
                update.apply(self.world);
                Outcome::Done
            },
            Effect::Emit { event } => {
                self.emit(event);
                Outcome::Done
            },
            Effect::Render { content, stream } => Outcome::Render { content, stream },
            Effect::Abort { reason } => {
                self.abort_manager.abort(reason);
                Outcome::Done
            },
            Effect::ExecuteTool { tool_name, args } => {
                self.execute_tool(tool_name, args);
                Outcome::Done
            },
            Effect::CallLLM { messages } => Outcome::CallLLM { messages },
        }
    }

    /// Emits a streamed event, wrapped as an engine event.
    fn dispatch_stream_event(&mut self, event: LLMStreamEvent)
        ensures
            *final(final(self).world_ref()) == *final(old(self).world_ref()),
            *final(final(self).sink_ref()) == *final(old(self).sink_ref()),
            *final(final(self).scheduler_ref()) == *final(old(self).scheduler_ref()),
            *final(final(self).aborts_ref()) == *final(old(self).aborts_ref()),
            final(self).sink().delivered() == old(self).sink().delivered().push(Event::LLMStream(event)),
            final(self).world() == old(self).world(),
            final(self).aborts() == old(self).aborts(),
            final(self).scheduler() == old(self).scheduler(),
            final(self).provider_ref() == old(self).provider_ref(),
    {
        self.emit(Event::LLMStream(event));
    }

    /// Handles one event streamed by the model during a `CallLLM` effect.
    /// Text deltas and tool calls are collected in `turn`. At the end of the
    /// stream, the collected text and tool calls (if there are any) become an
    /// assistant message, the loop advances one step, and the `afterStep` hook
    /// is triggered. Every streamed event is then emitted as well.
    pub fn on_stream_event(&mut self, turn: &mut LlmTurn, event: LLMStreamEvent)
        requires
            event is StreamEnd ==> old(self).world().loop_state().step < u32::MAX,
        ensures
            *final(final(self).world_ref()) == *final(old(self).world_ref()),
            *final(final(self).sink_ref()) == *final(old(self).sink_ref()),
            *final(final(self).scheduler_ref()) == *final(old(self).scheduler_ref()),
            *final(final(self).aborts_ref()) == *final(old(self).aborts_ref()),
            final(self).scheduler() == old(self).scheduler(),
            final(self).provider_ref() == old(self).provider_ref(),
            final(self).aborts() == old(self).aborts(),
            match event {
                LLMStreamEvent::TextDelta { delta } => {
                    &&& final(turn).assistant_content@ == old(turn).assistant_content@ + delta@
                    &&& final(turn).tool_calls@ == old(turn).tool_calls@
                    &&& final(self).world() == old(self).world()
                    &&& final(self).sink().delivered() == old(self).sink().delivered().push(Event::LLMStream(event))
                },
                LLMStreamEvent::ToolCall { tool_call } => {
                    &&& final(turn).assistant_content@ == old(turn).assistant_content@
                    &&& final(turn).tool_calls@ == old(turn).tool_calls@.push(tool_call)
                    &&& final(self).world() == old(self).world()
                    &&& final(self).sink().delivered() == old(self).sink().delivered().push(Event::LLMStream(event))
                },
                LLMStreamEvent::StreamEnd { .. } => {
                    let before = old(self).world();
                    let after = final(self).world();
                    let n = old(self).sink().delivered().len() as int;
                    &&& final(turn).assistant_content@ == old(turn).assistant_content@
                    &&& final(turn).tool_calls@ == old(turn).tool_calls@
                    &&& after.messages_state().messages.deep_view() == if old(turn).assistant_content@.len() > 0
                        || old(turn).tool_calls@.len() > 0 {
                        before.messages_state().messages.deep_view().push(
                            MessageView::Assistant {
                                content: old(turn).assistant_content@,
                                tool_calls: old(turn).tool_calls@,
                            },
                        )
                    } else {
                        before.messages_state().messages.deep_view()
                    }
                    &&& after.loop_state().step == before.loop_state().step + 1
                    &&& after.loop_state().should_continue == before.loop_state().should_continue
                    &&& after.config_state() == before.config_state()
                    &&& after.tools_state() == before.tools_state()
                    &&& final(self).sink().delivered().len() == n + 2
                    &&& final(self).sink().delivered().take(n) == old(self).sink().delivered()
                    &&& final(self).sink().delivered()[n] matches Event::System(SystemEvent::HookTrigger { hook }) && hook@ == "afterStep"@
                    &&& final(self).sink().delivered()[n + 1] == Event::LLMStream(event)
                },
                _ => {
                    &&& final(turn).assistant_content@ == old(turn).assistant_content@
                    &&& final(turn).tool_calls@ == old(turn).tool_calls@
                    &&& final(self).world() == old(self).world()
                    &&& final(self).sink().delivered() == old(self).sink().delivered().push(Event::LLMStream(event))
                },
            },
    {
        let ghost n = self.sink().delivered().len();
        let ghost before = self.world();
        match &event {
            LLMStreamEvent::TextDelta { delta } => {
                turn.assistant_content.append(delta.as_str());
            },
            LLMStreamEvent::ThinkingDelta { .. } => {},
            LLMStreamEvent::ToolCall { tool_call } => {
                turn.tool_calls.push(tool_call.clone());
            },
            LLMStreamEvent::StreamEnd { .. } => {
                if !turn.assistant_content.as_str().is_empty() || turn.tool_calls.len() > 0 {
                    let message = Message::Assistant {
                        content: turn.assistant_content.clone(),
                        tool_calls: clone_tool_calls(&turn.tool_calls),
                    };
                    let ghost m = message@;
                    self.append_message(message);
                    assert(self.world().messages_state().messages.deep_view() =~= before.messages_state().messages.deep_view().push(m));
                }
                let loop_state = self.world.loop_mut();
                loop_state.step = loop_state.step + 1;
                self.emit(Event::System(SystemEvent::HookTrigger { hook: String::from_str("afterStep") }));
            },
            LLMStreamEvent::StreamError { .. } => {},
        }
        self.dispatch_stream_event(event);
        proof {
            if event is StreamEnd {
                assert(self.sink().delivered().take(n as int) =~= old(self).sink().delivered());
            }
        }
    }
}

} // verus!
