use alice::abort_manager::AbortManager;
use alice::components::{AgentComponents, ConfigComponent, LoopComponent, MessagesComponent};
use alice::effect::Effect;
use alice::effect_executor::{EffectExecutor, LlmTurn, Outcome};
use alice::event::{Event, InputEvent, LLMStreamEvent, SystemEvent};
use alice::middleware::{Middleware, MiddlewareModel, MiddlewarePipeline, Next};
use alice::system::System;
use alice::system_registry::SystemRegistry;
use alice::systems::{hook, input, output, provider, tool};
use alice::tool_scheduler::ToolScheduler;
use alice::types::Message;
use alice::world::{Snapshot, World};
use std::collections::VecDeque;

type SystemFn = fn(&Snapshot<'_, AgentComponents>, &Event) -> Vec<Effect>;
type ToolFn = fn(serde_json::Value) -> String;
type AbortFn = Box<dyn Fn(String)>;

/// A middleware that passes on what its function makes of each event and
/// returns what the rest of the pipeline gives back.
struct Layer(Box<dyn Fn(&Event) -> Event>);

impl MiddlewareModel for Layer {
    fn passes_on(&self, event: Event) -> Option<Event> {
        Some((self.0)(&event))
    }

    fn responds(&self, event: Event, inner: Option<Event>) -> Event {
        inner.unwrap_or(event)
    }
}

impl Middleware for Layer {
    fn process(&self, event: Event, next: Next<'_, Self>) -> Event {
        next.run((self.0)(&event))
    }
}

/// The stream a mock provider answers every call with.
fn echo_stream() -> Vec<LLMStreamEvent> {
    vec![
        LLMStreamEvent::TextDelta { delta: "Hello".into() },
        LLMStreamEvent::TextDelta { delta: " back".into() },
        LLMStreamEvent::StreamEnd { stop_reason: "end_turn".into() },
    ]
}

fn registry(extra: Option<SystemFn>) -> SystemRegistry<SystemFn> {
    let mut registry: SystemRegistry<SystemFn> = SystemRegistry::new();
    registry.register(input::input_system::<AgentComponents>, &["input.user"]);
    registry.register(provider::provider_system::<AgentComponents>, &["system.step_start", "tool.result", "tool.error"]);
    if let Some(probe) = extra {
        registry.register(probe, &["system.step_start"]);
    }
    registry.register(tool::tool_system::<AgentComponents>, &["llm.tool_call"]);
    registry.register(
        output::output_system::<AgentComponents>,
        &["llm.thinking_delta", "llm.text_delta", "llm.tool_call", "llm.stream_end", "llm.stream_error"],
    );
    registry.register(hook::hook_system::<AgentComponents>, &["system.hook_trigger"]);
    registry
}

fn run_loop(registry: &SystemRegistry<SystemFn>, pipeline: &MiddlewarePipeline<Layer>) -> World<AgentComponents> {
    let mut components = AgentComponents::new(ConfigComponent::for_model("test-model".into()));
    components.loop_state = LoopComponent { step: 0, should_continue: true };
    let mut world = World::new(components);
    let mut queue: VecDeque<Event> = VecDeque::new();
    let mut tool_scheduler: ToolScheduler<ToolFn> = ToolScheduler::new();
    let mut abort_manager: AbortManager<AbortFn> = AbortManager::new();

    queue.push_back(Event::Input(InputEvent { source: "test".into(), content: "Hi".into() }));

    while let Some(raw_event) = queue.pop_front() {
        let event = pipeline.run(raw_event);
        let effects = {
            let snapshot = world.snapshot();
            let mut effects = Vec::new();
            for system in registry.get_systems_for_event(&event) {
                effects.extend(system.process(&snapshot, &event));
            }
            effects
        };
        {
            let mut executor = EffectExecutor::new(&mut world, &mut queue, &mut tool_scheduler, &mut abort_manager, &());
            for effect in effects {
                if let Outcome::CallLLM { .. } = executor.apply(effect) {
                    let mut turn = LlmTurn::new();
                    for streamed in echo_stream() {
                        executor.on_stream_event(&mut turn, streamed);
                    }
                }
            }
        }
        if !world.get::<LoopComponent>().should_continue {
            break;
        }
    }
    world
}

#[test]
fn test_full_loop_with_mock_provider() {
    let world = run_loop(&registry(None), &MiddlewarePipeline::new());
    let messages = &world.get::<MessagesComponent>().messages;
    assert_eq!(messages.len(), 2, "expected user + assistant messages");
    assert!(matches!(messages[0], Message::User { .. }));
    assert!(matches!(messages[1], Message::Assistant { .. }));
    assert_eq!(world.get::<LoopComponent>().step, 1);
}

fn probe(_snapshot: &Snapshot<'_, AgentComponents>, event: &Event) -> Vec<Effect> {
    if let Event::System(SystemEvent::StepStart { step }) = event {
        assert_eq!(*step, 42, "middleware should transform step to 42");
    }
    vec![]
}

#[test]
fn test_middleware_transforms_step_start() {
    let mut pipeline = MiddlewarePipeline::new();
    pipeline.add(Layer(Box::new(|event| {
        let mut event = event.clone();
        if let Event::System(SystemEvent::StepStart { ref mut step }) = event {
            *step = 42;
        }
        event
    })));
    let world = run_loop(&registry(Some(probe)), &pipeline);
    let messages = &world.get::<MessagesComponent>().messages;
    assert_eq!(messages.len(), 2, "loop should still complete after transformation");
}
