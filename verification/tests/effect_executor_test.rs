use alice::types::{FunctionCall, ToolCall};
use alice::abort_manager::AbortManager;
use alice::components::{AgentComponents, ConfigComponent, LoopComponent, MessagesComponent};
use alice::effect::{Effect, StreamType, UpdateFn};
use alice::effect_executor::{EffectExecutor, LlmTurn, Outcome};
use alice::event::{Event, LLMStreamEvent, SystemEvent, ToolEvent};
use alice::tool_scheduler::ToolScheduler;
use alice::tools::args::echo_handler;
use alice::types::{Message, ToolDef};
use alice::world::World;

type ToolFn = fn(serde_json::Value) -> String;
type AbortFn = Box<dyn Fn(String)>;

fn agent(step: u32, should_continue: bool) -> World<AgentComponents> {
    let mut components = AgentComponents::new(ConfigComponent::for_model("test-model".into()));
    components.loop_state = LoopComponent { step, should_continue };
    World::new(components)
}

fn echo_scheduler() -> ToolScheduler<ToolFn> {
    let mut tool_scheduler: ToolScheduler<ToolFn> = ToolScheduler::new();
    tool_scheduler.register(
        ToolDef {
            name: "echo".into(),
            description: "Echo back the input".into(),
            input_schema: serde_json::from_str(
                r#"{"type": "object", "properties": {"message": {"type": "string"}}, "required": ["message"]}"#,
            )
            .unwrap(),
        },
        echo_handler,
    );
    tool_scheduler
}

#[test]
fn test_execute_tool_appends_tool_message() {
    let mut world = agent(0, false);
    let mut events: Vec<Event> = Vec::new();
    let mut tool_scheduler = echo_scheduler();
    let mut abort_manager: AbortManager<AbortFn> = AbortManager::new();
    let mut executor = EffectExecutor::new(&mut world, &mut events, &mut tool_scheduler, &mut abort_manager, &());
    let outcome = executor.apply(Effect::ExecuteTool {
        tool_name: "echo".into(),
        args: serde_json::from_str(r#"{"message": "hello"}"#).unwrap(),
    });
    assert!(matches!(outcome, Outcome::Done));

    let msgs = &world.get::<MessagesComponent>().messages;
    assert_eq!(msgs.len(), 1);
    match &msgs[0] {
        Message::Tool { content, tool_call_id } => {
            assert_eq!(content, "hello");
            assert!(!tool_call_id.is_empty());
            assert!(tool_call_id.starts_with("tool_"));
        }
        _ => panic!("expected Message::Tool, got {:?}", msgs[0]),
    }
    assert!(matches!(&events[0], Event::Tool(ToolEvent::Result { result, .. }) if result == "hello"));
}

#[test]
fn execute_unknown_tool_reports_error() {
    let mut world = agent(0, false);
    let mut events: Vec<Event> = Vec::new();
    let mut tool_scheduler = echo_scheduler();
    let mut abort_manager: AbortManager<AbortFn> = AbortManager::new();
    let mut executor = EffectExecutor::new(&mut world, &mut events, &mut tool_scheduler, &mut abort_manager, &());
    executor.apply(Effect::ExecuteTool { tool_name: "nope".into(), args: serde_json::Value::Null });
    let msgs = &world.get::<MessagesComponent>().messages;
    assert!(matches!(&msgs[0], Message::Tool { content, .. } if content == "Error: unknown tool: nope"));
    assert!(matches!(&events[0], Event::Tool(ToolEvent::Error { error, .. }) if error == "unknown tool: nope"));
}

#[test]
fn test_call_llm_increments_loop_step() {
    let mut world = agent(0, true);
    let mut events: Vec<Event> = Vec::new();
    let mut tool_scheduler: ToolScheduler<ToolFn> = ToolScheduler::new();
    let mut abort_manager: AbortManager<AbortFn> = AbortManager::new();
    let mut executor = EffectExecutor::new(&mut world, &mut events, &mut tool_scheduler, &mut abort_manager, &());
    let outcome = executor.apply(Effect::CallLLM { messages: vec![] });
    assert!(matches!(outcome, Outcome::CallLLM { .. }));
    let mut turn = LlmTurn::new();
    for event in vec![
        LLMStreamEvent::TextDelta { delta: "hi".into() },
        LLMStreamEvent::StreamEnd { stop_reason: "end_turn".into() },
    ] {
        executor.on_stream_event(&mut turn, event);
    }
    assert_eq!(world.get::<LoopComponent>().step, 1);
    let msgs = &world.get::<MessagesComponent>().messages;
    assert!(matches!(&msgs[0], Message::Assistant { content, tool_calls } if content == "hi" && tool_calls.is_empty()));
    assert_eq!(events.len(), 3);
    assert!(matches!(&events[1], Event::System(SystemEvent::HookTrigger { hook }) if hook == "afterStep"));
}

#[test]
fn empty_stream_adds_no_message_but_advances_the_step() {
    let mut world = agent(4, true);
    let mut events: Vec<Event> = Vec::new();
    let mut tool_scheduler: ToolScheduler<ToolFn> = ToolScheduler::new();
    let mut abort_manager: AbortManager<AbortFn> = AbortManager::new();
    let mut executor = EffectExecutor::new(&mut world, &mut events, &mut tool_scheduler, &mut abort_manager, &());
    let mut turn = LlmTurn::new();
    executor.on_stream_event(&mut turn, LLMStreamEvent::ThinkingDelta { delta: "hmm".into() });
    executor.on_stream_event(&mut turn, LLMStreamEvent::StreamEnd { stop_reason: "end_turn".into() });
    assert_eq!(world.get::<LoopComponent>().step, 5);
    assert!(world.get::<MessagesComponent>().messages.is_empty());
}

#[test]
fn other_effects_update_render_emit_and_abort() {
    let mut world = agent(2, true);
    let mut events: Vec<Event> = Vec::new();
    let mut tool_scheduler: ToolScheduler<ToolFn> = ToolScheduler::new();
    let mut abort_manager: AbortManager<AbortFn> = AbortManager::new();
    {
        let mut executor = EffectExecutor::new(&mut world, &mut events, &mut tool_scheduler, &mut abort_manager, &());
        let update = executor.apply(Effect::UpdateComponent {
            entity: "agent".into(),
            update: UpdateFn::set_should_continue(false),
        });
        assert!(matches!(update, Outcome::Done));
        let render = executor.apply(Effect::Render { content: "text".into(), stream: StreamType::Text });
        assert!(matches!(render, Outcome::Render { content, stream: StreamType::Text } if content == "text"));
        executor.apply(Effect::Emit { event: Event::System(SystemEvent::StepEnd { step: 2 }) });
        executor.apply(Effect::Abort { reason: "user stop".into() });
    }
    assert!(!world.get::<LoopComponent>().should_continue);
    assert_eq!(world.get::<LoopComponent>().step, 2);
    assert_eq!(events, vec![Event::System(SystemEvent::StepEnd { step: 2 })]);
    assert!(abort_manager.is_aborted());
    assert_eq!(abort_manager.abort_reason(), Some("user stop"));
}

#[test]
fn updates_never_compare_equal() {
    let update = UpdateFn::set_should_continue(true);
    assert!(update != update);
    assert!(UpdateFn::set_should_continue(false) != UpdateFn::set_should_continue(false));
}

#[test]
fn scheduler_runs_each_named_call_in_order() {
    let mut tool_scheduler = echo_scheduler();
    let call = |id: &str, name: &str, arguments: &str| ToolCall {
        id: id.into(),
        call_type: "function".into(),
        function: FunctionCall { name: name.into(), arguments: arguments.into() },
    };
    let calls = vec![
        call("a", "echo", r#"{"message": "one"}"#),
        call("b", "missing", "{}"),
        call("c", "echo", "not json"),
    ];
    let results = tool_scheduler.schedule(&calls);
    assert_eq!(results.len(), 3);
    assert_eq!(results[0].tool_call_id, "a");
    assert_eq!(results[0].result.as_deref(), Some("one"));
    assert_eq!(results[1].error.as_deref(), Some("unknown tool: missing"));
    assert!(results[1].result.is_none());
    assert_eq!(results[2].result.as_deref(), Some(""));
}

#[test]
fn definitions_follow_registration_order() {
    let mut tool_scheduler: ToolScheduler<ToolFn> = ToolScheduler::new();
    assert!(tool_scheduler.definitions().is_empty());
    for name in ["b", "a", "b"] {
        tool_scheduler.register(
            ToolDef { name: name.into(), description: String::new(), input_schema: serde_json::Value::Null },
            echo_handler,
        );
    }
    let names: Vec<&str> = tool_scheduler.definitions().iter().map(|d| d.name.as_str()).collect();
    assert_eq!(names, vec!["b", "a", "b"]);
}
