use alice::abort_manager::AbortManager;
use alice::components::{AgentComponents, ConfigComponent, MessagesComponent};
use alice::effect::Effect;
use alice::effect_executor::EffectExecutor;
use alice::event::{Event, InputEvent};
use alice::event_bus::EventBus;
use alice::system::System;
use alice::system_registry::SystemRegistry;
use alice::systems::input::input_system;
use alice::tool_scheduler::ToolScheduler;
use alice::types::Message;
use alice::world::World;

type Handler = Box<dyn Fn(&Event)>;
type ToolFn = fn(serde_json::Value) -> String;
type AbortFn = Box<dyn Fn(String)>;

fn run_input_flow() -> World<AgentComponents> {
    let components = AgentComponents::new(ConfigComponent::for_model("test-model".into()));
    let mut world = World::new(components);
    let mut event_bus: EventBus<Handler> = EventBus::new();
    let mut tool_scheduler: ToolScheduler<ToolFn> = ToolScheduler::new();
    let mut abort_manager: AbortManager<AbortFn> = AbortManager::new();

    let mut system_registry = SystemRegistry::new();
    system_registry.register(input_system::<AgentComponents>, &["input.user"]);

    let event = Event::Input(InputEvent { source: "cli".into(), content: "Hello Alice".into() });
    let effects: Vec<Effect> = {
        let snapshot = world.snapshot();
        let systems = system_registry.get_systems_for_event(&event);
        let mut effects = Vec::new();
        for sys in systems {
            effects.extend(sys.process(&snapshot, &event));
        }
        effects
    };

    let mut executor =
        EffectExecutor::new(&mut world, &mut event_bus, &mut tool_scheduler, &mut abort_manager, &());
    for effect in effects {
        executor.apply(effect);
    }
    world
}

#[test]
fn integration_test_input_to_append_message_flow() {
    let world = run_input_flow();
    let msgs = &world.get::<MessagesComponent>().messages;
    assert_eq!(msgs.len(), 1);
    assert!(matches!(msgs[0], Message::User { .. }));
}

#[test]
fn integration_test_test_input_to_append_message_flow() {
    let world = run_input_flow();
    let msgs = &world.get::<MessagesComponent>().messages;
    assert_eq!(msgs.len(), 1);
    assert!(matches!(msgs[0], Message::User { .. }));
}
