use alice::effect::Effect;
use alice::event::{Event, SystemEvent};
use alice::system_registry::SystemRegistry;
use alice::world::{HasComponent, Snapshot};

struct InnerComponent {
    _value: i32,
}

struct TestComponents {
    inner: InnerComponent,
}

impl HasComponent<InnerComponent> for TestComponents {
    fn component(&self) -> InnerComponent {
        InnerComponent { _value: self.inner._value }
    }
    fn with_component(&self, value: InnerComponent) -> Self {
        TestComponents { inner: value }
    }
    fn get(&self) -> &InnerComponent {
        &self.inner
    }
    fn get_mut(&mut self) -> &mut InnerComponent {
        &mut self.inner
    }
}

fn dummy_system(_snapshot: &Snapshot<'_, TestComponents>, _event: &Event) -> Vec<Effect> {
    vec![]
}

#[test]
fn test_register_and_lookup() {
    let mut registry = SystemRegistry::new();
    registry.register(dummy_system, &["system.step_start"]);
    let event = Event::System(SystemEvent::StepStart { step: 1 });
    let systems = registry.get_systems_for_event(&event);
    assert_eq!(systems.len(), 1);
}

#[test]
fn registry_returns_matching_systems_in_registration_order() {
    let mut registry: SystemRegistry<u32> = SystemRegistry::new();
    registry.register(1, &["system.step_start", "tool.result"]);
    registry.register(2, &["tool.result"]);
    registry.register(3, &["system.step_start"]);
    let start = Event::System(SystemEvent::StepStart { step: 0 });
    let found: Vec<u32> = registry.get_systems_for_event(&start).into_iter().copied().collect();
    assert_eq!(found, vec![1, 3]);
    let hook = Event::System(SystemEvent::HookTrigger { hook: "afterStep".into() });
    assert!(registry.get_systems_for_event(&hook).is_empty());
}
