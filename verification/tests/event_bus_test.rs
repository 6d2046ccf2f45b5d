use alice::event::{Event, SystemEvent, ToolEvent};
use alice::event_bus::{EventBus, EventSink};
use std::cell::RefCell;
use std::collections::VecDeque;

#[test]
fn test_subscribe_and_emit() {
    let received: RefCell<Vec<Event>> = RefCell::new(Vec::new());
    let mut bus = EventBus::new();
    bus.subscribe("system.step_start", |event: &Event| {
        received.borrow_mut().push(event.clone());
    });
    let event = Event::System(SystemEvent::StepStart { step: 1 });
    bus.emit(&event);
    let events = received.borrow();
    assert_eq!(events.len(), 1);
}

#[test]
fn event_bus_skips_other_types_and_keeps_order() {
    let log: RefCell<Vec<String>> = RefCell::new(Vec::new());
    let mut bus: EventBus<Box<dyn Fn(&Event) + '_>> = EventBus::new();
    bus.subscribe("system.step_start", Box::new(|_e: &Event| log.borrow_mut().push("first".to_string())));
    bus.subscribe("tool.result", Box::new(|_e: &Event| log.borrow_mut().push("tool".to_string())));
    bus.subscribe("system.step_start", Box::new(|_e: &Event| log.borrow_mut().push("second".to_string())));
    bus.emit(&Event::System(SystemEvent::StepStart { step: 3 }));
    assert_eq!(*log.borrow(), vec!["first".to_string(), "second".to_string()]);
    assert_eq!(bus.subscribers_of("system.step_start"), vec![0, 2]);
    assert_eq!(bus.subscribers_of("tool.result"), vec![1]);
    assert!(bus.subscribers_of("tool.error").is_empty());
    bus.emit(&Event::Tool(ToolEvent::Error { tool_call_id: "t".into(), error: "e".into() }));
    assert_eq!(log.borrow().len(), 2);
}

#[test]
fn vec_and_deque_sinks_queue_events_in_order() {
    let mut v: Vec<Event> = Vec::new();
    let mut q: VecDeque<Event> = VecDeque::new();
    for step in 0..3u32 {
        EventSink::emit(&mut v, Event::System(SystemEvent::StepEnd { step }));
        EventSink::emit(&mut q, Event::System(SystemEvent::StepEnd { step }));
    }
    assert_eq!(v.len(), 3);
    assert_eq!(v[2], Event::System(SystemEvent::StepEnd { step: 2 }));
    assert_eq!(q.pop_front(), Some(Event::System(SystemEvent::StepEnd { step: 0 })));
}
