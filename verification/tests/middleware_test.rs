use alice::event::{Event, SystemEvent};
use alice::middleware::{Middleware, MiddlewareModel, MiddlewarePipeline, Next};

/// A middleware given by its model: the event it passes on, if any, and
/// what it returns given what the rest of the pipeline made of that event.
struct Layer {
    forward: Box<dyn Fn(&Event) -> Option<Event>>,
    respond: Box<dyn Fn(&Event, Option<Event>) -> Event>,
}

impl Layer {
    /// A middleware that passes on what `forward` makes of each event and
    /// returns what the rest of the pipeline gives back.
    fn forwarding(forward: impl Fn(&Event) -> Event + 'static) -> Layer {
        Layer {
            forward: Box::new(move |event| Some(forward(event))),
            respond: Box::new(|event, inner| inner.unwrap_or_else(|| event.clone())),
        }
    }
}

impl MiddlewareModel for Layer {
    fn passes_on(&self, event: Event) -> Option<Event> {
        (self.forward)(&event)
    }

    fn responds(&self, event: Event, inner: Option<Event>) -> Event {
        (self.respond)(&event, inner)
    }
}

impl Middleware for Layer {
    fn process(&self, event: Event, next: Next<'_, Self>) -> Event {
        match (self.forward)(&event) {
            Some(passed) => {
                let inner = next.run(passed);
                (self.respond)(&event, Some(inner))
            }
            None => (self.respond)(&event, None),
        }
    }
}

#[test]
fn test_empty_pipeline_passes_event_through() {
    let pipeline: MiddlewarePipeline<Layer> = MiddlewarePipeline::new();
    let event = Event::System(SystemEvent::StepStart { step: 1 });
    assert_eq!(pipeline.run(event.clone()), event);
}

#[test]
fn test_middleware_can_transform_event() {
    let mut pipeline = MiddlewarePipeline::new();
    pipeline.add(Layer::forwarding(|event| {
        if let Event::System(SystemEvent::StepStart { step }) = event {
            Event::System(SystemEvent::StepStart { step: step + 1 })
        } else {
            event.clone()
        }
    }));

    let event = Event::System(SystemEvent::StepStart { step: 1 });
    let result = pipeline.run(event);
    assert_eq!(result, Event::System(SystemEvent::StepStart { step: 2 }));
}

#[test]
fn test_middleware_can_short_circuit() {
    let mut pipeline = MiddlewarePipeline::new();
    pipeline.add(Layer {
        forward: Box::new(|_event| None),
        respond: Box::new(|event, _inner| {
            if let Event::System(SystemEvent::StepStart { .. }) = event {
                Event::System(SystemEvent::StepEnd { step: 99 })
            } else {
                event.clone()
            }
        }),
    });

    let event = Event::System(SystemEvent::StepStart { step: 1 });
    let result = pipeline.run(event);
    assert_eq!(result, Event::System(SystemEvent::StepEnd { step: 99 }));
}

#[test]
fn middleware_layers_run_outermost_first() {
    let mut pipeline = MiddlewarePipeline::new();
    pipeline.add(Layer::forwarding(|event| {
        if let Event::System(SystemEvent::StepStart { step }) = event {
            Event::System(SystemEvent::StepStart { step: step * 10 })
        } else {
            event.clone()
        }
    }));
    pipeline.add(Layer::forwarding(|event| {
        if let Event::System(SystemEvent::StepStart { step }) = event {
            Event::System(SystemEvent::StepStart { step: step + 1 })
        } else {
            event.clone()
        }
    }));
    let result = pipeline.run(Event::System(SystemEvent::StepStart { step: 2 }));
    assert_eq!(result, Event::System(SystemEvent::StepStart { step: 21 }));
}

#[test]
fn middleware_pipeline_default_is_empty() {
    let pipeline: MiddlewarePipeline<Layer> = MiddlewarePipeline::default();
    let event = Event::System(SystemEvent::StepEnd { step: 3 });
    assert_eq!(pipeline.run(event.clone()), event);
}

/// A middleware that adds to the step of a step start, as a plain value.
#[derive(Clone)]
struct AddStep(u32);

impl MiddlewareModel for AddStep {
    fn passes_on(&self, event: Event) -> Option<Event> {
        Some(match event {
            Event::System(SystemEvent::StepStart { step }) => Event::System(SystemEvent::StepStart { step: step + self.0 }),
            other => other,
        })
    }

    fn responds(&self, event: Event, inner: Option<Event>) -> Event {
        inner.unwrap_or(event)
    }
}

impl Middleware for AddStep {
    fn process(&self, event: Event, next: Next<'_, Self>) -> Event {
        match event {
            Event::System(SystemEvent::StepStart { step }) => {
                next.run(Event::System(SystemEvent::StepStart { step: step + self.0 }))
            }
            other => next.run(other),
        }
    }
}

#[test]
fn pipeline_clone_keeps_its_middlewares() {
    let mut pipeline = MiddlewarePipeline::new();
    pipeline.add(AddStep(1));
    let copy = pipeline.clone();
    pipeline.add(AddStep(10));
    let start = Event::System(SystemEvent::StepStart { step: 0 });
    assert_eq!(pipeline.run(start.clone()), Event::System(SystemEvent::StepStart { step: 11 }));
    assert_eq!(copy.run(start), Event::System(SystemEvent::StepStart { step: 1 }));
}
