//! An event-driven agent engine: events flow through middleware into systems,
//! systems turn a read-only snapshot of the world into effects, and an
//! executor applies those effects to the world.
pub mod text;
pub mod json;
pub mod types;
pub mod event;
pub mod world;
pub mod components;
pub mod effect;
pub mod abort_manager;
pub mod event_bus;
pub mod middleware;
pub mod system;
pub mod system_registry;
pub mod tool_scheduler;
pub mod ids;
pub mod effect_executor;
pub mod sse;
pub mod anthropic;
pub mod tools;
pub mod systems;
