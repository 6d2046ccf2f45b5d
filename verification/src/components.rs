//! Data components stored in the world.
//!
//! All components are plain data. Systems read them through a snapshot and
//! request mutations by returning effects.
use vstd::prelude::*;
use crate::types::{Message, ToolDef};
use crate::world::{HasComponent, World};

verus! {

/// Conversation history.
#[derive(Debug)]
pub struct MessagesComponent {
    pub messages: Vec<Message>,
}

impl Default for MessagesComponent {
    fn default() -> (r: Self)
        ensures
            r.messages@.len() == 0,
    {
        MessagesComponent { messages: Vec::new() }
    }
}

/// Engine configuration for a single run.
#[derive(Debug)]
pub struct ConfigComponent {
    pub model: String,
    pub max_steps: u32,
    pub provider: String,
}

impl ConfigComponent {
    /// A configuration for `model` with the engine's defaults: at most ten
    /// steps, through the Anthropic provider.
    pub fn for_model(model: String) -> (r: Self)
        ensures
            r.model == model,
            r.max_steps == 10,
            r.provider@ == "anthropic"@,
    {
        ConfigComponent { model, max_steps: 10, provider: String::from_str("anthropic") }
    }
}

/// Mutable loop state.
#[derive(Debug, Clone, Copy, PartialEq, Eq)]
pub struct LoopComponent {
    pub step: u32,
    pub should_continue: bool,
}

impl Default for LoopComponent {
    fn default() -> (r: Self)
        ensures
            r.step == 0,
            !r.should_continue,
    {
        LoopComponent { step: 0, should_continue: false }
    }
}

/// Registered tool definitions.
#[derive(Debug)]
pub struct ToolsComponent {
    pub definitions: Vec<ToolDef>,
}

impl Default for ToolsComponent {
    fn default() -> (r: Self)
        ensures
            r.definitions@.len() == 0,
    {
        ToolsComponent { definitions: Vec::new() }
    }
}

/// Provider configuration for the active entity.
#[derive(Debug)]
pub struct ProviderComponent {
    pub api_key: Option<String>,
}

impl Default for ProviderComponent {
    fn default() -> (r: Self)
        ensures
            r.api_key is None,
    {
        ProviderComponent { api_key: None }
    }
}

/// Mutable access to the engine components of a bundle, used by the effect
/// executor and by component updates. Implement it for any bundle that holds
/// every engine component.
///
/// Each accessor hands out the one component it names; the others stay as
/// they were.
pub trait ComponentAccessor {
    spec fn messages_state(&self) -> MessagesComponent;

    spec fn config_state(&self) -> ConfigComponent;

    spec fn loop_state(&self) -> LoopComponent;

    spec fn tools_state(&self) -> ToolsComponent;

    fn messages_mut(&mut self) -> (r: &mut MessagesComponent)
        ensures
            *r == old(self).messages_state(),
            final(self).messages_state() == *final(r),
            final(self).config_state() == old(self).config_state(),
            final(self).loop_state() == old(self).loop_state(),
            final(self).tools_state() == old(self).tools_state(),
    ;

    fn config_mut(&mut self) -> (r: &mut ConfigComponent)
        ensures
            *r == old(self).config_state(),
            final(self).config_state() == *final(r),
            final(self).messages_state() == old(self).messages_state(),
            final(self).loop_state() == old(self).loop_state(),
            final(self).tools_state() == old(self).tools_state(),
    ;

    fn loop_mut(&mut self) -> (r: &mut LoopComponent)
        ensures
            *r == old(self).loop_state(),
            final(self).loop_state() == *final(r),
            final(self).messages_state() == old(self).messages_state(),
            final(self).config_state() == old(self).config_state(),
            final(self).tools_state() == old(self).tools_state(),
    ;

    fn tools_mut(&mut self) -> (r: &mut ToolsComponent)
        ensures
            *r == old(self).tools_state(),
            final(self).tools_state() == *final(r),
            final(self).messages_state() == old(self).messages_state(),
            final(self).config_state() == old(self).config_state(),
            final(self).loop_state() == old(self).loop_state(),
    ;
}

/// A world gives access to the components of its bundle.
impl<T: ComponentAccessor> ComponentAccessor for World<T> {
    open spec fn messages_state(&self) -> MessagesComponent {
        self.state().messages_state()
    }

    open spec fn config_state(&self) -> ConfigComponent {
        self.state().config_state()
    }

    open spec fn loop_state(&self) -> LoopComponent {
        self.state().loop_state()
    }

    open spec fn tools_state(&self) -> ToolsComponent {
        self.state().tools_state()
    }

    fn messages_mut(&mut self) -> (r: &mut MessagesComponent) {
        self.components_mut().messages_mut()
    }

    fn config_mut(&mut self) -> (r: &mut ConfigComponent) {
        self.components_mut().config_mut()
    }

    fn loop_mut(&mut self) -> (r: &mut LoopComponent) {
        self.components_mut().loop_mut()
    }

    fn tools_mut(&mut self) -> (r: &mut ToolsComponent) {
        self.components_mut().tools_mut()
    }
}

/// The standard component bundle of an agent: every engine component once.
#[derive(Debug)]
pub struct AgentComponents {
    pub messages: MessagesComponent,
    pub config: ConfigComponent,
    pub loop_state: LoopComponent,
    pub tools: ToolsComponent,
    pub provider: ProviderComponent,
}

impl AgentComponents {
    /// A fresh agent with the given configuration: no messages, no tools, no
    /// API key, and a loop at step 0 that has not been started.
    pub fn new(config: ConfigComponent) -> (r: Self)
        ensures
            r.messages.messages@.len() == 0,
            r.config == config,
            r.loop_state.step == 0,
            !r.loop_state.should_continue,
            r.tools.definitions@.len() == 0,
            r.provider.api_key is None,
    {
        AgentComponents {
            messages: MessagesComponent::default(),
            config,
            loop_state: LoopComponent::default(),
            tools: ToolsComponent::default(),
            provider: ProviderComponent::default(),
        }
    }
}

impl ComponentAccessor for AgentComponents {
    open spec fn messages_state(&self) -> MessagesComponent {
        self.messages
    }

    open spec fn config_state(&self) -> ConfigComponent {
        self.config
    }

    open spec fn loop_state(&self) -> LoopComponent {
        self.loop_state
    }

    open spec fn tools_state(&self) -> ToolsComponent {
        self.tools
    }

    fn messages_mut(&mut self) -> (r: &mut MessagesComponent) {
        &mut self.messages
    }

    fn config_mut(&mut self) -> (r: &mut ConfigComponent) {
        &mut self.config
    }

    fn loop_mut(&mut self) -> (r: &mut LoopComponent) {
        &mut self.loop_state
    }

    fn tools_mut(&mut self) -> (r: &mut ToolsComponent) {
        &mut self.tools
    }
}

impl HasComponent<MessagesComponent> for AgentComponents {
    open spec fn component(&self) -> MessagesComponent {
        self.messages
    }

    open spec fn with_component(&self, value: MessagesComponent) -> Self {
        AgentComponents { messages: value, ..*self }
    }

    fn get(&self) -> (r: &MessagesComponent) {
        &self.messages
    }

    fn get_mut(&mut self) -> (r: &mut MessagesComponent) {
        &mut self.messages
    }
}

impl HasComponent<ConfigComponent> for AgentComponents {
    open spec fn component(&self) -> ConfigComponent {
        self.config
    }

    open spec fn with_component(&self, value: ConfigComponent) -> Self {
        AgentComponents { config: value, ..*self }
    }

    fn get(&self) -> (r: &ConfigComponent) {
        &self.config
    }

    fn get_mut(&mut self) -> (r: &mut ConfigComponent) {
        &mut self.config
    }
}

impl HasComponent<LoopComponent> for AgentComponents {
    open spec fn component(&self) -> LoopComponent {
        self.loop_state
    }

    open spec fn with_component(&self, value: LoopComponent) -> Self {
        AgentComponents { loop_state: value, ..*self }
    }

    fn get(&self) -> (r: &LoopComponent) {
        &self.loop_state
    }

    fn get_mut(&mut self) -> (r: &mut LoopComponent) {
        &mut self.loop_state
    }
}

impl HasComponent<ToolsComponent> for AgentComponents {
    open spec fn component(&self) -> ToolsComponent {
        self.tools
    }

    open spec fn with_component(&self, value: ToolsComponent) -> Self {
        AgentComponents { tools: value, ..*self }
    }

    fn get(&self) -> (r: &ToolsComponent) {
        &self.tools
    }

    fn get_mut(&mut self) -> (r: &mut ToolsComponent) {
        &mut self.tools
    }
}

impl HasComponent<ProviderComponent> for AgentComponents {
    open spec fn component(&self) -> ProviderComponent {
        self.provider
    }

    open spec fn with_component(&self, value: ProviderComponent) -> Self {
        AgentComponents { provider: value, ..*self }
    }

    fn get(&self) -> (r: &ProviderComponent) {
        &self.provider
    }

    fn get_mut(&mut self) -> (r: &mut ProviderComponent) {
        &mut self.provider
    }
}

} // verus!
