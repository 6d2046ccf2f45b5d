//! Conversation messages, tool calls and tool definitions.
use vstd::prelude::*;

verus! {

/// The function a tool call names, with its arguments as JSON text.
#[derive(Debug, PartialEq)]
pub struct FunctionCall {
    pub name: String,
    pub arguments: String,
}

/// A tool call requested by the model.
#[derive(Debug, PartialEq)]
pub struct ToolCall {
    pub id: String,
    pub call_type: String,
    pub function: FunctionCall,
}

/// One message of the conversation history.
#[derive(Debug, PartialEq)]
pub enum Message {
    User { content: String },
    Assistant { content: String, tool_calls: Vec<ToolCall> },
    Tool { content: String, tool_call_id: String },
}

/// A tool as the model sees it: a name, a description and a JSON schema of
/// its input.
#[derive(Debug, Clone)]
pub struct ToolDef {
    pub name: String,
    pub description: String,
    pub input_schema: serde_json::Value,
}

/// A tool call as a mathematical value.
pub struct ToolCallView {
    pub id: Seq<char>,
    pub call_type: Seq<char>,
    pub name: Seq<char>,
    pub arguments: Seq<char>,
}

impl View for ToolCall {
    type V = ToolCallView;

    open spec fn view(&self) -> ToolCallView {
        ToolCallView {
            id: self.id@,
            call_type: self.call_type@,
            name: self.function.name@,
            arguments: self.function.arguments@,
        }
    }
}

impl Clone for FunctionCall {
    fn clone(&self) -> (r: Self)
        ensures
            r == *self,
    {
        FunctionCall { name: self.name.clone(), arguments: self.arguments.clone() }
    }
}

impl Clone for ToolCall {
    fn clone(&self) -> (r: Self)
        ensures
            r == *self,
    {
        ToolCall { id: self.id.clone(), call_type: self.call_type.clone(), function: self.function.clone() }
    }
}

/// A copy of a list of tool calls, equal to it.
pub fn clone_tool_calls(calls: &Vec<ToolCall>) -> (r: Vec<ToolCall>)
    ensures
        r@ == calls@,
{
    let r = calls.clone();
    assert(r@ =~= calls@);
    r
}

/// A message as a mathematical value: its text and its tool calls as a
/// sequence.
pub enum MessageView {
    User { content: Seq<char> },
    Assistant { content: Seq<char>, tool_calls: Seq<ToolCall> },
    Tool { content: Seq<char>, tool_call_id: Seq<char> },
}

impl View for Message {
    type V = MessageView;

    open spec fn view(&self) -> MessageView {
        match self {
            Message::User { content } => MessageView::User { content: content@ },
            Message::Assistant { content, tool_calls } => MessageView::Assistant {
                content: content@,
                tool_calls: tool_calls@,
            },
            Message::Tool { content, tool_call_id } => MessageView::Tool {
                content: content@,
                tool_call_id: tool_call_id@,
            },
        }
    }
}

impl DeepView for Message {
    type V = MessageView;

    open spec fn deep_view(&self) -> MessageView {
        self@
    }
}

impl Clone for Message {
    fn clone(&self) -> (r: Self)
        ensures
            r@ == self@,
    {
        match self {
            Message::User { content } => Message::User { content: content.clone() },
            Message::Assistant { content, tool_calls } => Message::Assistant {
                content: content.clone(),
                tool_calls: clone_tool_calls(tool_calls),
            },
            Message::Tool { content, tool_call_id } => Message::Tool {
                content: content.clone(),
                tool_call_id: tool_call_id.clone(),
            },
        }
    }
}

/// A copy of a message history, equal to it.
pub fn clone_messages(messages: &Vec<Message>) -> (r: Vec<Message>)
    ensures
        r.deep_view() == messages.deep_view(),
{
    let mut r: Vec<Message> = Vec::new();
    let mut i: usize = 0;
    while i < messages.len()
        invariant
            i <= messages.len(),
            r.deep_view() == messages.deep_view().take(i as int),
        decreases messages.len() - i,
    {
        r.push(messages[i].clone());
        assert(messages.deep_view().take(i + 1) =~= messages.deep_view().take(i as int).push(messages[i as int].deep_view()));
        i += 1;
    }
    assert(messages.deep_view().take(messages.len() as int) =~= messages.deep_view());
    r
}

} // verus!
