//! The Anthropic messages provider: its settings, and the request body it
//! sends for a conversation and the tools on offer.
use vstd::prelude::*;
use crate::json::{
    entries_view, entry_lookup, json_member, keys_distinct, json_array_of, json_bool_of, json_from_array, json_from_bool, json_from_object,
    json_from_string, json_from_u64, json_object_of, json_parse, json_string_of, json_u64_of,
    parse_json,
};
use crate::event::LLMStreamEvent;
use crate::types::{Message, MessageView, ToolCall, ToolCallView, ToolDef};

verus! {

/// `reqwest::Client`, carried by the provider for the requests that the
/// application sends.
#[verifier::external_type_specification]
#[verifier::external_body]
pub struct ExHttpClient(reqwest::Client);

/// Calls `reqwest::Client::new`. Nothing is claimed of the client, which the
/// library only carries. reqwest documents that the call panics when no TLS
/// backend can be initialised or the resolver cannot load the system
/// configuration: that depends on the machine, not on anything passed here,
/// and is left unsaid.
#[verifier::external_body]
fn new_http_client() -> (r: reqwest::Client) {
    reqwest::Client::new()
}

/// The most tokens a reply may have.
pub const MAX_TOKENS: u64 = 4096;

/// A provider that talks to the Anthropic messages endpoint under `base_url`.
pub struct AnthropicProvider {
    api_key: String,
    model: String,
    base_url: String,
    client: reqwest::Client,
}

/// A JSON object member whose value is a string.
pub open spec fn string_entry(key: Seq<char>, text: Seq<char>) -> (Seq<char>, serde_json::Value) {
    (key, json_string_of(text))
}

/// What a tool call's arguments are sent as: the JSON they read as, or an
/// empty object when they are not valid JSON.
pub open spec fn tool_input_json(arguments: Seq<char>) -> serde_json::Value {
    match json_parse(arguments) {
        Some(v) => v,
        None => json_object_of(Seq::empty()),
    }
}

/// A `tool_use` content block for a tool call.
pub open spec fn tool_use_block(call: ToolCallView) -> serde_json::Value {
    json_object_of(seq![
        string_entry("type"@, "tool_use"@),
        string_entry("id"@, call.id),
        string_entry("name"@, call.name),
        ("input"@, tool_input_json(call.arguments)),
    ])
}

/// A `text` content block.
pub open spec fn text_block(text: Seq<char>) -> serde_json::Value {
    json_object_of(seq![string_entry("type"@, "text"@), string_entry("text"@, text)])
}

/// The content blocks of an assistant turn that calls tools: its text, when
/// there is any, then one `tool_use` block per call, in order.
pub open spec fn assistant_blocks(content: Seq<char>, calls: Seq<ToolCall>) -> Seq<serde_json::Value> {
    let text: Seq<serde_json::Value> = if content.len() == 0 { Seq::empty() } else { seq![text_block(content)] };
    text + calls.map_values(|c: ToolCall| tool_use_block(c@))
}

/// One message in the Anthropic format. A user turn and an assistant turn
/// without tool calls carry their text; an assistant turn with tool calls
/// carries content blocks; a tool result is a user turn with one
/// `tool_result` block.
pub open spec fn message_json(message: MessageView) -> serde_json::Value {
    match message {
        MessageView::User { content } => json_object_of(
            seq![string_entry("role"@, "user"@), string_entry("content"@, content)],
        ),
        MessageView::Assistant { content, tool_calls } => if tool_calls.len() == 0 {
            json_object_of(seq![string_entry("role"@, "assistant"@), string_entry("content"@, content)])
        } else {
            json_object_of(seq![
                string_entry("role"@, "assistant"@),
                ("content"@, json_array_of(assistant_blocks(content, tool_calls))),
            ])
        },
        MessageView::Tool { content, tool_call_id } => json_object_of(
            seq![
                string_entry("role"@, "user"@),
                ("content"@, json_array_of(seq![json_object_of(seq![
                    string_entry("type"@, "tool_result"@),
                    string_entry("tool_use_id"@, tool_call_id),
                    string_entry("content"@, content),
                ])])),
            ],
        ),
    }
}

/// A tool definition as the endpoint expects it.
pub open spec fn tool_def_json(def: ToolDef) -> serde_json::Value {
    json_object_of(seq![
        string_entry("name"@, def.name@),
        string_entry("description"@, def.description@),
        ("input_schema"@, def.input_schema),
    ])
}

/// The request body: the model, the messages in order, the token limit,
/// streaming on, and the tools when there are any.
pub open spec fn request_body(model: Seq<char>, messages: Seq<MessageView>, tools: Seq<ToolDef>) -> serde_json::Value {
    let base = seq![
        string_entry("model"@, model),
        ("messages"@, json_array_of(messages.map_values(|m: MessageView| message_json(m)))),
        ("max_tokens"@, json_u64_of(MAX_TOKENS)),
        ("stream"@, json_bool_of(true)),
    ];
    if tools.len() == 0 {
        json_object_of(base)
    } else {
        json_object_of(base.push(("tools"@, json_array_of(tools.map_values(|t: ToolDef| tool_def_json(t))))))
    }
}

/// The member `key` holding the string `text`.
fn string_member(key: &str, text: String) -> (r: (String, serde_json::Value))
    ensures
        (r.0@, r.1) == string_entry(key@, text@),
{
    (String::from_str(key), json_from_string(text))
}

/// A tool call as a `tool_use` block.
fn tool_use_json(call: &ToolCall) -> (r: serde_json::Value)
    ensures
        r == tool_use_block(call@),
        json_member(r, "type"@) == Some(json_string_of("tool_use"@)),
        json_member(r, "id"@) == Some(json_string_of(call@.id)),
        json_member(r, "name"@) == Some(json_string_of(call@.name)),
{
    let input = match parse_json(&call.function.arguments) {
        Some(v) => v,
        None => {
            let empty: Vec<(String, serde_json::Value)> = Vec::new();
            assert(entries_view(empty@) =~= Seq::empty());
            json_from_object(empty)
        },
    };
    let mut entries: Vec<(String, serde_json::Value)> = Vec::new();
    entries.push(string_member("type", String::from_str("tool_use")));
    entries.push(string_member("id", call.id.clone()));
    entries.push(string_member("name", call.function.name.clone()));
    entries.push((String::from_str("input"), input));
    assert(entries_view(entries@) =~= seq![
        string_entry("type"@, "tool_use"@),
        string_entry("id"@, call@.id),
        string_entry("name"@, call@.name),
        ("input"@, tool_input_json(call@.arguments)),
    ]);
    proof {
        reveal_strlit("type");
        reveal_strlit("id");
        reveal_strlit("name");
        reveal_strlit("input");
        reveal_with_fuel(entry_lookup, 5);
        let ev = entries_view(entries@);
        assert(keys_distinct(ev)) by {
            assert forall|i: int, j: int| 0 <= i < j < ev.len() implies ev[i].0 != ev[j].0 by {
                if ev[i].0 == ev[j].0 {
                    assert(ev[i].0.len() == ev[j].0.len());
                    assert(ev[i].0[0] == ev[j].0[0]);
                }
            }
        }
        assert("type"@ != "input"@ && "type"@ != "name"@ && "id"@ != "input"@ && "id"@ != "name"@);
        assert("name"@ != "input"@) by {
            assert("name"@[0] != "input"@[0]);
        }
        assert("type"@ != "name"@) by {
            assert("type"@[0] != "name"@[0]);
        }
    }
    json_from_object(entries)
}

/// How many text blocks an assistant turn with this text starts with: one
/// when there is text, none otherwise.
pub open spec fn text_block_count(content: Seq<char>) -> int {
    if content.len() == 0 {
        0
    } else {
        1
    }
}

/// The content blocks of an assistant turn that calls tools hold its text,
/// when there is any, and then exactly one `tool_use` block per call, in the
/// order of the calls: none is dropped, repeated or reordered.
pub proof fn lemma_one_block_per_call(content: Seq<char>, calls: Seq<ToolCall>)
    ensures
        assistant_blocks(content, calls).len() == text_block_count(content) + calls.len(),
        forall|k: int| 0 <= k < calls.len() ==> assistant_blocks(content, calls)[text_block_count(content) + k]
            == tool_use_block((#[trigger] calls[k])@),
{
}

/// The content blocks of an assistant turn that calls tools.
fn assistant_content(content: &String, calls: &Vec<ToolCall>) -> (r: Vec<serde_json::Value>)
    ensures
        r@ == assistant_blocks(content@, calls@),
        r@.len() == text_block_count(content@) + calls@.len(),
        forall|k: int| 0 <= k < calls@.len() ==> {
            &&& json_member(#[trigger] r@[text_block_count(content@) + k], "type"@) == Some(
                json_string_of("tool_use"@),
            )
            &&& json_member(r@[text_block_count(content@) + k], "id"@) == Some(json_string_of(calls@[k]@.id))
            &&& json_member(r@[text_block_count(content@) + k], "name"@) == Some(
                json_string_of(calls@[k]@.name),
            )
        },
{
    let mut blocks: Vec<serde_json::Value> = Vec::new();
    if !content.as_str().is_empty() {
        let mut entries: Vec<(String, serde_json::Value)> = Vec::new();
        entries.push(string_member("type", String::from_str("text")));
        entries.push(string_member("text", content.clone()));
        assert(entries_view(entries@) =~= seq![string_entry("type"@, "text"@), string_entry("text"@, content@)]);
        blocks.push(json_from_object(entries));
    }
    let ghost text = blocks@;
    let mut i: usize = 0;
    while i < calls.len()
        invariant
            i <= calls.len(),
            text == (if content@.len() == 0 { Seq::<serde_json::Value>::empty() } else { seq![text_block(content@)] }),
            blocks@ == text + calls@.take(i as int).map_values(|c: ToolCall| tool_use_block(c@)),
            text.len() == text_block_count(content@),
            blocks@.len() == text_block_count(content@) + i,
            forall|k: int| 0 <= k < i ==> {
                &&& json_member(#[trigger] blocks@[text_block_count(content@) + k], "type"@) == Some(
                    json_string_of("tool_use"@),
                )
                &&& json_member(blocks@[text_block_count(content@) + k], "id"@) == Some(
                    json_string_of(calls@[k]@.id),
                )
                &&& json_member(blocks@[text_block_count(content@) + k], "name"@) == Some(
                    json_string_of(calls@[k]@.name),
                )
            },
        decreases calls.len() - i,
    {
        blocks.push(tool_use_json(&calls[i]));
        assert(calls@.take(i + 1) =~= calls@.take(i as int).push(calls@[i as int]));
        assert(calls@.take(i + 1).map_values(|c: ToolCall| tool_use_block(c@)) =~= calls@.take(
            i as int,
        ).map_values(|c: ToolCall| tool_use_block(c@)).push(tool_use_block(calls@[i as int]@)));
        i += 1;
    }
    assert(calls@.take(calls.len() as int) =~= calls@);
    blocks
}

/// One message in the Anthropic format.
fn message_value(message: &Message) -> (r: serde_json::Value)
    ensures
        r == message_json(message@),
{
    let mut entries: Vec<(String, serde_json::Value)> = Vec::new();
    match message {
        Message::User { content } => {
            entries.push(string_member("role", String::from_str("user")));
            entries.push(string_member("content", content.clone()));
            assert(entries_view(entries@) =~= seq![string_entry("role"@, "user"@), string_entry("content"@, content@)]);
        },
        Message::Assistant { content, tool_calls } => {
            entries.push(string_member("role", String::from_str("assistant")));
            if tool_calls.len() == 0 {
                entries.push(string_member("content", content.clone()));
                assert(entries_view(entries@) =~= seq![
                    string_entry("role"@, "assistant"@),
                    string_entry("content"@, content@),
                ]);
            } else {
                let blocks = assistant_content(content, tool_calls);
                entries.push((String::from_str("content"), json_from_array(blocks)));
                assert(entries_view(entries@) =~= seq![
                    string_entry("role"@, "assistant"@),
                    ("content"@, json_array_of(assistant_blocks(content@, tool_calls@))),
                ]);
            }
        },
        Message::Tool { content, tool_call_id } => {
            let mut block: Vec<(String, serde_json::Value)> = Vec::new();
            block.push(string_member("type", String::from_str("tool_result")));
            block.push(string_member("tool_use_id", tool_call_id.clone()));
            block.push(string_member("content", content.clone()));
            let ghost block_entries = entries_view(block@);
            assert(block_entries =~= seq![
                string_entry("type"@, "tool_result"@),
                string_entry("tool_use_id"@, tool_call_id@),
                string_entry("content"@, content@),
            ]);
            let mut blocks: Vec<serde_json::Value> = Vec::new();
            blocks.push(json_from_object(block));
            assert(blocks@ =~= seq![json_object_of(block_entries)]);
            entries.push(string_member("role", String::from_str("user")));
            entries.push((String::from_str("content"), json_from_array(blocks)));
            assert(entries_view(entries@) =~= seq![
                string_entry("role"@, "user"@),
                ("content"@, json_array_of(seq![json_object_of(block_entries)])),
            ]);
        },
    }
    json_from_object(entries)
}

/// A tool definition as the endpoint expects it.
fn tool_def_value(def: &ToolDef) -> (r: serde_json::Value)
    ensures
        r == tool_def_json(*def),
{
    let mut entries: Vec<(String, serde_json::Value)> = Vec::new();
    entries.push(string_member("name", def.name.clone()));
    entries.push(string_member("description", def.description.clone()));
    entries.push((String::from_str("input_schema"), def.input_schema.clone()));
    assert(entries_view(entries@) =~= seq![
        string_entry("name"@, def.name@),
        string_entry("description"@, def.description@),
        ("input_schema"@, def.input_schema),
    ]);
    json_from_object(entries)
}

/// The stream error for a request that could not be sent: `HTTP error:
/// <detail>`.
pub fn http_error(detail: &str) -> (r: LLMStreamEvent)
    ensures
        r matches LLMStreamEvent::StreamError { error } && error@ == "HTTP error: "@ + detail@,
{
    let mut error = String::from_str("HTTP error: ");
    error.append(detail);
    LLMStreamEvent::StreamError { error }
}

/// The stream error for a reply with an error status: `Anthropic API error
/// (<status>): <body>`.
pub fn api_error(status: &str, body: &str) -> (r: LLMStreamEvent)
    ensures
        r matches LLMStreamEvent::StreamError { error } && error@ == "Anthropic API error ("@ + status@ + "): "@
            + body@,
{
    let mut error = String::from_str("Anthropic API error (");
    error.append(status);
    error.append("): ");
    error.append(body);
    LLMStreamEvent::StreamError { error }
}

/// The stream error for a reply body that broke off: `stream error:
/// <detail>`.
pub fn stream_error(detail: &str) -> (r: LLMStreamEvent)
    ensures
        r matches LLMStreamEvent::StreamError { error } && error@ == "stream error: "@ + detail@,
{
    let mut error = String::from_str("stream error: ");
    error.append(detail);
    LLMStreamEvent::StreamError { error }
}

impl AnthropicProvider {
    /// The API key the provider sends.
    pub closed spec fn key_view(&self) -> Seq<char> {
        self.api_key@
    }

    /// The model the provider asks for.
    pub closed spec fn model_view(&self) -> Seq<char> {
        self.model@
    }

    /// The base URL of the endpoint, as given.
    pub closed spec fn base_url_view(&self) -> Seq<char> {
        self.base_url@
    }

    /// The HTTP client the provider holds.
    pub closed spec fn http_client(&self) -> reqwest::Client {
        self.client
    }

    /// A provider with this key, model and base URL, kept as given.
    pub fn new(api_key: String, model: String, base_url: String) -> (r: Self)
        ensures
            r.key_view() == api_key@,
            r.model_view() == model@,
            r.base_url_view() == base_url@,
    {
        AnthropicProvider { api_key, model, base_url, client: new_http_client() }
    }

    /// The base URL, as given.
    pub fn base_url(&self) -> (r: &str)
        ensures
            r@ == self.base_url_view(),
    {
        self.base_url.as_str()
    }

    /// The model.
    pub fn model(&self) -> (r: &str)
        ensures
            r@ == self.model_view(),
    {
        self.model.as_str()
    }

    /// The API key.
    pub fn api_key(&self) -> (r: &str)
        ensures
            r@ == self.key_view(),
    {
        self.api_key.as_str()
    }

    /// The HTTP client requests go through.
    pub fn client(&self) -> (r: &reqwest::Client)
        ensures
            *r == self.http_client(),
    {
        &self.client
    }

    /// The request body for a conversation and the tools on offer. Its
    /// members are the model, the formatted messages, the token limit,
    /// streaming on, and the tool definitions when there are any.
    pub fn format_messages(&self, messages: &[Message], tools: &[ToolDef]) -> (r: serde_json::Value)
        ensures
            r == request_body(self.model_view(), messages@.map_values(|m: Message| m@), tools@),
            json_member(r, "model"@) == Some(json_string_of(self.model_view())),
            json_member(r, "messages"@) == Some(
                json_array_of(messages@.map_values(|m: Message| message_json(m@))),
            ),
            json_member(r, "max_tokens"@) == Some(json_u64_of(MAX_TOKENS)),
            json_member(r, "stream"@) == Some(json_bool_of(true)),
            json_member(r, "tools"@) == if tools@.len() == 0 {
                None
            } else {
                Some(json_array_of(tools@.map_values(|t: ToolDef| tool_def_json(t))))
            },
    {
        let ghost views = messages@.map_values(|m: Message| m@);
        let mut formatted: Vec<serde_json::Value> = Vec::new();
        let mut i: usize = 0;
        while i < messages.len()
            invariant
                i <= messages.len(),
                views == messages@.map_values(|m: Message| m@),
                formatted@ == views.take(i as int).map_values(|m: MessageView| message_json(m)),
            decreases messages.len() - i,
        {
            formatted.push(message_value(&messages[i]));
            assert(views.take(i + 1) =~= views.take(i as int).push(views[i as int]));
            assert(views.take(i + 1).map_values(|m: MessageView| message_json(m)) =~= views.take(
                i as int,
            ).map_values(|m: MessageView| message_json(m)).push(message_json(views[i as int])));
            i += 1;
        }
        assert(views.take(messages.len() as int) =~= views);
        let mut entries: Vec<(String, serde_json::Value)> = Vec::new();
        entries.push(string_member("model", self.model.clone()));
        entries.push((String::from_str("messages"), json_from_array(formatted)));
        entries.push((String::from_str("max_tokens"), json_from_u64(MAX_TOKENS)));
        entries.push((String::from_str("stream"), json_from_bool(true)));
        let ghost base = seq![
            string_entry("model"@, self.model_view()),
            ("messages"@, json_array_of(views.map_values(|m: MessageView| message_json(m)))),
            ("max_tokens"@, json_u64_of(MAX_TOKENS)),
            ("stream"@, json_bool_of(true)),
        ];
        assert(entries_view(entries@) =~= base);
        if tools.len() > 0 {
            let mut defs: Vec<serde_json::Value> = Vec::new();
            let mut j: usize = 0;
            while j < tools.len()
                invariant
                    j <= tools.len(),
                    defs@ == tools@.take(j as int).map_values(|t: ToolDef| tool_def_json(t)),
                decreases tools.len() - j,
            {
                defs.push(tool_def_value(&tools[j]));
                assert(tools@.take(j + 1) =~= tools@.take(j as int).push(tools@[j as int]));
                assert(tools@.take(j + 1).map_values(|t: ToolDef| tool_def_json(t)) =~= tools@.take(
                    j as int,
                ).map_values(|t: ToolDef| tool_def_json(t)).push(tool_def_json(tools@[j as int])));
                j += 1;
            }
            assert(tools@.take(tools.len() as int) =~= tools@);
            entries.push((String::from_str("tools"), json_from_array(defs)));
            assert(entries_view(entries@) =~= base.push(
                ("tools"@, json_array_of(tools@.map_values(|t: ToolDef| tool_def_json(t)))),
            ));
        }
        proof {
            reveal_strlit("model");
            reveal_strlit("messages");
            reveal_strlit("max_tokens");
            reveal_strlit("stream");
            reveal_strlit("tools");
            reveal_with_fuel(entry_lookup, 6);
            assert("tools"@ != "model"@) by {
                assert("tools"@[0] != "model"@[0]);
            }
            assert("tools"@ != "messages"@ && "tools"@ != "max_tokens"@ && "tools"@ != "stream"@);
            assert(views.map_values(|m: MessageView| message_json(m)) =~= messages@.map_values(
                |m: Message| message_json(m@),
            ));
            let ev = entries_view(entries@);
            assert(keys_distinct(ev)) by {
                assert forall|i: int, j: int| 0 <= i < j < ev.len() implies ev[i].0 != ev[j].0 by {
                    if ev[i].0 == ev[j].0 {
                        assert(ev[i].0.len() == ev[j].0.len());
                        assert(ev[i].0[0] == ev[j].0[0]);
                    }
                }
            }
        }
        json_from_object(entries)
    }
}

} // verus!
