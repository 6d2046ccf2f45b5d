//! Reading the Anthropic messages API's server-sent event stream into engine
//! stream events.
use vstd::prelude::*;
use crate::event::{LLMStreamEvent, StreamEventView};
use crate::json::{json_get, json_get_str, json_member, json_parse, json_str_member, parse_json};
use crate::text::{chars_of, has_prefix, range_has_prefix, str_eq, string_from_chars, trim, trim_range};
use vstd::utf8::{decode_utf8, valid_utf8};
use crate::types::{FunctionCall, ToolCall, ToolCallView};

verus! {

/// A tool-use block being streamed: its id, its tool name and the JSON text
/// of its input received so far.
pub type PendingTool = Option<(String, String, String)>;

/// A pending tool-use block as a value.
pub open spec fn pending_view(t: PendingTool) -> Option<(Seq<char>, Seq<char>, Seq<char>)> {
    match t {
        Some((id, name, input)) => Some((id@, name@, input@)),
        None => None,
    }
}

/// The string, or the empty string when there is none.
pub open spec fn or_empty(s: Option<Seq<char>>) -> Seq<char> {
    match s {
        Some(t) => t,
        None => Seq::empty(),
    }
}

/// What one streamed JSON value `v` yields, given the tool-use block being
/// streamed: the event it produces, if any, and the pending block after it.
///
/// - `content_block_start` of a `tool_use` block starts collecting a tool
///   call with the block's id and name;
/// - `content_block_delta` yields its `text` as a text delta or its
///   `thinking` as a thinking delta, or appends its `partial_json` to the
///   pending tool call's input;
/// - `content_block_stop` completes the pending tool call, if there is one;
/// - `message_stop` ends the stream;
/// - anything else yields nothing.
pub open spec fn sse_step(
    v: serde_json::Value,
    tool: Option<(Seq<char>, Seq<char>, Seq<char>)>,
) -> (Option<StreamEventView>, Option<(Seq<char>, Seq<char>, Seq<char>)>) {
    let ty = json_str_member(v, "type"@);
    if ty == Some("content_block_start"@) {
        match json_member(v, "content_block"@) {
            Some(block) => if json_str_member(block, "type"@) == Some("tool_use"@) {
                (
                    None,
                    Some(
                        (
                            or_empty(json_str_member(block, "id"@)),
                            or_empty(json_str_member(block, "name"@)),
                            Seq::empty(),
                        ),
                    ),
                )
            } else {
                (None, tool)
            },
            None => (None, tool),
        }
    } else if ty == Some("content_block_delta"@) {
        match json_member(v, "delta"@) {
            Some(delta) => if json_str_member(delta, "text"@) is Some {
                (Some(StreamEventView::TextDelta { delta: json_str_member(delta, "text"@)->0 }), tool)
            } else if json_str_member(delta, "thinking"@) is Some {
                (
                    Some(StreamEventView::ThinkingDelta { delta: json_str_member(delta, "thinking"@)->0 }),
                    tool,
                )
            } else if json_str_member(delta, "partial_json"@) is Some {
                (
                    None,
                    match tool {
                        Some((id, name, input)) => Some(
                            (id, name, input + json_str_member(delta, "partial_json"@)->0),
                        ),
                        None => None,
                    },
                )
            } else {
                (None, tool)
            },
            None => (None, tool),
        }
    } else if ty == Some("content_block_stop"@) {
        match tool {
            Some((id, name, input)) => (
                Some(
                    StreamEventView::ToolCall {
                        tool_call: ToolCallView { id, call_type: "tool_use"@, name, arguments: input },
                    },
                ),
                None,
            ),
            None => (None, None),
        }
    } else if ty == Some("message_stop"@) {
        (Some(StreamEventView::StreamEnd { stop_reason: "end_turn"@ }), tool)
    } else {
        (None, tool)
    }
}

/// The event, if any, of an optional event.
pub open spec fn event_view(e: Option<LLMStreamEvent>) -> Option<StreamEventView> {
    match e {
        Some(ev) => Some(ev@),
        None => None,
    }
}

/// An owned copy of `s`, or the empty string.
fn string_or_empty(s: Option<String>) -> (r: String)
    ensures
        r@ == or_empty(
            match s {
                Some(t) => Some(t@),
                None => None,
            },
        ),
{
    match s {
        Some(t) => t,
        None => String::new(),
    }
}

/// Interprets one streamed JSON value, updating the tool-use block being
/// streamed (see `sse_step`).
pub fn parse_sse_value(value: &serde_json::Value, tool: &mut PendingTool) -> (r: Option<LLMStreamEvent>)
    ensures
        (event_view(r), pending_view(*final(tool))) == sse_step(*value, pending_view(*old(tool))),
{
    let ty = json_get_str(value, "type");
    let ty = match ty {
        Some(t) => t,
        None => {
            return None;
        },
    };
    if str_eq(ty.as_str(), "content_block_start") {
        if let Some(block) = json_get(value, "content_block") {
            if let Some(block_type) = json_get_str(&block, "type") {
                if str_eq(block_type.as_str(), "tool_use") {
                    let id = string_or_empty(json_get_str(&block, "id"));
                    let name = string_or_empty(json_get_str(&block, "name"));
                    *tool = Some((id, name, String::new()));
                }
            }
        }
        None
    } else if str_eq(ty.as_str(), "content_block_delta") {
        let delta = match json_get(value, "delta") {
            Some(d) => d,
            None => {
                return None;
            },
        };
        if let Some(text) = json_get_str(&delta, "text") {
            return Some(LLMStreamEvent::TextDelta { delta: text });
        }
        if let Some(thinking) = json_get_str(&delta, "thinking") {
            return Some(LLMStreamEvent::ThinkingDelta { delta: thinking });
        }
        if let Some(partial) = json_get_str(&delta, "partial_json") {
            if let Some((_, _, input)) = tool {
                input.append(partial.as_str());
            }
        }
        None
    } else if str_eq(ty.as_str(), "content_block_stop") {
        match tool.take() {
            Some((id, name, input)) => Some(
                LLMStreamEvent::ToolCall {
                    tool_call: ToolCall {
                        id,
                        call_type: String::from_str("tool_use"),
                        function: FunctionCall { name, arguments: input },
                    },
                },
            ),
            None => None,
        }
    } else if str_eq(ty.as_str(), "message_stop") {
        Some(LLMStreamEvent::StreamEnd { stop_reason: String::from_str("end_turn") })
    } else {
        None
    }
}

/// What the data field of one server-sent event yields: `[DONE]` ends the
/// stream; JSON is read with `sse_step`; anything else yields nothing.
pub open spec fn data_step(
    data: Seq<char>,
    tool: Option<(Seq<char>, Seq<char>, Seq<char>)>,
) -> (Option<StreamEventView>, Option<(Seq<char>, Seq<char>, Seq<char>)>) {
    if data == "[DONE]"@ {
        (Some(StreamEventView::StreamEnd { stop_reason: "end_turn"@ }), tool)
    } else {
        match json_parse(data) {
            Some(v) => sse_step(v, tool),
            None => (None, tool),
        }
    }
}

/// Interprets the data of one server-sent event on its own, with no tool-use
/// block being streamed.
pub fn parse_sse_data(data: &str) -> (r: Option<LLMStreamEvent>)
    ensures
        event_view(r) == data_step(data@, None).0,
{
    let mut tool: PendingTool = None;
    parse_sse_data_with(data, &mut tool)
}

/// Interprets the data of one server-sent event, updating the tool-use block
/// being streamed.
pub fn parse_sse_data_with(data: &str, tool: &mut PendingTool) -> (r: Option<LLMStreamEvent>)
    ensures
        (event_view(r), pending_view(*final(tool))) == data_step(data@, pending_view(*old(tool))),
{
    if str_eq(data, "[DONE]") {
        return Some(LLMStreamEvent::StreamEnd { stop_reason: String::from_str("end_turn") });
    }
    match parse_json(data) {
        Some(value) => parse_sse_value(&value, tool),
        None => None,
    }
}

/// What one complete line of the stream yields: a `data: ` line is read with
/// `data_step`, after white space is trimmed; other lines yield nothing.
pub open spec fn line_step(
    line: Seq<char>,
    tool: Option<(Seq<char>, Seq<char>, Seq<char>)>,
) -> (Option<StreamEventView>, Option<(Seq<char>, Seq<char>, Seq<char>)>) {
    let t = trim(line);
    if has_prefix(t, "data: "@) {
        data_step(t.skip(6), tool)
    } else {
        (None, tool)
    }
}

/// The state of a stream decoder: the start of the current line, the
/// tool-use block being streamed, and whether the stream has ended.
pub struct DecoderView {
    pub pending: Seq<char>,
    pub tool: Option<(Seq<char>, Seq<char>, Seq<char>)>,
    pub finished: bool,
}

/// The events that one more character of the stream yields, and the decoder
/// state after it. Once the stream has ended, everything is ignored; a line
/// feed completes the current line, and the end of the stream (`[DONE]` or
/// `message_stop`) is reported as a stream end with reason `end_turn`.
pub open spec fn char_step(s: DecoderView, c: char) -> (Seq<StreamEventView>, DecoderView) {
    if s.finished {
        (Seq::empty(), s)
    } else if c == '\n' {
        let (ev, tool) = line_step(s.pending.push('\n'), s.tool);
        match ev {
            Some(StreamEventView::StreamEnd { .. }) => (
                seq![StreamEventView::StreamEnd { stop_reason: "end_turn"@ }],
                DecoderView { pending: Seq::empty(), tool, finished: true },
            ),
            Some(e) => (seq![e], DecoderView { pending: Seq::empty(), tool, finished: false }),
            None => (Seq::empty(), DecoderView { pending: Seq::empty(), tool, finished: false }),
        }
    } else {
        (Seq::empty(), DecoderView { pending: s.pending.push(c), ..s })
    }
}

/// The events that the text `text` yields, fed to a decoder in state `s`, and
/// the decoder state after it.
pub open spec fn feed_step(s: DecoderView, text: Seq<char>) -> (Seq<StreamEventView>, DecoderView)
    decreases text.len(),
{
    if text.len() == 0 {
        (Seq::empty(), s)
    } else {
        let (earlier, mid) = feed_step(s, text.drop_last());
        let (later, end) = char_step(mid, text.last());
        (earlier + later, end)
    }
}

/// The text that `String::from_utf8_lossy` makes of `bytes`: the decoded
/// characters, with each invalid sequence replaced by U+FFFD.
pub uninterp spec fn utf8_lossy(bytes: Seq<u8>) -> Seq<char>;

/// Calls `String::from_utf8_lossy`. The contract claims the result is
/// `utf8_lossy` of the bytes, which is their plain decoding when they are
/// valid UTF-8.
#[verifier::external_body]
fn decode_utf8_lossy(bytes: &[u8]) -> (r: String)
    ensures
        r@ == utf8_lossy(bytes@),
        valid_utf8(bytes@) ==> r@ == decode_utf8(bytes@),
{
    String::from_utf8_lossy(bytes).to_string()
}

/// Splits the streamed response body into lines and turns its `data: `
/// lines into stream events, until the stream ends.
pub struct SseDecoder {
    pending: Vec<char>,
    tool: PendingTool,
    finished: bool,
}

impl SseDecoder {
    pub closed spec fn state(&self) -> DecoderView {
        DecoderView { pending: self.pending@, tool: pending_view(self.tool), finished: self.finished }
    }

    /// A decoder at the start of a stream.
    pub fn new() -> (r: Self)
        ensures
            r.state() == (DecoderView { pending: Seq::empty(), tool: None, finished: false }),
    {
        SseDecoder { pending: Vec::new(), tool: None, finished: false }
    }

    /// Whether the stream has ended.
    pub fn is_finished(&self) -> (r: bool)
        ensures
            r == self.state().finished,
    {
        self.finished
    }

    /// Completes the current line.
    fn end_line(&mut self) -> (r: Option<LLMStreamEvent>)
        requires
            !old(self).finished,
        ensures
            ({
                let (events, next) = char_step(old(self).state(), '\n');
                &&& final(self).state() == next
                &&& events == match r {
                    Some(e) => seq![e@],
                    None => Seq::<StreamEventView>::empty(),
                }
            }),
    {
        self.pending.push('\n');
        let line = trim_range(self.pending.as_slice(), 0, self.pending.len());
        let prefix = chars_of("data: ");
        proof {
            reveal_strlit("data: ");
        }
        let ghost t = trim(self.pending@);
        assert(self.pending@.subrange(0, self.pending@.len() as int) =~= self.pending@);
        let event = if range_has_prefix(line.as_slice(), 0, line.len(), prefix.as_slice()) {
            assert(line@.subrange(0, line@.len() as int) =~= line@);
            let data = string_from_chars(line.as_slice().split_at(6).1);
            assert(data@ =~= t.skip(6));
            parse_sse_data_with(data.as_str(), &mut self.tool)
        } else {
            assert(line@.subrange(0, line@.len() as int) =~= line@);
            None
        };
        self.pending = Vec::new();
        match event {
            Some(LLMStreamEvent::StreamEnd { .. }) => {
                self.finished = true;
                Some(LLMStreamEvent::StreamEnd { stop_reason: String::from_str("end_turn") })
            },
            other => other,
        }
    }

    /// Feeds decoded text of the response body; returns the events its
    /// completed lines yield (see `feed_step`).
    pub fn feed(&mut self, text: &str) -> (r: Vec<LLMStreamEvent>)
        ensures
            (r.deep_view(), final(self).state()) == feed_step(old(self).state(), text@),
    {
        let chars = chars_of(text);
        let mut events: Vec<LLMStreamEvent> = Vec::new();
        let mut i: usize = 0;
        while i < chars.len()
            invariant
                i <= chars@.len(),
                chars@ == text@,
                (events.deep_view(), self.state()) == feed_step(old(self).state(), chars@.take(i as int)),
            decreases chars@.len() - i,
        {
            let c = chars[i];
            let ghost before = events.deep_view();
            let ghost mid = self.state();
            assert(chars@.take(i + 1).drop_last() =~= chars@.take(i as int));
            if self.finished {
            } else if c == '\n' {
                match self.end_line() {
                    Some(e) => {
                        events.push(e);
                    },
                    None => {},
                }
            } else {
                self.pending.push(c);
            }
            assert(events.deep_view() =~= before + char_step(mid, c).0);
            i += 1;
        }
        assert(chars@.take(chars@.len() as int) =~= text@);
        events
    }

    /// Feeds a chunk of the response body, decoded as UTF-8 with invalid
    /// sequences replaced.
    pub fn feed_bytes(&mut self, chunk: &[u8]) -> (r: Vec<LLMStreamEvent>)
        ensures
            (r.deep_view(), final(self).state()) == feed_step(old(self).state(), utf8_lossy(chunk@)),
    {
        let text = decode_utf8_lossy(chunk);
        self.feed(text.as_str())
    }

    /// Ends the stream when the body is exhausted: reports a stream end with
    /// reason `end_turn` unless the stream has already ended.
    pub fn finish(&mut self) -> (r: Option<LLMStreamEvent>)
        ensures
            final(self).state().finished,
            old(self).state().finished ==> r is None,
            !old(self).state().finished ==> event_view(r) == Some(
                StreamEventView::StreamEnd { stop_reason: "end_turn"@ },
            ),
    {
        if self.finished {
            None
        } else {
            self.finished = true;
            Some(LLMStreamEvent::StreamEnd { stop_reason: String::from_str("end_turn") })
        }
    }
}

/// Splitting the body into chunks does not change what the decoder reports:
/// feeding `a` and then `b` yields the events of feeding `a + b`, and leaves
/// the decoder in the same state.
pub proof fn lemma_feed_chunking(s: DecoderView, a: Seq<char>, b: Seq<char>)
    ensures
        ({
            let (first, mid) = feed_step(s, a);
            let (second, end) = feed_step(mid, b);
            feed_step(s, a + b) == (first + second, end)
        }),
    decreases b.len(),
{
    if b.len() == 0 {
        assert(a + b =~= a);
        let (first, mid) = feed_step(s, a);
        assert(first + Seq::<StreamEventView>::empty() =~= first);
    } else {
        lemma_feed_chunking(s, a, b.drop_last());
        assert((a + b).drop_last() =~= a + b.drop_last());
        assert((a + b).last() == b.last());
        let (first, mid) = feed_step(s, a);
        let (second0, end0) = feed_step(mid, b.drop_last());
        let (later, end) = char_step(end0, b.last());
        assert(first + second0 + later =~= first + (second0 + later));
    }
}

/// Once the stream has ended, the decoder reports nothing more and stays as
/// it is, whatever text follows.
pub proof fn lemma_feed_after_end(s: DecoderView, text: Seq<char>)
    requires
        s.finished,
    ensures
        feed_step(s, text) == (Seq::<StreamEventView>::empty(), s),
    decreases text.len(),
{
    if text.len() > 0 {
        lemma_feed_after_end(s, text.drop_last());
        assert(Seq::<StreamEventView>::empty() + Seq::<StreamEventView>::empty() =~= Seq::<StreamEventView>::empty());
    }
}

/// A stream end is always the last event the decoder reports: every event
/// before it is something else, and the decoder has ended.
pub proof fn lemma_stream_end_is_last(s: DecoderView, text: Seq<char>)
    requires
        !s.finished,
    ensures
        ({
            let (events, end) = feed_step(s, text);
            &&& forall|i: int| 0 <= i < events.len() - 1 ==> !(events[i] is StreamEnd)
            &&& (events.len() > 0 && events.last() is StreamEnd) <==> end.finished
        }),
    decreases text.len(),
{
    if text.len() > 0 {
        lemma_stream_end_is_last(s, text.drop_last());
        let (earlier, mid) = feed_step(s, text.drop_last());
        if mid.finished {
            lemma_feed_after_end(mid, seq![text.last()]);
        }
        let (later, end) = char_step(mid, text.last());
        let events = earlier + later;
        assert forall|i: int| 0 <= i < events.len() - 1 implies !(events[i] is StreamEnd) by {
            if i < earlier.len() - 1 {
                assert(events[i] == earlier[i]);
            } else if i == earlier.len() - 1 {
                assert(events[i] == earlier[i]);
            }
        }
    }
}

/// The messages endpoint under `base_url`: the base without trailing
/// slashes, then `/v1/messages`.
pub open spec fn messages_endpoint(base_url: Seq<char>) -> Seq<char>
    decreases base_url.len(),
{
    if base_url.len() > 0 && base_url.last() == '/' {
        messages_endpoint(base_url.drop_last())
    } else {
        base_url + "/v1/messages"@
    }
}

/// The URL the messages request is sent to (see `messages_endpoint`).
pub fn messages_url(base_url: &str) -> (r: String)
    ensures
        r@ == messages_endpoint(base_url@),
{
    let chars = chars_of(base_url);
    let mut end: usize = chars.len();
    assert(chars@.take(end as int) =~= chars@);
    while end > 0 && chars[end - 1] == '/'
        invariant
            end <= chars@.len(),
            chars@ == base_url@,
            messages_endpoint(base_url@) == messages_endpoint(chars@.take(end as int)),
        decreases end,
    {
        assert(chars@.take(end as int).drop_last() =~= chars@.take(end - 1));
        end -= 1;
    }
    let mut out = string_from_chars(chars.as_slice().split_at(end).0);
    out.append("/v1/messages");
    assert(chars@.subrange(0, end as int) =~= chars@.take(end as int));
    out
}

} // verus!
