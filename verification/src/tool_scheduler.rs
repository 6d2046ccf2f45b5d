//! Tool registry and execution of the tool calls the model requests.
use vstd::prelude::*;
use crate::json::{parse_json_or_null, parsed_or_null};
use crate::text::{chars_eq, chars_of};
use crate::types::{ToolCall, ToolDef};

verus! {

/// The outcome of one tool call: the handler's output, or an error.
#[derive(Debug)]
pub struct ToolResult {
    pub tool_call_id: String,
    pub result: Option<String>,
    pub error: Option<String>,
}

/// Whether a tool handler accepts every JSON argument value.
pub open spec fn accepts_all_arguments<H: Fn(serde_json::Value) -> String>(handler: H) -> bool {
    forall|args: serde_json::Value| call_requires(handler, (args,))
}

/// What `ToolScheduler::schedule` reports for `call`, given the handlers by
/// name: the handler's output on the call's arguments parsed as JSON (`null`
/// when they are not valid JSON), or `unknown tool: <name>`.
pub open spec fn scheduled<H: Fn(serde_json::Value) -> String>(
    handlers: Map<Seq<char>, H>,
    call: ToolCall,
    result: ToolResult,
) -> bool {
    &&& result.tool_call_id@ == call.id@
    &&& if handlers.contains_key(call.function.name@) {
        &&& result.error is None
        &&& result.result matches Some(out) && exists|args: serde_json::Value|
            parsed_or_null(call.function.arguments@, args) && call_ensures(
                handlers[call.function.name@],
                (args,),
                out,
            )
    } else {
        &&& result.result is None
        &&& result.error matches Some(e) && e@ == "unknown tool: "@ + call.function.name@
    }
}

/// Whether the names of `entries` are pairwise distinct.
pub open spec fn distinct_names<H>(entries: Seq<(Seq<char>, H)>) -> bool {
    forall|i: int, j: int|
        0 <= i < entries.len() && 0 <= j < entries.len() && i != j ==> #[trigger] entries[i].0
            != #[trigger] entries[j].0
}

/// The handlers of `entries` by name.
pub open spec fn handler_map<H>(entries: Seq<(Seq<char>, H)>) -> Map<Seq<char>, H> {
    Map::new(
        |name: Seq<char>| exists|i: int| 0 <= i < entries.len() && entries[i].0 == name,
        |name: Seq<char>| entries[choose|i: int| 0 <= i < entries.len() && entries[i].0 == name].1,
    )
}

/// With distinct names, the handler found under the name of an entry is that
/// entry's handler.
pub proof fn lemma_handler_map_at<H>(entries: Seq<(Seq<char>, H)>, i: int)
    requires
        distinct_names(entries),
        0 <= i < entries.len(),
    ensures
        handler_map(entries).contains_key(entries[i].0),
        handler_map(entries)[entries[i].0] == entries[i].1,
{
    let name = entries[i].0;
    assert(handler_map(entries).dom().contains(name));
    let k = choose|k: int| 0 <= k < entries.len() && entries[k].0 == name;
    assert(k == i);
}

/// After a tool is registered under `name` with `handler`, a call to `name`
/// is answered by that handler on the call's arguments, and calls to other
/// names are answered as before.
pub proof fn lemma_registered_tool_runs<H: Fn(serde_json::Value) -> String>(
    handlers: Map<Seq<char>, H>,
    name: Seq<char>,
    handler: H,
    call: ToolCall,
    result: ToolResult,
)
    requires
        scheduled(handlers.insert(name, handler), call, result),
    ensures
        call.function.name@ == name ==> {
            &&& result.error is None
            &&& result.result matches Some(out) && exists|args: serde_json::Value|
                parsed_or_null(call.function.arguments@, args) && call_ensures(handler, (args,), out)
        },
        call.function.name@ != name ==> scheduled(handlers, call, result),
{
}

/// The position, among the handler runs for `calls`, of the run for call
/// `i`: the number of handled calls before it.
pub open spec fn run_position<H>(handlers: Map<Seq<char>, H>, calls: Seq<ToolCall>, i: int) -> int {
    handled_calls(handlers, calls.take(i)).len() as int
}

/// Among the first calls, the handled calls before call `k` are fewer than
/// those before a later call `i` when call `k` itself is handled.
pub proof fn lemma_handled_calls_prefix<H>(handlers: Map<Seq<char>, H>, calls: Seq<ToolCall>, k: int, i: int)
    requires
        0 <= k < i <= calls.len(),
    ensures
        handled_calls(handlers, calls.take(k)).len() <= handled_calls(handlers, calls.take(i)).len(),
        handlers.contains_key(calls[k].function.name@) ==> handled_calls(handlers, calls.take(k)).len()
            < handled_calls(handlers, calls.take(i)).len(),
    decreases i - k,
{
    assert(calls.take(k + 1).drop_last() =~= calls.take(k));
    if k + 1 < i {
        lemma_handled_calls_prefix(handlers, calls, k + 1, i);
    }
}

/// Holds the tool definitions shown to the model and the handlers that run
/// the tools, by name.
pub struct ToolScheduler<H: Fn(serde_json::Value) -> String> {
    definitions: Vec<ToolDef>,
    handlers: Vec<(Vec<char>, H)>,
    handler_runs: Ghost<Seq<(Seq<char>, serde_json::Value)>>,
}

/// The calls among `calls` that name a registered tool, in order: the calls
/// on which a handler runs.
pub open spec fn handled_calls<H>(handlers: Map<Seq<char>, H>, calls: Seq<ToolCall>) -> Seq<ToolCall>
    decreases calls.len(),
{
    if calls.len() == 0 {
        Seq::empty()
    } else {
        let earlier = handled_calls(handlers, calls.drop_last());
        if handlers.contains_key(calls.last().function.name@) {
            earlier.push(calls.last())
        } else {
            earlier
        }
    }
}

/// `runs` are the handler runs for `calls`: one per call that names a
/// registered tool, in order, each under that name and with the call's
/// arguments parsed as JSON (`null` when they are not valid JSON), and each
/// a call of that handler on those arguments.
pub open spec fn runs_for<H: Fn(serde_json::Value) -> String>(
    handlers: Map<Seq<char>, H>,
    calls: Seq<ToolCall>,
    runs: Seq<(Seq<char>, serde_json::Value)>,
) -> bool {
    &&& runs.len() == handled_calls(handlers, calls).len()
    &&& forall|k: int| 0 <= k < runs.len() ==> {
        &&& (#[trigger] runs[k]).0 == handled_calls(handlers, calls)[k].function.name@
        &&& parsed_or_null(handled_calls(handlers, calls)[k].function.arguments@, runs[k].1)
        &&& handlers.contains_key(runs[k].0)
        &&& exists|out: String| call_ensures(handlers[runs[k].0], (runs[k].1,), out)
    }
}

/// The names and handlers of `entries`, as values.
pub open spec fn entries_view<H>(entries: Seq<(Vec<char>, H)>) -> Seq<(Seq<char>, H)> {
    entries.map_values(|e: (Vec<char>, H)| (e.0@, e.1))
}

/// The position of the entry named `name`, if there is one.
fn position_of<H>(entries: &Vec<(Vec<char>, H)>, name: &Vec<char>) -> (r: Option<usize>)
    ensures
        r matches Some(i) ==> i < entries@.len() && entries@[i as int].0@ == name@,
        r is None ==> forall|i: int| 0 <= i < entries@.len() ==> entries@[i].0@ != name@,
{
    let mut i: usize = 0;
    while i < entries.len()
        invariant
            i <= entries@.len(),
            forall|j: int| 0 <= j < i ==> entries@[j].0@ != name@,
        decreases entries@.len() - i,
    {
        if chars_eq(entries[i].0.as_slice(), name.as_slice()) {
            return Some(i);
        }
        i += 1;
    }
    None
}

impl<H: Fn(serde_json::Value) -> String> ToolScheduler<H> {
    #[verifier::type_invariant]
    spec fn wf(&self) -> bool {
        &&& forall|i: int| 0 <= i < self.handlers@.len() ==> accepts_all_arguments(#[trigger] self.handlers@[i].1)
        &&& distinct_names(entries_view(self.handlers@))
    }

    /// The registered definitions, in registration order.
    pub closed spec fn tool_definitions(&self) -> Seq<ToolDef> {
        self.definitions@
    }

    /// The handler registered last under each name.
    pub closed spec fn handlers(&self) -> Map<Seq<char>, H> {
        handler_map(entries_view(self.handlers@))
    }

    /// The handler runs so far, in order: the name the handler was found
    /// under and the arguments it was called with.
    pub closed spec fn runs(&self) -> Seq<(Seq<char>, serde_json::Value)> {
        self.handler_runs@
    }

    /// A scheduler without tools.
    pub fn new() -> (r: Self)
        ensures
            r.tool_definitions().len() == 0,
            r.handlers() == Map::<Seq<char>, H>::empty(),
            r.runs().len() == 0,
    {
        let r = Self { definitions: Vec::new(), handlers: Vec::new(), handler_runs: Ghost(Seq::empty()) };
        assert(r.handlers() =~= Map::<Seq<char>, H>::empty());
        r
    }

    /// Registers a tool: its definition is listed and its handler replaces any
    /// handler registered before under the same name.
    pub fn register(&mut self, def: ToolDef, handler: H)
        requires
            accepts_all_arguments(handler),
        ensures
            final(self).tool_definitions() == old(self).tool_definitions().push(def),
            final(self).handlers() == old(self).handlers().insert(def.name@, handler),
            final(self).runs() == old(self).runs(),
    {
        proof {
            use_type_invariant(&*self);
        }
        let name = chars_of(def.name.as_str());
        let ghost old_entries = entries_view(self.handlers@);
        let mut handlers: Vec<(Vec<char>, H)> = Vec::new();
        std::mem::swap(&mut handlers, &mut self.handlers);
        let found = position_of(&handlers, &name);
        let ghost pos: int;
        match found {
            Some(i) => {
                handlers.set(i, (name, handler));
                proof {
                    pos = i as int;
                    assert(old_entries[pos].0 == def.name@);
                    assert(entries_view(handlers@) =~= old_entries.update(i as int, (def.name@, handler)));
                }
            },
            None => {
                handlers.push((name, handler));
                proof {
                    pos = old_entries.len() as int;
                    assert forall|j: int| 0 <= j < old_entries.len() implies old_entries[j].0 != def.name@ by {
                        assert(old_entries[j].0 == handlers@[j].0@);
                    }
                    assert(entries_view(handlers@) =~= old_entries.push((def.name@, handler)));
                }
            },
        }
        let ghost new_entries = entries_view(handlers@);
        proof {
            assert(distinct_names(new_entries)) by {
                assert forall|a: int, b: int|
                    0 <= a < new_entries.len() && 0 <= b < new_entries.len() && a != b implies #[trigger] new_entries[a].0
                    != #[trigger] new_entries[b].0 by {
                    if a != pos && b != pos {
                        assert(new_entries[a] == old_entries[a]);
                        assert(new_entries[b] == old_entries[b]);
                    } else if a == pos {
                        assert(new_entries[b] == old_entries[b]);
                        if pos < old_entries.len() {
                            assert(old_entries[pos].0 != old_entries[b].0);
                        }
                    } else {
                        assert(new_entries[a] == old_entries[a]);
                        if pos < old_entries.len() {
                            assert(old_entries[pos].0 != old_entries[a].0);
                        }
                    }
                }
            }
            let expected = handler_map(old_entries).insert(def.name@, handler);
            lemma_handler_map_at(new_entries, pos);
            assert forall|k: Seq<char>| #[trigger] handler_map(new_entries).contains_key(k) <==> expected.contains_key(k) by {
                if handler_map(new_entries).contains_key(k) && k != def.name@ {
                    let j = choose|j: int| 0 <= j < new_entries.len() && new_entries[j].0 == k;
                    assert(j != pos);
                    assert(old_entries[j].0 == k);
                }
                if expected.contains_key(k) && k != def.name@ {
                    let j = choose|j: int| 0 <= j < old_entries.len() && old_entries[j].0 == k;
                    assert(j != pos);
                    assert(new_entries[j].0 == k);
                }
            }
            assert forall|k: Seq<char>| #[trigger] handler_map(new_entries).contains_key(k) implies handler_map(new_entries)[k] == expected[k] by {
                if k != def.name@ {
                    let j = choose|j: int| 0 <= j < new_entries.len() && new_entries[j].0 == k;
                    assert(j != pos);
                    assert(new_entries[j] == old_entries[j]);
                    lemma_handler_map_at(new_entries, j);
                    lemma_handler_map_at(old_entries, j);
                }
            }
            assert(handler_map(new_entries) =~= expected);
            assert forall|i: int| 0 <= i < handlers@.len() implies accepts_all_arguments(#[trigger] handlers@[i].1) by {
                if i != pos {
                    assert(new_entries[i] == old_entries[i]);
                }
            }
        }
        let mut definitions: Vec<ToolDef> = Vec::new();
        std::mem::swap(&mut definitions, &mut self.definitions);
        definitions.push(def);
        self.definitions = definitions;
        self.handlers = handlers;
    }

    /// Runs each tool call with the handler registered under its name, in
    /// order, reporting one result per call. Each call that names a
    /// registered tool runs its handler exactly once, in the order of the
    /// calls, and its result holds what that run returned.
    pub fn schedule(&mut self, tool_calls: &[ToolCall]) -> (r: Vec<ToolResult>)
        ensures
            final(self).handlers() == old(self).handlers(),
            final(self).tool_definitions() == old(self).tool_definitions(),
            r@.len() == tool_calls@.len(),
            forall|i: int| 0 <= i < tool_calls@.len() ==> scheduled(old(self).handlers(), tool_calls@[i], #[trigger] r@[i]),
            final(self).runs().take(old(self).runs().len() as int) == old(self).runs(),
            runs_for(
                old(self).handlers(),
                tool_calls@,
                final(self).runs().skip(old(self).runs().len() as int),
            ),
            forall|i: int| 0 <= i < tool_calls@.len() && old(self).handlers().contains_key(
                (#[trigger] tool_calls@[i]).function.name@,
            ) ==> (r@[i].result matches Some(out) && call_ensures(
                old(self).handlers()[tool_calls@[i].function.name@],
                (final(self).runs()[old(self).runs().len() + run_position(old(self).handlers(), tool_calls@, i)].1,),
                out,
            )),
    {
        proof {
            use_type_invariant(&*self);
        }
        let ghost entries = entries_view(self.handlers@);
        let ghost handlers = self.handlers();
        let ghost start = self.handler_runs@;
        let mut results: Vec<ToolResult> = Vec::new();
        let mut i: usize = 0;
        while i < tool_calls.len()
            invariant
                i <= tool_calls@.len(),
                results@.len() == i,
                entries == entries_view(self.handlers@),
                handlers == handler_map(entries),
                self.definitions == old(self).definitions,
                self.handlers == old(self).handlers,
                handlers == old(self).handlers(),
                start == old(self).runs(),
                distinct_names(entries),
                forall|k: int| 0 <= k < self.handlers@.len() ==> accepts_all_arguments(#[trigger] self.handlers@[k].1),
                forall|k: int| 0 <= k < i ==> scheduled(handlers, tool_calls@[k], #[trigger] results@[k]),
                self.handler_runs@.len() >= start.len(),
                self.handler_runs@.take(start.len() as int) == start,
                runs_for(handlers, tool_calls@.take(i as int), self.handler_runs@.skip(start.len() as int)),
                forall|k: int| 0 <= k < i && handlers.contains_key((#[trigger] tool_calls@[k]).function.name@)
                    ==> (results@[k].result matches Some(out) && call_ensures(
                    handlers[tool_calls@[k].function.name@],
                    (self.handler_runs@[start.len() + run_position(handlers, tool_calls@, k)].1,),
                    out,
                )),
            decreases tool_calls@.len() - i,
        {
            let call = &tool_calls[i];
            let args = parse_json_or_null(call.function.arguments.as_str());
            let name = chars_of(call.function.name.as_str());
            let ghost runs_before = self.handler_runs@;
            let ghost prefix = tool_calls@.take(i as int);
            let ghost next_prefix = tool_calls@.take(i + 1);
            proof {
                assert(next_prefix.drop_last() =~= prefix);
                assert(next_prefix.last() == tool_calls@[i as int]);
            }
            let result = match position_of(&self.handlers, &name) {
                Some(j) => {
                    proof {
                        lemma_handler_map_at(entries, j as int);
                        assert(entries[j as int].0 == name@);
                    }
                    let ghost args_value = args;
                    let out = {
                        let handler = &self.handlers[j].1;
                        handler(args)
                    };
                    proof {
                        self.handler_runs@ = self.handler_runs@.push((name@, args_value));
                        let old_new = runs_before.skip(start.len() as int);
                        let new_runs = self.handler_runs@.skip(start.len() as int);
                        assert(new_runs =~= old_new.push((name@, args_value)));
                        assert(handled_calls(handlers, next_prefix) == handled_calls(handlers, prefix).push(
                            tool_calls@[i as int],
                        ));
                        assert(self.handler_runs@.take(start.len() as int) =~= runs_before.take(start.len() as int));
                        assert(handlers.contains_key(name@));
                        assert(call_ensures(handlers[name@], (args_value,), out));
                        assert forall|k: int| 0 <= k < new_runs.len() implies {
                            &&& (#[trigger] new_runs[k]).0 == handled_calls(handlers, next_prefix)[k].function.name@
                            &&& parsed_or_null(handled_calls(handlers, next_prefix)[k].function.arguments@, new_runs[k].1)
                            &&& handlers.contains_key(new_runs[k].0)
                            &&& exists|o: String| call_ensures(handlers[new_runs[k].0], (new_runs[k].1,), o)
                        } by {
                            if k < new_runs.len() - 1 {
                                assert(new_runs[k] == old_new[k]);
                            } else {
                                assert(new_runs[k] == (name@, args_value));
                            }
                        }
                        assert(self.handler_runs@[start.len() + run_position(handlers, tool_calls@, i as int)] == (name@, args_value));
                        assert forall|k: int| 0 <= k < i && handlers.contains_key((#[trigger] tool_calls@[k]).function.name@)
                            implies self.handler_runs@[start.len() + run_position(handlers, tool_calls@, k)]
                            == runs_before[start.len() + run_position(handlers, tool_calls@, k)] by {
                            lemma_handled_calls_prefix(handlers, tool_calls@, k, i as int);
                        }
                    }
                    ToolResult { tool_call_id: call.id.clone(), result: Some(out), error: None }
                },
                None => {
                    proof {
                        if self.handlers().contains_key(name@) {
                            let k = choose|k: int| 0 <= k < entries.len() && entries[k].0 == name@;
                            assert(entries[k].0 == self.handlers@[k].0@);
                        }
                        assert(handled_calls(handlers, next_prefix) == handled_calls(handlers, prefix));
                        assert(next_prefix.take(i as int) =~= prefix);
                    }
                    let mut message = String::from_str("unknown tool: ");
                    message.append(call.function.name.as_str());
                    ToolResult { tool_call_id: call.id.clone(), result: None, error: Some(message) }
                },
            };
            results.push(result);
            i += 1;
        }
        proof {
            assert(tool_calls@.take(tool_calls@.len() as int) =~= tool_calls@);
        }
        results
    }

    /// The registered definitions, in registration order.
    pub fn definitions(&self) -> (r: &[ToolDef])
        ensures
            r@ == self.tool_definitions(),
    {
        self.definitions.as_slice()
    }
}

/// `after` is `before` once `call` has been scheduled with result
/// `result`: the tools are the same, and the handler named by the call, if
/// one is registered, ran exactly once, on the call's parsed arguments, and
/// gave the result's output.
pub open spec fn ran_call<H: Fn(serde_json::Value) -> String>(
    before: ToolScheduler<H>,
    after: ToolScheduler<H>,
    call: ToolCall,
    result: ToolResult,
) -> bool {
    &&& after.handlers() == before.handlers()
    &&& after.tool_definitions() == before.tool_definitions()
    &&& after.runs().take(before.runs().len() as int) == before.runs()
    &&& runs_for(before.handlers(), seq![call], after.runs().skip(before.runs().len() as int))
    &&& before.handlers().contains_key(call.function.name@) ==> (result.result matches Some(out)
        && call_ensures(before.handlers()[call.function.name@], (after.runs()[before.runs().len() as int].1,), out))
}

/// Registering tools one after another on a new scheduler lists their
/// definitions in registration order, repeated names included: if each
/// state is the one before with a definition registered, the last lists all
/// the definitions registered, in order.
pub proof fn lemma_registration_order<H: Fn(serde_json::Value) -> String>(
    defs: Seq<ToolDef>,
    states: Seq<ToolScheduler<H>>,
)
    requires
        states.len() == defs.len() + 1,
        states[0].tool_definitions().len() == 0,
        forall|i: int| 0 <= i < defs.len() ==> #[trigger] states[i + 1].tool_definitions()
            == states[i].tool_definitions().push(defs[i]),
    ensures
        states.last().tool_definitions() == defs,
{
    assert forall|i: int| 0 <= i <= defs.len() implies #[trigger] states[i].tool_definitions() == defs.take(i) by {
        lemma_registration_prefix(defs, states, i);
    }
    assert(defs.take(defs.len() as int) =~= defs);
}

/// The first `i` registrations list the first `i` definitions.
proof fn lemma_registration_prefix<H: Fn(serde_json::Value) -> String>(
    defs: Seq<ToolDef>,
    states: Seq<ToolScheduler<H>>,
    i: int,
)
    requires
        states.len() == defs.len() + 1,
        states[0].tool_definitions().len() == 0,
        forall|j: int| 0 <= j < defs.len() ==> #[trigger] states[j + 1].tool_definitions()
            == states[j].tool_definitions().push(defs[j]),
        0 <= i <= defs.len(),
    ensures
        states[i].tool_definitions() == defs.take(i),
    decreases i,
{
    if i == 0 {
        assert(defs.take(0) =~= Seq::<ToolDef>::empty());
    } else {
        lemma_registration_prefix(defs, states, i - 1);
        assert(states[(i - 1) + 1].tool_definitions() == states[i - 1].tool_definitions().push(defs[i - 1]));
        assert(defs.take(i) =~= defs.take(i - 1).push(defs[i - 1]));
    }
}

impl<H: Fn(serde_json::Value) -> String> Default for ToolScheduler<H> {
    fn default() -> (r: Self)
        ensures
            r.tool_definitions().len() == 0,
            r.handlers() == Map::<Seq<char>, H>::empty(),
            r.runs().len() == 0,
    {
        Self::new()
    }
}

/// A tool: its definition and the handler that runs it.
pub struct Tool<H: Fn(serde_json::Value) -> String> {
    pub def: ToolDef,
    pub handler: H,
}

} // verus!
