//! Inbound OpenAI Chat Completions SSE event translator: decodes each streamed
//! chunk and turns it into the stream's response events, keeping the state
//! that spans chunks (the response id, the open text message, the tool calls
//! being assembled, token counts).

use vstd::prelude::*;
use std::collections::HashMap;
use crate::clock::now_timestamp_millis;
use crate::common::{ApiError, ResponseEvent, SpecApiError, SpecResponseEvent, TokenUsage, outcome_view, outcomes_view};
use crate::json::{Json, SpecJson, member_lookup, parse_json, parsed_json};
use crate::models::{ContentItem, ResponseItem, SpecContentItem, SpecResponseItem, opt_str_view};
use crate::sse::fields::{
    as_record, field_opt_i64, field_opt_str, field_usize, names2, names3, names4, opt_i64, opt_opt_str_view, opt_str,
    record, req_usize,
};
use crate::sse::poll::{SpecOutcome, SpecSsePoll, SsePoll, SseStep, extend, nothing, one, two, usage, usage_of};
use crate::text::{concat, decimal, i64_to_decimal, same_text};

verus! {

broadcast use vstd::std_specs::hash::group_hash_axioms;

// ---------------------------------------------------------------------------
// Chunks

/// A streamed piece of a tool call's function: its name and arguments.
#[derive(Debug)]
pub struct ChatFunctionDelta {
    pub name: Option<String>,
    pub arguments: Option<String>,
}

/// A streamed piece of a tool call, keyed by its position.
#[derive(Debug)]
pub struct ChatToolCallDelta {
    pub index: usize,
    pub id: Option<String>,
    pub function: Option<ChatFunctionDelta>,
}

/// What one choice of a chunk adds.
#[derive(Debug)]
pub struct ChatDelta {
    pub role: Option<String>,
    pub content: Option<String>,
    pub tool_calls: Option<Vec<ChatToolCallDelta>>,
}

/// One choice of a chunk.
#[derive(Debug)]
pub struct ChatChoice {
    pub delta: ChatDelta,
    pub finish_reason: Option<String>,
}

/// Token counts, when a chunk reports them.
#[derive(Debug)]
pub struct ChatUsage {
    pub prompt_tokens: Option<i64>,
    pub completion_tokens: Option<i64>,
    pub total_tokens: Option<i64>,
}

/// One streamed Chat Completions chunk.
#[derive(Debug)]
pub struct ChatChunk {
    pub id: Option<String>,
    pub model: Option<String>,
    pub choices: Vec<ChatChoice>,
    pub usage: Option<ChatUsage>,
}

pub struct SpecFunctionDelta {
    pub name: Option<Seq<char>>,
    pub arguments: Option<Seq<char>>,
}

pub struct SpecToolCallDelta {
    pub index: usize,
    pub id: Option<Seq<char>>,
    pub function: Option<SpecFunctionDelta>,
}

pub struct SpecChatDelta {
    pub role: Option<Seq<char>>,
    pub content: Option<Seq<char>>,
    pub tool_calls: Option<Seq<SpecToolCallDelta>>,
}

pub struct SpecChatChoice {
    pub delta: SpecChatDelta,
    pub finish_reason: Option<Seq<char>>,
}

pub struct SpecChatUsage {
    pub prompt_tokens: Option<i64>,
    pub completion_tokens: Option<i64>,
    pub total_tokens: Option<i64>,
}

pub struct SpecChatChunk {
    pub id: Option<Seq<char>>,
    pub model: Option<Seq<char>>,
    pub choices: Seq<SpecChatChoice>,
    pub usage: Option<SpecChatUsage>,
}

impl View for ChatFunctionDelta {
    type V = SpecFunctionDelta;

    open spec fn view(&self) -> SpecFunctionDelta {
        SpecFunctionDelta { name: opt_str_view(self.name), arguments: opt_str_view(self.arguments) }
    }
}

impl View for ChatToolCallDelta {
    type V = SpecToolCallDelta;

    open spec fn view(&self) -> SpecToolCallDelta {
        SpecToolCallDelta {
            index: self.index,
            id: opt_str_view(self.id),
            function: match self.function {
                Some(f) => Some(f@),
                None => None,
            },
        }
    }
}

/// The views of a sequence of tool-call pieces.
pub open spec fn tool_deltas_view(s: Seq<ChatToolCallDelta>) -> Seq<SpecToolCallDelta> {
    s.map_values(|t: ChatToolCallDelta| t@)
}

impl View for ChatDelta {
    type V = SpecChatDelta;

    open spec fn view(&self) -> SpecChatDelta {
        SpecChatDelta {
            role: opt_str_view(self.role),
            content: opt_str_view(self.content),
            tool_calls: match self.tool_calls {
                Some(v) => Some(tool_deltas_view(v@)),
                None => None,
            },
        }
    }
}

impl View for ChatChoice {
    type V = SpecChatChoice;

    open spec fn view(&self) -> SpecChatChoice {
        SpecChatChoice { delta: self.delta@, finish_reason: opt_str_view(self.finish_reason) }
    }
}

/// The views of a sequence of choices.
pub open spec fn choices_view(s: Seq<ChatChoice>) -> Seq<SpecChatChoice> {
    s.map_values(|c: ChatChoice| c@)
}

impl View for ChatUsage {
    type V = SpecChatUsage;

    open spec fn view(&self) -> SpecChatUsage {
        SpecChatUsage {
            prompt_tokens: self.prompt_tokens,
            completion_tokens: self.completion_tokens,
            total_tokens: self.total_tokens,
        }
    }
}

impl View for ChatChunk {
    type V = SpecChatChunk;

    open spec fn view(&self) -> SpecChatChunk {
        SpecChatChunk {
            id: opt_str_view(self.id),
            model: opt_str_view(self.model),
            choices: choices_view(self.choices@),
            usage: match self.usage {
                Some(u) => Some(u@),
                None => None,
            },
        }
    }
}

/// A function piece, read as a record.
pub open spec fn function_delta_of(f: SpecJson) -> Option<SpecFunctionDelta> {
    match as_record(f, seq!["name"@, "arguments"@]) {
        Some(f) => {
            match (opt_str(f, "name"@), opt_str(f, "arguments"@)) {
                (Some(name), Some(arguments)) => Some(SpecFunctionDelta { name, arguments }),
                _ => None,
            }
        },
        None => None,
    }
}

/// A tool-call piece, read as a record.
pub open spec fn tool_call_delta_of(t: SpecJson) -> Option<SpecToolCallDelta> {
    match as_record(t, seq!["index"@, "id"@, "function"@]) {
        Some(t) => {
            match (req_usize(t, "index"@), opt_str(t, "id"@)) {
                (Some(index), Some(id)) => match t.get("function"@) {
                    None => Some(SpecToolCallDelta { index, id, function: None }),
                    Some(SpecJson::Null) => Some(SpecToolCallDelta { index, id, function: None }),
                    Some(f) => match function_delta_of(f) {
                        Some(function) => Some(SpecToolCallDelta { index, id, function: Some(function) }),
                        None => None,
                    },
                },
                _ => None,
            }
        },
        None => None,
    }
}

/// Every element of a JSON array read as a tool-call piece; `None` when one
/// does not read.
pub open spec fn tool_call_deltas_of(items: Seq<SpecJson>) -> Option<Seq<SpecToolCallDelta>>
    decreases items.len(),
{
    if items.len() == 0 {
        Some(Seq::empty())
    } else {
        match (tool_call_deltas_of(items.drop_last()), tool_call_delta_of(items.last())) {
            (Some(earlier), Some(t)) => Some(earlier.push(t)),
            _ => None,
        }
    }
}

/// A choice's delta, read as a record.
pub open spec fn delta_of(d: SpecJson) -> Option<SpecChatDelta> {
    match as_record(d, seq!["role"@, "content"@, "tool_calls"@]) {
        Some(d) => {
            let tool_calls: Option<Option<Seq<SpecToolCallDelta>>> = match d.get("tool_calls"@) {
                None => Some(None),
                Some(SpecJson::Null) => Some(None),
                Some(SpecJson::Array(items)) => match tool_call_deltas_of(items) {
                    Some(v) => Some(Some(v)),
                    None => None,
                },
                _ => None,
            };
            match (opt_str(d, "role"@), opt_str(d, "content"@), tool_calls) {
                (Some(role), Some(content), Some(tool_calls)) => Some(SpecChatDelta { role, content, tool_calls }),
                _ => None,
            }
        },
        None => None,
    }
}

/// A choice, read as a record.
pub open spec fn choice_of(c: SpecJson) -> Option<SpecChatChoice> {
    match as_record(c, seq!["delta"@, "finish_reason"@]) {
        Some(c) => {
            match (c.get("delta"@), opt_str(c, "finish_reason"@)) {
                (Some(d), Some(finish_reason)) => match delta_of(d) {
                    Some(delta) => Some(SpecChatChoice { delta, finish_reason }),
                    None => None,
                },
                _ => None,
            }
        },
        None => None,
    }
}

/// Every element of a JSON array read as a choice.
pub open spec fn choices_of(items: Seq<SpecJson>) -> Option<Seq<SpecChatChoice>>
    decreases items.len(),
{
    if items.len() == 0 {
        Some(Seq::empty())
    } else {
        match (choices_of(items.drop_last()), choice_of(items.last())) {
            (Some(earlier), Some(c)) => Some(earlier.push(c)),
            _ => None,
        }
    }
}

/// Token counts, read as a record.
pub open spec fn chat_usage_of(u: SpecJson) -> Option<SpecChatUsage> {
    match as_record(u, seq!["prompt_tokens"@, "completion_tokens"@, "total_tokens"@]) {
        Some(u) => {
            match (opt_i64(u, "prompt_tokens"@), opt_i64(u, "completion_tokens"@), opt_i64(u, "total_tokens"@)) {
                (Some(prompt_tokens), Some(completion_tokens), Some(total_tokens)) => Some(
                    SpecChatUsage { prompt_tokens, completion_tokens, total_tokens },
                ),
                _ => None,
            }
        },
        None => None,
    }
}

/// A chunk, read as a record; `None` where the JSON does not have a
/// chunk's shape (`choices` is required).
pub open spec fn chunk_of(j: SpecJson) -> Option<SpecChatChunk> {
    match as_record(j, seq!["id"@, "model"@, "choices"@, "usage"@]) {
        Some(j) => {
            let choices = match j.get("choices"@) {
                Some(SpecJson::Array(items)) => choices_of(items),
                _ => None,
            };
            let usage: Option<Option<SpecChatUsage>> = match j.get("usage"@) {
                None => Some(None),
                Some(SpecJson::Null) => Some(None),
                Some(u) => match chat_usage_of(u) {
                    Some(u) => Some(Some(u)),
                    None => None,
                },
            };
            match (opt_str(j, "id"@), opt_str(j, "model"@), choices, usage) {
                (Some(id), Some(model), Some(choices), Some(usage)) => Some(SpecChatChunk { id, model, choices, usage }),
                _ => None,
            }
        },
        None => None,
    }
}

/// The chunk that an SSE data payload carries, if it is JSON of a chunk's
/// shape.
pub open spec fn decoded_chunk(data: Seq<char>) -> Option<SpecChatChunk> {
    match parsed_json(data) {
        Some(j) => chunk_of(j),
        None => None,
    }
}

fn decode_function_delta(f: &Json) -> (out: Option<ChatFunctionDelta>)
    ensures
        match out {
            Some(o) => function_delta_of(f@) == Some(o@),
            None => function_delta_of(f@) is None,
        },
{
    match record(f, &names2("name", "arguments")) {
        Some(rec) => {
            let f = &rec;
            match (field_opt_str(f, "name"), field_opt_str(f, "arguments")) {
                (Some(name), Some(arguments)) => Some(ChatFunctionDelta { name, arguments }),
                _ => None,
            }
        },
        None => None,
    }
}

fn decode_tool_call_delta(t: &Json) -> (out: Option<ChatToolCallDelta>)
    ensures
        match out {
            Some(o) => tool_call_delta_of(t@) == Some(o@),
            None => tool_call_delta_of(t@) is None,
        },
{
    match record(t, &names3("index", "id", "function")) {
        Some(rec) => {
            let t = &rec;
            match (field_usize(t, "index"), field_opt_str(t, "id")) {
                (Some(index), Some(id)) => match t.get("function") {
                    None => Some(ChatToolCallDelta { index, id, function: None }),
                    Some(Json::Null) => Some(ChatToolCallDelta { index, id, function: None }),
                    Some(f) => match decode_function_delta(f) {
                        Some(function) => Some(ChatToolCallDelta { index, id, function: Some(function) }),
                        None => None,
                    },
                },
                _ => None,
            }
        },
        None => None,
    }
}

fn decode_tool_call_deltas(items: &Vec<Json>) -> (out: Option<Vec<ChatToolCallDelta>>)
    ensures
        match out {
            Some(v) => tool_call_deltas_of(items@.map_values(|j: Json| j@)) == Some(tool_deltas_view(v@)),
            None => tool_call_deltas_of(items@.map_values(|j: Json| j@)) is None,
        },
{
    let ghost views = items@.map_values(|j: Json| j@);
    let mut out: Vec<ChatToolCallDelta> = Vec::new();
    let mut i: usize = 0;
    while i < items.len()
        invariant
            i <= items.len(),
            views == items@.map_values(|j: Json| j@),
            tool_call_deltas_of(views.take(i as int)) == Some(tool_deltas_view(out@)),
        decreases items.len() - i,
    {
        assert(views.take(i + 1).drop_last() =~= views.take(i as int));
        let ghost before = out@;
        match decode_tool_call_delta(&items[i]) {
            Some(t) => {
                out.push(t);
                assert(tool_deltas_view(out@) =~= tool_deltas_view(before).push(out@.last()@));
            },
            None => {
                proof {
                    lemma_tool_call_deltas_fail(views, i as int + 1);
                    assert(views.take(items.len() as int) =~= views);
                }
                return None;
            },
        }
        i = i + 1;
    }
    assert(views.take(items.len() as int) =~= views);
    Some(out)
}

proof fn lemma_tool_call_deltas_fail(items: Seq<SpecJson>, k: int)
    requires
        0 <= k <= items.len(),
        tool_call_deltas_of(items.take(k)) is None,
    ensures
        tool_call_deltas_of(items) is None,
    decreases items.len() - k,
{
    if k < items.len() {
        assert(items.take(k + 1).drop_last() =~= items.take(k));
        lemma_tool_call_deltas_fail(items, k + 1);
    } else {
        assert(items.take(k) =~= items);
    }
}

proof fn lemma_choices_fail(items: Seq<SpecJson>, k: int)
    requires
        0 <= k <= items.len(),
        choices_of(items.take(k)) is None,
    ensures
        choices_of(items) is None,
    decreases items.len() - k,
{
    if k < items.len() {
        assert(items.take(k + 1).drop_last() =~= items.take(k));
        lemma_choices_fail(items, k + 1);
    } else {
        assert(items.take(k) =~= items);
    }
}

fn decode_delta(d: &Json) -> (out: Option<ChatDelta>)
    ensures
        match out {
            Some(o) => delta_of(d@) == Some(o@),
            None => delta_of(d@) is None,
        },
{
    match record(d, &names3("role", "content", "tool_calls")) {
        Some(rec) => {
            let d = &rec;
            let tool_calls: Option<Option<Vec<ChatToolCallDelta>>> = match d.get("tool_calls") {
                None => Some(None),
                Some(Json::Null) => Some(None),
                Some(Json::Array(items)) => {
                    proof {
                        crate::json::lemma_json_seq_view_map(items@);
                    }
                    match decode_tool_call_deltas(items) {
                        Some(v) => Some(Some(v)),
                        None => None,
                    }
                },
                _ => None,
            };
            match (field_opt_str(d, "role"), field_opt_str(d, "content"), tool_calls) {
                (Some(role), Some(content), Some(tool_calls)) => Some(ChatDelta { role, content, tool_calls }),
                _ => None,
            }
        },
        None => None,
    }
}

fn decode_choice(c: &Json) -> (out: Option<ChatChoice>)
    ensures
        match out {
            Some(o) => choice_of(c@) == Some(o@),
            None => choice_of(c@) is None,
        },
{
    match record(c, &names2("delta", "finish_reason")) {
        Some(rec) => {
            let c = &rec;
            match (c.get("delta"), field_opt_str(c, "finish_reason")) {
                (Some(d), Some(finish_reason)) => match decode_delta(d) {
                    Some(delta) => Some(ChatChoice { delta, finish_reason }),
                    None => None,
                },
                _ => None,
            }
        },
        None => None,
    }
}

fn decode_choices(items: &Vec<Json>) -> (out: Option<Vec<ChatChoice>>)
    ensures
        match out {
            Some(v) => choices_of(items@.map_values(|j: Json| j@)) == Some(choices_view(v@)),
            None => choices_of(items@.map_values(|j: Json| j@)) is None,
        },
{
    let ghost views = items@.map_values(|j: Json| j@);
    let mut out: Vec<ChatChoice> = Vec::new();
    let mut i: usize = 0;
    while i < items.len()
        invariant
            i <= items.len(),
            views == items@.map_values(|j: Json| j@),
            choices_of(views.take(i as int)) == Some(choices_view(out@)),
        decreases items.len() - i,
    {
        assert(views.take(i + 1).drop_last() =~= views.take(i as int));
        let ghost before = out@;
        match decode_choice(&items[i]) {
            Some(c) => {
                out.push(c);
                assert(choices_view(out@) =~= choices_view(before).push(out@.last()@));
            },
            None => {
                proof {
                    lemma_choices_fail(views, i as int + 1);
                    assert(views.take(items.len() as int) =~= views);
                }
                return None;
            },
        }
        i = i + 1;
    }
    assert(views.take(items.len() as int) =~= views);
    Some(out)
}

fn decode_usage(u: &Json) -> (out: Option<ChatUsage>)
    ensures
        match out {
            Some(o) => chat_usage_of(u@) == Some(o@),
            None => chat_usage_of(u@) is None,
        },
{
    match record(u, &names3("prompt_tokens", "completion_tokens", "total_tokens")) {
        Some(rec) => {
            let u = &rec;
            match (
                field_opt_i64(u, "prompt_tokens"),
                field_opt_i64(u, "completion_tokens"),
                field_opt_i64(u, "total_tokens"),
            ) {
                (Some(prompt_tokens), Some(completion_tokens), Some(total_tokens)) => Some(
                    ChatUsage { prompt_tokens, completion_tokens, total_tokens },
                ),
                _ => None,
            }
        },
        None => None,
    }
}

/// Reads a chunk from a JSON value.
pub fn decode_chunk_json(j: &Json) -> (out: Option<ChatChunk>)
    ensures
        match out {
            Some(o) => chunk_of(j@) == Some(o@),
            None => chunk_of(j@) is None,
        },
{
    match record(j, &names4("id", "model", "choices", "usage")) {
        Some(rec) => {
            let j = &rec;
            let choices = match j.get("choices") {
                Some(Json::Array(items)) => {
                    proof {
                        crate::json::lemma_json_seq_view_map(items@);
                    }
                    decode_choices(items)
                },
                _ => None,
            };
            let usage: Option<Option<ChatUsage>> = match j.get("usage") {
                None => Some(None),
                Some(Json::Null) => Some(None),
                Some(u) => match decode_usage(u) {
                    Some(u) => Some(Some(u)),
                    None => None,
                },
            };
            match (field_opt_str(j, "id"), field_opt_str(j, "model"), choices, usage) {
                (Some(id), Some(model), Some(choices), Some(usage)) => Some(ChatChunk { id, model, choices, usage }),
                _ => None,
            }
        },
        None => None,
    }
}

/// Reads the chunk that an SSE data payload carries.
///
/// The payload is read into a JSON value first and the chunk from that
/// value, so where a key is repeated the value is the last one given.
pub fn decode_chunk(data: &str) -> (out: Option<ChatChunk>)
    ensures
        match out {
            Some(o) => decoded_chunk(data@) == Some(o@),
            None => decoded_chunk(data@) is None,
        },
{
    match parse_json(data) {
        Some(j) => decode_chunk_json(&j),
        None => None,
    }
}


// ---------------------------------------------------------------------------
// State

/// A tool call being assembled: its position in the choice's tool calls, and
/// the id, name and argument text received so far.
#[derive(Debug)]
pub struct ToolCallState {
    pub index: usize,
    pub id: String,
    pub name: String,
    pub arguments: String,
}

pub struct SpecToolCallState {
    pub index: usize,
    pub id: Seq<char>,
    pub name: Seq<char>,
    pub arguments: Seq<char>,
}

impl View for ToolCallState {
    type V = SpecToolCallState;

    open spec fn view(&self) -> SpecToolCallState {
        SpecToolCallState { index: self.index, id: self.id@, name: self.name@, arguments: self.arguments@ }
    }
}

/// The tool calls being assembled, by their position in the choice's tool
/// calls, with the positions in the order in which they first appeared (the
/// order in which the calls are finished).
#[derive(Debug)]
struct ToolCalls {
    states: HashMap<usize, ToolCallState>,
    order: Vec<usize>,
}

impl ToolCalls {
    /// Every position appears once in `order`, exactly the positions of
    /// `states` do, and each state records its own position.
    spec fn wf(self) -> bool {
        &&& self.order@.no_duplicates()
        &&& forall|k: usize| self.states@.contains_key(k) <==> self.order@.contains(k)
        &&& states_keyed(self.states@)
    }

    /// The states in the order in which their positions first appeared.
    spec fn tools(self) -> Seq<SpecToolCallState> {
        ordered_states(self.order@, self.states@)
    }

    fn new() -> (t: Self)
        ensures
            t.wf(),
            t.tools() == Seq::<SpecToolCallState>::empty(),
    {
        let t = ToolCalls { states: HashMap::new(), order: Vec::new() };
        assert(t.tools() =~= Seq::<SpecToolCallState>::empty());
        t
    }
}

/// What the translator keeps between chunks: the response id, the open text
/// message, token counts, the tool calls being assembled, and whether a
/// response started.
#[derive(Debug)]
pub struct ChatSseState {
    response_id: String,
    msg_item_id: String,
    input_tokens: i64,
    output_tokens: i64,
    tool_calls: ToolCalls,
    started: bool,
}

impl ChatSseState {
    #[verifier::type_invariant]
    spec fn tool_calls_wf(self) -> bool {
        self.tool_calls.wf()
    }
}

pub struct SpecChatState {
    pub response_id: Seq<char>,
    pub msg_item_id: Seq<char>,
    pub input_tokens: i64,
    pub output_tokens: i64,
    pub tools: Seq<SpecToolCallState>,
    pub started: bool,
}

impl View for ChatSseState {
    type V = SpecChatState;

    closed spec fn view(&self) -> SpecChatState {
        SpecChatState {
            response_id: self.response_id@,
            msg_item_id: self.msg_item_id@,
            input_tokens: self.input_tokens,
            output_tokens: self.output_tokens,
            tools: self.tool_calls.tools(),
            started: self.started,
        }
    }
}

/// The state before the first chunk.
pub open spec fn initial_chat_state() -> SpecChatState {
    SpecChatState {
        response_id: Seq::empty(),
        msg_item_id: Seq::empty(),
        input_tokens: 0,
        output_tokens: 0,
        tools: Seq::empty(),
        started: false,
    }
}

/// The first position at or after `from` of the tool call for `index`.
pub open spec fn find_tool_from(tools: Seq<SpecToolCallState>, index: usize, from: nat) -> Option<nat>
    decreases tools.len() - from,
{
    if from >= tools.len() {
        None
    } else if tools[from as int].index == index {
        Some(from)
    } else {
        find_tool_from(tools, index, from + 1)
    }
}

/// The states of `states` at the positions of `order`, in that order.
spec fn ordered_states(order: Seq<usize>, states: Map<usize, ToolCallState>) -> Seq<SpecToolCallState> {
    order.map_values(|k: usize| states[k]@)
}

/// Each state in `states` records its own position.
spec fn states_keyed(states: Map<usize, ToolCallState>) -> bool {
    forall|k: usize| #[trigger] states.contains_key(k) ==> states[k].index == k
}

proof fn lemma_find_present(order: Seq<usize>, states: Map<usize, ToolCallState>, index: usize, q: int, from: nat)
    requires
        order.no_duplicates(),
        forall|k: usize| states.contains_key(k) <==> order.contains(k),
        states_keyed(states),
        0 <= q < order.len(),
        order[q] == index,
        from <= q,
    ensures
        find_tool_from(ordered_states(order, states), index, from) == Some(q as nat),
    decreases q - from,
{
    let tools = ordered_states(order, states);
    assert(order.contains(order[from as int]));
    assert(states.contains_key(order[from as int]));
    assert(tools[from as int].index == order[from as int]);
    if from < q {
        assert(order[from as int] != index);
        lemma_find_present(order, states, index, q, from + 1);
    }
}

proof fn lemma_find_absent(order: Seq<usize>, states: Map<usize, ToolCallState>, index: usize, from: nat)
    requires
        forall|k: usize| states.contains_key(k) <==> order.contains(k),
        states_keyed(states),
        !order.contains(index),
    ensures
        find_tool_from(ordered_states(order, states), index, from) is None,
    decreases order.len() - from,
{
    let tools = ordered_states(order, states);
    if from < order.len() {
        assert(order.contains(order[from as int]));
        assert(states.contains_key(order[from as int]));
        assert(tools[from as int].index == order[from as int]);
        lemma_find_absent(order, states, index, from + 1);
    }
}

/// The item that a finished tool call becomes.
pub open spec fn function_call_item(t: SpecToolCallState) -> SpecResponseItem {
    SpecResponseItem::FunctionCall { id: Some(t.id), name: t.name, arguments: t.arguments, call_id: t.id }
}

/// The text message item with id `id` and content `content`.
pub open spec fn text_message_item(id: Seq<char>, content: Seq<SpecContentItem>) -> SpecResponseItem {
    SpecResponseItem::Message { id: Some(id), role: "assistant"@, content }
}

/// The tool calls after one piece and what is announced for it. A piece for a
/// new position opens an empty call; an id and a name are taken only while
/// the call has none; taking a name announces the call; arguments accumulate
/// and are announced.
pub open spec fn tool_delta_step(tools: Seq<SpecToolCallState>, td: SpecToolCallDelta) -> (Seq<SpecToolCallState>, Seq<SpecOutcome>) {
    let (tools1, p) = match find_tool_from(tools, td.index, 0) {
        Some(p) => (tools, p as int),
        None => (
            tools.push(SpecToolCallState { index: td.index, id: Seq::empty(), name: Seq::empty(), arguments: Seq::empty() }),
            tools.len() as int,
        ),
    };
    let st = tools1[p];
    let st1 = match td.id {
        Some(id) => if st.id.len() == 0 {
            SpecToolCallState { id, ..st }
        } else {
            st
        },
        None => st,
    };
    let (st2, o) = match td.function {
        None => (st1, Seq::<SpecOutcome>::empty()),
        Some(f) => {
            let (sa, oa) = match f.name {
                Some(name) => if st1.name.len() == 0 {
                    let sn = SpecToolCallState { name, ..st1 };
                    (sn, seq![Ok(SpecResponseEvent::OutputItemAdded(SpecResponseItem::FunctionCall {
                        id: Some(sn.id),
                        name: sn.name,
                        arguments: Seq::empty(),
                        call_id: sn.id,
                    }))])
                } else {
                    (st1, Seq::<SpecOutcome>::empty())
                },
                None => (st1, Seq::<SpecOutcome>::empty()),
            };
            match f.arguments {
                Some(a) => (
                    SpecToolCallState { arguments: sa.arguments + a, ..sa },
                    oa.push(Ok(SpecResponseEvent::ToolCallInputDelta { item_id: sa.id, call_id: Some(sa.id), delta: a })),
                ),
                None => (sa, oa),
            }
        },
    };
    (tools1.update(p, st2), o)
}

/// The tool calls after a list of pieces, in order.
pub open spec fn tool_deltas_step(tools: Seq<SpecToolCallState>, tds: Seq<SpecToolCallDelta>) -> (Seq<SpecToolCallState>, Seq<SpecOutcome>)
    decreases tds.len(),
{
    if tds.len() == 0 {
        (tools, Seq::empty())
    } else {
        let (t1, o1) = tool_deltas_step(tools, tds.drop_last());
        let (t2, o2) = tool_delta_step(t1, tds.last());
        (t2, o1 + o2)
    }
}

/// Finishing every tool call in order when a choice stops for tool calls:
/// the open text message, if any, is finished (with one empty text part)
/// before the first call.
pub open spec fn finalize_tool_calls(msg: Seq<char>, tools: Seq<SpecToolCallState>) -> (Seq<char>, Seq<SpecOutcome>)
    decreases tools.len(),
{
    if tools.len() == 0 {
        (msg, Seq::empty())
    } else {
        let (m1, o1) = finalize_tool_calls(msg, tools.drop_last());
        let call: SpecOutcome = Ok(SpecResponseEvent::OutputItemDone(function_call_item(tools.last())));
        if m1.len() > 0 {
            (Seq::empty(), o1 + seq![
                Ok(SpecResponseEvent::OutputItemDone(text_message_item(m1, seq![SpecContentItem::OutputText { text: Seq::empty() }]))),
                call,
            ])
        } else {
            (m1, o1.push(call))
        }
    }
}

/// The completion events of every tool call, in order.
pub open spec fn tool_calls_done(tools: Seq<SpecToolCallState>) -> Seq<SpecOutcome>
    decreases tools.len(),
{
    if tools.len() == 0 {
        Seq::empty()
    } else {
        tool_calls_done(tools.drop_last()).push(Ok(SpecResponseEvent::OutputItemDone(function_call_item(tools.last()))))
    }
}

/// The state and outcomes after one choice at time `now`: non-empty text
/// opens a message (once) and is announced; tool-call pieces are applied;
/// `tool_calls` finishes every call; `stop` finishes the open message.
pub open spec fn choice_step(s: SpecChatState, c: SpecChatChoice, now: i64) -> (SpecChatState, Seq<SpecOutcome>) {
    let (s1, o1) = match c.delta.content {
        Some(text) => if text.len() > 0 {
            if s.msg_item_id.len() == 0 {
                let id = "msg-"@ + decimal(now as int);
                (SpecChatState { msg_item_id: id, ..s }, seq![
                    Ok(SpecResponseEvent::OutputItemAdded(text_message_item(id, Seq::empty()))),
                    Ok(SpecResponseEvent::OutputTextDelta(text)),
                ])
            } else {
                (s, seq![Ok(SpecResponseEvent::OutputTextDelta(text))])
            }
        } else {
            (s, Seq::<SpecOutcome>::empty())
        },
        None => (s, Seq::<SpecOutcome>::empty()),
    };
    let (s2, o2) = match c.delta.tool_calls {
        Some(tds) => {
            let (t, o) = tool_deltas_step(s1.tools, tds);
            (SpecChatState { tools: t, ..s1 }, o)
        },
        None => (s1, Seq::<SpecOutcome>::empty()),
    };
    let (s3, o3) = if c.finish_reason == Some("tool_calls"@) {
        let (m, o) = finalize_tool_calls(s2.msg_item_id, s2.tools);
        (SpecChatState { msg_item_id: m, tools: Seq::empty(), ..s2 }, o)
    } else {
        (s2, Seq::<SpecOutcome>::empty())
    };
    let (s4, o4) = if c.finish_reason == Some("stop"@) && s3.msg_item_id.len() > 0 {
        (
            SpecChatState { msg_item_id: Seq::empty(), ..s3 },
            seq![Ok(SpecResponseEvent::OutputItemDone(text_message_item(s3.msg_item_id, Seq::empty())))],
        )
    } else {
        (s3, Seq::<SpecOutcome>::empty())
    };
    (s4, o1 + o2 + o3 + o4)
}

/// The state and outcomes after a list of choices, in order.
pub open spec fn choices_step(s: SpecChatState, cs: Seq<SpecChatChoice>, now: i64) -> (SpecChatState, Seq<SpecOutcome>)
    decreases cs.len(),
{
    if cs.len() == 0 {
        (s, Seq::empty())
    } else {
        let (s1, o1) = choices_step(s, cs.drop_last(), now);
        let (s2, o2) = choice_step(s1, cs.last(), now);
        (s2, o1 + o2)
    }
}

/// The state and outcomes after one chunk at time `now`: reported token
/// counts replace the kept ones; the first id starts the response; a
/// non-empty model is announced once, on the chunk that starts the response;
/// then the choices apply.
pub open spec fn chunk_step(s: SpecChatState, c: SpecChatChunk, now: i64) -> (SpecChatState, Seq<SpecOutcome>) {
    let s1 = match c.usage {
        Some(u) => SpecChatState {
            input_tokens: match u.prompt_tokens {
                Some(p) => p,
                None => s.input_tokens,
            },
            output_tokens: match u.completion_tokens {
                Some(p) => p,
                None => s.output_tokens,
            },
            ..s
        },
        None => s,
    };
    let starts = c.id is Some && s1.response_id.len() == 0;
    let s2 = if starts {
        SpecChatState { response_id: c.id.unwrap(), started: true, ..s1 }
    } else {
        s1
    };
    let o2: Seq<SpecOutcome> = if starts {
        seq![Ok(SpecResponseEvent::Created)]
    } else {
        Seq::empty()
    };
    let o3: Seq<SpecOutcome> = match c.model {
        Some(m) => if starts && m.len() > 0 {
            seq![Ok(SpecResponseEvent::ServerModel(m))]
        } else {
            Seq::empty()
        },
        None => Seq::empty(),
    };
    let (s4, o4) = choices_step(s2, c.choices, now);
    (s4, o2 + o3 + o4)
}

/// The completion event for the response seen so far.
pub open spec fn chat_completed(s: SpecChatState) -> SpecOutcome {
    Ok(SpecResponseEvent::Completed {
        response_id: s.response_id,
        token_usage: Some(usage_of(s.input_tokens, s.output_tokens)),
        end_turn: Some(true),
    })
}

/// The state, the outcomes and whether the stream is over, after one poll at
/// time `now`. A stream failure or an idle timeout ends the stream with an
/// error; the end of the stream completes the response once one started and
/// is an error otherwise; `[DONE]` finishes every tool call, then the open
/// message, then completes; a payload that is not a chunk changes nothing.
pub open spec fn chat_step(s: SpecChatState, poll: SpecSsePoll, now: i64) -> (SpecChatState, Seq<SpecOutcome>, bool) {
    match poll {
        SpecSsePoll::StreamError(m) => (s, seq![Err(SpecApiError::Stream(m))], true),
        SpecSsePoll::Closed => if s.started {
            (s, seq![chat_completed(s)], true)
        } else {
            (s, seq![Err(SpecApiError::Stream("stream closed before any data"@))], true)
        },
        SpecSsePoll::IdleTimeout => (s, seq![Err(SpecApiError::Stream("idle timeout waiting for SSE"@))], true),
        SpecSsePoll::Event { data, .. } => if data == "[DONE]"@ {
            let message_done: Seq<SpecOutcome> = if s.msg_item_id.len() > 0 {
                seq![Ok(SpecResponseEvent::OutputItemDone(text_message_item(s.msg_item_id, Seq::empty())))]
            } else {
                Seq::empty()
            };
            (
                SpecChatState { tools: Seq::empty(), ..s },
                tool_calls_done(s.tools) + message_done + seq![chat_completed(s)],
                true,
            )
        } else {
            match decoded_chunk(data) {
                Some(c) => {
                    let (s1, o) = chunk_step(s, c, now);
                    (s1, o, false)
                },
                None => (s, Seq::empty(), false),
            }
        },
    }
}


fn function_call(t: &ToolCallState) -> (item: ResponseItem)
    ensures
        item@ == function_call_item(t@),
{
    ResponseItem::FunctionCall {
        id: Some(t.id.clone()),
        name: t.name.clone(),
        arguments: t.arguments.clone(),
        call_id: t.id.clone(),
    }
}

fn text_message(id: &String, with_empty_text: bool) -> (item: ResponseItem)
    ensures
        item@ == text_message_item(
            id@,
            if with_empty_text {
                seq![SpecContentItem::OutputText { text: Seq::empty() }]
            } else {
                Seq::empty()
            },
        ),
{
    let content = if with_empty_text {
        vec![ContentItem::OutputText { text: String::new() }]
    } else {
        Vec::new()
    };
    let item = ResponseItem::Message { id: Some(id.clone()), role: String::from_str("assistant"), content };
    if with_empty_text {
        assert(content@.map_values(|c: ContentItem| c@) =~= seq![SpecContentItem::OutputText { text: Seq::empty() }]);
    } else {
        assert(content@.map_values(|c: ContentItem| c@) =~= Seq::<SpecContentItem>::empty());
    }
    item
}

impl ChatSseState {
    /// The state before the first chunk.
    pub fn new() -> (s: Self)
        ensures
            s@ == initial_chat_state(),
    {
        let s = ChatSseState {
            response_id: String::new(),
            msg_item_id: String::new(),
            input_tokens: 0,
            output_tokens: 0,
            tool_calls: ToolCalls::new(),
            started: false,
        };
        assert(s@.tools =~= Seq::<SpecToolCallState>::empty());
        s
    }

    fn apply_tool_delta(&mut self, td: &ChatToolCallDelta) -> (out: Vec<Result<ResponseEvent, ApiError>>)
        ensures
            tool_delta_step(old(self)@.tools, td@) == (final(self)@.tools, outcomes_view(out@)),
            final(self)@ == (SpecChatState { tools: final(self)@.tools, ..old(self)@ }),
    {
        proof {
            use_type_invariant(&*self);
        }
        let ghost s0 = self@;
        let mut calls = ToolCalls::new();
        std::mem::swap(&mut calls, &mut self.tool_calls);
        let ghost order0 = calls.order@;
        let ghost states0 = calls.states@;
        assert(calls.tools() == s0.tools);
        let ghost p: int;
        let ghost tools1: Seq<SpecToolCallState>;
        let mut st = match calls.states.remove(&td.index) {
            Some(st) => {
                proof {
                    assert(states0.contains_key(td.index));
                    assert(order0.contains(td.index));
                    p = choose|q: int| 0 <= q < order0.len() && order0[q] == td.index;
                    lemma_find_present(order0, states0, td.index, p, 0);
                    tools1 = s0.tools;
                    assert(tools1[p] == states0[td.index]@);
                }
                st
            },
            None => {
                proof {
                    assert(!order0.contains(td.index));
                    lemma_find_absent(order0, states0, td.index, 0);
                    p = order0.len() as int;
                    tools1 = s0.tools.push(SpecToolCallState {
                        index: td.index,
                        id: Seq::empty(),
                        name: Seq::empty(),
                        arguments: Seq::empty(),
                    });
                }
                calls.order.push(td.index);
                ToolCallState { index: td.index, id: String::new(), name: String::new(), arguments: String::new() }
            },
        };
        assert(st@ == tools1[p]);
        match &td.id {
            Some(id) => {
                if st.id.as_str().is_empty() {
                    st.id = id.clone();
                }
            },
            None => {},
        }
        let mut out = nothing();
        match &td.function {
            None => {},
            Some(f) => {
                match &f.name {
                    Some(name) => {
                        if st.name.as_str().is_empty() {
                            st.name = name.clone();
                            let item = ResponseItem::FunctionCall {
                                id: Some(st.id.clone()),
                                name: st.name.clone(),
                                arguments: String::new(),
                                call_id: st.id.clone(),
                            };
                            out = one(Ok(ResponseEvent::OutputItemAdded(item)));
                        }
                    },
                    None => {},
                }
                match &f.arguments {
                    Some(a) => {
                        st.arguments.append(a.as_str());
                        let event = ResponseEvent::ToolCallInputDelta {
                            item_id: st.id.clone(),
                            call_id: Some(st.id.clone()),
                            delta: a.clone(),
                        };
                        extend(&mut out, one(Ok(event)));
                    },
                    None => {},
                }
            },
        }
        let ghost st2 = st@;
        calls.states.insert(td.index, st);
        proof {
            let order1 = calls.order@;
            let states1 = calls.states@;
            assert(states1 == states0.insert(td.index, states1[td.index]));
            assert(order1.no_duplicates());
            assert forall|k: usize| states1.contains_key(k) <==> order1.contains(k) by {
                if order1.contains(k) && k != td.index {
                    let j = choose|j: int| 0 <= j < order1.len() && order1[j] == k;
                    assert(order0[j] == k);
                }
                if order0.contains(k) {
                    let j = choose|j: int| 0 <= j < order0.len() && order0[j] == k;
                    assert(order1[j] == k);
                }
                if k == td.index {
                    assert(order1[p] == k);
                }
            }
            assert(calls.tools() =~= tools1.update(p, st2));
        }
        self.tool_calls = calls;
        out
    }

    fn apply_tool_deltas(&mut self, tds: &Vec<ChatToolCallDelta>) -> (out: Vec<Result<ResponseEvent, ApiError>>)
        ensures
            tool_deltas_step(old(self)@.tools, tool_deltas_view(tds@)) == (final(self)@.tools, outcomes_view(out@)),
            final(self)@ == (SpecChatState { tools: final(self)@.tools, ..old(self)@ }),
    {
        let ghost s0 = self@;
        let ghost views = tool_deltas_view(tds@);
        let mut out = nothing();
        let mut i: usize = 0;
        while i < tds.len()
            invariant
                i <= tds.len(),
                views == tool_deltas_view(tds@),
                tool_deltas_step(s0.tools, views.take(i as int)) == (self@.tools, outcomes_view(out@)),
                self@ == (SpecChatState { tools: self@.tools, ..s0 }),
            decreases tds.len() - i,
        {
            assert(views.take(i + 1).drop_last() =~= views.take(i as int));
            let more = self.apply_tool_delta(&tds[i]);
            extend(&mut out, more);
            i = i + 1;
        }
        assert(views.take(tds.len() as int) =~= views);
        out
    }

    fn finish_tool_calls(&mut self) -> (out: Vec<Result<ResponseEvent, ApiError>>)
        ensures
            finalize_tool_calls(old(self)@.msg_item_id, old(self)@.tools) == (final(self)@.msg_item_id, outcomes_view(out@)),
            final(self)@ == (SpecChatState { msg_item_id: final(self)@.msg_item_id, tools: Seq::empty(), ..old(self)@ }),
    {
        proof {
            use_type_invariant(&*self);
        }
        let ghost s0 = self@;
        let mut out = nothing();
        let mut i: usize = 0;
        while i < self.tool_calls.order.len()
            invariant
                i <= self.tool_calls.order.len(),
                self.tool_calls.wf(),
                self.tool_calls.tools() == s0.tools,
                finalize_tool_calls(s0.msg_item_id, s0.tools.take(i as int)) == (self@.msg_item_id, outcomes_view(out@)),
                self@ == (SpecChatState { msg_item_id: self@.msg_item_id, ..s0 }),
            decreases self.tool_calls.order.len() - i,
        {
            assert(s0.tools.take(i + 1).drop_last() =~= s0.tools.take(i as int));
            if !self.msg_item_id.as_str().is_empty() {
                let m = text_message(&self.msg_item_id, true);
                extend(&mut out, one(Ok(ResponseEvent::OutputItemDone(m))));
                self.msg_item_id = String::new();
            }
            let k = self.tool_calls.order[i];
            assert(self.tool_calls.order@.contains(k));
            match self.tool_calls.states.get(&k) {
                Some(st) => {
                    let call = function_call(st);
                    extend(&mut out, one(Ok(ResponseEvent::OutputItemDone(call))));
                },
                None => {},
            }
            i = i + 1;
        }
        assert(s0.tools.take(self.tool_calls.order.len() as int) =~= s0.tools);
        self.tool_calls = ToolCalls::new();
        out
    }

    /// The completion events of every tool call, in order; the calls are
    /// then dropped.
    fn drain_tool_calls(&mut self) -> (out: Vec<Result<ResponseEvent, ApiError>>)
        ensures
            tool_calls_done(old(self)@.tools) == outcomes_view(out@),
            final(self)@ == (SpecChatState { tools: Seq::empty(), ..old(self)@ }),
    {
        proof {
            use_type_invariant(&*self);
        }
        let ghost s0 = self@;
        let mut out = nothing();
        let mut i: usize = 0;
        while i < self.tool_calls.order.len()
            invariant
                i <= self.tool_calls.order.len(),
                self.tool_calls.wf(),
                self@ == s0,
                tool_calls_done(s0.tools.take(i as int)) == outcomes_view(out@),
            decreases self.tool_calls.order.len() - i,
        {
            assert(s0.tools.take(i + 1).drop_last() =~= s0.tools.take(i as int));
            let k = self.tool_calls.order[i];
            assert(self.tool_calls.order@.contains(k));
            match self.tool_calls.states.get(&k) {
                Some(st) => {
                    let call = function_call(st);
                    extend(&mut out, one(Ok(ResponseEvent::OutputItemDone(call))));
                },
                None => {},
            }
            i = i + 1;
        }
        assert(s0.tools.take(self.tool_calls.order.len() as int) =~= s0.tools);
        self.tool_calls = ToolCalls::new();
        out
    }

    fn apply_choice(&mut self, c: &ChatChoice, now: i64) -> (out: Vec<Result<ResponseEvent, ApiError>>)
        ensures
            choice_step(old(self)@, c@, now) == (final(self)@, outcomes_view(out@)),
    {
        proof {
            use_type_invariant(&*self);
        }
        let mut out = nothing();
        match &c.delta.content {
            Some(text) => {
                if !text.as_str().is_empty() {
                    if self.msg_item_id.as_str().is_empty() {
                        let mut id = String::from_str("msg-");
                        let t = i64_to_decimal(now);
                        id.append(t.as_str());
                        self.msg_item_id = id;
                        let m = text_message(&self.msg_item_id, false);
                        out = two(Ok(ResponseEvent::OutputItemAdded(m)), Ok(ResponseEvent::OutputTextDelta(text.clone())));
                    } else {
                        out = one(Ok(ResponseEvent::OutputTextDelta(text.clone())));
                    }
                }
            },
            None => {},
        }
        match &c.delta.tool_calls {
            Some(tds) => {
                let more = self.apply_tool_deltas(tds);
                extend(&mut out, more);
            },
            None => {},
        }
        let (is_tool_calls, is_stop) = match &c.finish_reason {
            Some(r) => (same_text(r.as_str(), "tool_calls"), same_text(r.as_str(), "stop")),
            None => (false, false),
        };
        if is_tool_calls {
            let more = self.finish_tool_calls();
            extend(&mut out, more);
        }
        proof {
            use_type_invariant(&*self);
        }
        if is_stop && !self.msg_item_id.as_str().is_empty() {
            let m = text_message(&self.msg_item_id, false);
            extend(&mut out, one(Ok(ResponseEvent::OutputItemDone(m))));
            self.msg_item_id = String::new();
        }
        out
    }

    fn apply_chunk(&mut self, chunk: &ChatChunk, now: i64) -> (out: Vec<Result<ResponseEvent, ApiError>>)
        ensures
            chunk_step(old(self)@, chunk@, now) == (final(self)@, outcomes_view(out@)),
    {
        proof {
            use_type_invariant(&*self);
        }
        match &chunk.usage {
            Some(u) => {
                match u.prompt_tokens {
                    Some(p) => self.input_tokens = p,
                    None => {},
                }
                match u.completion_tokens {
                    Some(p) => self.output_tokens = p,
                    None => {},
                }
            },
            None => {},
        }
        let mut out = nothing();
        let mut starts = false;
        match &chunk.id {
            Some(id) => {
                if self.response_id.as_str().is_empty() {
                    self.response_id = id.clone();
                    out = one(Ok(ResponseEvent::Created));
                    self.started = true;
                    starts = true;
                }
            },
            None => {},
        }
        match &chunk.model {
            Some(model) => {
                if starts && !model.as_str().is_empty() {
                    extend(&mut out, one(Ok(ResponseEvent::ServerModel(model.clone()))));
                }
            },
            None => {},
        }
        let ghost s2 = self@;
        let ghost cs = choices_view(chunk.choices@);
        let ghost o_before = outcomes_view(out@);
        let mut i: usize = 0;
        while i < chunk.choices.len()
            invariant
                i <= chunk.choices.len(),
                cs == choices_view(chunk.choices@),
                choices_step(s2, cs.take(i as int), now) == (self@, outcomes_view(out@).skip(o_before.len() as int)),
                outcomes_view(out@).take(o_before.len() as int) == o_before,
                o_before.len() <= outcomes_view(out@).len(),
            decreases chunk.choices.len() - i,
        {
            assert(cs.take(i + 1).drop_last() =~= cs.take(i as int));
            let ghost prev = outcomes_view(out@);
            let more = self.apply_choice(&chunk.choices[i], now);
            extend(&mut out, more);
            assert(outcomes_view(out@).skip(o_before.len() as int) =~= prev.skip(o_before.len() as int) + outcomes_view(more@));
            assert(outcomes_view(out@).take(o_before.len() as int) =~= prev.take(o_before.len() as int));
            i = i + 1;
        }
        assert(cs.take(chunk.choices.len() as int) =~= cs);
        assert(outcomes_view(out@) =~= o_before + outcomes_view(out@).skip(o_before.len() as int));
        out
    }

    fn completed(&self) -> (o: Result<ResponseEvent, ApiError>)
        ensures
            outcome_view(o) == chat_completed(self@),
    {
        Ok(ResponseEvent::Completed {
            response_id: self.response_id.clone(),
            token_usage: Some(usage(self.input_tokens, self.output_tokens)),
            end_turn: Some(true),
        })
    }

    /// Handles one poll of the event stream at time `now_millis`.
    pub fn handle_at(&mut self, poll: SsePoll, now_millis: i64) -> (step: SseStep)
        ensures
            chat_step(old(self)@, poll@, now_millis) == (final(self)@, outcomes_view(step.outcomes@), step.finished),
    {
        match poll {
            SsePoll::StreamError(m) => SseStep { outcomes: one(Err(ApiError::Stream(m))), finished: true },
            SsePoll::Closed => {
                if self.started {
                    let c = self.completed();
                    SseStep { outcomes: one(c), finished: true }
                } else {
                    let m = String::from_str("stream closed before any data");
                    SseStep { outcomes: one(Err(ApiError::Stream(m))), finished: true }
                }
            },
            SsePoll::IdleTimeout => {
                let m = String::from_str("idle timeout waiting for SSE");
                SseStep { outcomes: one(Err(ApiError::Stream(m))), finished: true }
            },
            SsePoll::Event { event: _, data } => {
                if same_text(data.as_str(), "[DONE]") {
                    let completed = self.completed();
                    let mut out = self.drain_tool_calls();
                    if !self.msg_item_id.as_str().is_empty() {
                        let m = text_message(&self.msg_item_id, false);
                        extend(&mut out, one(Ok(ResponseEvent::OutputItemDone(m))));
                    }
                    extend(&mut out, one(completed));
                    return SseStep { outcomes: out, finished: true };
                }
                match decode_chunk(data.as_str()) {
                    Some(c) => {
                        let out = self.apply_chunk(&c, now_millis);
                        SseStep { outcomes: out, finished: false }
                    },
                    None => SseStep { outcomes: nothing(), finished: false },
                }
            },
        }
    }

    /// Handles one poll of the event stream, reading the clock for the
    /// identifier of a newly opened message.
    pub fn handle(&mut self, poll: SsePoll) -> (step: SseStep)
        ensures
            exists|now: i64| chat_step(old(self)@, poll@, now) == (final(self)@, outcomes_view(step.outcomes@), step.finished),
    {
        let now = now_timestamp_millis();
        self.handle_at(poll, now)
    }
}


// ---------------------------------------------------------------------------
// Laws

proof fn lemma_choices_keep_counts(s: SpecChatState, cs: Seq<SpecChatChoice>, now: i64)
    ensures
        choices_step(s, cs, now).0.input_tokens == s.input_tokens,
        choices_step(s, cs, now).0.output_tokens == s.output_tokens,
        choices_step(s, cs, now).0.response_id == s.response_id,
    decreases cs.len(),
{
    if cs.len() > 0 {
        lemma_choices_keep_counts(s, cs.drop_last(), now);
    }
}

/// Token usage is propagated: when a chunk reports prompt and completion
/// token counts, the `[DONE]` that follows ends the stream with the
/// completion of the response under its id, carrying those counts and their
/// sum.
pub proof fn lemma_chat_usage_reported(
    s: SpecChatState,
    chunk: SpecChatChunk,
    event: Seq<char>,
    prompt_tokens: i64,
    completion_tokens: i64,
    now: i64,
)
    requires
        chunk.usage matches Some(u) && u.prompt_tokens == Some(prompt_tokens) && u.completion_tokens == Some(completion_tokens),
    ensures
        ({
            let (s1, _) = chunk_step(s, chunk, now);
            let (_, o, finished) = chat_step(s1, SpecSsePoll::Event { event, data: "[DONE]"@ }, now);
            &&& finished
            &&& o.last() == Ok::<SpecResponseEvent, SpecApiError>(SpecResponseEvent::Completed {
                response_id: s1.response_id,
                token_usage: Some(usage_of(prompt_tokens, completion_tokens)),
                end_turn: Some(true),
            })
        }),
{
    let (s1, _) = chunk_step(s, chunk, now);
    let s0 = SpecChatState { input_tokens: prompt_tokens, output_tokens: completion_tokens, ..s };
    let s2 = if chunk.id is Some && s0.response_id.len() == 0 {
        SpecChatState { response_id: chunk.id.unwrap(), started: true, ..s0 }
    } else {
        s0
    };
    lemma_choices_keep_counts(s2, chunk.choices, now);
    assert(s1.input_tokens == prompt_tokens && s1.output_tokens == completion_tokens);
}

/// Pieces for tool call `index` that carry only argument text.
pub open spec fn argument_pieces(index: usize, parts: Seq<Seq<char>>) -> Seq<SpecToolCallDelta> {
    parts.map_values(|p: Seq<char>| SpecToolCallDelta {
        index,
        id: None,
        function: Some(SpecFunctionDelta { name: None, arguments: Some(p) }),
    })
}

/// What each argument piece announces.
pub open spec fn argument_announcements(id: Seq<char>, parts: Seq<Seq<char>>) -> Seq<SpecOutcome> {
    parts.map_values(|p: Seq<char>| Ok(SpecResponseEvent::ToolCallInputDelta { item_id: id, call_id: Some(id), delta: p }))
}

proof fn lemma_arguments_accumulate(index: usize, id: Seq<char>, name: Seq<char>, parts: Seq<Seq<char>>)
    ensures
        ({
            let first = SpecToolCallDelta {
                index,
                id: Some(id),
                function: Some(SpecFunctionDelta { name: Some(name), arguments: None }),
            };
            let (tools, o) = tool_deltas_step(Seq::empty(), seq![first] + argument_pieces(index, parts));
            &&& tools == seq![SpecToolCallState { index, id, name, arguments: concat(parts) }]
            &&& o == seq![Ok(SpecResponseEvent::OutputItemAdded(SpecResponseItem::FunctionCall {
                id: Some(id),
                name,
                arguments: Seq::empty(),
                call_id: id,
            }))] + argument_announcements(id, parts)
        }),
    decreases parts.len(),
{
    let first = SpecToolCallDelta {
        index,
        id: Some(id),
        function: Some(SpecFunctionDelta { name: Some(name), arguments: None }),
    };
    let pieces = seq![first] + argument_pieces(index, parts);
    if parts.len() == 0 {
        assert(pieces =~= seq![first]);
        assert(pieces.drop_last() =~= Seq::<SpecToolCallDelta>::empty());
        let fresh = SpecToolCallState { index, id: Seq::empty(), name: Seq::empty(), arguments: Seq::empty() };
        assert(find_tool_from(Seq::<SpecToolCallState>::empty(), index, 0) is None);
        assert(seq![fresh].update(0, SpecToolCallState { index, id, name, arguments: Seq::empty() }) =~= seq![SpecToolCallState { index, id, name, arguments: concat(parts) }]);
        assert(argument_announcements(id, parts) =~= Seq::<SpecOutcome>::empty());
        assert(tool_deltas_step(Seq::empty(), Seq::<SpecToolCallDelta>::empty()) == (Seq::<SpecToolCallState>::empty(), Seq::<SpecOutcome>::empty()));
        let (t0, o0) = tool_delta_step(Seq::empty(), first);
        assert(o0 =~= seq![Ok::<SpecResponseEvent, SpecApiError>(SpecResponseEvent::OutputItemAdded(SpecResponseItem::FunctionCall {
            id: Some(id),
            name,
            arguments: Seq::empty(),
            call_id: id,
        }))]);
        let (t, o) = tool_deltas_step(Seq::empty(), pieces);
        assert(o =~= Seq::<SpecOutcome>::empty() + o0);
        assert(o =~= seq![Ok(SpecResponseEvent::OutputItemAdded(SpecResponseItem::FunctionCall {
            id: Some(id),
            name,
            arguments: Seq::empty(),
            call_id: id,
        }))] + argument_announcements(id, parts));
    } else {
        let init = parts.drop_last();
        lemma_arguments_accumulate(index, id, name, init);
        assert(pieces.drop_last() =~= seq![first] + argument_pieces(index, init));
        let (t1, o1) = tool_deltas_step(Seq::empty(), seq![first] + argument_pieces(index, init));
        assert(find_tool_from(t1, index, 0) == Some(0nat));
        assert(concat(init) + parts.last() =~= concat(parts));
        assert(argument_announcements(id, parts) =~= argument_announcements(id, init).push(
            Ok(SpecResponseEvent::ToolCallInputDelta { item_id: id, call_id: Some(id), delta: parts.last() }),
        ));
        let (t2, o2) = tool_deltas_step(Seq::empty(), pieces);
        assert(t2 =~= seq![SpecToolCallState { index, id, name, arguments: concat(parts) }]);
        assert(o2 =~= seq![Ok(SpecResponseEvent::OutputItemAdded(SpecResponseItem::FunctionCall {
            id: Some(id),
            name,
            arguments: Seq::empty(),
            call_id: id,
        }))] + argument_announcements(id, parts));
    }
}

/// A tool call's arguments are assembled from its streamed pieces: when a
/// call at position `index` is opened with its id and name and then receives
/// argument `parts`, the stream announces the call, then each piece; when the
/// choice then stops for tool calls, the finished call carries the pieces
/// joined in order.
pub proof fn lemma_tool_arguments_assembled(index: usize, id: Seq<char>, name: Seq<char>, parts: Seq<Seq<char>>)
    ensures
        ({
            let first = SpecToolCallDelta {
                index,
                id: Some(id),
                function: Some(SpecFunctionDelta { name: Some(name), arguments: None }),
            };
            let (tools, o) = tool_deltas_step(Seq::empty(), seq![first] + argument_pieces(index, parts));
            &&& o == seq![Ok(SpecResponseEvent::OutputItemAdded(SpecResponseItem::FunctionCall {
                id: Some(id),
                name,
                arguments: Seq::empty(),
                call_id: id,
            }))] + argument_announcements(id, parts)
            &&& finalize_tool_calls(Seq::empty(), tools) == (
                Seq::<char>::empty(),
                seq![Ok::<SpecResponseEvent, SpecApiError>(SpecResponseEvent::OutputItemDone(SpecResponseItem::FunctionCall {
                    id: Some(id),
                    name,
                    arguments: concat(parts),
                    call_id: id,
                }))],
            )
        }),
{
    lemma_arguments_accumulate(index, id, name, parts);
    let t = seq![SpecToolCallState { index, id, name, arguments: concat(parts) }];
    assert(t.drop_last() =~= Seq::<SpecToolCallState>::empty());
    assert(finalize_tool_calls(Seq::empty(), Seq::<SpecToolCallState>::empty()) == (Seq::<char>::empty(), Seq::<SpecOutcome>::empty()));
    let (m, o) = finalize_tool_calls(Seq::empty(), t);
    assert(o =~= seq![Ok::<SpecResponseEvent, SpecApiError>(SpecResponseEvent::OutputItemDone(function_call_item(t.last())))]);
}

/// Within one choice, text is announced before the finish reason acts: a
/// choice whose delta carries non-empty text `t` and no tool calls, and that
/// stops, announces `t` in the open message (opening one at `now` when none
/// is open) and then finishes that same message, leaving none open and the
/// tool calls as they were.
pub proof fn lemma_text_then_stop(s: SpecChatState, c: SpecChatChoice, t: Seq<char>, now: i64)
    requires
        c.delta.content == Some(t),
        t.len() > 0,
        c.delta.tool_calls is None,
        c.finish_reason == Some("stop"@),
    ensures
        ({
            let (s2, o) = choice_step(s, c, now);
            let open = s.msg_item_id.len() > 0;
            let id = if open { s.msg_item_id } else { "msg-"@ + decimal(now as int) };
            let message = text_message_item(id, Seq::empty());
            &&& s2.msg_item_id.len() == 0
            &&& s2.tools == s.tools
            &&& o == (if open {
                Seq::<SpecOutcome>::empty()
            } else {
                seq![Ok(SpecResponseEvent::OutputItemAdded(message))]
            }) + seq![Ok(SpecResponseEvent::OutputTextDelta(t)), Ok(SpecResponseEvent::OutputItemDone(message))]
        }),
{
    reveal_strlit("stop");
    reveal_strlit("tool_calls");
    reveal_strlit("msg-");
    assert(("stop"@).len() != ("tool_calls"@).len());
    assert(("msg-"@ + decimal(now as int)).len() > 0);
    let (s2, o) = choice_step(s, c, now);
    let open = s.msg_item_id.len() > 0;
    let id = if open { s.msg_item_id } else { "msg-"@ + decimal(now as int) };
    let message = text_message_item(id, Seq::empty());
    if open {
        assert(o =~= seq![Ok(SpecResponseEvent::OutputTextDelta(t)), Ok(SpecResponseEvent::OutputItemDone(message))]);
        assert(o =~= Seq::<SpecOutcome>::empty() + seq![
            Ok(SpecResponseEvent::OutputTextDelta(t)),
            Ok(SpecResponseEvent::OutputItemDone(message)),
        ]);
    } else {
        assert(o =~= seq![
            Ok(SpecResponseEvent::OutputItemAdded(message)),
            Ok(SpecResponseEvent::OutputTextDelta(t)),
            Ok(SpecResponseEvent::OutputItemDone(message)),
        ]);
    }
}

proof fn lemma_lookup_after_push(members: Seq<(Seq<char>, SpecJson)>, key: Seq<char>, v: SpecJson, k: Seq<char>)
    requires
        member_lookup(members, key) is None,
    ensures
        member_lookup(members.push((key, v)), k) == if k == key {
            Some(v)
        } else {
            member_lookup(members, k)
        },
    decreases members.len(),
{
    let pushed = members.push((key, v));
    if members.len() > 0 {
        assert(members[0].0 != key);
        assert(pushed[0] == members[0]);
        assert(pushed.drop_first() =~= members.drop_first().push((key, v)));
        if members[0].0 != k {
            lemma_lookup_after_push(members.drop_first(), key, v, k);
            assert(member_lookup(pushed, k) == member_lookup(pushed.drop_first(), k));
            assert(member_lookup(members, k) == member_lookup(members.drop_first(), k));
        }
    } else {
        assert(pushed[0] == (key, v));
        assert(pushed.drop_first() =~= Seq::<(Seq<char>, SpecJson)>::empty());
        assert(member_lookup(Seq::<(Seq<char>, SpecJson)>::empty(), k) is None);
    }
}

/// An optional field given as `null` reads as if it were missing: adding
/// `null` under `role`, `content` or `tool_calls` to a delta object that lacks
/// the key leaves what the delta reads as unchanged (so a delta with
/// `"content": null` reads with no content, like one without it).
pub proof fn lemma_null_field_is_missing(members: Seq<(Seq<char>, SpecJson)>, key: Seq<char>)
    requires
        key == "role"@ || key == "content"@ || key == "tool_calls"@,
        member_lookup(members, key) is None,
    ensures
        delta_of(SpecJson::Object(members.push((key, SpecJson::Null)))) == delta_of(SpecJson::Object(members)),
{
    reveal_strlit("role");
    reveal_strlit("content");
    reveal_strlit("tool_calls");
    lemma_lookup_after_push(members, key, SpecJson::Null, "role"@);
    lemma_lookup_after_push(members, key, SpecJson::Null, "content"@);
    lemma_lookup_after_push(members, key, SpecJson::Null, "tool_calls"@);
}

/// The same holds of a choice's `finish_reason`: `null` reads as missing.
pub proof fn lemma_null_finish_reason_is_missing(members: Seq<(Seq<char>, SpecJson)>)
    requires
        member_lookup(members, "finish_reason"@) is None,
    ensures
        choice_of(SpecJson::Object(members.push(("finish_reason"@, SpecJson::Null)))) == choice_of(
            SpecJson::Object(members),
        ),
{
    reveal_strlit("finish_reason");
    reveal_strlit("delta");
    lemma_lookup_after_push(members, "finish_reason"@, SpecJson::Null, "delta"@);
    lemma_lookup_after_push(members, "finish_reason"@, SpecJson::Null, "finish_reason"@);
}

/// The same holds of a chunk's `id`, `model` and `usage`: `null` reads as
/// missing.
pub proof fn lemma_null_chunk_field_is_missing(members: Seq<(Seq<char>, SpecJson)>, key: Seq<char>)
    requires
        key == "id"@ || key == "model"@ || key == "usage"@,
        member_lookup(members, key) is None,
    ensures
        chunk_of(SpecJson::Object(members.push((key, SpecJson::Null)))) == chunk_of(SpecJson::Object(members)),
{
    reveal_strlit("id");
    reveal_strlit("model");
    reveal_strlit("usage");
    reveal_strlit("choices");
    lemma_lookup_after_push(members, key, SpecJson::Null, "id"@);
    lemma_lookup_after_push(members, key, SpecJson::Null, "model"@);
    lemma_lookup_after_push(members, key, SpecJson::Null, "usage"@);
    lemma_lookup_after_push(members, key, SpecJson::Null, "choices"@);
}

} // verus!
