//! Inbound Anthropic SSE event translator: decodes each server-sent event and
//! turns it into the stream's response events, keeping the state that spans
//! events (open content blocks, the message id, token counts).

use vstd::prelude::*;
use std::collections::HashMap;
use crate::clock::now_timestamp_millis;
use crate::common::{
    ApiError, ResponseEvent, SpecApiError, SpecResponseEvent, TokenUsage, outcome_view, outcomes_view,
};
use crate::json::{Json, SpecJson, parse_json, parsed_json};
use crate::models::{
    ContentItem, ReasoningItemContent, ResponseItem, SpecContentItem, SpecReasoningContent, SpecResponseItem,
    opt_str_view,
};
use crate::sse::fields::{
    as_record, field_i64, int_value, field_opt_record, field_opt_str, field_record, field_str, names1, names2, names3, names4,
    opt_record, opt_str, record, req_i64, req_record, req_str, split_tagged, str_views, tagged_parts, variant_named,
    variant_of,
};
use crate::sse::poll::{SpecOutcome, SpecSsePoll, SsePoll, SseStep, nothing, one, two, usage, usage_of};
use crate::text::{concat, decimal, i64_to_decimal, same_text};

verus! {

broadcast use vstd::std_specs::hash::group_hash_axioms;

// ---------------------------------------------------------------------------
// Events

/// The opening of a content block.
#[derive(Debug)]
pub enum BlockStart {
    Text { text: String },
    Thinking { thinking: String },
    ToolUse { id: String, name: String },
}

/// An increment to an open content block.
#[derive(Debug)]
pub enum BlockDelta {
    TextDelta { text: String },
    ThinkingDelta { thinking: String },
    InputJsonDelta { partial_json: String },
    SignatureDelta { signature: String },
}

/// One Anthropic server-sent event.
#[derive(Debug)]
pub enum AnthropicSseEvent {
    MessageStart { id: String, model: String, input_tokens: i64 },
    ContentBlockStart { index: i64, content_block: BlockStart },
    ContentBlockDelta { index: i64, delta: BlockDelta },
    ContentBlockStop { index: i64 },
    MessageDelta { stop_reason: Option<String>, output_tokens: Option<i64> },
    MessageStop,
    Error { message: String },
}

pub enum SpecBlockStart {
    Text { text: Seq<char> },
    Thinking { thinking: Seq<char> },
    ToolUse { id: Seq<char>, name: Seq<char> },
}

pub enum SpecBlockDelta {
    TextDelta { text: Seq<char> },
    ThinkingDelta { thinking: Seq<char> },
    InputJsonDelta { partial_json: Seq<char> },
    SignatureDelta { signature: Seq<char> },
}

pub enum SpecAnthropicEvent {
    MessageStart { id: Seq<char>, model: Seq<char>, input_tokens: i64 },
    ContentBlockStart { index: i64, content_block: SpecBlockStart },
    ContentBlockDelta { index: i64, delta: SpecBlockDelta },
    ContentBlockStop { index: i64 },
    MessageDelta { stop_reason: Option<Seq<char>>, output_tokens: Option<i64> },
    MessageStop,
    Error { message: Seq<char> },
}

impl View for BlockStart {
    type V = SpecBlockStart;

    open spec fn view(&self) -> SpecBlockStart {
        match self {
            BlockStart::Text { text } => SpecBlockStart::Text { text: text@ },
            BlockStart::Thinking { thinking } => SpecBlockStart::Thinking { thinking: thinking@ },
            BlockStart::ToolUse { id, name } => SpecBlockStart::ToolUse { id: id@, name: name@ },
        }
    }
}

impl View for BlockDelta {
    type V = SpecBlockDelta;

    open spec fn view(&self) -> SpecBlockDelta {
        match self {
            BlockDelta::TextDelta { text } => SpecBlockDelta::TextDelta { text: text@ },
            BlockDelta::ThinkingDelta { thinking } => SpecBlockDelta::ThinkingDelta { thinking: thinking@ },
            BlockDelta::InputJsonDelta { partial_json } => SpecBlockDelta::InputJsonDelta { partial_json: partial_json@ },
            BlockDelta::SignatureDelta { signature } => SpecBlockDelta::SignatureDelta { signature: signature@ },
        }
    }
}

impl View for AnthropicSseEvent {
    type V = SpecAnthropicEvent;

    open spec fn view(&self) -> SpecAnthropicEvent {
        match self {
            AnthropicSseEvent::MessageStart { id, model, input_tokens } =>
                SpecAnthropicEvent::MessageStart { id: id@, model: model@, input_tokens: *input_tokens },
            AnthropicSseEvent::ContentBlockStart { index, content_block } =>
                SpecAnthropicEvent::ContentBlockStart { index: *index, content_block: content_block@ },
            AnthropicSseEvent::ContentBlockDelta { index, delta } =>
                SpecAnthropicEvent::ContentBlockDelta { index: *index, delta: delta@ },
            AnthropicSseEvent::ContentBlockStop { index } => SpecAnthropicEvent::ContentBlockStop { index: *index },
            AnthropicSseEvent::MessageDelta { stop_reason, output_tokens } =>
                SpecAnthropicEvent::MessageDelta { stop_reason: opt_str_view(*stop_reason), output_tokens: *output_tokens },
            AnthropicSseEvent::MessageStop => SpecAnthropicEvent::MessageStop,
            AnthropicSseEvent::Error { message } => SpecAnthropicEvent::Error { message: message@ },
        }
    }
}

/// The variants of a content block opening, in declaration order.
pub open spec fn block_start_variants() -> Seq<Seq<char>> {
    seq!["text"@, "thinking"@, "tool_use"@]
}

/// A content block opening, read by its tag (see [`tagged_parts`]).
pub open spec fn block_start_of(b: SpecJson) -> Option<SpecBlockStart> {
    match tagged_parts(b) {
        None => None,
        Some((t, body)) => match variant_named(t, block_start_variants(), true) {
            None => None,
            Some(tag) => if tag == "text"@ {
                match as_record(body, seq!["text"@]) {
                    Some(r) => match req_str(r, "text"@) {
                        Some(text) => Some(SpecBlockStart::Text { text }),
                        None => None,
                    },
                    None => None,
                }
            } else if tag == "thinking"@ {
                match as_record(body, seq!["thinking"@]) {
                    Some(r) => match req_str(r, "thinking"@) {
                        Some(thinking) => Some(SpecBlockStart::Thinking { thinking }),
                        None => None,
                    },
                    None => None,
                }
            } else if tag == "tool_use"@ {
                match as_record(body, seq!["id"@, "name"@]) {
                    Some(r) => match (req_str(r, "id"@), req_str(r, "name"@)) {
                        (Some(id), Some(name)) => Some(SpecBlockStart::ToolUse { id, name }),
                        _ => None,
                    },
                    None => None,
                }
            } else {
                None
            },
        },
    }
}

/// The variants of a content block increment, in declaration order.
pub open spec fn block_delta_variants() -> Seq<Seq<char>> {
    seq!["text_delta"@, "thinking_delta"@, "input_json_delta"@, "signature_delta"@]
}

/// The one string field `key` of a variant body.
pub open spec fn single_str(body: SpecJson, key: Seq<char>) -> Option<Seq<char>> {
    match as_record(body, seq![key]) {
        Some(r) => req_str(r, key),
        None => None,
    }
}

/// A content block increment, read by its tag (see [`tagged_parts`]).
pub open spec fn block_delta_of(d: SpecJson) -> Option<SpecBlockDelta> {
    match tagged_parts(d) {
        None => None,
        Some((t, body)) => match variant_named(t, block_delta_variants(), true) {
            None => None,
            Some(tag) => if tag == "text_delta"@ {
                match single_str(body, "text"@) {
                    Some(text) => Some(SpecBlockDelta::TextDelta { text }),
                    None => None,
                }
            } else if tag == "thinking_delta"@ {
                match single_str(body, "thinking"@) {
                    Some(thinking) => Some(SpecBlockDelta::ThinkingDelta { thinking }),
                    None => None,
                }
            } else if tag == "input_json_delta"@ {
                match single_str(body, "partial_json"@) {
                    Some(partial_json) => Some(SpecBlockDelta::InputJsonDelta { partial_json }),
                    None => None,
                }
            } else if tag == "signature_delta"@ {
                match single_str(body, "signature"@) {
                    Some(signature) => Some(SpecBlockDelta::SignatureDelta { signature }),
                    None => None,
                }
            } else {
                None
            },
        },
    }
}

/// A `message_start` event's body.
pub open spec fn message_start_of(body: SpecJson) -> Option<SpecAnthropicEvent> {
    match as_record(body, seq!["message"@]) {
        None => None,
        Some(r) => match req_record(r, "message"@, seq!["id"@, "model"@, "usage"@]) {
            None => None,
            Some(m) => match (req_str(m, "id"@), req_str(m, "model"@), req_record(m, "usage"@, seq!["input_tokens"@])) {
                (Some(id), Some(model), Some(u)) => match req_i64(u, "input_tokens"@) {
                    Some(input_tokens) => Some(SpecAnthropicEvent::MessageStart { id, model, input_tokens }),
                    None => None,
                },
                _ => None,
            },
        },
    }
}

/// A `message_delta` event's body.
pub open spec fn message_delta_of(body: SpecJson) -> Option<SpecAnthropicEvent> {
    match as_record(body, seq!["delta"@, "usage"@]) {
        None => None,
        Some(r) => match (req_record(r, "delta"@, seq!["stop_reason"@]), opt_record(r, "usage"@, seq!["output_tokens"@])) {
            (Some(d), Some(usage)) => match (opt_str(d, "stop_reason"@), usage) {
                (Some(stop_reason), None) => Some(SpecAnthropicEvent::MessageDelta { stop_reason, output_tokens: None }),
                (Some(stop_reason), Some(u)) => match req_i64(u, "output_tokens"@) {
                    Some(n) => Some(SpecAnthropicEvent::MessageDelta { stop_reason, output_tokens: Some(n) }),
                    None => None,
                },
                _ => None,
            },
            _ => None,
        },
    }
}

/// The variants of an Anthropic event, in declaration order.
pub open spec fn event_variants() -> Seq<Seq<char>> {
    seq![
        "message_start"@,
        "content_block_start"@,
        "content_block_delta"@,
        "content_block_stop"@,
        "message_delta"@,
        "message_stop"@,
        "error"@,
    ]
}

/// The event with tag `tag` whose fields `body` holds.
pub open spec fn event_body_of(tag: Seq<char>, body: SpecJson) -> Option<SpecAnthropicEvent> {
    if tag == "message_start"@ {
        message_start_of(body)
    } else if tag == "content_block_start"@ {
        match as_record(body, seq!["index"@, "content_block"@]) {
            None => None,
            Some(r) => match (req_i64(r, "index"@), r.get("content_block"@)) {
                (Some(index), Some(b)) => match block_start_of(b) {
                    Some(content_block) => Some(SpecAnthropicEvent::ContentBlockStart { index, content_block }),
                    None => None,
                },
                _ => None,
            },
        }
    } else if tag == "content_block_delta"@ {
        match as_record(body, seq!["index"@, "delta"@]) {
            None => None,
            Some(r) => match (req_i64(r, "index"@), r.get("delta"@)) {
                (Some(index), Some(d)) => match block_delta_of(d) {
                    Some(delta) => Some(SpecAnthropicEvent::ContentBlockDelta { index, delta }),
                    None => None,
                },
                _ => None,
            },
        }
    } else if tag == "content_block_stop"@ {
        match as_record(body, seq!["index"@]) {
            None => None,
            Some(r) => match req_i64(r, "index"@) {
                Some(index) => Some(SpecAnthropicEvent::ContentBlockStop { index }),
                None => None,
            },
        }
    } else if tag == "message_delta"@ {
        message_delta_of(body)
    } else if tag == "message_stop"@ {
        match as_record(body, Seq::empty()) {
            Some(_) => Some(SpecAnthropicEvent::MessageStop),
            None => None,
        }
    } else if tag == "error"@ {
        match as_record(body, seq!["error"@]) {
            None => None,
            Some(r) => match req_record(r, "error"@, seq!["message"@]) {
                Some(e) => match req_str(e, "message"@) {
                    Some(message) => Some(SpecAnthropicEvent::Error { message }),
                    None => None,
                },
                None => None,
            },
        }
    } else {
        None
    }
}

/// An Anthropic event, read by its tag (see [`tagged_parts`]); at the top
/// level the tag must be a string. `None` where the value does not have the
/// shape of any event.
pub open spec fn anthropic_event_of(j: SpecJson) -> Option<SpecAnthropicEvent> {
    match tagged_parts(j) {
        None => None,
        Some((t, body)) => match variant_named(t, event_variants(), false) {
            None => None,
            Some(tag) => event_body_of(tag, body),
        },
    }
}

/// The event that an SSE data payload carries, if it is JSON of an event's
/// shape.
pub open spec fn decoded_anthropic_event(data: Seq<char>) -> Option<SpecAnthropicEvent> {
    match parsed_json(data) {
        Some(j) => anthropic_event_of(j),
        None => None,
    }
}

/// The view of an optional event.
pub open spec fn opt_event_view(e: Option<AnthropicSseEvent>) -> Option<SpecAnthropicEvent> {
    match e {
        Some(e) => Some(e@),
        None => None,
    }
}

fn decode_block_start(b: &Json) -> (out: Option<BlockStart>)
    ensures
        match out {
            Some(o) => block_start_of(b@) == Some(o@),
            None => block_start_of(b@) is None,
        },
{
    let (t, body) = match split_tagged(b) {
        Some(parts) => parts,
        None => return None,
    };
    let variants = names3("text", "thinking", "tool_use");
    let tag = match variant_of(&t, &variants, true) {
        Some(tag) => tag,
        None => return None,
    };
    if same_text(tag.as_str(), "text") {
        match record(&body, &names1("text")) {
            Some(r) => match field_str(&r, "text") {
                Some(text) => Some(BlockStart::Text { text }),
                None => None,
            },
            None => None,
        }
    } else if same_text(tag.as_str(), "thinking") {
        match record(&body, &names1("thinking")) {
            Some(r) => match field_str(&r, "thinking") {
                Some(thinking) => Some(BlockStart::Thinking { thinking }),
                None => None,
            },
            None => None,
        }
    } else if same_text(tag.as_str(), "tool_use") {
        match record(&body, &names2("id", "name")) {
            Some(r) => match (field_str(&r, "id"), field_str(&r, "name")) {
                (Some(id), Some(name)) => Some(BlockStart::ToolUse { id, name }),
                _ => None,
            },
            None => None,
        }
    } else {
        None
    }
}

fn decode_single_str(body: &Json, key: &'static str) -> (s: Option<String>)
    ensures
        opt_str_view(s) == single_str(body@, key@),
{
    match record(body, &names1(key)) {
        Some(r) => field_str(&r, key),
        None => None,
    }
}

fn decode_block_delta(d: &Json) -> (out: Option<BlockDelta>)
    ensures
        match out {
            Some(o) => block_delta_of(d@) == Some(o@),
            None => block_delta_of(d@) is None,
        },
{
    let (t, body) = match split_tagged(d) {
        Some(parts) => parts,
        None => return None,
    };
    let variants = names4("text_delta", "thinking_delta", "input_json_delta", "signature_delta");
    let tag = match variant_of(&t, &variants, true) {
        Some(tag) => tag,
        None => return None,
    };
    if same_text(tag.as_str(), "text_delta") {
        match decode_single_str(&body, "text") {
            Some(text) => Some(BlockDelta::TextDelta { text }),
            None => None,
        }
    } else if same_text(tag.as_str(), "thinking_delta") {
        match decode_single_str(&body, "thinking") {
            Some(thinking) => Some(BlockDelta::ThinkingDelta { thinking }),
            None => None,
        }
    } else if same_text(tag.as_str(), "input_json_delta") {
        match decode_single_str(&body, "partial_json") {
            Some(partial_json) => Some(BlockDelta::InputJsonDelta { partial_json }),
            None => None,
        }
    } else if same_text(tag.as_str(), "signature_delta") {
        match decode_single_str(&body, "signature") {
            Some(signature) => Some(BlockDelta::SignatureDelta { signature }),
            None => None,
        }
    } else {
        None
    }
}

fn decode_message_start(body: &Json) -> (out: Option<AnthropicSseEvent>)
    ensures
        opt_event_view(out) == message_start_of(body@),
{
    let r = match record(body, &names1("message")) {
        Some(r) => r,
        None => return None,
    };
    let m = match field_record(&r, "message", &names3("id", "model", "usage")) {
        Some(m) => m,
        None => return None,
    };
    match (field_str(&m, "id"), field_str(&m, "model"), field_record(&m, "usage", &names1("input_tokens"))) {
        (Some(id), Some(model), Some(u)) => match field_i64(&u, "input_tokens") {
            Some(input_tokens) => Some(AnthropicSseEvent::MessageStart { id, model, input_tokens }),
            None => None,
        },
        _ => None,
    }
}

fn decode_message_delta(body: &Json) -> (out: Option<AnthropicSseEvent>)
    ensures
        opt_event_view(out) == message_delta_of(body@),
{
    let r = match record(body, &names2("delta", "usage")) {
        Some(r) => r,
        None => return None,
    };
    match (field_record(&r, "delta", &names1("stop_reason")), field_opt_record(&r, "usage", &names1("output_tokens"))) {
        (Some(d), Some(usage)) => match (field_opt_str(&d, "stop_reason"), usage) {
            (Some(stop_reason), None) => Some(AnthropicSseEvent::MessageDelta { stop_reason, output_tokens: None }),
            (Some(stop_reason), Some(u)) => match field_i64(&u, "output_tokens") {
                Some(n) => Some(AnthropicSseEvent::MessageDelta { stop_reason, output_tokens: Some(n) }),
                None => None,
            },
            _ => None,
        },
        _ => None,
    }
}

fn decode_event_body(tag: &str, body: &Json) -> (out: Option<AnthropicSseEvent>)
    ensures
        opt_event_view(out) == event_body_of(tag@, body@),
{
    if same_text(tag, "message_start") {
        decode_message_start(body)
    } else if same_text(tag, "content_block_start") {
        match record(body, &names2("index", "content_block")) {
            None => None,
            Some(r) => match (field_i64(&r, "index"), r.get("content_block")) {
                (Some(index), Some(b)) => match decode_block_start(b) {
                    Some(content_block) => Some(AnthropicSseEvent::ContentBlockStart { index, content_block }),
                    None => None,
                },
                _ => None,
            },
        }
    } else if same_text(tag, "content_block_delta") {
        match record(body, &names2("index", "delta")) {
            None => None,
            Some(r) => match (field_i64(&r, "index"), r.get("delta")) {
                (Some(index), Some(d)) => match decode_block_delta(d) {
                    Some(delta) => Some(AnthropicSseEvent::ContentBlockDelta { index, delta }),
                    None => None,
                },
                _ => None,
            },
        }
    } else if same_text(tag, "content_block_stop") {
        match record(body, &names1("index")) {
            None => None,
            Some(r) => match field_i64(&r, "index") {
                Some(index) => Some(AnthropicSseEvent::ContentBlockStop { index }),
                None => None,
            },
        }
    } else if same_text(tag, "message_delta") {
        decode_message_delta(body)
    } else if same_text(tag, "message_stop") {
        let none: Vec<&str> = Vec::new();
        assert(str_views(none@) =~= Seq::<Seq<char>>::empty());
        match record(body, &none) {
            Some(_) => Some(AnthropicSseEvent::MessageStop),
            None => None,
        }
    } else if same_text(tag, "error") {
        match record(body, &names1("error")) {
            None => None,
            Some(r) => match field_record(&r, "error", &names1("message")) {
                Some(e) => match field_str(&e, "message") {
                    Some(message) => Some(AnthropicSseEvent::Error { message }),
                    None => None,
                },
                None => None,
            },
        }
    } else {
        None
    }
}

/// Reads an Anthropic event from a JSON value.
pub fn decode_event_json(j: &Json) -> (out: Option<AnthropicSseEvent>)
    ensures
        opt_event_view(out) == anthropic_event_of(j@),
{
    let (t, body) = match split_tagged(j) {
        Some(parts) => parts,
        None => return None,
    };
    let variants = event_variant_names();
    match variant_of(&t, &variants, false) {
        Some(tag) => decode_event_body(tag.as_str(), &body),
        None => None,
    }
}

fn event_variant_names() -> (v: Vec<&'static str>)
    ensures
        str_views(v@) == event_variants(),
{
    let v = vec![
        "message_start",
        "content_block_start",
        "content_block_delta",
        "content_block_stop",
        "message_delta",
        "message_stop",
        "error",
    ];
    assert(str_views(v@) =~= event_variants());
    v
}

/// Reads the Anthropic event that an SSE data payload carries.
///
/// The payload is read into a JSON value first and the event from that
/// value, so where a key is repeated the value is the last one given.
pub fn decode_event(data: &str) -> (out: Option<AnthropicSseEvent>)
    ensures
        opt_event_view(out) == decoded_anthropic_event(data@),
{
    match parse_json(data) {
        Some(j) => decode_event_json(&j),
        None => None,
    }
}


// ---------------------------------------------------------------------------
// State

/// An open content block and what has accumulated in it.
#[derive(Debug)]
pub enum ContentBlockState {
    Text { id: String, text: String },
    Thinking { id: String, thinking: String },
    ToolUse { id: String, name: String, partial_json: String },
}

pub enum SpecBlockState {
    Text { id: Seq<char>, text: Seq<char> },
    Thinking { id: Seq<char>, thinking: Seq<char> },
    ToolUse { id: Seq<char>, name: Seq<char>, partial_json: Seq<char> },
}

impl View for ContentBlockState {
    type V = SpecBlockState;

    open spec fn view(&self) -> SpecBlockState {
        match self {
            ContentBlockState::Text { id, text } => SpecBlockState::Text { id: id@, text: text@ },
            ContentBlockState::Thinking { id, thinking } => SpecBlockState::Thinking { id: id@, thinking: thinking@ },
            ContentBlockState::ToolUse { id, name, partial_json } =>
                SpecBlockState::ToolUse { id: id@, name: name@, partial_json: partial_json@ },
        }
    }
}

/// What the translator keeps between events: the open content blocks by
/// index, the message id and token counts from `message_start` and
/// `message_delta`, and the last stop reason.
#[derive(Debug)]
pub struct AnthropicSseState {
    active_blocks: HashMap<i64, ContentBlockState>,
    message_id: String,
    input_tokens: i64,
    output_tokens: i64,
    stop_reason: Option<String>,
}

pub struct SpecAnthropicState {
    pub blocks: Map<i64, SpecBlockState>,
    pub message_id: Seq<char>,
    pub input_tokens: i64,
    pub output_tokens: i64,
    pub stop_reason: Option<Seq<char>>,
}

impl View for AnthropicSseState {
    type V = SpecAnthropicState;

    closed spec fn view(&self) -> SpecAnthropicState {
        SpecAnthropicState {
            blocks: self.active_blocks@.map_values(|b: ContentBlockState| b@),
            message_id: self.message_id@,
            input_tokens: self.input_tokens,
            output_tokens: self.output_tokens,
            stop_reason: opt_str_view(self.stop_reason),
        }
    }
}

/// The state before the first event.
pub open spec fn initial_anthropic_state() -> SpecAnthropicState {
    SpecAnthropicState {
        blocks: Map::empty(),
        message_id: Seq::empty(),
        input_tokens: 0,
        output_tokens: 0,
        stop_reason: None,
    }
}

/// The completion event for the message seen so far.
pub open spec fn completed_outcome(s: SpecAnthropicState) -> SpecOutcome {
    Ok(SpecResponseEvent::Completed {
        response_id: s.message_id,
        token_usage: Some(usage_of(s.input_tokens, s.output_tokens)),
        end_turn: Some(true),
    })
}

/// The identifier of an item opened at `now` for block `index`:
/// `{prefix}{now}-{index}`.
pub open spec fn block_item_id(prefix: Seq<char>, now: i64, index: i64) -> Seq<char> {
    prefix + decimal(now as int) + "-"@ + decimal(index as int)
}

/// The item that a finished block becomes.
pub open spec fn finished_item(b: SpecBlockState) -> SpecResponseItem {
    match b {
        SpecBlockState::Text { id, text } => SpecResponseItem::Message {
            id: Some(id),
            role: "assistant"@,
            content: seq![SpecContentItem::OutputText { text }],
        },
        SpecBlockState::Thinking { id, thinking } => SpecResponseItem::Reasoning {
            id,
            content: Some(seq![SpecReasoningContent::ReasoningText { text: thinking }]),
        },
        SpecBlockState::ToolUse { id, name, partial_json } => SpecResponseItem::FunctionCall {
            id: Some(id),
            name,
            arguments: partial_json,
            call_id: id,
        },
    }
}

/// A block that has just been opened, and what is announced for it: nothing
/// for a text block, whose item is announced when it closes; the opened
/// reasoning item for a thinking block; the opened call for a tool-use block.
pub open spec fn opened_block(start: SpecBlockStart, now: i64, index: i64) -> (SpecBlockState, Seq<SpecOutcome>) {
    match start {
        SpecBlockStart::Text { text } => (SpecBlockState::Text { id: block_item_id("msg-"@, now, index), text }, Seq::empty()),
        SpecBlockStart::Thinking { thinking } => {
            let id = block_item_id("reas-"@, now, index);
            (
                SpecBlockState::Thinking { id, thinking },
                seq![Ok(SpecResponseEvent::OutputItemAdded(SpecResponseItem::Reasoning { id, content: Some(Seq::empty()) }))],
            )
        },
        SpecBlockStart::ToolUse { id, name } => (
            SpecBlockState::ToolUse { id, name, partial_json: Seq::empty() },
            seq![Ok(SpecResponseEvent::OutputItemAdded(
                SpecResponseItem::FunctionCall { id: Some(id), name, arguments: Seq::empty(), call_id: id },
            ))],
        ),
    }
}

/// An open block after an increment, and what is announced for it. Text and
/// thinking increments are announced whatever the block's kind and only
/// accumulate in a block of their kind; a JSON input increment accumulates
/// and is announced only for a tool-use block; signatures are ignored.
pub open spec fn grown_block(b: SpecBlockState, delta: SpecBlockDelta, index: i64) -> (SpecBlockState, Seq<SpecOutcome>) {
    match delta {
        SpecBlockDelta::TextDelta { text } => (
            match b {
                SpecBlockState::Text { id, text: acc } => SpecBlockState::Text { id, text: acc + text },
                _ => b,
            },
            seq![Ok(SpecResponseEvent::OutputTextDelta(text))],
        ),
        SpecBlockDelta::ThinkingDelta { thinking } => (
            match b {
                SpecBlockState::Thinking { id, thinking: acc } => SpecBlockState::Thinking { id, thinking: acc + thinking },
                _ => b,
            },
            seq![Ok(SpecResponseEvent::ReasoningContentDelta { delta: thinking, content_index: index })],
        ),
        SpecBlockDelta::InputJsonDelta { partial_json } => match b {
            SpecBlockState::ToolUse { id, name, partial_json: acc } => (
                SpecBlockState::ToolUse { id, name, partial_json: acc + partial_json },
                seq![Ok(SpecResponseEvent::ToolCallInputDelta { item_id: id, call_id: Some(id), delta: partial_json })],
            ),
            _ => (b, Seq::empty()),
        },
        SpecBlockDelta::SignatureDelta { .. } => (b, Seq::empty()),
    }
}

/// The state, the outcomes and whether the stream is over, after one decoded
/// event at time `now`.
pub open spec fn anthropic_event_step(s: SpecAnthropicState, e: SpecAnthropicEvent, now: i64) -> (SpecAnthropicState, Seq<SpecOutcome>, bool) {
    match e {
        SpecAnthropicEvent::MessageStart { id, model, input_tokens } => (
            SpecAnthropicState { message_id: id, input_tokens, ..s },
            seq![Ok(SpecResponseEvent::Created), Ok(SpecResponseEvent::ServerModel(model))],
            false,
        ),
        SpecAnthropicEvent::ContentBlockStart { index, content_block } => {
            let (block, outcomes) = opened_block(content_block, now, index);
            (SpecAnthropicState { blocks: s.blocks.insert(index, block), ..s }, outcomes, false)
        },
        SpecAnthropicEvent::ContentBlockDelta { index, delta } => if s.blocks.contains_key(index) {
            let (block, outcomes) = grown_block(s.blocks[index], delta, index);
            (SpecAnthropicState { blocks: s.blocks.insert(index, block), ..s }, outcomes, false)
        } else {
            (s, Seq::empty(), false)
        },
        SpecAnthropicEvent::ContentBlockStop { index } => if s.blocks.contains_key(index) {
            (
                SpecAnthropicState { blocks: s.blocks.remove(index), ..s },
                seq![Ok(SpecResponseEvent::OutputItemDone(finished_item(s.blocks[index])))],
                false,
            )
        } else {
            (s, Seq::empty(), false)
        },
        SpecAnthropicEvent::MessageDelta { stop_reason, output_tokens } => (
            SpecAnthropicState {
                stop_reason,
                output_tokens: match output_tokens {
                    Some(n) => n,
                    None => s.output_tokens,
                },
                ..s
            },
            Seq::empty(),
            false,
        ),
        SpecAnthropicEvent::MessageStop => (s, seq![completed_outcome(s)], true),
        SpecAnthropicEvent::Error { message } => (s, seq![Err(SpecApiError::Stream(message))], true),
    }
}

/// The state, the outcomes and whether the stream is over, after one poll at
/// time `now`. A stream failure or an idle timeout ends the stream with an
/// error; the end of the stream completes the message when one was started
/// and is an error otherwise; `ping` events and payloads that are not an
/// event change nothing.
pub open spec fn anthropic_step(s: SpecAnthropicState, poll: SpecSsePoll, now: i64) -> (SpecAnthropicState, Seq<SpecOutcome>, bool) {
    match poll {
        SpecSsePoll::StreamError(m) => (s, seq![Err(SpecApiError::Stream(m))], true),
        SpecSsePoll::Closed => if s.message_id.len() > 0 {
            (s, seq![completed_outcome(s)], true)
        } else {
            (s, seq![Err(SpecApiError::Stream("stream closed before response.completed"@))], true)
        },
        SpecSsePoll::IdleTimeout => (s, seq![Err(SpecApiError::Stream("idle timeout waiting for SSE"@))], true),
        SpecSsePoll::Event { event, data } => if event == "ping"@ {
            (s, Seq::empty(), false)
        } else {
            match decoded_anthropic_event(data) {
                Some(e) => anthropic_event_step(s, e, now),
                None => (s, Seq::empty(), false),
            }
        },
    }
}

/// `{prefix}{now}-{index}`.
fn item_id(prefix: &str, now: i64, index: i64) -> (id: String)
    ensures
        id@ == block_item_id(prefix@, now, index),
{
    let mut id = String::from_str(prefix);
    let t = i64_to_decimal(now);
    id.append(t.as_str());
    id.append("-");
    let i = i64_to_decimal(index);
    id.append(i.as_str());
    id
}

impl AnthropicSseState {
    /// The state before the first event.
    pub fn new() -> (s: Self)
        ensures
            s@ == initial_anthropic_state(),
    {
        let s = AnthropicSseState {
            active_blocks: HashMap::new(),
            message_id: String::new(),
            input_tokens: 0,
            output_tokens: 0,
            stop_reason: None,
        };
        assert(s@.blocks =~= Map::empty());
        s
    }

    fn completed(&self) -> (o: Result<ResponseEvent, ApiError>)
        ensures
            outcome_view(o) == completed_outcome(self@),
    {
        Ok(ResponseEvent::Completed {
            response_id: self.message_id.clone(),
            token_usage: Some(usage(self.input_tokens, self.output_tokens)),
            end_turn: Some(true),
        })
    }

    fn apply(&mut self, event: AnthropicSseEvent, now: i64) -> (step: SseStep)
        ensures
            anthropic_event_step(old(self)@, event@, now) == (final(self)@, outcomes_view(step.outcomes@), step.finished),
    {
        let ghost s = self@;
        match event {
            AnthropicSseEvent::MessageStart { id, model, input_tokens } => {
                self.message_id = id;
                self.input_tokens = input_tokens;
                SseStep { outcomes: two(Ok(ResponseEvent::Created), Ok(ResponseEvent::ServerModel(model))), finished: false }
            },
            AnthropicSseEvent::ContentBlockStart { index, content_block } => {
                let (block, outcomes) = match content_block {
                    BlockStart::Text { text } => {
                        let id = item_id("msg-", now, index);
                        (ContentBlockState::Text { id, text }, nothing())
                    },
                    BlockStart::Thinking { thinking } => {
                        let id = item_id("reas-", now, index);
                        let item = ResponseItem::Reasoning { id: id.clone(), content: Some(Vec::new()) };
                        proof {
                            assert(Seq::<ReasoningItemContent>::empty().map_values(|c: ReasoningItemContent| c@) =~= Seq::<SpecReasoningContent>::empty());
                        }
                        (ContentBlockState::Thinking { id, thinking }, one(Ok(ResponseEvent::OutputItemAdded(item))))
                    },
                    BlockStart::ToolUse { id, name } => {
                        let item = ResponseItem::FunctionCall {
                            id: Some(id.clone()),
                            name: name.clone(),
                            arguments: String::new(),
                            call_id: id.clone(),
                        };
                        (ContentBlockState::ToolUse { id, name, partial_json: String::new() }, one(Ok(ResponseEvent::OutputItemAdded(item))))
                    },
                };
                let ghost b = block@;
                self.active_blocks.insert(index, block);
                assert(self@.blocks =~= s.blocks.insert(index, b));
                SseStep { outcomes, finished: false }
            },
            AnthropicSseEvent::ContentBlockDelta { index, delta } => {
                match self.active_blocks.remove(&index) {
                    None => {
                        assert(self@.blocks =~= s.blocks);
                        SseStep { outcomes: nothing(), finished: false }
                    },
                    Some(block) => {
                        assert(s.blocks.contains_key(index) && s.blocks[index] == block@);
                        let ghost gd = grown_block(block@, delta@, index);
                        let (grown, outcomes) = match delta {
                            BlockDelta::TextDelta { text } => {
                                let grown = match block {
                                    ContentBlockState::Text { id, text: acc } => {
                                        let mut acc = acc;
                                        acc.append(text.as_str());
                                        ContentBlockState::Text { id, text: acc }
                                    },
                                    other => other,
                                };
                                (grown, one(Ok(ResponseEvent::OutputTextDelta(text))))
                            },
                            BlockDelta::ThinkingDelta { thinking } => {
                                let grown = match block {
                                    ContentBlockState::Thinking { id, thinking: acc } => {
                                        let mut acc = acc;
                                        acc.append(thinking.as_str());
                                        ContentBlockState::Thinking { id, thinking: acc }
                                    },
                                    other => other,
                                };
                                (grown, one(Ok(ResponseEvent::ReasoningContentDelta { delta: thinking, content_index: index })))
                            },
                            BlockDelta::InputJsonDelta { partial_json } => match block {
                                ContentBlockState::ToolUse { id, name, partial_json: acc } => {
                                    let mut acc = acc;
                                    acc.append(partial_json.as_str());
                                    let event = ResponseEvent::ToolCallInputDelta {
                                        item_id: id.clone(),
                                        call_id: Some(id.clone()),
                                        delta: partial_json,
                                    };
                                    (ContentBlockState::ToolUse { id, name, partial_json: acc }, one(Ok(event)))
                                },
                                other => (other, nothing()),
                            },
                            BlockDelta::SignatureDelta { .. } => (block, nothing()),
                        };
                        let ghost g = grown@;
                        assert(g == gd.0);
                        assert(outcomes_view(outcomes@) == gd.1);
                        self.active_blocks.insert(index, grown);
                        assert(self@.blocks =~= s.blocks.insert(index, g));
                        SseStep { outcomes, finished: false }
                    },
                }
            },
            AnthropicSseEvent::ContentBlockStop { index } => {
                match self.active_blocks.remove(&index) {
                    None => {
                        assert(self@.blocks =~= s.blocks);
                        SseStep { outcomes: nothing(), finished: false }
                    },
                    Some(block) => {
                        assert(s.blocks.contains_key(index) && s.blocks[index] == block@);
                        assert(self@.blocks =~= s.blocks.remove(index));
                        let item = match block {
                            ContentBlockState::Text { id, text } => {
                                let content = vec![ContentItem::OutputText { text }];
                                let it = ResponseItem::Message { id: Some(id), role: String::from_str("assistant"), content };
                                assert(content@.map_values(|c: ContentItem| c@) =~= seq![content@[0]@]);
                                it
                            },
                            ContentBlockState::Thinking { id, thinking } => {
                                let content = vec![ReasoningItemContent::ReasoningText { text: thinking }];
                                assert(content@.map_values(|c: ReasoningItemContent| c@) =~= seq![content@[0]@]);
                                ResponseItem::Reasoning { id, content: Some(content) }
                            },
                            ContentBlockState::ToolUse { id, name, partial_json } => ResponseItem::FunctionCall {
                                id: Some(id.clone()),
                                name,
                                arguments: partial_json,
                                call_id: id,
                            },
                        };
                        SseStep { outcomes: one(Ok(ResponseEvent::OutputItemDone(item))), finished: false }
                    },
                }
            },
            AnthropicSseEvent::MessageDelta { stop_reason, output_tokens } => {
                self.stop_reason = stop_reason;
                match output_tokens {
                    Some(n) => self.output_tokens = n,
                    None => {},
                }
                SseStep { outcomes: nothing(), finished: false }
            },
            AnthropicSseEvent::MessageStop => {
                let c = self.completed();
                SseStep { outcomes: one(c), finished: true }
            },
            AnthropicSseEvent::Error { message } => {
                SseStep { outcomes: one(Err(ApiError::Stream(message))), finished: true }
            },
        }
    }

    /// Handles one poll of the event stream at time `now_millis`.
    pub fn handle_at(&mut self, poll: SsePoll, now_millis: i64) -> (step: SseStep)
        ensures
            anthropic_step(old(self)@, poll@, now_millis) == (final(self)@, outcomes_view(step.outcomes@), step.finished),
    {
        match poll {
            SsePoll::StreamError(m) => SseStep { outcomes: one(Err(ApiError::Stream(m))), finished: true },
            SsePoll::Closed => {
                if self.message_id.as_str().is_empty() {
                    let m = String::from_str("stream closed before response.completed");
                    SseStep { outcomes: one(Err(ApiError::Stream(m))), finished: true }
                } else {
                    let c = self.completed();
                    SseStep { outcomes: one(c), finished: true }
                }
            },
            SsePoll::IdleTimeout => {
                let m = String::from_str("idle timeout waiting for SSE");
                SseStep { outcomes: one(Err(ApiError::Stream(m))), finished: true }
            },
            SsePoll::Event { event, data } => {
                if same_text(event.as_str(), "ping") {
                    return SseStep { outcomes: nothing(), finished: false };
                }
                match decode_event(data.as_str()) {
                    Some(e) => self.apply(e, now_millis),
                    None => SseStep { outcomes: nothing(), finished: false },
                }
            },
        }
    }

    /// Handles one poll of the event stream, reading the clock for the
    /// identifiers of newly opened items.
    pub fn handle(&mut self, poll: SsePoll) -> (step: SseStep)
        ensures
            exists|now: i64| anthropic_step(old(self)@, poll@, now) == (final(self)@, outcomes_view(step.outcomes@), step.finished),
    {
        let now = now_timestamp_millis();
        self.handle_at(poll, now)
    }
}


// ---------------------------------------------------------------------------
// Laws

/// The state and outcomes after a sequence of decoded events at time `now`.
pub open spec fn anthropic_run(s: SpecAnthropicState, events: Seq<SpecAnthropicEvent>, now: i64) -> (SpecAnthropicState, Seq<SpecOutcome>)
    decreases events.len(),
{
    if events.len() == 0 {
        (s, Seq::empty())
    } else {
        let (s1, o1) = anthropic_run(s, events.drop_last(), now);
        let (s2, o2, _) = anthropic_event_step(s1, events.last(), now);
        (s2, o1 + o2)
    }
}

/// One increment event per part, for block `index`.
pub open spec fn increments(index: i64, parts: Seq<Seq<char>>, tool: bool) -> Seq<SpecAnthropicEvent> {
    parts.map_values(|p: Seq<char>| SpecAnthropicEvent::ContentBlockDelta {
        index,
        delta: if tool {
            SpecBlockDelta::InputJsonDelta { partial_json: p }
        } else {
            SpecBlockDelta::TextDelta { text: p }
        },
    })
}

/// What each increment announces.
pub open spec fn announced(id: Seq<char>, parts: Seq<Seq<char>>, tool: bool) -> Seq<SpecOutcome> {
    parts.map_values(|p: Seq<char>| if tool {
        Ok(SpecResponseEvent::ToolCallInputDelta { item_id: id, call_id: Some(id), delta: p })
    } else {
        Ok(SpecResponseEvent::OutputTextDelta(p))
    })
}

proof fn lemma_increments(s: SpecAnthropicState, index: i64, block: SpecBlockState, parts: Seq<Seq<char>>, tool: bool, now: i64)
    requires
        s.blocks.contains_key(index),
        s.blocks[index] == block,
        tool ==> block is ToolUse,
        !tool ==> block is Text,
    ensures
        ({
            let (s2, o) = anthropic_run(s, increments(index, parts, tool), now);
            &&& o == announced(if tool { block->ToolUse_id } else { Seq::empty() }, parts, tool)
            &&& s2 == SpecAnthropicState {
                blocks: s.blocks.insert(index, if tool {
                    SpecBlockState::ToolUse { id: block->ToolUse_id, name: block->ToolUse_name, partial_json: block->ToolUse_partial_json + concat(parts) }
                } else {
                    SpecBlockState::Text { id: block->Text_id, text: block->Text_text + concat(parts) }
                }),
                ..s
            }
        }),
    decreases parts.len(),
{
    let events = increments(index, parts, tool);
    let id = if tool { block->ToolUse_id } else { Seq::empty() };
    if parts.len() == 0 {
        assert(announced(id, parts, tool) =~= Seq::<SpecOutcome>::empty());
        assert(s.blocks.insert(index, block) =~= s.blocks);
        if tool {
            assert(block->ToolUse_partial_json + concat(parts) =~= block->ToolUse_partial_json);
        } else {
            assert(block->Text_text + concat(parts) =~= block->Text_text);
        }
    } else {
        let init = parts.drop_last();
        assert(events.drop_last() =~= increments(index, init, tool));
        lemma_increments(s, index, block, init, tool, now);
        let (s1, o1) = anthropic_run(s, increments(index, init, tool), now);
        assert(s1.blocks.contains_key(index));
        assert(announced(id, parts, tool) =~= announced(id, init, tool) + announced(id, seq![parts.last()], tool));
        if tool {
            assert(block->ToolUse_partial_json + concat(init) + parts.last() =~= block->ToolUse_partial_json + concat(parts));
        } else {
            assert(block->Text_text + concat(init) + parts.last() =~= block->Text_text + concat(parts));
        }
        let (s2, o) = anthropic_run(s, events, now);
        assert(s2.blocks =~= s.blocks.insert(index, if tool {
            SpecBlockState::ToolUse { id: block->ToolUse_id, name: block->ToolUse_name, partial_json: block->ToolUse_partial_json + concat(parts) }
        } else {
            SpecBlockState::Text { id: block->Text_id, text: block->Text_text + concat(parts) }
        }));
    }
}

/// A tool-use block's input is assembled from its streamed JSON pieces: after
/// the block opens, receives `parts` and closes, the stream has announced the
/// call, then each piece, then the finished call whose arguments are the
/// pieces joined in order; the block is no longer open and nothing else
/// changed.
pub proof fn lemma_tool_input_assembled(
    s: SpecAnthropicState,
    index: i64,
    id: Seq<char>,
    name: Seq<char>,
    parts: Seq<Seq<char>>,
    now: i64,
)
    ensures
        ({
            let events = seq![SpecAnthropicEvent::ContentBlockStart { index, content_block: SpecBlockStart::ToolUse { id, name } }]
                + increments(index, parts, true) + seq![SpecAnthropicEvent::ContentBlockStop { index }];
            let (s2, o) = anthropic_run(s, events, now);
            &&& o == seq![Ok(SpecResponseEvent::OutputItemAdded(SpecResponseItem::FunctionCall {
                id: Some(id),
                name,
                arguments: Seq::empty(),
                call_id: id,
            }))] + announced(id, parts, true) + seq![Ok(SpecResponseEvent::OutputItemDone(SpecResponseItem::FunctionCall {
                id: Some(id),
                name,
                arguments: concat(parts),
                call_id: id,
            }))]
            &&& s2 == SpecAnthropicState { blocks: s.blocks.remove(index), ..s }
        }),
{
    let start = SpecAnthropicEvent::ContentBlockStart { index, content_block: SpecBlockStart::ToolUse { id, name } };
    let events = seq![start] + increments(index, parts, true) + seq![SpecAnthropicEvent::ContentBlockStop { index }];
    let (s1, o1, _) = anthropic_event_step(s, start, now);
    let block = SpecBlockState::ToolUse { id, name, partial_json: Seq::empty() };
    assert(s1 == SpecAnthropicState { blocks: s.blocks.insert(index, block), ..s });
    lemma_run_prefix(s, seq![start], increments(index, parts, true), now);
    assert(anthropic_run(s, seq![start], now) == (s1, o1)) by {
        assert(seq![start].drop_last() =~= Seq::<SpecAnthropicEvent>::empty());
        assert(anthropic_run(s, Seq::<SpecAnthropicEvent>::empty(), now) == (s, Seq::<SpecOutcome>::empty()));
        assert(Seq::<SpecOutcome>::empty() + o1 =~= o1);
    }
    lemma_increments(s1, index, block, parts, true, now);
    let (s3, o3) = anthropic_run(s, seq![start] + increments(index, parts, true), now);
    assert(events.drop_last() =~= seq![start] + increments(index, parts, true));
    assert(Seq::<char>::empty() + concat(parts) =~= concat(parts));
    assert(s3.blocks.remove(index) =~= s.blocks.remove(index));
}

proof fn lemma_run_prefix(s: SpecAnthropicState, a: Seq<SpecAnthropicEvent>, b: Seq<SpecAnthropicEvent>, now: i64)
    ensures
        ({
            let (sa, oa) = anthropic_run(s, a, now);
            let (sb, ob) = anthropic_run(sa, b, now);
            anthropic_run(s, a + b, now) == (sb, oa + ob)
        }),
    decreases b.len(),
{
    let (sa, oa) = anthropic_run(s, a, now);
    if b.len() == 0 {
        assert(a + b =~= a);
        assert(oa + Seq::<SpecOutcome>::empty() =~= oa);
    } else {
        lemma_run_prefix(s, a, b.drop_last(), now);
        assert((a + b).drop_last() =~= a + b.drop_last());
        assert((a + b).last() == b.last());
        let (sb1, ob1) = anthropic_run(sa, b.drop_last(), now);
        let (sb2, ob2, _) = anthropic_event_step(sb1, b.last(), now);
        assert(oa + ob1 + ob2 =~= oa + (ob1 + ob2));
    }
}

/// A text block's text is assembled from its streamed pieces: after the
/// block opens with `initial` text, receives `parts` and closes, the stream
/// has announced each piece, then the finished assistant message whose one
/// text part is the initial text followed by the pieces.
pub proof fn lemma_text_assembled(
    s: SpecAnthropicState,
    index: i64,
    initial: Seq<char>,
    parts: Seq<Seq<char>>,
    now: i64,
)
    ensures
        ({
            let id = block_item_id("msg-"@, now, index);
            let events = seq![SpecAnthropicEvent::ContentBlockStart { index, content_block: SpecBlockStart::Text { text: initial } }]
                + increments(index, parts, false) + seq![SpecAnthropicEvent::ContentBlockStop { index }];
            let (s2, o) = anthropic_run(s, events, now);
            &&& o == announced(Seq::empty(), parts, false) + seq![Ok(SpecResponseEvent::OutputItemDone(SpecResponseItem::Message {
                id: Some(id),
                role: "assistant"@,
                content: seq![SpecContentItem::OutputText { text: initial + concat(parts) }],
            }))]
            &&& s2 == SpecAnthropicState { blocks: s.blocks.remove(index), ..s }
        }),
{
    let id = block_item_id("msg-"@, now, index);
    let start = SpecAnthropicEvent::ContentBlockStart { index, content_block: SpecBlockStart::Text { text: initial } };
    let events = seq![start] + increments(index, parts, false) + seq![SpecAnthropicEvent::ContentBlockStop { index }];
    let (s1, o1, _) = anthropic_event_step(s, start, now);
    let block = SpecBlockState::Text { id, text: initial };
    assert(s1 == SpecAnthropicState { blocks: s.blocks.insert(index, block), ..s });
    lemma_run_prefix(s, seq![start], increments(index, parts, false), now);
    assert(anthropic_run(s, seq![start], now) == (s1, o1)) by {
        assert(seq![start].drop_last() =~= Seq::<SpecAnthropicEvent>::empty());
        assert(anthropic_run(s, Seq::<SpecAnthropicEvent>::empty(), now) == (s, Seq::<SpecOutcome>::empty()));
        assert(Seq::<SpecOutcome>::empty() + o1 =~= o1);
    }
    lemma_increments(s1, index, block, parts, false, now);
    let (s3, o3) = anthropic_run(s, seq![start] + increments(index, parts, false), now);
    assert(events.drop_last() =~= seq![start] + increments(index, parts, false));
    assert(s3.blocks.remove(index) =~= s.blocks.remove(index));
}

/// Token usage is propagated: after `message_start` reports `input_tokens`,
/// `message_delta` reports `output_tokens`, and `message_stop` arrives, the
/// stream has announced the response, its model, and its completion under
/// the message id with those counts and their sum.
pub proof fn lemma_usage_reported(
    s: SpecAnthropicState,
    id: Seq<char>,
    model: Seq<char>,
    stop_reason: Option<Seq<char>>,
    input_tokens: i64,
    output_tokens: i64,
    now: i64,
)
    ensures
        ({
            let events = seq![
                SpecAnthropicEvent::MessageStart { id, model, input_tokens },
                SpecAnthropicEvent::MessageDelta { stop_reason, output_tokens: Some(output_tokens) },
                SpecAnthropicEvent::MessageStop,
            ];
            anthropic_run(s, events, now).1 == seq![
                Ok::<SpecResponseEvent, SpecApiError>(SpecResponseEvent::Created),
                Ok(SpecResponseEvent::ServerModel(model)),
                Ok(SpecResponseEvent::Completed {
                    response_id: id,
                    token_usage: Some(TokenUsage {
                        input_tokens,
                        cached_input_tokens: 0,
                        output_tokens,
                        reasoning_output_tokens: 0,
                        total_tokens: input_tokens.wrapping_add(output_tokens),
                    }),
                    end_turn: Some(true),
                }),
            ]
        }),
{
    let e0 = SpecAnthropicEvent::MessageStart { id, model, input_tokens };
    let e1 = SpecAnthropicEvent::MessageDelta { stop_reason, output_tokens: Some(output_tokens) };
    let e2 = SpecAnthropicEvent::MessageStop;
    let events = seq![e0, e1, e2];
    assert(events.drop_last() =~= seq![e0, e1]);
    assert(seq![e0, e1].drop_last() =~= seq![e0]);
    assert(seq![e0].drop_last() =~= Seq::<SpecAnthropicEvent>::empty());
    assert(anthropic_run(s, Seq::<SpecAnthropicEvent>::empty(), now) == (s, Seq::<SpecOutcome>::empty()));
    let (sa, oa) = anthropic_run(s, seq![e0], now);
    let (sb, ob) = anthropic_run(s, seq![e0, e1], now);
    let r = anthropic_run(s, events, now).1;
    assert(r =~= seq![
        Ok::<SpecResponseEvent, SpecApiError>(SpecResponseEvent::Created),
        Ok(SpecResponseEvent::ServerModel(model)),
        Ok(SpecResponseEvent::Completed {
            response_id: id,
            token_usage: Some(usage_of(input_tokens, output_tokens)),
            end_turn: Some(true),
        }),
    ]);
}

/// The state, the outcomes and whether the stream ended, after feeding
/// `polls` in order at time `now`, stopping at the first poll that ends the
/// stream.
pub open spec fn anthropic_poll_run(s: SpecAnthropicState, polls: Seq<SpecSsePoll>, now: i64) -> (SpecAnthropicState, Seq<SpecOutcome>, bool)
    decreases polls.len(),
{
    if polls.len() == 0 {
        (s, Seq::empty(), false)
    } else {
        let (s1, o1, f1) = anthropic_step(s, polls[0], now);
        if f1 {
            (s1, o1, true)
        } else {
            let (s2, o2, f2) = anthropic_poll_run(s1, polls.drop_first(), now);
            (s2, o1 + o2, f2)
        }
    }
}

/// An event that the translator passes over: a `ping`, or data that is not
/// an Anthropic event.
pub open spec fn is_noise(p: SpecSsePoll) -> bool {
    p matches SpecSsePoll::Event { event, data } && (event == "ping"@ || decoded_anthropic_event(data) is None)
}

proof fn lemma_noise_skipped(s: SpecAnthropicState, noise: Seq<SpecSsePoll>, rest: Seq<SpecSsePoll>, now: i64)
    requires
        forall|i: int| 0 <= i < noise.len() ==> is_noise(#[trigger] noise[i]),
    ensures
        anthropic_poll_run(s, noise + rest, now) == anthropic_poll_run(s, rest, now),
    decreases noise.len(),
{
    if noise.len() == 0 {
        assert(noise + rest =~= rest);
    } else {
        let all = noise + rest;
        assert(all[0] == noise[0]);
        assert(is_noise(noise[0]));
        assert(all.drop_first() =~= noise.drop_first() + rest);
        lemma_noise_skipped(s, noise.drop_first(), rest, now);
        let (s2, o2, f2) = anthropic_poll_run(s, rest, now);
        assert(Seq::<SpecOutcome>::empty() + o2 =~= o2);
    }
}

/// Pings and undecodable events change nothing: inserting any number of
/// them anywhere into a stream leaves the final state, the outcomes sent and
/// whether the stream ended as they were (item ids being made at the same
/// time `now`).
pub proof fn lemma_noise_ignored(
    s: SpecAnthropicState,
    before: Seq<SpecSsePoll>,
    noise: Seq<SpecSsePoll>,
    after: Seq<SpecSsePoll>,
    now: i64,
)
    requires
        forall|i: int| 0 <= i < noise.len() ==> is_noise(#[trigger] noise[i]),
    ensures
        anthropic_poll_run(s, before + noise + after, now) == anthropic_poll_run(s, before + after, now),
    decreases before.len(),
{
    if before.len() == 0 {
        assert(before + noise + after =~= noise + after);
        assert(before + after =~= after);
        lemma_noise_skipped(s, noise, after, now);
    } else {
        let with = before + noise + after;
        let without = before + after;
        assert(with[0] == before[0]);
        assert(without[0] == before[0]);
        let (s1, o1, f1) = anthropic_step(s, before[0], now);
        if !f1 {
            assert(with.drop_first() =~= before.drop_first() + noise + after);
            assert(without.drop_first() =~= before.drop_first() + after);
            lemma_noise_ignored(s1, before.drop_first(), noise, after, now);
        }
    }
}

/// A `message_start` event is read from the members its records name,
/// whatever else its objects hold: an event object whose `type` is
/// `message_start` and whose `message` object has string `id` and `model`
/// and a `usage` object with an `input_tokens` integer reads as the start of
/// that message with those values.
pub proof fn lemma_message_start_read(j: SpecJson, id: Seq<char>, model: Seq<char>, input_tokens: i64)
    requires
        j is Object,
        j.str_at("type"@) == Some("message_start"@),
        (j.get("message"@) matches Some(m) && m is Object && m.str_at("id"@) == Some(id) && m.str_at("model"@)
            == Some(model)),
        (j.get("message"@) matches Some(m) && (m.get("usage"@) matches Some(u) && u is Object && (u.get(
            "input_tokens"@,
        ) matches Some(n) && int_value(n) == Some(input_tokens)))),
    ensures
        ({ anthropic_event_of(j) == Some(SpecAnthropicEvent::MessageStart { id, model, input_tokens }) }),
{
}

} // verus!
