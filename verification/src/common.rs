//! The request that the translators read, and the events and errors that the
//! stream translators produce.

use vstd::prelude::*;
use crate::json::{Json, SpecJson};
use crate::models::{ResponseItem, SpecResponseItem};

verus! {

/// A Responses-style request: the model, the instructions, the conversation,
/// the tool definitions and the tool-choice setting.
#[derive(Debug)]
pub struct ResponsesApiRequest {
    pub model: String,
    pub instructions: String,
    pub input: Vec<ResponseItem>,
    pub tools: Vec<Json>,
    pub tool_choice: String,
    pub stream: bool,
}

pub struct SpecResponsesApiRequest {
    pub model: Seq<char>,
    pub instructions: Seq<char>,
    pub input: Seq<SpecResponseItem>,
    pub tools: Seq<SpecJson>,
    pub tool_choice: Seq<char>,
    pub stream: bool,
}

impl View for ResponsesApiRequest {
    type V = SpecResponsesApiRequest;

    open spec fn view(&self) -> SpecResponsesApiRequest {
        SpecResponsesApiRequest {
            model: self.model@,
            instructions: self.instructions@,
            input: self.input@.map_values(|i: ResponseItem| i@),
            tools: self.tools@.map_values(|j: Json| j@),
            tool_choice: self.tool_choice@,
            stream: self.stream,
        }
    }
}

/// Token counts reported for a completed response.
#[derive(Debug, Clone, Copy, PartialEq, Eq)]
pub struct TokenUsage {
    pub input_tokens: i64,
    pub cached_input_tokens: i64,
    pub output_tokens: i64,
    pub reasoning_output_tokens: i64,
    pub total_tokens: i64,
}

/// An event of a streamed response.
#[derive(Debug, Clone, PartialEq, Eq)]
pub enum ResponseEvent {
    Created,
    ServerModel(String),
    OutputItemAdded(ResponseItem),
    OutputItemDone(ResponseItem),
    OutputTextDelta(String),
    ReasoningContentDelta { delta: String, content_index: i64 },
    ToolCallInputDelta { item_id: String, call_id: Option<String>, delta: String },
    Completed { response_id: String, token_usage: Option<TokenUsage>, end_turn: Option<bool> },
    /// The models etag that the server reported in its response headers.
    ModelsEtag(String),
}

/// An error that ends a streamed response.
#[derive(Debug, Clone, PartialEq, Eq)]
pub enum ApiError {
    Stream(String),
}

pub enum SpecResponseEvent {
    Created,
    ServerModel(Seq<char>),
    OutputItemAdded(SpecResponseItem),
    OutputItemDone(SpecResponseItem),
    OutputTextDelta(Seq<char>),
    ReasoningContentDelta { delta: Seq<char>, content_index: i64 },
    ToolCallInputDelta { item_id: Seq<char>, call_id: Option<Seq<char>>, delta: Seq<char> },
    Completed { response_id: Seq<char>, token_usage: Option<TokenUsage>, end_turn: Option<bool> },
    ModelsEtag(Seq<char>),
}

pub enum SpecApiError {
    Stream(Seq<char>),
}

impl View for ResponseEvent {
    type V = SpecResponseEvent;

    open spec fn view(&self) -> SpecResponseEvent {
        match self {
            ResponseEvent::Created => SpecResponseEvent::Created,
            ResponseEvent::ServerModel(m) => SpecResponseEvent::ServerModel(m@),
            ResponseEvent::OutputItemAdded(i) => SpecResponseEvent::OutputItemAdded(i@),
            ResponseEvent::OutputItemDone(i) => SpecResponseEvent::OutputItemDone(i@),
            ResponseEvent::OutputTextDelta(d) => SpecResponseEvent::OutputTextDelta(d@),
            ResponseEvent::ReasoningContentDelta { delta, content_index } =>
                SpecResponseEvent::ReasoningContentDelta { delta: delta@, content_index: *content_index },
            ResponseEvent::ToolCallInputDelta { item_id, call_id, delta } => SpecResponseEvent::ToolCallInputDelta {
                item_id: item_id@,
                call_id: crate::models::opt_str_view(*call_id),
                delta: delta@,
            },
            ResponseEvent::Completed { response_id, token_usage, end_turn } => SpecResponseEvent::Completed {
                response_id: response_id@,
                token_usage: *token_usage,
                end_turn: *end_turn,
            },
            ResponseEvent::ModelsEtag(etag) => SpecResponseEvent::ModelsEtag(etag@),
        }
    }
}

impl View for ApiError {
    type V = SpecApiError;

    open spec fn view(&self) -> SpecApiError {
        match self {
            ApiError::Stream(m) => SpecApiError::Stream(m@),
        }
    }
}

/// The view of one streamed outcome: an event, or the error that ends the
/// stream.
pub open spec fn outcome_view(o: Result<ResponseEvent, ApiError>) -> Result<SpecResponseEvent, SpecApiError> {
    match o {
        Ok(e) => Ok(e@),
        Err(e) => Err(e@),
    }
}

/// The views of a sequence of streamed outcomes.
pub open spec fn outcomes_view(v: Seq<Result<ResponseEvent, ApiError>>) -> Seq<Result<SpecResponseEvent, SpecApiError>> {
    v.map_values(|o: Result<ResponseEvent, ApiError>| outcome_view(o))
}

} // verus!
