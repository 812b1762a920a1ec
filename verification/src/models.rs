//! The conversation items that requests are built from and that streamed
//! responses are translated into.

use vstd::prelude::*;

verus! {

/// One piece of a message's content.
#[derive(Debug, Clone, PartialEq, Eq)]
pub enum ContentItem {
    InputText { text: String },
    InputImage { image_url: String },
    OutputText { text: String },
}

/// One piece of a structured tool-call output.
#[derive(Debug, Clone, PartialEq, Eq)]
pub enum FunctionCallOutputContentItem {
    InputText { text: String },
    InputImage { image_url: String },
}

/// The body of a tool-call output: plain text or structured items.
#[derive(Debug, Clone, PartialEq, Eq)]
pub enum FunctionCallOutputBody {
    Text(String),
    ContentItems(Vec<FunctionCallOutputContentItem>),
}

/// A tool-call output with its success flag, when the tool reported one.
#[derive(Debug, Clone, PartialEq, Eq)]
pub struct FunctionCallOutputPayload {
    pub body: FunctionCallOutputBody,
    pub success: Option<bool>,
}

/// One piece of reasoning content.
#[derive(Debug, Clone, PartialEq, Eq)]
pub enum ReasoningItemContent {
    ReasoningText { text: String },
}

/// An item of the conversation. `Other` stands for the kinds of item that the
/// translators pass over.
#[derive(Debug, Clone, PartialEq, Eq)]
pub enum ResponseItem {
    Message { id: Option<String>, role: String, content: Vec<ContentItem> },
    Reasoning { id: String, content: Option<Vec<ReasoningItemContent>> },
    FunctionCall { id: Option<String>, name: String, arguments: String, call_id: String },
    FunctionCallOutput { call_id: String, output: FunctionCallOutputPayload },
    CustomToolCallOutput { call_id: String, output: FunctionCallOutputPayload },
    Other,
}

pub enum SpecContentItem {
    InputText { text: Seq<char> },
    InputImage { image_url: Seq<char> },
    OutputText { text: Seq<char> },
}

pub enum SpecOutputContentItem {
    InputText { text: Seq<char> },
    InputImage { image_url: Seq<char> },
}

pub enum SpecOutputBody {
    Text(Seq<char>),
    ContentItems(Seq<SpecOutputContentItem>),
}

pub struct SpecOutputPayload {
    pub body: SpecOutputBody,
    pub success: Option<bool>,
}

pub enum SpecReasoningContent {
    ReasoningText { text: Seq<char> },
}

pub enum SpecResponseItem {
    Message { id: Option<Seq<char>>, role: Seq<char>, content: Seq<SpecContentItem> },
    Reasoning { id: Seq<char>, content: Option<Seq<SpecReasoningContent>> },
    FunctionCall { id: Option<Seq<char>>, name: Seq<char>, arguments: Seq<char>, call_id: Seq<char> },
    FunctionCallOutput { call_id: Seq<char>, output: SpecOutputPayload },
    CustomToolCallOutput { call_id: Seq<char>, output: SpecOutputPayload },
    Other,
}

/// The view of an optional string.
pub open spec fn opt_str_view(o: Option<String>) -> Option<Seq<char>> {
    match o {
        Some(s) => Some(s@),
        None => None,
    }
}

impl View for ContentItem {
    type V = SpecContentItem;

    open spec fn view(&self) -> SpecContentItem {
        match self {
            ContentItem::InputText { text } => SpecContentItem::InputText { text: text@ },
            ContentItem::InputImage { image_url } => SpecContentItem::InputImage { image_url: image_url@ },
            ContentItem::OutputText { text } => SpecContentItem::OutputText { text: text@ },
        }
    }
}

impl View for FunctionCallOutputContentItem {
    type V = SpecOutputContentItem;

    open spec fn view(&self) -> SpecOutputContentItem {
        match self {
            FunctionCallOutputContentItem::InputText { text } => SpecOutputContentItem::InputText { text: text@ },
            FunctionCallOutputContentItem::InputImage { image_url } => SpecOutputContentItem::InputImage { image_url: image_url@ },
        }
    }
}

impl View for FunctionCallOutputBody {
    type V = SpecOutputBody;

    open spec fn view(&self) -> SpecOutputBody {
        match self {
            FunctionCallOutputBody::Text(t) => SpecOutputBody::Text(t@),
            FunctionCallOutputBody::ContentItems(items) => SpecOutputBody::ContentItems(
                items@.map_values(|i: FunctionCallOutputContentItem| i@),
            ),
        }
    }
}

impl View for FunctionCallOutputPayload {
    type V = SpecOutputPayload;

    open spec fn view(&self) -> SpecOutputPayload {
        SpecOutputPayload { body: self.body@, success: self.success }
    }
}

impl View for ReasoningItemContent {
    type V = SpecReasoningContent;

    open spec fn view(&self) -> SpecReasoningContent {
        match self {
            ReasoningItemContent::ReasoningText { text } => SpecReasoningContent::ReasoningText { text: text@ },
        }
    }
}

impl View for ResponseItem {
    type V = SpecResponseItem;

    open spec fn view(&self) -> SpecResponseItem {
        match self {
            ResponseItem::Message { id, role, content } => SpecResponseItem::Message {
                id: opt_str_view(*id),
                role: role@,
                content: content@.map_values(|c: ContentItem| c@),
            },
            ResponseItem::Reasoning { id, content } => SpecResponseItem::Reasoning {
                id: id@,
                content: match content {
                    Some(c) => Some(c@.map_values(|r: ReasoningItemContent| r@)),
                    None => None,
                },
            },
            ResponseItem::FunctionCall { id, name, arguments, call_id } => SpecResponseItem::FunctionCall {
                id: opt_str_view(*id),
                name: name@,
                arguments: arguments@,
                call_id: call_id@,
            },
            ResponseItem::FunctionCallOutput { call_id, output } => SpecResponseItem::FunctionCallOutput {
                call_id: call_id@,
                output: output@,
            },
            ResponseItem::CustomToolCallOutput { call_id, output } => SpecResponseItem::CustomToolCallOutput {
                call_id: call_id@,
                output: output@,
            },
            ResponseItem::Other => SpecResponseItem::Other,
        }
    }
}

} // verus!
