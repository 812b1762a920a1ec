//! Outbound OpenAI Chat Completions request builder and translator.

use vstd::prelude::*;
use crate::common::{ResponsesApiRequest, SpecResponsesApiRequest};
use crate::json::{Json, SpecJson, parse_json, parsed_json, opt_view};
use crate::models::{
    ContentItem, FunctionCallOutputBody, FunctionCallOutputContentItem, ResponseItem,
    SpecContentItem, SpecOutputBody, SpecOutputContentItem, SpecResponseItem, opt_str_view,
};
use crate::requests::anthropic::conversation_role;
use crate::requests::system::{collect_system_parts, system_parts};
use crate::text::{join, join_strings, same_text, string_views};

verus! {

/// The default completion cap sent with every Chat Completions request.
pub const CHAT_COMPLETIONS_DEFAULT_MAX_TOKENS: i64 = 40_960;

/// A Chat Completions request body.
#[derive(Debug)]
pub struct ChatCompletionsRequest {
    pub model: String,
    pub max_tokens: i64,
    pub messages: Vec<ChatMessage>,
    pub tools: Vec<Json>,
    pub tool_choice: Option<Json>,
    pub stream: bool,
    pub stream_options: ChatStreamOptions,
}

/// Streaming options; usage reporting is always asked for.
#[derive(Debug, Clone, Copy, PartialEq, Eq)]
pub struct ChatStreamOptions {
    pub include_usage: bool,
}

/// One chat message.
#[derive(Debug, Clone, PartialEq, Eq)]
pub struct ChatMessage {
    pub role: String,
    pub content: Option<ChatContent>,
    pub tool_calls: Option<Vec<ChatToolCall>>,
    pub tool_call_id: Option<String>,
}

/// Message content: plain text or a list of parts.
#[derive(Debug, Clone, PartialEq, Eq)]
pub enum ChatContent {
    Text(String),
    Parts(Vec<ChatContentPart>),
}

/// One part of a message's content.
#[derive(Debug, Clone, PartialEq, Eq)]
pub enum ChatContentPart {
    Text { text: String },
    ImageUrl { image_url: ChatImageUrl },
}

/// The URL of an image part.
#[derive(Debug, Clone, PartialEq, Eq)]
pub struct ChatImageUrl {
    pub url: String,
}

/// A tool call made by the assistant; `kind` is always `function`.
#[derive(Debug, Clone, PartialEq, Eq)]
pub struct ChatToolCall {
    pub id: String,
    pub kind: String,
    pub function: ChatToolCallFunction,
}

/// The function named by a tool call, with its arguments text.
#[derive(Debug, Clone, PartialEq, Eq)]
pub struct ChatToolCallFunction {
    pub name: String,
    pub arguments: String,
}

pub enum SpecChatPart {
    Text { text: Seq<char> },
    ImageUrl { url: Seq<char> },
}

pub enum SpecChatContent {
    Text(Seq<char>),
    Parts(Seq<SpecChatPart>),
}

pub struct SpecChatToolCall {
    pub id: Seq<char>,
    pub kind: Seq<char>,
    pub name: Seq<char>,
    pub arguments: Seq<char>,
}

pub struct SpecChatMessage {
    pub role: Seq<char>,
    pub content: Option<SpecChatContent>,
    pub tool_calls: Option<Seq<SpecChatToolCall>>,
    pub tool_call_id: Option<Seq<char>>,
}

pub struct SpecChatRequest {
    pub model: Seq<char>,
    pub max_tokens: i64,
    pub messages: Seq<SpecChatMessage>,
    pub tools: Seq<SpecJson>,
    pub tool_choice: Option<SpecJson>,
    pub stream: bool,
    pub include_usage: bool,
}

impl View for ChatContentPart {
    type V = SpecChatPart;

    open spec fn view(&self) -> SpecChatPart {
        match self {
            ChatContentPart::Text { text } => SpecChatPart::Text { text: text@ },
            ChatContentPart::ImageUrl { image_url } => SpecChatPart::ImageUrl { url: image_url.url@ },
        }
    }
}

/// The views of a sequence of content parts.
pub open spec fn parts_view(s: Seq<ChatContentPart>) -> Seq<SpecChatPart> {
    s.map_values(|p: ChatContentPart| p@)
}

impl View for ChatContent {
    type V = SpecChatContent;

    open spec fn view(&self) -> SpecChatContent {
        match self {
            ChatContent::Text(t) => SpecChatContent::Text(t@),
            ChatContent::Parts(p) => SpecChatContent::Parts(parts_view(p@)),
        }
    }
}

/// The view of optional content.
pub open spec fn opt_content_view(c: Option<ChatContent>) -> Option<SpecChatContent> {
    match c {
        Some(c) => Some(c@),
        None => None,
    }
}

impl View for ChatToolCall {
    type V = SpecChatToolCall;

    open spec fn view(&self) -> SpecChatToolCall {
        SpecChatToolCall {
            id: self.id@,
            kind: self.kind@,
            name: self.function.name@,
            arguments: self.function.arguments@,
        }
    }
}

/// The view of an optional list of tool calls.
pub open spec fn opt_calls_view(c: Option<Vec<ChatToolCall>>) -> Option<Seq<SpecChatToolCall>> {
    match c {
        Some(v) => Some(v@.map_values(|t: ChatToolCall| t@)),
        None => None,
    }
}

impl View for ChatMessage {
    type V = SpecChatMessage;

    open spec fn view(&self) -> SpecChatMessage {
        SpecChatMessage {
            role: self.role@,
            content: opt_content_view(self.content),
            tool_calls: opt_calls_view(self.tool_calls),
            tool_call_id: opt_str_view(self.tool_call_id),
        }
    }
}

/// The views of a sequence of chat messages.
pub open spec fn chat_messages_view(s: Seq<ChatMessage>) -> Seq<SpecChatMessage> {
    s.map_values(|m: ChatMessage| m@)
}

impl View for ChatCompletionsRequest {
    type V = SpecChatRequest;

    open spec fn view(&self) -> SpecChatRequest {
        SpecChatRequest {
            model: self.model@,
            max_tokens: self.max_tokens,
            messages: chat_messages_view(self.messages@),
            tools: self.tools@.map_values(|j: Json| j@),
            tool_choice: opt_view(self.tool_choice),
            stream: self.stream,
            include_usage: self.stream_options.include_usage,
        }
    }
}

// ---------------------------------------------------------------------------
// Messages

/// The text of plain-text content.
pub open spec fn plain_text(c: Option<SpecChatContent>) -> Option<Seq<char>> {
    match c {
        Some(SpecChatContent::Text(t)) => Some(t),
        _ => None,
    }
}

/// `messages` with a new message added. Only consecutive assistant text is
/// merged: plain-text content under `assistant` joins the text of the last
/// message when that is an assistant message with plain text and neither
/// carries tool calls and the new one carries no tool-call id; otherwise the
/// message is appended.
pub open spec fn merge_chat_message(
    messages: Seq<SpecChatMessage>,
    role: Seq<char>,
    content: Option<SpecChatContent>,
    tool_calls: Option<Seq<SpecChatToolCall>>,
    tool_call_id: Option<Seq<char>>,
) -> Seq<SpecChatMessage> {
    if role == "assistant"@ && tool_calls is None && tool_call_id is None && messages.len() > 0 && messages.last().role == role
        && messages.last().tool_calls is None && plain_text(messages.last().content) is Some
        && plain_text(content) is Some {
        let last = messages.last();
        messages.drop_last().push(
            SpecChatMessage {
                role: last.role,
                content: Some(SpecChatContent::Text(plain_text(last.content).unwrap() + plain_text(content).unwrap())),
                tool_calls: last.tool_calls,
                tool_call_id: last.tool_call_id,
            },
        )
    } else {
        messages.push(SpecChatMessage { role, content, tool_calls, tool_call_id })
    }
}

/// Adds a message, merging consecutive assistant text (see
/// [`merge_chat_message`]).
pub fn append_or_merge_chat_message(
    messages: &mut Vec<ChatMessage>,
    role: &str,
    content: Option<ChatContent>,
    tool_calls: Option<Vec<ChatToolCall>>,
    tool_call_id: Option<String>,
)
    ensures
        chat_messages_view(final(messages)@) == merge_chat_message(
            chat_messages_view(old(messages)@),
            role@,
            opt_content_view(content),
            opt_calls_view(tool_calls),
            opt_str_view(tool_call_id),
        ),
{
    let ghost before = messages@;
    let n = messages.len();
    if same_text(role, "assistant") && tool_calls.is_none() && tool_call_id.is_none() && n > 0 {
        let mergeable = same_text(messages[n - 1].role.as_str(), role) && messages[n - 1].tool_calls.is_none()
            && match (&messages[n - 1].content, &content) {
            (Some(ChatContent::Text(_)), Some(ChatContent::Text(_))) => true,
            _ => false,
        };
        if mergeable {
            let last = messages.pop().unwrap();
            let new_text = match content {
                Some(ChatContent::Text(t)) => t,
                _ => String::new(),
            };
            let merged = match last.content {
                Some(ChatContent::Text(existing)) => {
                    let mut e = existing;
                    e.append(new_text.as_str());
                    e
                },
                _ => String::new(),
            };
            messages.push(ChatMessage {
                role: last.role,
                content: Some(ChatContent::Text(merged)),
                tool_calls: last.tool_calls,
                tool_call_id: last.tool_call_id,
            });
            assert(chat_messages_view(messages@) =~= chat_messages_view(before).drop_last().push(messages@.last()@));
            return;
        }
    }
    messages.push(ChatMessage { role: String::from_str(role), content, tool_calls, tool_call_id });
    assert(chat_messages_view(messages@) =~= chat_messages_view(before).push(messages@.last()@));
}


/// The chat parts of a message's content: text parts as text, images as
/// image URLs.
pub open spec fn chat_parts(content: Seq<SpecContentItem>) -> Seq<SpecChatPart>
    decreases content.len(),
{
    if content.len() == 0 {
        Seq::empty()
    } else {
        let earlier = chat_parts(content.drop_last());
        match content.last() {
            SpecContentItem::InputText { text } => earlier.push(SpecChatPart::Text { text }),
            SpecContentItem::OutputText { text } => earlier.push(SpecChatPart::Text { text }),
            SpecContentItem::InputImage { image_url } => earlier.push(SpecChatPart::ImageUrl { url: image_url }),
        }
    }
}

/// Message content for a list of parts: none for no parts, plain text for a
/// single text part, the parts otherwise.
pub open spec fn chat_content_of(parts: Seq<SpecChatPart>) -> Option<SpecChatContent> {
    if parts.len() == 0 {
        None
    } else if parts.len() == 1 && parts[0] is Text {
        Some(SpecChatContent::Text(parts[0]->Text_text))
    } else {
        Some(SpecChatContent::Parts(parts))
    }
}

/// The texts of the text items of a structured tool output.
pub open spec fn output_texts(items: Seq<SpecOutputContentItem>) -> Seq<Seq<char>>
    decreases items.len(),
{
    if items.len() == 0 {
        Seq::empty()
    } else {
        let earlier = output_texts(items.drop_last());
        match items.last() {
            SpecOutputContentItem::InputText { text } => earlier.push(text),
            _ => earlier,
        }
    }
}

/// The text of a tool output: the text itself, or the texts of a structured
/// output joined by newlines.
pub open spec fn tool_output_text(body: SpecOutputBody) -> Seq<char> {
    match body {
        SpecOutputBody::Text(t) => t,
        SpecOutputBody::ContentItems(items) => join(output_texts(items), "\n"@),
    }
}

/// The `tool` message that answers call `call_id` with `body`.
pub open spec fn tool_message(call_id: Seq<char>, body: SpecOutputBody) -> SpecChatMessage {
    SpecChatMessage {
        role: "tool"@,
        content: Some(SpecChatContent::Text(tool_output_text(body))),
        tool_calls: None,
        tool_call_id: Some(call_id),
    }
}

/// `messages` after one item of the conversation: system messages and items
/// of other kinds change nothing; a message is merged under its conversation
/// role; a function call adds an assistant message carrying the call; a tool
/// output adds a `tool` message.
pub open spec fn chat_item_step(messages: Seq<SpecChatMessage>, item: SpecResponseItem) -> Seq<SpecChatMessage> {
    match item {
        SpecResponseItem::Message { role, content, .. } => if role == "system"@ {
            messages
        } else {
            merge_chat_message(messages, conversation_role(role), chat_content_of(chat_parts(content)), None, None)
        },
        SpecResponseItem::FunctionCall { name, arguments, call_id, .. } => merge_chat_message(
            messages,
            "assistant"@,
            None,
            Some(seq![SpecChatToolCall { id: call_id, kind: "function"@, name, arguments }]),
            None,
        ),
        SpecResponseItem::FunctionCallOutput { call_id, output } => messages.push(tool_message(call_id, output.body)),
        SpecResponseItem::CustomToolCallOutput { call_id, output } => messages.push(tool_message(call_id, output.body)),
        _ => messages,
    }
}

/// The chat messages that follow `start` for a conversation, item by item.
pub open spec fn chat_conversation(start: Seq<SpecChatMessage>, items: Seq<SpecResponseItem>) -> Seq<SpecChatMessage>
    decreases items.len(),
{
    if items.len() == 0 {
        start
    } else {
        chat_item_step(chat_conversation(start, items.drop_last()), items.last())
    }
}

/// The opening system message, when there is a system prompt.
pub open spec fn system_messages(req: SpecResponsesApiRequest) -> Seq<SpecChatMessage> {
    let parts = system_parts(req);
    if parts.len() == 0 {
        Seq::empty()
    } else {
        seq![SpecChatMessage {
            role: "system"@,
            content: Some(SpecChatContent::Text(join(parts, "\n\n"@))),
            tool_calls: None,
            tool_call_id: None,
        }]
    }
}

// ---------------------------------------------------------------------------
// Tools

/// The tool choice for an OpenAI-style setting: `auto`, `required` and
/// `none` pass through as JSON strings; anything else is read as JSON, and
/// dropped where it does not parse.
pub open spec fn chat_tool_choice_of(choice: Seq<char>) -> Option<SpecJson> {
    if choice == "auto"@ || choice == "required"@ || choice == "none"@ {
        Some(SpecJson::Str(choice))
    } else {
        parsed_json(choice)
    }
}

fn translate_tool_choice(openai_choice: &str) -> (choice: Option<Json>)
    ensures
        opt_view(choice) == chat_tool_choice_of(openai_choice@),
{
    if same_text(openai_choice, "auto") {
        Some(Json::Str(String::from_str("auto")))
    } else if same_text(openai_choice, "required") {
        Some(Json::Str(String::from_str("required")))
    } else if same_text(openai_choice, "none") {
        Some(Json::Str(String::from_str("none")))
    } else {
        parse_json(openai_choice)
    }
}

/// `{"type": "function", "function": {"name": .., "description": .., "parameters": ..}}`.
pub open spec fn function_tool_json(name: Seq<char>, description: Seq<char>, parameters: SpecJson) -> SpecJson {
    SpecJson::Object(seq![
        ("type"@, SpecJson::Str("function"@)),
        ("function"@, SpecJson::Object(seq![
            ("name"@, SpecJson::Str(name)),
            ("description"@, SpecJson::Str(description)),
            ("parameters"@, parameters),
        ])),
    ])
}

/// The Chat Completions form of a tool definition: dropped without a string
/// `type`; passed through unless the type is `function`; a function tool is
/// dropped without a string `name` and otherwise nested under `function`,
/// with the description defaulting to empty and the parameters to `null`.
pub open spec fn chat_tool_of(tool: SpecJson) -> Option<SpecJson> {
    match tool.str_at("type"@) {
        None => None,
        Some(kind) => if kind != "function"@ {
            Some(tool)
        } else {
            match tool.str_at("name"@) {
                None => None,
                Some(name) => Some(function_tool_json(
                    name,
                    match tool.str_at("description"@) {
                        Some(d) => d,
                        None => Seq::empty(),
                    },
                    match tool.get("parameters"@) {
                        Some(p) => p,
                        None => SpecJson::Null,
                    },
                )),
            }
        },
    }
}

/// The tools of `tools` that translate, in order.
pub open spec fn chat_tools_of(tools: Seq<SpecJson>) -> Seq<SpecJson>
    decreases tools.len(),
{
    if tools.len() == 0 {
        Seq::empty()
    } else {
        let earlier = chat_tools_of(tools.drop_last());
        match chat_tool_of(tools.last()) {
            Some(t) => earlier.push(t),
            None => earlier,
        }
    }
}

fn translate_chat_tool(tool: &Json) -> (out: Option<Json>)
    ensures
        opt_view(out) == chat_tool_of(tool@),
{
    let type_hint = match tool.string_at("type") {
        Some(t) => t,
        None => return None,
    };
    if !same_text(type_hint.as_str(), "function") {
        return Some(tool.deep_copy());
    }
    let name = match tool.string_at("name") {
        Some(n) => n,
        None => return None,
    };
    let description = match tool.string_at("description") {
        Some(d) => d,
        None => String::new(),
    };
    let parameters = match tool.get("parameters") {
        Some(p) => p.deep_copy(),
        None => Json::Null,
    };
    let ghost pv = parameters@;
    let inner = vec![
        (String::from_str("name"), Json::Str(name)),
        (String::from_str("description"), Json::Str(description)),
        (String::from_str("parameters"), parameters),
    ];
    proof {
        crate::json::lemma_members_view(inner@);
        assert(crate::json::members_view(inner@) =~= seq![
            ("name"@, SpecJson::Str(inner@[0].1->Str_0@)),
            ("description"@, SpecJson::Str(inner@[1].1->Str_0@)),
            ("parameters"@, pv),
        ]);
    }
    let outer = vec![
        (String::from_str("type"), Json::Str(String::from_str("function"))),
        (String::from_str("function"), Json::Object(inner)),
    ];
    proof {
        crate::json::lemma_members_view(outer@);
    }
    let out = Json::Object(outer);
    assert(crate::json::members_view(outer@) =~= seq![
        ("type"@, SpecJson::Str("function"@)),
        ("function"@, outer@[1].1@),
    ]);
    Some(out)
}

/// Rewrites OpenAI Responses-style tool definitions into the Chat Completions
/// shape (see [`chat_tool_of`]).
pub fn translate_tools_for_chat_completions(tools: &Vec<Json>) -> (out: Vec<Json>)
    ensures
        out@.map_values(|j: Json| j@) == chat_tools_of(tools@.map_values(|j: Json| j@)),
{
    let ghost views = tools@.map_values(|j: Json| j@);
    let mut out: Vec<Json> = Vec::new();
    let mut i: usize = 0;
    while i < tools.len()
        invariant
            i <= tools.len(),
            views == tools@.map_values(|j: Json| j@),
            out@.map_values(|j: Json| j@) == chat_tools_of(views.take(i as int)),
        decreases tools.len() - i,
    {
        assert(views.take(i + 1).drop_last() =~= views.take(i as int));
        let ghost before = out@;
        match translate_chat_tool(&tools[i]) {
            Some(t) => {
                out.push(t);
                assert(out@.map_values(|j: Json| j@) =~= before.map_values(|j: Json| j@).push(out@.last()@));
            },
            None => {},
        }
        i = i + 1;
    }
    assert(views.take(tools.len() as int) =~= views);
    out
}


// ---------------------------------------------------------------------------
// Request

/// The Chat Completions request for a Responses-style request.
pub open spec fn chat_request_of(req: SpecResponsesApiRequest) -> SpecChatRequest {
    SpecChatRequest {
        model: req.model,
        max_tokens: CHAT_COMPLETIONS_DEFAULT_MAX_TOKENS,
        messages: chat_conversation(system_messages(req), req.input),
        tools: chat_tools_of(req.tools),
        tool_choice: chat_tool_choice_of(req.tool_choice),
        stream: req.stream,
        include_usage: true,
    }
}

fn message_content(content: &Vec<ContentItem>) -> (out: Option<ChatContent>)
    ensures
        opt_content_view(out) == chat_content_of(chat_parts(content@.map_values(|c: ContentItem| c@))),
{
    let ghost cv = content@.map_values(|c: ContentItem| c@);
    let mut parts: Vec<ChatContentPart> = Vec::new();
    let mut j: usize = 0;
    while j < content.len()
        invariant
            j <= content.len(),
            cv == content@.map_values(|c: ContentItem| c@),
            parts_view(parts@) == chat_parts(cv.take(j as int)),
        decreases content.len() - j,
    {
        assert(cv.take(j + 1).drop_last() =~= cv.take(j as int));
        let ghost before = parts@;
        match &content[j] {
            ContentItem::InputText { text } => parts.push(ChatContentPart::Text { text: text.clone() }),
            ContentItem::OutputText { text } => parts.push(ChatContentPart::Text { text: text.clone() }),
            ContentItem::InputImage { image_url } => parts.push(
                ChatContentPart::ImageUrl { image_url: ChatImageUrl { url: image_url.clone() } },
            ),
        }
        assert(parts_view(parts@) =~= parts_view(before).push(parts@.last()@));
        j = j + 1;
    }
    assert(cv.take(content.len() as int) =~= cv);
    if parts.len() == 0 {
        None
    } else if parts.len() == 1 {
        let single_text = match &parts[0] {
            ChatContentPart::Text { text } => Some(text.clone()),
            _ => None,
        };
        match single_text {
            Some(t) => Some(ChatContent::Text(t)),
            None => Some(ChatContent::Parts(parts)),
        }
    } else {
        Some(ChatContent::Parts(parts))
    }
}

fn output_text(body: &FunctionCallOutputBody) -> (text: String)
    ensures
        text@ == tool_output_text(body@),
{
    match body {
        FunctionCallOutputBody::Text(t) => t.clone(),
        FunctionCallOutputBody::ContentItems(items) => {
            let ghost iv = items@.map_values(|i: FunctionCallOutputContentItem| i@);
            let mut texts: Vec<String> = Vec::new();
            let mut j: usize = 0;
            while j < items.len()
                invariant
                    j <= items.len(),
                    iv == items@.map_values(|i: FunctionCallOutputContentItem| i@),
                    string_views(texts@) == output_texts(iv.take(j as int)),
                decreases items.len() - j,
            {
                assert(iv.take(j + 1).drop_last() =~= iv.take(j as int));
                let ghost before = texts@;
                match &items[j] {
                    FunctionCallOutputContentItem::InputText { text } => {
                        texts.push(text.clone());
                        assert(string_views(texts@) =~= string_views(before).push(text@));
                    },
                    _ => {},
                }
                j = j + 1;
            }
            assert(iv.take(items.len() as int) =~= iv);
            join_strings(&texts, "\n")
        },
    }
}

/// Translates a Responses-style request into a Chat Completions request.
pub fn translate_request(request: &ResponsesApiRequest) -> (out: ChatCompletionsRequest)
    ensures
        out@ == chat_request_of(request@),
        out.stream == request.stream,
        out.model@ == request.model@,
{
    let mut messages: Vec<ChatMessage> = Vec::new();
    let system_parts = collect_system_parts(request);
    if system_parts.len() > 0 {
        messages.push(ChatMessage {
            role: String::from_str("system"),
            content: Some(ChatContent::Text(join_strings(&system_parts, "\n\n"))),
            tool_calls: None,
            tool_call_id: None,
        });
    }
    let ghost start = system_messages(request@);
    assert(chat_messages_view(messages@) =~= start);
    let ghost items = request@.input;
    let mut i: usize = 0;
    while i < request.input.len()
        invariant
            i <= request.input.len(),
            items == request@.input,
            items.len() == request.input@.len(),
            forall|k: int| 0 <= k < items.len() ==> items[k] == #[trigger] request.input@[k]@,
            chat_messages_view(messages@) == chat_conversation(start, items.take(i as int)),
        decreases request.input.len() - i,
    {
        assert(items.take(i + 1).drop_last() =~= items.take(i as int));
        let ghost before = messages@;
        match &request.input[i] {
            ResponseItem::Message { role, content, .. } => {
                if !same_text(role.as_str(), "system") {
                    let role_name = if same_text(role.as_str(), "user") {
                        "user"
                    } else {
                        "assistant"
                    };
                    let c = message_content(content);
                    append_or_merge_chat_message(&mut messages, role_name, c, None, None);
                }
            },
            ResponseItem::FunctionCall { name, arguments, call_id, .. } => {
                let tool_call = ChatToolCall {
                    id: call_id.clone(),
                    kind: String::from_str("function"),
                    function: ChatToolCallFunction { name: name.clone(), arguments: arguments.clone() },
                };
                let calls = vec![tool_call];
                assert(calls@.map_values(|t: ChatToolCall| t@) =~= seq![calls@[0]@]);
                append_or_merge_chat_message(&mut messages, "assistant", None, Some(calls), None);
            },
            ResponseItem::FunctionCallOutput { call_id, output } => {
                let text = output_text(&output.body);
                messages.push(ChatMessage {
                    role: String::from_str("tool"),
                    content: Some(ChatContent::Text(text)),
                    tool_calls: None,
                    tool_call_id: Some(call_id.clone()),
                });
                assert(chat_messages_view(messages@) =~= chat_messages_view(before).push(messages@.last()@));
            },
            ResponseItem::CustomToolCallOutput { call_id, output } => {
                let text = output_text(&output.body);
                messages.push(ChatMessage {
                    role: String::from_str("tool"),
                    content: Some(ChatContent::Text(text)),
                    tool_calls: None,
                    tool_call_id: Some(call_id.clone()),
                });
                assert(chat_messages_view(messages@) =~= chat_messages_view(before).push(messages@.last()@));
            },
            _ => {},
        }
        i = i + 1;
    }
    assert(items.take(request.input.len() as int) =~= items);
    let tool_choice = translate_tool_choice(request.tool_choice.as_str());
    let tools = translate_tools_for_chat_completions(&request.tools);
    ChatCompletionsRequest {
        model: request.model.clone(),
        max_tokens: CHAT_COMPLETIONS_DEFAULT_MAX_TOKENS,
        messages,
        tools,
        tool_choice,
        stream: request.stream,
        stream_options: ChatStreamOptions { include_usage: true },
    }
}


// ---------------------------------------------------------------------------
// Laws

/// The roles under which conversation items are sent.
pub open spec fn conversation_role_name(role: Seq<char>) -> bool {
    role == "user"@ || role == "assistant"@ || role == "tool"@
}

proof fn lemma_system_is_not_a_conversation_role()
    ensures
        "system"@ != "user"@,
        "system"@ != "assistant"@,
        "system"@ != "tool"@,
{
    reveal_strlit("system");
    reveal_strlit("user");
    reveal_strlit("assistant");
    reveal_strlit("tool");
    assert(("system"@)[0] != ("user"@)[0]);
    assert(("system"@).len() != ("assistant"@).len());
    assert(("system"@).len() != ("tool"@).len());
}

proof fn lemma_conversation_roles(start: Seq<SpecChatMessage>, items: Seq<SpecResponseItem>)
    requires
        forall|i: int| 0 <= i < start.len() ==> !conversation_role_name(#[trigger] start[i].role),
    ensures
        chat_conversation(start, items).len() >= start.len(),
        chat_conversation(start, items).take(start.len() as int) == start,
        forall|i: int|
            start.len() <= i < chat_conversation(start, items).len() ==> conversation_role_name(
                #[trigger] chat_conversation(start, items)[i].role,
            ),
    decreases items.len(),
{
    if items.len() > 0 {
        lemma_conversation_roles(start, items.drop_last());
        let before = chat_conversation(start, items.drop_last());
        let out = chat_conversation(start, items);
        assert(before.take(start.len() as int) == start);
        assert forall|i: int| 0 <= i < start.len() implies out[i] == start[i] by {
            assert(before.take(start.len() as int)[i] == start[i]);
            if i == before.len() - 1 && out.len() == before.len() {
                assert(!conversation_role_name(start[i].role));
            }
        }
        assert(out.take(start.len() as int) =~= start);
        assert forall|i: int| start.len() <= i < out.len() implies conversation_role_name(#[trigger] out[i].role) by {
            if i < before.len() {
                assert(conversation_role_name(before[i].role));
            }
        }
    }
}

/// A translated request opens with one `system` message exactly when there
/// is a system prompt (non-empty instructions or text in system messages),
/// carrying the parts joined by blank lines; every later message is sent as
/// `user`, `assistant` or `tool`.
pub proof fn lemma_system_message_first(req: SpecResponsesApiRequest)
    ensures
        ({
            let messages = chat_request_of(req).messages;
            let parts = system_parts(req);
            &&& (parts.len() > 0) == (messages.len() > 0 && messages[0].role == "system"@)
            &&& parts.len() > 0 ==> messages[0].content == Some(SpecChatContent::Text(join(parts, "\n\n"@)))
            &&& forall|i: int| (if parts.len() > 0 { 1int } else { 0int }) <= i < messages.len() ==> conversation_role_name(#[trigger] messages[i].role)
        }),
{
    lemma_system_is_not_a_conversation_role();
    let start = system_messages(req);
    lemma_conversation_roles(start, req.input);
    let messages = chat_conversation(start, req.input);
    if system_parts(req).len() > 0 {
        assert(messages.take(1)[0] == start[0]);
    } else if messages.len() > 0 {
        assert(conversation_role_name(messages[0].role));
    }
}

/// The request's settings carry over: the model and the streaming flag are
/// the Responses request's, the completion cap is the default, and token
/// usage is always asked for.
pub proof fn lemma_chat_request_settings(req: SpecResponsesApiRequest)
    ensures
        chat_request_of(req).model == req.model,
        chat_request_of(req).stream == req.stream,
        chat_request_of(req).max_tokens == 40_960,
        chat_request_of(req).include_usage,
{
}

} // verus!
