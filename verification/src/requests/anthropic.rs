//! Outbound Anthropic Messages request builder and translator.

use vstd::prelude::*;
use crate::common::{ResponsesApiRequest, SpecResponsesApiRequest};
use crate::json::{Json, SpecJson, parse_json, parsed_json, opt_view};
use crate::models::{
    ContentItem, FunctionCallOutputBody, FunctionCallOutputContentItem, FunctionCallOutputPayload,
    ResponseItem, SpecContentItem, SpecOutputBody, SpecOutputContentItem, SpecResponseItem,
};
use crate::requests::system::{collect_system_parts, system_parts};
use crate::text::{chars_of, find_chars, find_from, has_prefix, join, join_strings, same_text, starts_with_chars, string_views};

verus! {

/// The Anthropic Messages API requires `max_tokens`. MiniMax's M-series models
/// support large completions, so a generous cap is the default.
pub const ANTHROPIC_DEFAULT_MAX_TOKENS: i64 = 40_960;

/// An Anthropic Messages request body.
#[derive(Debug)]
pub struct AnthropicMessageRequest {
    pub model: String,
    pub max_tokens: i64,
    pub system: Option<String>,
    pub messages: Vec<AnthropicMessage>,
    pub tools: Vec<AnthropicTool>,
    pub tool_choice: Option<AnthropicToolChoice>,
    pub stream: bool,
}

/// One message of the conversation, with its role and content blocks.
#[derive(Debug)]
pub struct AnthropicMessage {
    pub role: String,
    pub content: Vec<AnthropicContentBlock>,
}

/// A content block of a message.
#[derive(Debug)]
pub enum AnthropicContentBlock {
    Text { text: String },
    Image { source: AnthropicImageSource },
    ToolUse { id: String, name: String, input: Json },
    ToolResult { tool_use_id: String, content: Json, is_error: Option<bool> },
}

/// An inline image: its encoding (`kind`, always `base64` here), media type
/// and data.
#[derive(Debug, Clone, PartialEq, Eq)]
pub struct AnthropicImageSource {
    pub kind: String,
    pub media_type: String,
    pub data: String,
}

/// A tool definition.
#[derive(Debug)]
pub struct AnthropicTool {
    pub name: String,
    pub description: String,
    pub input_schema: Json,
}

/// How the model may pick tools.
#[derive(Debug, Clone, PartialEq, Eq)]
pub enum AnthropicToolChoice {
    Auto,
    Any,
    Tool { name: String },
}

pub struct SpecAnthropicImageSource {
    pub kind: Seq<char>,
    pub media_type: Seq<char>,
    pub data: Seq<char>,
}

pub enum SpecAnthropicBlock {
    Text { text: Seq<char> },
    Image { source: SpecAnthropicImageSource },
    ToolUse { id: Seq<char>, name: Seq<char>, input: SpecJson },
    ToolResult { tool_use_id: Seq<char>, content: SpecJson, is_error: Option<bool> },
}

pub struct SpecAnthropicMessage {
    pub role: Seq<char>,
    pub content: Seq<SpecAnthropicBlock>,
}

pub struct SpecAnthropicTool {
    pub name: Seq<char>,
    pub description: Seq<char>,
    pub input_schema: SpecJson,
}

pub enum SpecAnthropicToolChoice {
    Auto,
    Any,
    Tool { name: Seq<char> },
}

pub struct SpecAnthropicRequest {
    pub model: Seq<char>,
    pub max_tokens: i64,
    pub system: Option<Seq<char>>,
    pub messages: Seq<SpecAnthropicMessage>,
    pub tools: Seq<SpecAnthropicTool>,
    pub tool_choice: Option<SpecAnthropicToolChoice>,
    pub stream: bool,
}

impl View for AnthropicImageSource {
    type V = SpecAnthropicImageSource;

    open spec fn view(&self) -> SpecAnthropicImageSource {
        SpecAnthropicImageSource { kind: self.kind@, media_type: self.media_type@, data: self.data@ }
    }
}

impl View for AnthropicContentBlock {
    type V = SpecAnthropicBlock;

    open spec fn view(&self) -> SpecAnthropicBlock {
        match self {
            AnthropicContentBlock::Text { text } => SpecAnthropicBlock::Text { text: text@ },
            AnthropicContentBlock::Image { source } => SpecAnthropicBlock::Image { source: source@ },
            AnthropicContentBlock::ToolUse { id, name, input } =>
                SpecAnthropicBlock::ToolUse { id: id@, name: name@, input: input@ },
            AnthropicContentBlock::ToolResult { tool_use_id, content, is_error } =>
                SpecAnthropicBlock::ToolResult { tool_use_id: tool_use_id@, content: content@, is_error: *is_error },
        }
    }
}

/// The views of a sequence of content blocks.
pub open spec fn blocks_view(s: Seq<AnthropicContentBlock>) -> Seq<SpecAnthropicBlock> {
    s.map_values(|b: AnthropicContentBlock| b@)
}

impl View for AnthropicMessage {
    type V = SpecAnthropicMessage;

    open spec fn view(&self) -> SpecAnthropicMessage {
        SpecAnthropicMessage { role: self.role@, content: blocks_view(self.content@) }
    }
}

/// The views of a sequence of messages.
pub open spec fn messages_view(s: Seq<AnthropicMessage>) -> Seq<SpecAnthropicMessage> {
    s.map_values(|m: AnthropicMessage| m@)
}

impl View for AnthropicTool {
    type V = SpecAnthropicTool;

    open spec fn view(&self) -> SpecAnthropicTool {
        SpecAnthropicTool { name: self.name@, description: self.description@, input_schema: self.input_schema@ }
    }
}

/// The views of a sequence of tools.
pub open spec fn tools_view(s: Seq<AnthropicTool>) -> Seq<SpecAnthropicTool> {
    s.map_values(|t: AnthropicTool| t@)
}

impl View for AnthropicToolChoice {
    type V = SpecAnthropicToolChoice;

    open spec fn view(&self) -> SpecAnthropicToolChoice {
        match self {
            AnthropicToolChoice::Auto => SpecAnthropicToolChoice::Auto,
            AnthropicToolChoice::Any => SpecAnthropicToolChoice::Any,
            AnthropicToolChoice::Tool { name } => SpecAnthropicToolChoice::Tool { name: name@ },
        }
    }
}

impl View for AnthropicMessageRequest {
    type V = SpecAnthropicRequest;

    open spec fn view(&self) -> SpecAnthropicRequest {
        SpecAnthropicRequest {
            model: self.model@,
            max_tokens: self.max_tokens,
            system: crate::models::opt_str_view(self.system),
            messages: messages_view(self.messages@),
            tools: tools_view(self.tools@),
            tool_choice: match self.tool_choice {
                Some(c) => Some(c@),
                None => None,
            },
            stream: self.stream,
        }
    }
}

// ---------------------------------------------------------------------------
// Images

/// The image source that a `data:<media type>;base64,<data>` URL describes;
/// `None` for any other URL. The media type is the text before the first
/// `;base64,`, the data everything after it.
pub open spec fn image_source_of(url: Seq<char>) -> Option<SpecAnthropicImageSource> {
    if has_prefix(url, "data:"@) {
        let rest = url.skip(("data:"@).len() as int);
        match find_from(rest, ";base64,"@, 0) {
            Some(i) => Some(SpecAnthropicImageSource {
                kind: "base64"@,
                media_type: rest.take(i as int),
                data: rest.skip((i + (";base64,"@).len()) as int),
            }),
            None => None,
        }
    } else {
        None
    }
}

/// Splits a base64 data URL into an image source.
pub fn parse_image_url(url: &str) -> (source: Option<AnthropicImageSource>)
    ensures
        match source {
            Some(s) => image_source_of(url@) == Some(s@),
            None => image_source_of(url@) is None,
        },
{
    let url_chars = chars_of(url);
    let prefix = chars_of("data:");
    if !starts_with_chars(&url_chars, &prefix) {
        return None;
    }
    let rest = url.substring_char(prefix.len(), url_chars.len());
    let rest_chars = chars_of(rest);
    let sep = chars_of(";base64,");
    match find_chars(&rest_chars, &sep) {
        Some(i) => {
            proof {
                crate::text::lemma_find_from(rest_chars@, sep@, 0);
            }
            let media_type = rest.substring_char(0, i);
            let data = rest.substring_char(i + sep.len(), rest_chars.len());
            Some(AnthropicImageSource {
                kind: String::from_str("base64"),
                media_type: String::from_str(media_type),
                data: String::from_str(data),
            })
        },
        None => None,
    }
}

// ---------------------------------------------------------------------------
// Messages

/// `messages` with `blocks` added under `role`: nothing changes when there are
/// no blocks; the blocks join the last message when it has the same role;
/// otherwise they form a new message.
pub open spec fn merge_message(
    messages: Seq<SpecAnthropicMessage>,
    role: Seq<char>,
    blocks: Seq<SpecAnthropicBlock>,
) -> Seq<SpecAnthropicMessage> {
    if blocks.len() == 0 {
        messages
    } else if messages.len() > 0 && messages.last().role == role {
        messages.drop_last().push(SpecAnthropicMessage { role, content: messages.last().content + blocks })
    } else {
        messages.push(SpecAnthropicMessage { role, content: blocks })
    }
}

/// Adds `blocks` under `role`, merging into the last message when it has the
/// same role, so that consecutive messages never share a role.
pub fn append_or_merge_message(
    messages: &mut Vec<AnthropicMessage>,
    role: String,
    blocks: Vec<AnthropicContentBlock>,
)
    ensures
        messages_view(final(messages)@) == merge_message(messages_view(old(messages)@), role@, blocks_view(blocks@)),
{
    let mut blocks = blocks;
    if blocks.len() == 0 {
        return;
    }
    let n = messages.len();
    if n > 0 {
        let same = messages[n - 1].role == role;
        if same {
            let ghost before = messages@;
            let mut last = messages.pop().unwrap();
            let ghost old_content = last.content@;
            let ghost added = blocks@;
            last.content.append(&mut blocks);
            messages.push(last);
            proof {
                assert(last.content@ == old_content + added);
                assert(blocks_view(old_content + added) =~= blocks_view(old_content) + blocks_view(added));
                assert(messages_view(messages@) =~= messages_view(before).drop_last().push(last@));
            }
            return;
        }
    }
    let ghost before = messages@;
    messages.push(AnthropicMessage { role, content: blocks });
    assert(messages_view(messages@) =~= messages_view(before).push(messages@.last()@));
}


// ---------------------------------------------------------------------------
// Tools

/// The schema given to a tool whose definition carries no `parameters`:
/// `{"type": "object", "properties": {}}`.
pub open spec fn default_input_schema() -> SpecJson {
    SpecJson::Object(seq![("type"@, SpecJson::Str("object"@)), ("properties"@, SpecJson::Object(Seq::empty()))])
}

/// The Anthropic tool for a function definition: `None` unless `name` is a
/// string; the description defaults to empty, the schema to
/// [`default_input_schema`].
pub open spec fn tool_from_definition(def: SpecJson) -> Option<SpecAnthropicTool> {
    match def.str_at("name"@) {
        None => None,
        Some(name) => Some(SpecAnthropicTool {
            name,
            description: match def.str_at("description"@) {
                Some(d) => d,
                None => Seq::empty(),
            },
            input_schema: match def.get("parameters"@) {
                Some(p) => p,
                None => default_input_schema(),
            },
        }),
    }
}

/// The Anthropic tool for a tool definition. A definition that nests its
/// function under `function` (`{"type": "function", "function": {...}}`) is
/// read from there; otherwise a definition whose `type` is `function` carries
/// `name`, `description` and `parameters` itself. Anything else gives `None`.
pub open spec fn tool_of(tool: SpecJson) -> Option<SpecAnthropicTool> {
    match tool.get("function"@) {
        Some(function) => tool_from_definition(function),
        None => if tool.str_at("type"@) == Some("function"@) {
            tool_from_definition(tool)
        } else {
            None
        },
    }
}

fn default_schema() -> (schema: Json)
    ensures
        schema@ == default_input_schema(),
{
    let members = vec![
        (String::from_str("type"), Json::Str(String::from_str("object"))),
        (String::from_str("properties"), Json::Object(Vec::new())),
    ];
    proof {
        crate::json::lemma_members_view(members@);
        assert(crate::json::members_view(members@) =~= seq![("type"@, SpecJson::Str("object"@)), ("properties"@, SpecJson::Object(Seq::empty()))]);
    }
    Json::Object(members)
}

fn tool_from(def: &Json) -> (tool: Option<AnthropicTool>)
    ensures
        match tool {
            Some(t) => tool_from_definition(def@) == Some(t@),
            None => tool_from_definition(def@) is None,
        },
{
    let name = match def.string_at("name") {
        Some(n) => n,
        None => return None,
    };
    let description = match def.string_at("description") {
        Some(d) => d,
        None => String::new(),
    };
    let input_schema = match def.get("parameters") {
        Some(p) => p.deep_copy(),
        None => default_schema(),
    };
    Some(AnthropicTool { name, description, input_schema })
}

/// Translates a tool definition, nested or flat (see [`tool_of`]).
pub fn translate_tool(openai_tool: &Json) -> (tool: Option<AnthropicTool>)
    ensures
        match tool {
            Some(t) => tool_of(openai_tool@) == Some(t@),
            None => tool_of(openai_tool@) is None,
        },
{
    match openai_tool.get("function") {
        Some(function) => tool_from(function),
        None => {
            let is_function = match openai_tool.string_at("type") {
                Some(kind) => same_text(kind.as_str(), "function"),
                None => false,
            };
            if is_function {
                tool_from(openai_tool)
            } else {
                None
            }
        },
    }
}

/// The tools of `tools` that translate, in order.
pub open spec fn tools_of(tools: Seq<SpecJson>) -> Seq<SpecAnthropicTool>
    decreases tools.len(),
{
    if tools.len() == 0 {
        Seq::empty()
    } else {
        let earlier = tools_of(tools.drop_last());
        match tool_of(tools.last()) {
            Some(t) => earlier.push(t),
            None => earlier,
        }
    }
}

fn translate_tools(tools: &Vec<Json>) -> (out: Vec<AnthropicTool>)
    ensures
        tools_view(out@) == tools_of(tools@.map_values(|j: Json| j@)),
{
    let ghost views = tools@.map_values(|j: Json| j@);
    let mut out: Vec<AnthropicTool> = Vec::new();
    let mut i: usize = 0;
    while i < tools.len()
        invariant
            i <= tools.len(),
            views == tools@.map_values(|j: Json| j@),
            tools_view(out@) == tools_of(views.take(i as int)),
        decreases tools.len() - i,
    {
        assert(views.take(i + 1).drop_last() =~= views.take(i as int));
        let ghost before = out@;
        match translate_tool(&tools[i]) {
            Some(t) => {
                out.push(t);
                assert(tools_view(out@) =~= tools_view(before).push(out@.last()@));
            },
            None => {},
        }
        i = i + 1;
    }
    assert(views.take(tools.len() as int) =~= views);
    out
}

/// The tool choice for an OpenAI-style setting: `auto` and `required` map to
/// `Auto` and `Any`, `none` to no choice, and a JSON object naming
/// `function.name` to that tool; anything else to no choice.
pub open spec fn tool_choice_of(choice: Seq<char>) -> Option<SpecAnthropicToolChoice> {
    if choice == "auto"@ {
        Some(SpecAnthropicToolChoice::Auto)
    } else if choice == "required"@ {
        Some(SpecAnthropicToolChoice::Any)
    } else if choice == "none"@ {
        None
    } else {
        match parsed_json(choice) {
            Some(v) => match v.get("function"@) {
                Some(f) => match f.str_at("name"@) {
                    Some(name) => Some(SpecAnthropicToolChoice::Tool { name }),
                    None => None,
                },
                None => None,
            },
            None => None,
        }
    }
}

/// Translates an OpenAI-style tool-choice setting.
pub fn translate_tool_choice(openai_choice: &str) -> (choice: Option<AnthropicToolChoice>)
    ensures
        match choice {
            Some(c) => tool_choice_of(openai_choice@) == Some(c@),
            None => tool_choice_of(openai_choice@) is None,
        },
{
    if same_text(openai_choice, "auto") {
        Some(AnthropicToolChoice::Auto)
    } else if same_text(openai_choice, "required") {
        Some(AnthropicToolChoice::Any)
    } else if same_text(openai_choice, "none") {
        None
    } else {
        match parse_json(openai_choice) {
            Some(val) => match val.get("function") {
                Some(f) => match f.string_at("name") {
                    Some(name) => Some(AnthropicToolChoice::Tool { name }),
                    None => None,
                },
                None => None,
            },
            None => None,
        }
    }
}


// ---------------------------------------------------------------------------
// Conversation

/// The role a non-system message is sent under: `user` stays `user`, every
/// other role becomes `assistant`.
pub open spec fn conversation_role(role: Seq<char>) -> Seq<char> {
    if role == "user"@ {
        "user"@
    } else {
        "assistant"@
    }
}

/// The blocks for a message's content: text parts become text blocks, images
/// given as base64 data URLs become image blocks, other images are left out.
pub open spec fn message_blocks(content: Seq<SpecContentItem>) -> Seq<SpecAnthropicBlock>
    decreases content.len(),
{
    if content.len() == 0 {
        Seq::empty()
    } else {
        let earlier = message_blocks(content.drop_last());
        match content.last() {
            SpecContentItem::InputText { text } => earlier.push(SpecAnthropicBlock::Text { text }),
            SpecContentItem::OutputText { text } => earlier.push(SpecAnthropicBlock::Text { text }),
            SpecContentItem::InputImage { image_url } => match image_source_of(image_url) {
                Some(source) => earlier.push(SpecAnthropicBlock::Image { source }),
                None => earlier,
            },
        }
    }
}

/// `{"type": "text", "text": text}`.
pub open spec fn text_block_json(text: Seq<char>) -> SpecJson {
    SpecJson::Object(seq![("type"@, SpecJson::Str("text"@)), ("text"@, SpecJson::Str(text))])
}

/// The text blocks of a structured tool output; other items are left out.
pub open spec fn output_text_blocks(items: Seq<SpecOutputContentItem>) -> Seq<SpecJson>
    decreases items.len(),
{
    if items.len() == 0 {
        Seq::empty()
    } else {
        let earlier = output_text_blocks(items.drop_last());
        match items.last() {
            SpecOutputContentItem::InputText { text } => earlier.push(text_block_json(text)),
            _ => earlier,
        }
    }
}

/// The content of a tool result: the text as a JSON string, or the array of
/// text blocks of a structured output.
pub open spec fn tool_result_content(body: SpecOutputBody) -> SpecJson {
    match body {
        SpecOutputBody::Text(t) => SpecJson::Str(t),
        SpecOutputBody::ContentItems(items) => SpecJson::Array(output_text_blocks(items)),
    }
}

/// The input of a tool call: its arguments read as JSON, or `null` where they
/// do not parse.
pub open spec fn tool_input(arguments: Seq<char>) -> SpecJson {
    match parsed_json(arguments) {
        Some(v) => v,
        None => SpecJson::Null,
    }
}

/// `messages` after one item of the conversation: system messages and items
/// of other kinds change nothing; a message adds its blocks under its
/// conversation role; a function call adds a `tool_use` block for the
/// assistant; a tool output adds a `tool_result` block for the user.
pub open spec fn item_step(messages: Seq<SpecAnthropicMessage>, item: SpecResponseItem) -> Seq<SpecAnthropicMessage> {
    match item {
        SpecResponseItem::Message { role, content, .. } => if role == "system"@ {
            messages
        } else {
            merge_message(messages, conversation_role(role), message_blocks(content))
        },
        SpecResponseItem::FunctionCall { name, arguments, call_id, .. } => merge_message(
            messages,
            "assistant"@,
            seq![SpecAnthropicBlock::ToolUse { id: call_id, name, input: tool_input(arguments) }],
        ),
        SpecResponseItem::FunctionCallOutput { call_id, output } => merge_message(
            messages,
            "user"@,
            seq![SpecAnthropicBlock::ToolResult {
                tool_use_id: call_id,
                content: tool_result_content(output.body),
                is_error: match output.success {
                    Some(ok) => Some(!ok),
                    None => None,
                },
            }],
        ),
        SpecResponseItem::CustomToolCallOutput { call_id, output } => merge_message(
            messages,
            "user"@,
            seq![SpecAnthropicBlock::ToolResult {
                tool_use_id: call_id,
                content: tool_result_content(output.body),
                is_error: match output.success {
                    Some(ok) => Some(!ok),
                    None => None,
                },
            }],
        ),
        _ => messages,
    }
}

/// The messages for a conversation, item by item.
pub open spec fn conversation_messages(items: Seq<SpecResponseItem>) -> Seq<SpecAnthropicMessage>
    decreases items.len(),
{
    if items.len() == 0 {
        Seq::empty()
    } else {
        item_step(conversation_messages(items.drop_last()), items.last())
    }
}

/// The Anthropic request for a Responses-style request.
pub open spec fn anthropic_request_of(req: SpecResponsesApiRequest) -> SpecAnthropicRequest {
    let parts = system_parts(req);
    SpecAnthropicRequest {
        model: req.model,
        max_tokens: ANTHROPIC_DEFAULT_MAX_TOKENS,
        system: if parts.len() == 0 {
            None
        } else {
            Some(join(parts, "\n\n"@))
        },
        messages: conversation_messages(req.input),
        tools: tools_of(req.tools),
        tool_choice: tool_choice_of(req.tool_choice),
        stream: req.stream,
    }
}

fn content_blocks(content: &Vec<ContentItem>) -> (blocks: Vec<AnthropicContentBlock>)
    ensures
        blocks_view(blocks@) == message_blocks(content@.map_values(|c: ContentItem| c@)),
{
    let ghost cv = content@.map_values(|c: ContentItem| c@);
    let mut blocks: Vec<AnthropicContentBlock> = Vec::new();
    let mut j: usize = 0;
    while j < content.len()
        invariant
            j <= content.len(),
            cv == content@.map_values(|c: ContentItem| c@),
            blocks_view(blocks@) == message_blocks(cv.take(j as int)),
        decreases content.len() - j,
    {
        assert(cv.take(j + 1).drop_last() =~= cv.take(j as int));
        let ghost before = blocks@;
        match &content[j] {
            ContentItem::InputText { text } => {
                blocks.push(AnthropicContentBlock::Text { text: text.clone() });
                assert(blocks_view(blocks@) =~= blocks_view(before).push(blocks@.last()@));
            },
            ContentItem::OutputText { text } => {
                blocks.push(AnthropicContentBlock::Text { text: text.clone() });
                assert(blocks_view(blocks@) =~= blocks_view(before).push(blocks@.last()@));
            },
            ContentItem::InputImage { image_url } => {
                match parse_image_url(image_url.as_str()) {
                    Some(source) => {
                        blocks.push(AnthropicContentBlock::Image { source });
                        assert(blocks_view(blocks@) =~= blocks_view(before).push(blocks@.last()@));
                    },
                    None => {},
                }
            },
        }
        j = j + 1;
    }
    assert(cv.take(content.len() as int) =~= cv);
    blocks
}

fn text_block(text: &String) -> (block: Json)
    ensures
        block@ == text_block_json(text@),
{
    let members = vec![
        (String::from_str("type"), Json::Str(String::from_str("text"))),
        (String::from_str("text"), Json::Str(text.clone())),
    ];
    proof {
        crate::json::lemma_members_view(members@);
        assert(crate::json::members_view(members@) =~= seq![("type"@, SpecJson::Str("text"@)), ("text"@, SpecJson::Str(text@))]);
    }
    Json::Object(members)
}

fn result_content(body: &FunctionCallOutputBody) -> (content: Json)
    ensures
        content@ == tool_result_content(body@),
{
    match body {
        FunctionCallOutputBody::Text(text) => Json::Str(text.clone()),
        FunctionCallOutputBody::ContentItems(items) => {
            let ghost iv = items@.map_values(|i: FunctionCallOutputContentItem| i@);
            let mut blocks: Vec<Json> = Vec::new();
            let mut j: usize = 0;
            while j < items.len()
                invariant
                    j <= items.len(),
                    iv == items@.map_values(|i: FunctionCallOutputContentItem| i@),
                    crate::json::json_seq_view(blocks@) == output_text_blocks(iv.take(j as int)),
                decreases items.len() - j,
            {
                assert(iv.take(j + 1).drop_last() =~= iv.take(j as int));
                let ghost before = blocks@;
                match &items[j] {
                    FunctionCallOutputContentItem::InputText { text } => {
                        let b = text_block(text);
                        blocks.push(b);
                        proof {
                            crate::json::lemma_json_seq_view(before);
                            crate::json::lemma_json_seq_view(blocks@);
                            assert(crate::json::json_seq_view(blocks@) =~= crate::json::json_seq_view(before).push(b@));
                        }
                    },
                    _ => {},
                }
                j = j + 1;
            }
            assert(iv.take(items.len() as int) =~= iv);
            Json::Array(blocks)
        },
    }
}

fn tool_result_block(call_id: &String, output: &FunctionCallOutputPayload) -> (blocks: Vec<AnthropicContentBlock>)
    ensures
        blocks_view(blocks@) == seq![SpecAnthropicBlock::ToolResult {
            tool_use_id: call_id@,
            content: tool_result_content(output@.body),
            is_error: match output.success {
                Some(ok) => Some(!ok),
                None => None,
            },
        }],
{
    let is_error = match output.success {
        Some(ok) => Some(!ok),
        None => None,
    };
    let block = AnthropicContentBlock::ToolResult {
        tool_use_id: call_id.clone(),
        content: result_content(&output.body),
        is_error,
    };
    let blocks = vec![block];
    assert(blocks_view(blocks@) =~= seq![blocks@[0]@]);
    blocks
}

/// Translates a Responses-style request into an Anthropic Messages request.
pub fn translate_request(request: &ResponsesApiRequest) -> (out: AnthropicMessageRequest)
    ensures
        out@ == anthropic_request_of(request@),
        out.stream == request.stream,
        out.model@ == request.model@,
{
    let system_parts = collect_system_parts(request);
    let system = if system_parts.len() == 0 {
        None
    } else {
        Some(join_strings(&system_parts, "\n\n"))
    };
    let ghost items = request@.input;
    let mut messages: Vec<AnthropicMessage> = Vec::new();
    let mut i: usize = 0;
    while i < request.input.len()
        invariant
            i <= request.input.len(),
            items == request@.input,
            items.len() == request.input@.len(),
            forall|k: int| 0 <= k < items.len() ==> items[k] == #[trigger] request.input@[k]@,
            messages_view(messages@) == conversation_messages(items.take(i as int)),
        decreases request.input.len() - i,
    {
        assert(items.take(i + 1).drop_last() =~= items.take(i as int));
        match &request.input[i] {
            ResponseItem::Message { role, content, .. } => {
                if !same_text(role.as_str(), "system") {
                    let role_name = if same_text(role.as_str(), "user") {
                        String::from_str("user")
                    } else {
                        String::from_str("assistant")
                    };
                    let blocks = content_blocks(content);
                    append_or_merge_message(&mut messages, role_name, blocks);
                }
            },
            ResponseItem::FunctionCall { name, arguments, call_id, .. } => {
                let input = match parse_json(arguments.as_str()) {
                    Some(v) => v,
                    None => Json::Null,
                };
                let block = AnthropicContentBlock::ToolUse { id: call_id.clone(), name: name.clone(), input };
                let blocks = vec![block];
                assert(blocks_view(blocks@) =~= seq![blocks@[0]@]);
                append_or_merge_message(&mut messages, String::from_str("assistant"), blocks);
            },
            ResponseItem::FunctionCallOutput { call_id, output } => {
                let blocks = tool_result_block(call_id, output);
                append_or_merge_message(&mut messages, String::from_str("user"), blocks);
            },
            ResponseItem::CustomToolCallOutput { call_id, output } => {
                let blocks = tool_result_block(call_id, output);
                append_or_merge_message(&mut messages, String::from_str("user"), blocks);
            },
            _ => {},
        }
        i = i + 1;
    }
    assert(items.take(request.input.len() as int) =~= items);
    let tools = translate_tools(&request.tools);
    let tool_choice = translate_tool_choice(request.tool_choice.as_str());
    AnthropicMessageRequest {
        model: request.model.clone(),
        max_tokens: ANTHROPIC_DEFAULT_MAX_TOKENS,
        system,
        messages,
        tools,
        tool_choice,
        stream: request.stream,
    }
}


// ---------------------------------------------------------------------------
// Laws

/// Every message has content, is sent as `user` or `assistant`, and no two
/// consecutive messages share a role.
pub open spec fn alternating(messages: Seq<SpecAnthropicMessage>) -> bool {
    &&& forall|i: int|
        0 <= i < messages.len() ==> #[trigger] messages[i].content.len() > 0 && (messages[i].role == "user"@
            || messages[i].role == "assistant"@)
    &&& forall|i: int| 0 <= i < messages.len() - 1 ==> #[trigger] messages[i].role != messages[i + 1].role
}

/// The blocks of every message, in order.
pub open spec fn all_blocks(messages: Seq<SpecAnthropicMessage>) -> Seq<SpecAnthropicBlock>
    decreases messages.len(),
{
    if messages.len() == 0 {
        Seq::empty()
    } else {
        all_blocks(messages.drop_last()) + messages.last().content
    }
}

/// The blocks that one item of the conversation contributes.
pub open spec fn item_blocks(item: SpecResponseItem) -> Seq<SpecAnthropicBlock> {
    match item {
        SpecResponseItem::Message { role, content, .. } => if role == "system"@ {
            Seq::empty()
        } else {
            message_blocks(content)
        },
        SpecResponseItem::FunctionCall { name, arguments, call_id, .. } =>
            seq![SpecAnthropicBlock::ToolUse { id: call_id, name, input: tool_input(arguments) }],
        SpecResponseItem::FunctionCallOutput { call_id, output } => seq![SpecAnthropicBlock::ToolResult {
            tool_use_id: call_id,
            content: tool_result_content(output.body),
            is_error: match output.success {
                Some(ok) => Some(!ok),
                None => None,
            },
        }],
        SpecResponseItem::CustomToolCallOutput { call_id, output } => seq![SpecAnthropicBlock::ToolResult {
            tool_use_id: call_id,
            content: tool_result_content(output.body),
            is_error: match output.success {
                Some(ok) => Some(!ok),
                None => None,
            },
        }],
        _ => Seq::empty(),
    }
}

/// The blocks that the items of a conversation contribute, in order.
pub open spec fn conversation_blocks(items: Seq<SpecResponseItem>) -> Seq<SpecAnthropicBlock>
    decreases items.len(),
{
    if items.len() == 0 {
        Seq::empty()
    } else {
        conversation_blocks(items.drop_last()) + item_blocks(items.last())
    }
}

proof fn lemma_merge_alternating(messages: Seq<SpecAnthropicMessage>, role: Seq<char>, blocks: Seq<SpecAnthropicBlock>)
    requires
        alternating(messages),
        role == "user"@ || role == "assistant"@,
    ensures
        alternating(merge_message(messages, role, blocks)),
{
    let out = merge_message(messages, role, blocks);
    if blocks.len() == 0 {
    } else if messages.len() > 0 && messages.last().role == role {
        assert forall|i: int| 0 <= i < out.len() - 1 implies #[trigger] out[i].role != out[i + 1].role by {
            assert(messages[i].role != messages[i + 1].role);
        }
        assert forall|i: int| 0 <= i < out.len() implies #[trigger] out[i].content.len() > 0 && (out[i].role
            == "user"@ || out[i].role == "assistant"@) by {
            assert(messages[i].content.len() > 0);
        }
    } else {
        assert forall|i: int| 0 <= i < out.len() - 1 implies #[trigger] out[i].role != out[i + 1].role by {
            if i < messages.len() - 1 {
                assert(messages[i].role != messages[i + 1].role);
            }
        }
        assert forall|i: int| 0 <= i < out.len() implies #[trigger] out[i].content.len() > 0 && (out[i].role
            == "user"@ || out[i].role == "assistant"@) by {
            if i < messages.len() {
                assert(messages[i].content.len() > 0);
            }
        }
    }
}

/// The messages of a translated request alternate: each has content, each is
/// sent as `user` or `assistant`, and no two consecutive messages share a
/// role (adding blocks under the role of the last message merges them into
/// it).
pub proof fn lemma_messages_alternate(req: SpecResponsesApiRequest)
    ensures
        alternating(anthropic_request_of(req).messages),
{
    lemma_conversation_alternates(req.input);
}

proof fn lemma_conversation_alternates(items: Seq<SpecResponseItem>)
    ensures
        alternating(conversation_messages(items)),
    decreases items.len(),
{
    if items.len() > 0 {
        lemma_conversation_alternates(items.drop_last());
        let before = conversation_messages(items.drop_last());
        match items.last() {
            SpecResponseItem::Message { role, content, .. } => {
                if role != "system"@ {
                    lemma_merge_alternating(before, conversation_role(role), message_blocks(content));
                }
            },
            SpecResponseItem::FunctionCall { name, arguments, call_id, .. } => {
                lemma_merge_alternating(
                    before,
                    "assistant"@,
                    seq![SpecAnthropicBlock::ToolUse { id: call_id, name, input: tool_input(arguments) }],
                );
            },
            SpecResponseItem::FunctionCallOutput { call_id, output } => {
                lemma_merge_alternating(before, "user"@, item_blocks(items.last()));
            },
            SpecResponseItem::CustomToolCallOutput { call_id, output } => {
                lemma_merge_alternating(before, "user"@, item_blocks(items.last()));
            },
            _ => {},
        }
    }
}

proof fn lemma_merge_keeps_blocks(messages: Seq<SpecAnthropicMessage>, role: Seq<char>, blocks: Seq<SpecAnthropicBlock>)
    ensures
        all_blocks(merge_message(messages, role, blocks)) == all_blocks(messages) + blocks,
{
    let out = merge_message(messages, role, blocks);
    if blocks.len() == 0 {
        assert(all_blocks(messages) + blocks =~= all_blocks(messages));
    } else if messages.len() > 0 && messages.last().role == role {
        assert(out.drop_last() =~= messages.drop_last());
        assert(all_blocks(out) =~= all_blocks(messages) + blocks);
    } else {
        assert(out.drop_last() =~= messages);
    }
}

/// Translation keeps every block of the conversation, in order: the blocks
/// of the translated messages, read message after message, are the blocks
/// that the items contribute one after the other (merging only regroups
/// them).
pub proof fn lemma_blocks_preserved(req: SpecResponsesApiRequest)
    ensures
        all_blocks(anthropic_request_of(req).messages) == conversation_blocks(req.input),
{
    lemma_conversation_blocks(req.input);
}

proof fn lemma_conversation_blocks(items: Seq<SpecResponseItem>)
    ensures
        all_blocks(conversation_messages(items)) == conversation_blocks(items),
    decreases items.len(),
{
    if items.len() > 0 {
        lemma_conversation_blocks(items.drop_last());
        let before = conversation_messages(items.drop_last());
        let item = items.last();
        match item {
            SpecResponseItem::Message { role, content, .. } => {
                if role != "system"@ {
                    lemma_merge_keeps_blocks(before, conversation_role(role), message_blocks(content));
                } else {
                    assert(all_blocks(before) + item_blocks(item) =~= all_blocks(before));
                }
            },
            SpecResponseItem::FunctionCall { .. } => {
                lemma_merge_keeps_blocks(before, "assistant"@, item_blocks(item));
            },
            SpecResponseItem::FunctionCallOutput { .. } => {
                lemma_merge_keeps_blocks(before, "user"@, item_blocks(item));
            },
            SpecResponseItem::CustomToolCallOutput { .. } => {
                lemma_merge_keeps_blocks(before, "user"@, item_blocks(item));
            },
            _ => {
                assert(all_blocks(before) + item_blocks(item) =~= all_blocks(before));
            },
        }
    }
}

/// Whether `pat` occurs somewhere in `s`.
pub open spec fn contains_text(s: Seq<char>, pat: Seq<char>) -> bool {
    exists|i: int| 0 <= i && i + pat.len() <= s.len() && #[trigger] s.subrange(i, i + pat.len()) == pat
}

proof fn lemma_separator_found(media_type: Seq<char>, data: Seq<char>, from: nat)
    requires
        !contains_text(media_type, ";base64,"@),
        from <= media_type.len(),
    ensures
        find_from(media_type + ";base64,"@ + data, ";base64,"@, from) == Some(media_type.len()),
    decreases media_type.len() - from,
{
    reveal_strlit(";base64,");
    let sep = ";base64,"@;
    let rest = media_type + sep + data;
    if from == media_type.len() {
        assert(rest.subrange(from as int, (from + sep.len()) as int) =~= sep);
    } else {
        let w = rest.subrange(from as int, (from + sep.len()) as int);
        if from + sep.len() <= media_type.len() {
            assert(w =~= media_type.subrange(from as int, (from + sep.len()) as int));
            assert(w != sep);
        } else {
            // The window reaches into the separator, whose `;` then stands
            // where the separator has none.
            let k = media_type.len() - from;
            assert(0 < k < sep.len());
            assert(w[k] == ';');
            assert(sep[k] != ';');
            assert(w != sep);
        }
        lemma_separator_found(media_type, data, from + 1);
    }
}

/// A base64 data URL reads back as its parts: for a media type that does
/// not contain `;base64,`, the URL `data:<media type>;base64,<data>` gives a
/// `base64` image source with that media type and data.
pub proof fn lemma_image_url_round_trip(media_type: Seq<char>, data: Seq<char>)
    requires
        !contains_text(media_type, ";base64,"@),
    ensures
        image_source_of("data:"@ + media_type + ";base64,"@ + data) == Some(
            SpecAnthropicImageSource { kind: "base64"@, media_type, data },
        ),
{
    reveal_strlit("data:");
    reveal_strlit(";base64,");
    let url = "data:"@ + media_type + ";base64,"@ + data;
    let rest = media_type + ";base64,"@ + data;
    assert(url.take(("data:"@).len() as int) =~= "data:"@);
    assert(url.skip(("data:"@).len() as int) =~= rest);
    lemma_separator_found(media_type, data, 0);
    assert(rest.take(media_type.len() as int) =~= media_type);
    assert(rest.skip((media_type.len() + (";base64,"@).len()) as int) =~= data);
}

/// The content of a message item; other items have none.
pub open spec fn item_content(item: SpecResponseItem) -> Seq<SpecContentItem> {
    match item {
        SpecResponseItem::Message { content, .. } => content,
        _ => Seq::empty(),
    }
}

/// The role of a message item; other items have none.
pub open spec fn item_role(item: SpecResponseItem) -> Seq<char> {
    match item {
        SpecResponseItem::Message { role, .. } => role,
        _ => Seq::empty(),
    }
}

/// The text of a text part, input or output; an image has none.
pub open spec fn part_text(c: SpecContentItem) -> Seq<char> {
    match c {
        SpecContentItem::InputText { text } => text,
        SpecContentItem::OutputText { text } => text,
        SpecContentItem::InputImage { .. } => Seq::empty(),
    }
}

/// The text block carrying a part's text.
pub open spec fn text_block_of(c: SpecContentItem) -> SpecAnthropicBlock {
    SpecAnthropicBlock::Text { text: part_text(c) }
}

/// A conversation made only of non-system messages whose parts are all
/// text, input or output.
pub open spec fn text_conversation(items: Seq<SpecResponseItem>) -> bool {
    forall|i: int| 0 <= i < items.len() ==> {
        &&& #[trigger] items[i] is Message
        &&& item_role(items[i]) != "system"@
        &&& forall|k: int| 0 <= k < item_content(items[i]).len() ==> !(#[trigger] item_content(items[i])[k] is InputImage)
    }
}

proof fn lemma_text_parts_blocks(content: Seq<SpecContentItem>)
    requires
        forall|k: int| 0 <= k < content.len() ==> !(#[trigger] content[k] is InputImage),
    ensures
        message_blocks(content) == content.map_values(|c: SpecContentItem| text_block_of(c)),
    decreases content.len(),
{
    if content.len() > 0 {
        let init = content.drop_last();
        assert forall|k: int| 0 <= k < init.len() implies !(#[trigger] init[k] is InputImage) by {
            assert(init[k] == content[k]);
        }
        lemma_text_parts_blocks(init);
        assert(!(content[content.len() - 1] is InputImage));
        assert(content.map_values(|c: SpecContentItem| text_block_of(c)) =~= init.map_values(
            |c: SpecContentItem| text_block_of(c),
        ).push(text_block_of(content.last())));
    }
}

/// The text blocks of every part of every item, item after item.
pub open spec fn conversation_text_blocks(items: Seq<SpecResponseItem>) -> Seq<SpecAnthropicBlock> {
    items.map_values(|it: SpecResponseItem| item_content(it).map_values(|c: SpecContentItem| text_block_of(c))).flatten()
}

proof fn lemma_text_conversation_blocks(items: Seq<SpecResponseItem>)
    requires
        text_conversation(items),
    ensures
        conversation_blocks(items) == conversation_text_blocks(items),
    decreases items.len(),
{
    if items.len() > 0 {
        let init = items.drop_last();
        assert forall|i: int| 0 <= i < init.len() implies {
            &&& #[trigger] init[i] is Message
            &&& item_role(init[i]) != "system"@
            &&& forall|k: int| 0 <= k < item_content(init[i]).len() ==> !(#[trigger] item_content(init[i])[k] is InputImage)
        } by {
            assert(init[i] == items[i]);
        }
        lemma_text_conversation_blocks(init);
        let last = items.last();
        assert(last == items[items.len() - 1]);
        lemma_text_parts_blocks(item_content(last));
        let f = |it: SpecResponseItem| item_content(it).map_values(|c: SpecContentItem| text_block_of(c));
        assert(items.map_values(f) =~= init.map_values(f).push(f(last)));
        init.map_values(f).lemma_flatten_push(f(last));
    }
}

/// In a conversation of text messages every text part, input and output
/// alike, is sent as a text block carrying its text, in order: the blocks of
/// the translated messages, read message after message, are exactly one text
/// block per part of the items, item after item.
pub proof fn lemma_text_parts_sent(req: SpecResponsesApiRequest)
    requires
        text_conversation(req.input),
    ensures
        all_blocks(anthropic_request_of(req).messages) == conversation_text_blocks(req.input),
{
    lemma_blocks_preserved(req);
    lemma_text_conversation_blocks(req.input);
}

/// The message a text item is sent as: its conversation role, with one text
/// block per part.
pub open spec fn turn_message(item: SpecResponseItem) -> SpecAnthropicMessage {
    SpecAnthropicMessage {
        role: conversation_role(item_role(item)),
        content: item_content(item).map_values(|c: SpecContentItem| text_block_of(c)),
    }
}

/// Text messages whose turns change role are sent one message per item: in
/// a conversation of text messages, each with at least one part, where no
/// two consecutive items share a conversation role, the translated messages
/// are, item for item, the item's conversation role (`user` for `user`,
/// `assistant` for any other) with one text block per part.
pub proof fn lemma_turns_sent_one_per_item(req: SpecResponsesApiRequest)
    requires
        text_conversation(req.input),
        forall|i: int| 0 <= i < req.input.len() ==> item_content(#[trigger] req.input[i]).len() > 0,
        forall|i: int|
            0 <= i < req.input.len() - 1 ==> conversation_role(item_role(#[trigger] req.input[i])) != conversation_role(
                item_role(req.input[i + 1]),
            ),
    ensures
        anthropic_request_of(req).messages.len() == req.input.len(),
        forall|i: int|
            0 <= i < req.input.len() ==> #[trigger] anthropic_request_of(req).messages[i] == turn_message(req.input[i]),
{
    lemma_turns_one_per_item(req.input);
}

proof fn lemma_turns_one_per_item(items: Seq<SpecResponseItem>)
    requires
        text_conversation(items),
        forall|i: int| 0 <= i < items.len() ==> item_content(#[trigger] items[i]).len() > 0,
        forall|i: int|
            0 <= i < items.len() - 1 ==> conversation_role(item_role(#[trigger] items[i])) != conversation_role(
                item_role(items[i + 1]),
            ),
    ensures
        conversation_messages(items).len() == items.len(),
        forall|i: int|
            0 <= i < items.len() ==> #[trigger] conversation_messages(items)[i] == turn_message(items[i]),
    decreases items.len(),
{
    if items.len() > 0 {
        let init = items.drop_last();
        assert forall|i: int| 0 <= i < init.len() implies {
            &&& #[trigger] init[i] is Message
            &&& item_role(init[i]) != "system"@
            &&& forall|k: int| 0 <= k < item_content(init[i]).len() ==> !(#[trigger] item_content(init[i])[k] is InputImage)
        } by {
            assert(init[i] == items[i]);
        }
        assert forall|i: int| 0 <= i < init.len() implies item_content(#[trigger] init[i]).len() > 0 by {
            assert(init[i] == items[i]);
        }
        assert forall|i: int| 0 <= i < init.len() - 1 implies conversation_role(item_role(#[trigger] init[i]))
            != conversation_role(item_role(init[i + 1])) by {
            assert(init[i] == items[i]);
            assert(init[i + 1] == items[i + 1]);
        }
        lemma_turns_one_per_item(init);
        let n = items.len() - 1;
        let last = items[n];
        assert(last == items.last());
        assert(last is Message);
        assert(item_role(last) != "system"@);
        assert(item_content(last).len() > 0);
        lemma_text_parts_blocks(item_content(last));
        let before = conversation_messages(init);
        let blocks = message_blocks(item_content(last));
        assert(blocks.len() > 0);
        if n > 0 {
            assert(before.last() == before[n - 1]);
            assert(init[n - 1] == items[n - 1]);
            assert(conversation_role(item_role(items[n - 1])) != conversation_role(item_role(items[n])));
        }
        let after = conversation_messages(items);
        assert(after == merge_message(before, conversation_role(item_role(last)), blocks));
        assert(after == before.push(SpecAnthropicMessage { role: conversation_role(item_role(last)), content: blocks }));
        assert forall|i: int| 0 <= i < items.len() implies #[trigger] after[i] == turn_message(items[i]) by {
            if i < n {
                assert(after[i] == before[i]);
                assert(init[i] == items[i]);
            }
        }
    }
}

/// The request's settings carry over: the model and the streaming flag are
/// the Responses request's, and the completion cap is the default.
pub proof fn lemma_anthropic_request_settings(req: SpecResponsesApiRequest)
    ensures
        anthropic_request_of(req).model == req.model,
        anthropic_request_of(req).stream == req.stream,
        anthropic_request_of(req).max_tokens == 40_960,
{
}

} // verus!
