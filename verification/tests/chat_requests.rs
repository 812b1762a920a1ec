use codex_api::common::ResponsesApiRequest;
use codex_api::json::Json;
use codex_api::models::{
    ContentItem, FunctionCallOutputBody, FunctionCallOutputContentItem, FunctionCallOutputPayload, ResponseItem,
};
use codex_api::requests::chat_completions::{
    append_or_merge_chat_message, translate_request, translate_tools_for_chat_completions, ChatContent,
    ChatContentPart, ChatImageUrl, ChatMessage, ChatToolCall, ChatToolCallFunction, CHAT_COMPLETIONS_DEFAULT_MAX_TOKENS,
};

fn s(t: &str) -> String {
    t.to_string()
}

fn obj(members: Vec<(&str, Json)>) -> Json {
    Json::Object(members.into_iter().map(|(k, v)| (k.to_string(), v)).collect())
}

fn text(t: &str) -> Json {
    Json::Str(t.to_string())
}

fn dbg<T: std::fmt::Debug>(v: &T) -> String {
    format!("{:?}", v)
}

fn message(role: &str, content: Vec<ContentItem>) -> ResponseItem {
    ResponseItem::Message { id: None, role: s(role), content }
}

fn input_text(t: &str) -> ContentItem {
    ContentItem::InputText { text: s(t) }
}

fn request(instructions: &str, input: Vec<ResponseItem>, tools: Vec<Json>, tool_choice: &str) -> ResponsesApiRequest {
    ResponsesApiRequest {
        model: s("gpt-test"),
        instructions: s(instructions),
        input,
        tools,
        tool_choice: s(tool_choice),
        stream: false,
    }
}

fn text_message(role: &str, t: &str) -> ChatMessage {
    ChatMessage { role: s(role), content: Some(ChatContent::Text(s(t))), tool_calls: None, tool_call_id: None }
}

#[test]
fn append_or_merge_chat_message_joins_text_of_same_role() {
    let mut messages = vec![text_message("assistant", "Hello")];
    append_or_merge_chat_message(&mut messages, "assistant", Some(ChatContent::Text(s(" World"))), None, None);
    assert_eq!(messages, vec![text_message("assistant", "Hello World")]);
}

#[test]
fn append_or_merge_chat_message_appends_otherwise() {
    let mut messages = vec![text_message("assistant", "Hello")];
    append_or_merge_chat_message(&mut messages, "user", Some(ChatContent::Text(s("x"))), None, None);
    assert_eq!(messages.len(), 2);
    let call = ChatToolCall {
        id: s("c1"),
        kind: s("function"),
        function: ChatToolCallFunction { name: s("f"), arguments: s("{}") },
    };
    append_or_merge_chat_message(&mut messages, "user", None, Some(vec![call.clone()]), None);
    assert_eq!(messages.len(), 3);
    assert_eq!(messages[2].tool_calls, Some(vec![call]));
    append_or_merge_chat_message(&mut messages, "user", Some(ChatContent::Text(s("y"))), None, None);
    assert_eq!(messages.len(), 4, "a message carrying tool calls is never merged into");
    append_or_merge_chat_message(&mut messages, "user", Some(ChatContent::Text(s("z"))), None, Some(s("id")));
    assert_eq!(messages.len(), 5, "a message with a tool-call id is never merged");
    append_or_merge_chat_message(&mut messages, "user", None, None, None);
    assert_eq!(messages.len(), 6, "content that is not text is appended");
}

#[test]
fn append_or_merge_chat_message_keeps_user_texts_apart() {
    let mut messages = vec![text_message("user", "a")];
    append_or_merge_chat_message(&mut messages, "user", Some(ChatContent::Text(s("b"))), None, None);
    assert_eq!(messages, vec![text_message("user", "a"), text_message("user", "b")]);
}

#[test]
fn append_or_merge_chat_message_to_empty_list() {
    let mut messages: Vec<ChatMessage> = Vec::new();
    append_or_merge_chat_message(&mut messages, "user", Some(ChatContent::Text(s("x"))), None, None);
    assert_eq!(messages, vec![text_message("user", "x")]);
}

#[test]
fn chat_translate_request_opens_with_system_message() {
    let req = request(
        "Be brief.",
        vec![message("system", vec![input_text("Use tools.")]), message("user", vec![input_text("hi")])],
        vec![],
        "auto",
    );
    let out = translate_request(&req);
    assert_eq!(out.messages.len(), 2);
    assert_eq!(out.messages[0], text_message("system", "Be brief.\n\nUse tools."));
    assert_eq!(out.messages[1], text_message("user", "hi"));
    assert_eq!(out.max_tokens, CHAT_COMPLETIONS_DEFAULT_MAX_TOKENS);
    assert_eq!(out.max_tokens, 40_960);
    assert!(out.stream_options.include_usage);
    assert!(!out.stream);
    assert_eq!(dbg(&out.tool_choice), dbg(&Some(text("auto"))));
}

#[test]
fn chat_translate_request_content_shapes() {
    let req = request(
        "",
        vec![
            message("user", vec![input_text("a"), ContentItem::InputImage { image_url: s("https://i/x.png") }]),
            message("assistant", vec![]),
            message("assistant", vec![ContentItem::InputImage { image_url: s("https://i/y.png") }]),
        ],
        vec![],
        "none",
    );
    let out = translate_request(&req);
    assert_eq!(out.messages.len(), 3);
    assert_eq!(
        out.messages[0].content,
        Some(ChatContent::Parts(vec![
            ChatContentPart::Text { text: s("a") },
            ChatContentPart::ImageUrl { image_url: ChatImageUrl { url: s("https://i/x.png") } },
        ]))
    );
    assert_eq!(out.messages[1].content, None);
    assert_eq!(
        out.messages[2].content,
        Some(ChatContent::Parts(vec![ChatContentPart::ImageUrl { image_url: ChatImageUrl { url: s("https://i/y.png") } }]))
    );
    assert_eq!(dbg(&out.tool_choice), dbg(&Some(text("none"))));
}

#[test]
fn chat_translate_request_tool_calls_and_outputs() {
    let req = request(
        "",
        vec![
            message("assistant", vec![input_text("Let me check.")]),
            ResponseItem::FunctionCall { id: None, name: s("get_weather"), arguments: s("{\"city\":\"Paris\"}"), call_id: s("c1") },
            ResponseItem::FunctionCallOutput {
                call_id: s("c1"),
                output: FunctionCallOutputPayload {
                    body: FunctionCallOutputBody::ContentItems(vec![
                        FunctionCallOutputContentItem::InputText { text: s("line 1") },
                        FunctionCallOutputContentItem::InputImage { image_url: s("https://i/z.png") },
                        FunctionCallOutputContentItem::InputText { text: s("line 2") },
                    ]),
                    success: Some(true),
                },
            },
            ResponseItem::CustomToolCallOutput {
                call_id: s("c2"),
                output: FunctionCallOutputPayload { body: FunctionCallOutputBody::Text(s("done")), success: None },
            },
            message("assistant", vec![input_text("It is sunny.")]),
            message("assistant", vec![input_text(" Enjoy.")]),
        ],
        vec![],
        "{\"type\":\"function\",\"function\":{\"name\":\"get_weather\"}}",
    );
    let out = translate_request(&req);
    assert_eq!(out.messages.len(), 5);
    assert_eq!(out.messages[0], text_message("assistant", "Let me check."));
    assert_eq!(
        out.messages[1],
        ChatMessage {
            role: s("assistant"),
            content: None,
            tool_calls: Some(vec![ChatToolCall {
                id: s("c1"),
                kind: s("function"),
                function: ChatToolCallFunction { name: s("get_weather"), arguments: s("{\"city\":\"Paris\"}") },
            }]),
            tool_call_id: None,
        }
    );
    assert_eq!(
        out.messages[2],
        ChatMessage {
            role: s("tool"),
            content: Some(ChatContent::Text(s("line 1\nline 2"))),
            tool_calls: None,
            tool_call_id: Some(s("c1")),
        }
    );
    assert_eq!(out.messages[3].content, Some(ChatContent::Text(s("done"))));
    assert_eq!(out.messages[3].tool_call_id, Some(s("c2")));
    assert_eq!(out.messages[4], text_message("assistant", "It is sunny. Enjoy."));
    assert_eq!(
        dbg(&out.tool_choice),
        dbg(&Some(obj(vec![("function", obj(vec![("name", text("get_weather"))])), ("type", text("function"))])))
    );
}

#[test]
fn chat_tool_choice_that_is_not_json_is_dropped() {
    let out = translate_request(&request("", vec![], vec![], "sometimes"));
    assert!(out.tool_choice.is_none());
    let out = translate_request(&request("", vec![], vec![], "required"));
    assert_eq!(dbg(&out.tool_choice), dbg(&Some(text("required"))));
}

#[test]
fn translate_tools_nests_function_tools() {
    let tools = vec![
        obj(vec![
            ("type", text("function")),
            ("name", text("get_weather")),
            ("description", text("Weather")),
            ("parameters", obj(vec![("type", text("object"))])),
        ]),
        obj(vec![("type", text("function")), ("name", text("bare"))]),
        obj(vec![("type", text("web_search"))]),
        obj(vec![("name", text("untyped"))]),
        obj(vec![("type", text("function"))]),
    ];
    let out = translate_tools_for_chat_completions(&tools);
    assert_eq!(out.len(), 3);
    assert_eq!(
        dbg(&out[0]),
        dbg(&obj(vec![
            ("type", text("function")),
            (
                "function",
                obj(vec![
                    ("name", text("get_weather")),
                    ("description", text("Weather")),
                    ("parameters", obj(vec![("type", text("object"))])),
                ]),
            ),
        ]))
    );
    assert_eq!(
        dbg(&out[1]),
        dbg(&obj(vec![
            ("type", text("function")),
            ("function", obj(vec![("name", text("bare")), ("description", text("")), ("parameters", Json::Null)])),
        ]))
    );
    assert_eq!(dbg(&out[2]), dbg(&obj(vec![("type", text("web_search"))])));
}

#[test]
fn chat_request_roles_after_system_are_conversation_roles() {
    let req = request(
        "sys",
        vec![
            message("system", vec![input_text("more")]),
            message("user", vec![input_text("q")]),
            message("critic", vec![input_text("r")]),
            ResponseItem::FunctionCallOutput {
                call_id: s("c"),
                output: FunctionCallOutputPayload { body: FunctionCallOutputBody::Text(s("t")), success: None },
            },
        ],
        vec![],
        "auto",
    );
    let out = translate_request(&req);
    assert_eq!(out.messages[0].role, "system");
    for m in &out.messages[1..] {
        assert!(m.role == "user" || m.role == "assistant" || m.role == "tool");
    }
}
