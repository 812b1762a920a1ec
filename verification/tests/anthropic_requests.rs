use codex_api::common::ResponsesApiRequest;
use codex_api::json::{Json, JsonNumber};
use codex_api::models::{
    ContentItem, FunctionCallOutputBody, FunctionCallOutputContentItem, FunctionCallOutputPayload, ResponseItem,
};
use codex_api::requests::anthropic::{
    append_or_merge_message, parse_image_url, translate_request, translate_tool, translate_tool_choice,
    AnthropicContentBlock, AnthropicImageSource, AnthropicMessage, AnthropicToolChoice, ANTHROPIC_DEFAULT_MAX_TOKENS,
};

fn s(t: &str) -> String {
    t.to_string()
}

fn obj(members: Vec<(&str, Json)>) -> Json {
    Json::Object(members.into_iter().map(|(k, v)| (k.to_string(), v)).collect())
}

fn text(t: &str) -> Json {
    Json::Str(t.to_string())
}

fn dbg<T: std::fmt::Debug>(v: &T) -> String {
    format!("{:?}", v)
}

fn message(role: &str, content: Vec<ContentItem>) -> ResponseItem {
    ResponseItem::Message { id: None, role: s(role), content }
}

fn input_text(t: &str) -> ContentItem {
    ContentItem::InputText { text: s(t) }
}

fn request(instructions: &str, input: Vec<ResponseItem>, tools: Vec<Json>, tool_choice: &str) -> ResponsesApiRequest {
    ResponsesApiRequest {
        model: s("MiniMax-M2"),
        instructions: s(instructions),
        input,
        tools,
        tool_choice: s(tool_choice),
        stream: true,
    }
}

#[test]
fn parse_image_url_splits_base64_data_url() {
    let source = parse_image_url("data:image/png;base64,iVBORw0KGgo=").unwrap();
    assert_eq!(
        source,
        AnthropicImageSource { kind: s("base64"), media_type: s("image/png"), data: s("iVBORw0KGgo=") }
    );
}

#[test]
fn parse_image_url_round_trips_its_parts() {
    for (mt, d) in [("image/png", "AAAA"), ("x;base", ";base64,y"), ("", ""), ("a;base64", "z")] {
        let url = format!("data:{mt};base64,{d}");
        assert_eq!(
            parse_image_url(&url),
            Some(AnthropicImageSource { kind: s("base64"), media_type: s(mt), data: s(d) })
        );
    }
}

#[test]
fn parse_image_url_splits_at_first_marker() {
    let source = parse_image_url("data:image/jpeg;base64,AA;base64,BB").unwrap();
    assert_eq!(source.media_type, "image/jpeg");
    assert_eq!(source.data, "AA;base64,BB");
}

#[test]
fn parse_image_url_rejects_other_urls() {
    assert!(parse_image_url("https://example.com/cat.png").is_none());
    assert!(parse_image_url("data:image/png,plain").is_none());
    assert!(parse_image_url("").is_none());
    assert!(parse_image_url("DATA:image/png;base64,AAAA").is_none());
}

#[test]
fn parse_image_url_keeps_empty_parts() {
    let source = parse_image_url("data:;base64,").unwrap();
    assert_eq!(source.media_type, "");
    assert_eq!(source.data, "");
}

#[test]
fn append_or_merge_message_merges_same_role_and_skips_empty() {
    let mut messages: Vec<AnthropicMessage> = Vec::new();
    append_or_merge_message(&mut messages, s("user"), vec![]);
    assert!(messages.is_empty());
    append_or_merge_message(&mut messages, s("user"), vec![AnthropicContentBlock::Text { text: s("a") }]);
    append_or_merge_message(&mut messages, s("user"), vec![AnthropicContentBlock::Text { text: s("b") }]);
    append_or_merge_message(&mut messages, s("assistant"), vec![AnthropicContentBlock::Text { text: s("c") }]);
    assert_eq!(messages.len(), 2);
    assert_eq!(messages[0].role, "user");
    assert_eq!(messages[0].content.len(), 2);
    assert_eq!(messages[1].role, "assistant");
    assert_eq!(messages[1].content.len(), 1);
}

#[test]
fn translate_request_gathers_system_prompt() {
    let req = request(
        "Be brief.",
        vec![
            message("system", vec![input_text("Use tools."), ContentItem::OutputText { text: s("Stay safe.") }]),
            message("user", vec![input_text("hi")]),
        ],
        vec![],
        "auto",
    );
    let out = translate_request(&req);
    assert_eq!(out.system.as_deref(), Some("Be brief.\n\nUse tools.\n\nStay safe."));
    assert_eq!(out.model, "MiniMax-M2");
    assert_eq!(out.max_tokens, ANTHROPIC_DEFAULT_MAX_TOKENS);
    assert_eq!(out.max_tokens, 40_960);
    assert!(out.stream);
    assert_eq!(out.messages.len(), 1);
    assert_eq!(out.messages[0].role, "user");
}

#[test]
fn translate_request_without_system_prompt() {
    let req = request("", vec![message("user", vec![input_text("hi")])], vec![], "none");
    let out = translate_request(&req);
    assert!(out.system.is_none());
    assert!(out.tool_choice.is_none());
}

#[test]
fn translate_request_merges_roles_and_maps_tool_calls() {
    let req = request(
        "",
        vec![
            message("user", vec![input_text("What is the weather?")]),
            message("developer", vec![input_text("thinking aloud")]),
            ResponseItem::FunctionCall {
                id: None,
                name: s("get_weather"),
                arguments: s("{\"location\":\"Paris\"}"),
                call_id: s("call_1"),
            },
            ResponseItem::FunctionCallOutput {
                call_id: s("call_1"),
                output: FunctionCallOutputPayload { body: FunctionCallOutputBody::Text(s("sunny")), success: Some(true) },
            },
            ResponseItem::CustomToolCallOutput {
                call_id: s("call_2"),
                output: FunctionCallOutputPayload {
                    body: FunctionCallOutputBody::ContentItems(vec![
                        FunctionCallOutputContentItem::InputText { text: s("part") },
                        FunctionCallOutputContentItem::InputImage { image_url: s("https://x/y.png") },
                    ]),
                    success: Some(false),
                },
            },
            ResponseItem::Other,
        ],
        vec![],
        "auto",
    );
    let out = translate_request(&req);
    assert_eq!(out.messages.len(), 3);
    assert_eq!(out.messages[0].role, "user");
    assert_eq!(out.messages[1].role, "assistant");
    assert_eq!(out.messages[1].content.len(), 2);
    assert_eq!(
        dbg(&out.messages[1].content[1]),
        dbg(&AnthropicContentBlock::ToolUse {
            id: s("call_1"),
            name: s("get_weather"),
            input: obj(vec![("location", text("Paris"))]),
        })
    );
    assert_eq!(out.messages[2].role, "user");
    assert_eq!(
        dbg(&out.messages[2].content[0]),
        dbg(&AnthropicContentBlock::ToolResult { tool_use_id: s("call_1"), content: text("sunny"), is_error: Some(false) })
    );
    assert_eq!(
        dbg(&out.messages[2].content[1]),
        dbg(&AnthropicContentBlock::ToolResult {
            tool_use_id: s("call_2"),
            content: Json::Array(vec![obj(vec![("type", text("text")), ("text", text("part"))])]),
            is_error: Some(true),
        })
    );
    assert_eq!(out.tool_choice, Some(AnthropicToolChoice::Auto));
}

#[test]
fn translate_request_tool_use_with_unparseable_arguments_is_null() {
    let req = request(
        "",
        vec![ResponseItem::FunctionCall { id: None, name: s("f"), arguments: s("not json"), call_id: s("c") }],
        vec![],
        "auto",
    );
    let out = translate_request(&req);
    assert_eq!(
        dbg(&out.messages[0].content[0]),
        dbg(&AnthropicContentBlock::ToolUse { id: s("c"), name: s("f"), input: Json::Null })
    );
}

#[test]
fn translate_request_images_become_blocks_only_for_data_urls() {
    let req = request(
        "",
        vec![message(
            "user",
            vec![
                ContentItem::InputImage { image_url: s("data:image/gif;base64,R0lG") },
                ContentItem::InputImage { image_url: s("https://example.com/a.png") },
            ],
        )],
        vec![],
        "auto",
    );
    let out = translate_request(&req);
    assert_eq!(out.messages.len(), 1);
    assert_eq!(out.messages[0].content.len(), 1);
    assert_eq!(
        dbg(&out.messages[0].content[0]),
        dbg(&AnthropicContentBlock::Image {
            source: AnthropicImageSource { kind: s("base64"), media_type: s("image/gif"), data: s("R0lG") }
        })
    );
}

#[test]
fn translate_request_drops_messages_without_blocks() {
    let req = request(
        "",
        vec![message("assistant", vec![ContentItem::InputImage { image_url: s("https://a/b.png") }])],
        vec![],
        "auto",
    );
    let out = translate_request(&req);
    assert!(out.messages.is_empty());
}

#[test]
fn translate_tool_reads_function_definition() {
    let tool = obj(vec![
        ("type", text("function")),
        (
            "function",
            obj(vec![
                ("name", text("get_weather")),
                ("description", text("Weather lookup")),
                ("parameters", obj(vec![("type", text("object"))])),
            ]),
        ),
    ]);
    let t = translate_tool(&tool).unwrap();
    assert_eq!(t.name, "get_weather");
    assert_eq!(t.description, "Weather lookup");
    assert_eq!(dbg(&t.input_schema), dbg(&obj(vec![("type", text("object"))])));
}

#[test]
fn translate_tool_defaults_description_and_schema() {
    let tool = obj(vec![("function", obj(vec![("name", text("noop"))]))]);
    let t = translate_tool(&tool).unwrap();
    assert_eq!(t.description, "");
    assert_eq!(
        dbg(&t.input_schema),
        dbg(&obj(vec![("type", text("object")), ("properties", Json::Object(vec![]))]))
    );
}

#[test]
fn translate_tool_requires_function_name() {
    assert!(translate_tool(&obj(vec![("name", text("flat"))])).is_none());
    assert!(translate_tool(&obj(vec![("function", obj(vec![]))])).is_none());
    assert!(translate_tool(&obj(vec![("function", obj(vec![("name", Json::Number(JsonNumber::PosInt(3)))]))])).is_none());
}

#[test]
fn translate_tool_reads_flat_function_definition() {
    let tool = translate_tool(&obj(vec![
        ("type", text("function")),
        ("name", text("get_weather")),
        ("description", text("d")),
        ("parameters", obj(vec![("type", text("object"))])),
    ]))
    .expect("tool");
    assert_eq!(tool.name, "get_weather");
    assert_eq!(tool.description, "d");
    assert_eq!(dbg(&tool.input_schema), dbg(&obj(vec![("type", text("object"))])));
    let bare = translate_tool(&obj(vec![("type", text("function")), ("name", text("f"))])).expect("tool");
    assert_eq!(bare.description, "");
    assert_eq!(
        dbg(&bare.input_schema),
        dbg(&obj(vec![("type", text("object")), ("properties", obj(vec![]))]))
    );
    assert!(translate_tool(&obj(vec![("type", text("web_search")), ("name", text("f"))])).is_none());
    assert!(translate_tool(&obj(vec![("type", text("function"))])).is_none());
}

#[test]
fn translate_tool_choice_variants() {
    assert_eq!(translate_tool_choice("auto"), Some(AnthropicToolChoice::Auto));
    assert_eq!(translate_tool_choice("required"), Some(AnthropicToolChoice::Any));
    assert_eq!(translate_tool_choice("none"), None);
    assert_eq!(
        translate_tool_choice("{\"type\":\"function\",\"function\":{\"name\":\"get_weather\"}}"),
        Some(AnthropicToolChoice::Tool { name: s("get_weather") })
    );
    assert_eq!(translate_tool_choice("{\"type\":\"function\"}"), None);
    assert_eq!(translate_tool_choice("something else"), None);
}

#[test]
fn translate_request_keeps_tools_that_translate() {
    let req = request(
        "",
        vec![],
        vec![
            obj(vec![("function", obj(vec![("name", text("a"))]))]),
            obj(vec![("name", text("flat"))]),
            obj(vec![("function", obj(vec![("name", text("b"))]))]),
            obj(vec![("type", text("function")), ("name", text("c"))]),
        ],
        "required",
    );
    let out = translate_request(&req);
    assert_eq!(out.tools.len(), 3);
    assert_eq!(out.tools[0].name, "a");
    assert_eq!(out.tools[1].name, "b");
    assert_eq!(out.tools[2].name, "c");
    assert_eq!(out.tool_choice, Some(AnthropicToolChoice::Any));
}

#[test]
fn translated_messages_alternate_roles() {
    let req = request(
        "",
        vec![
            message("user", vec![input_text("1")]),
            message("user", vec![input_text("2")]),
            message("assistant", vec![input_text("3")]),
            ResponseItem::FunctionCall { id: None, name: s("f"), arguments: s("{}"), call_id: s("c") },
            ResponseItem::FunctionCallOutput {
                call_id: s("c"),
                output: FunctionCallOutputPayload { body: FunctionCallOutputBody::Text(s("ok")), success: None },
            },
            message("user", vec![input_text("4")]),
        ],
        vec![],
        "auto",
    );
    let out = translate_request(&req);
    let blocks: usize = out.messages.iter().map(|m| m.content.len()).sum();
    assert_eq!(blocks, 6);
    for w in out.messages.windows(2) {
        assert_ne!(w[0].role, w[1].role);
    }
    for m in &out.messages {
        assert!(!m.content.is_empty());
    }
}
