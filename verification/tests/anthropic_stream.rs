use codex_api::common::{ApiError, ResponseEvent, TokenUsage};
use codex_api::models::{ContentItem, ReasoningItemContent, ResponseItem};
use codex_api::sse::anthropic::{decode_event, AnthropicSseEvent, AnthropicSseState, BlockDelta, BlockStart};
use codex_api::sse::poll::{SsePoll, SseStep};

const NOW: i64 = 1700000000000;

fn event(kind: &str, data: &str) -> SsePoll {
    SsePoll::Event { event: kind.to_string(), data: data.to_string() }
}

/// Feeds each `(event, data)` pair in turn and collects every outcome, the way
/// the stream loop forwards them; stops at the first step that finishes.
fn run(polls: Vec<SsePoll>) -> (Vec<Result<ResponseEvent, ApiError>>, bool) {
    let mut state = AnthropicSseState::new();
    let mut all = Vec::new();
    for p in polls {
        let SseStep { outcomes, finished } = state.handle_at(p, NOW);
        all.extend(outcomes);
        if finished {
            return (all, true);
        }
    }
    (all, false)
}

fn ok_events(outcomes: Vec<Result<ResponseEvent, ApiError>>) -> Vec<ResponseEvent> {
    outcomes.into_iter().map(|o| o.expect("unexpected stream error")).collect()
}

const MESSAGE_START_1: &str =
    r#"{"type":"message_start","message":{"id":"msg1","model":"MiniMax-M2","usage":{"input_tokens":10}}}"#;
const TEXT_BLOCK_START: &str = r#"{"type":"content_block_start","index":0,"content_block":{"type":"text","text":""}}"#;
const BLOCK_STOP_0: &str = r#"{"type":"content_block_stop","index":0}"#;
const MESSAGE_STOP: &str = r#"{"type":"message_stop"}"#;

fn text_delta(t: &str) -> String {
    format!(r#"{{"type":"content_block_delta","index":0,"delta":{{"type":"text_delta","text":"{}"}}}}"#, t)
}

#[test]
fn anthropic_stream_parses_text_and_completed_end_to_end() {
    let polls = vec![
        event("message_start", MESSAGE_START_1),
        event("content_block_start", TEXT_BLOCK_START),
        event("content_block_delta", &text_delta("Hello")),
        event("content_block_delta", &text_delta(" World")),
        event("content_block_stop", BLOCK_STOP_0),
        event(
            "message_delta",
            r#"{"type":"message_delta","delta":{"stop_reason":"end_turn"},"usage":{"output_tokens":5}}"#,
        ),
        event("message_stop", MESSAGE_STOP),
    ];
    let (outcomes, finished) = run(polls);
    assert!(finished);
    let events = ok_events(outcomes);
    assert_eq!(events.len(), 6);
    assert!(matches!(events[0], ResponseEvent::Created));
    if let ResponseEvent::ServerModel(m) = &events[1] {
        assert_eq!(m, "MiniMax-M2");
    } else {
        panic!("expected ServerModel");
    }
    if let ResponseEvent::OutputTextDelta(d) = &events[2] {
        assert_eq!(d, "Hello");
    } else {
        panic!("expected OutputTextDelta");
    }
    if let ResponseEvent::OutputTextDelta(d) = &events[3] {
        assert_eq!(d, " World");
    } else {
        panic!("expected OutputTextDelta");
    }
    if let ResponseEvent::OutputItemDone(ResponseItem::Message { role, content, .. }) = &events[4] {
        assert_eq!(role, "assistant");
        assert_eq!(content.len(), 1);
        if let ContentItem::OutputText { text } = &content[0] {
            assert_eq!(text, "Hello World");
        } else {
            panic!("expected OutputText content item");
        }
    } else {
        panic!("expected OutputItemDone");
    }
    if let ResponseEvent::Completed { response_id, token_usage, end_turn } = &events[5] {
        assert_eq!(response_id, "msg1");
        assert!(end_turn.unwrap_or(false));
        let usage = token_usage.as_ref().unwrap();
        assert_eq!(usage.input_tokens, 10);
        assert_eq!(usage.output_tokens, 5);
        assert_eq!(usage.total_tokens, 15);
    } else {
        panic!("expected Completed");
    }
}

#[test]
fn anthropic_stream_parses_tool_use_end_to_end() {
    let polls = vec![
        event(
            "message_start",
            r#"{"type":"message_start","message":{"id":"msg2","model":"MiniMax-M2","usage":{"input_tokens":15}}}"#,
        ),
        event(
            "content_block_start",
            r#"{"type":"content_block_start","index":0,"content_block":{"type":"tool_use","id":"call_123","name":"get_weather","input":{}}}"#,
        ),
        event(
            "content_block_delta",
            r#"{"type":"content_block_delta","index":0,"delta":{"type":"input_json_delta","partial_json":"{\"location\":"}}"#,
        ),
        event(
            "content_block_delta",
            r#"{"type":"content_block_delta","index":0,"delta":{"type":"input_json_delta","partial_json":"\"Paris\"}"}}"#,
        ),
        event("content_block_stop", BLOCK_STOP_0),
        event(
            "message_delta",
            r#"{"type":"message_delta","delta":{"stop_reason":"tool_use"},"usage":{"output_tokens":8}}"#,
        ),
        event("message_stop", MESSAGE_STOP),
    ];
    let (outcomes, finished) = run(polls);
    assert!(finished);
    let events = ok_events(outcomes);
    assert_eq!(events.len(), 7);
    assert!(matches!(events[0], ResponseEvent::Created));
    assert!(matches!(events[1], ResponseEvent::ServerModel(_)));
    if let ResponseEvent::OutputItemAdded(ResponseItem::FunctionCall { call_id, name, .. }) = &events[2] {
        assert_eq!(call_id, "call_123");
        assert_eq!(name, "get_weather");
    } else {
        panic!("expected OutputItemAdded FunctionCall");
    }
    if let ResponseEvent::ToolCallInputDelta { item_id, delta, .. } = &events[3] {
        assert_eq!(item_id, "call_123");
        assert_eq!(delta, "{\"location\":");
    } else {
        panic!("expected ToolCallInputDelta");
    }
    if let ResponseEvent::ToolCallInputDelta { item_id, delta, .. } = &events[4] {
        assert_eq!(item_id, "call_123");
        assert_eq!(delta, "\"Paris\"}");
    } else {
        panic!("expected ToolCallInputDelta");
    }
    if let ResponseEvent::OutputItemDone(ResponseItem::FunctionCall { call_id, name, arguments, .. }) = &events[5] {
        assert_eq!(call_id, "call_123");
        assert_eq!(name, "get_weather");
        assert_eq!(arguments, "{\"location\":\"Paris\"}");
    } else {
        panic!("expected OutputItemDone FunctionCall");
    }
    if let ResponseEvent::Completed { response_id, token_usage, .. } = &events[6] {
        assert_eq!(response_id, "msg2");
        let usage = token_usage.as_ref().unwrap();
        assert_eq!(usage.total_tokens, 23);
    } else {
        panic!("expected Completed");
    }
}

#[test]
fn anthropic_text_block_ids_carry_the_time_and_index() {
    let (outcomes, finished) = run(vec![
        event("message_start", MESSAGE_START_1),
        event("content_block_start", TEXT_BLOCK_START),
        event("content_block_stop", BLOCK_STOP_0),
    ]);
    assert!(!finished);
    let events = ok_events(outcomes);
    assert_eq!(events.len(), 3);
    assert_eq!(
        events[2],
        ResponseEvent::OutputItemDone(ResponseItem::Message {
            id: Some("msg-1700000000000-0".to_string()),
            role: "assistant".to_string(),
            content: vec![ContentItem::OutputText { text: String::new() }],
        })
    );
}

#[test]
fn anthropic_thinking_block_becomes_reasoning_item() {
    let (outcomes, _) = run(vec![
        event("message_start", MESSAGE_START_1),
        event(
            "content_block_start",
            r#"{"type":"content_block_start","index":2,"content_block":{"type":"thinking","thinking":"a"}}"#,
        ),
        event(
            "content_block_delta",
            r#"{"type":"content_block_delta","index":2,"delta":{"type":"thinking_delta","thinking":"bc"}}"#,
        ),
        event(
            "content_block_delta",
            r#"{"type":"content_block_delta","index":2,"delta":{"type":"signature_delta","signature":"xyz"}}"#,
        ),
        event("content_block_stop", r#"{"type":"content_block_stop","index":2}"#),
    ]);
    let events = ok_events(outcomes);
    assert_eq!(events.len(), 5);
    assert_eq!(
        events[2],
        ResponseEvent::OutputItemAdded(ResponseItem::Reasoning {
            id: "reas-1700000000000-2".to_string(),
            content: Some(vec![]),
        })
    );
    assert_eq!(
        events[3],
        ResponseEvent::ReasoningContentDelta { delta: "bc".to_string(), content_index: 2 }
    );
    assert_eq!(
        events[4],
        ResponseEvent::OutputItemDone(ResponseItem::Reasoning {
            id: "reas-1700000000000-2".to_string(),
            content: Some(vec![ReasoningItemContent::ReasoningText { text: "abc".to_string() }]),
        })
    );
}

#[test]
fn anthropic_ping_and_unparsable_data_are_skipped() {
    let mut state = AnthropicSseState::new();
    let step = state.handle_at(event("ping", r#"{"type":"message_stop"}"#), NOW);
    assert!(step.outcomes.is_empty());
    assert!(!step.finished);
    let step = state.handle_at(event("message", "not json"), NOW);
    assert!(step.outcomes.is_empty());
    assert!(!step.finished);
    let step = state.handle_at(event("message", r#"{"type":"unknown_kind"}"#), NOW);
    assert!(step.outcomes.is_empty());
    assert!(!step.finished);
}

#[test]
fn anthropic_deltas_for_unknown_blocks_are_dropped() {
    let (outcomes, finished) = run(vec![
        event("content_block_delta", &text_delta("lost")),
        event("content_block_stop", BLOCK_STOP_0),
    ]);
    assert!(!finished);
    assert!(outcomes.is_empty());
}

#[test]
fn anthropic_text_delta_on_tool_block_is_announced_not_accumulated() {
    let (outcomes, _) = run(vec![
        event(
            "content_block_start",
            r#"{"type":"content_block_start","index":0,"content_block":{"type":"tool_use","id":"c","name":"f"}}"#,
        ),
        event("content_block_delta", &text_delta("x")),
        event("content_block_stop", BLOCK_STOP_0),
    ]);
    let events = ok_events(outcomes);
    assert_eq!(events.len(), 3);
    assert_eq!(events[1], ResponseEvent::OutputTextDelta("x".to_string()));
    assert_eq!(
        events[2],
        ResponseEvent::OutputItemDone(ResponseItem::FunctionCall {
            id: Some("c".to_string()),
            name: "f".to_string(),
            arguments: String::new(),
            call_id: "c".to_string(),
        })
    );
}

#[test]
fn anthropic_error_event_ends_the_stream() {
    let (outcomes, finished) = run(vec![
        event("message_start", MESSAGE_START_1),
        event("error", r#"{"type":"error","error":{"type":"overloaded_error","message":"Overloaded"}}"#),
        event("message_stop", MESSAGE_STOP),
    ]);
    assert!(finished);
    assert_eq!(outcomes.len(), 3);
    assert_eq!(outcomes[2], Err(ApiError::Stream("Overloaded".to_string())));
}

#[test]
fn anthropic_closed_before_message_start_is_an_error() {
    let mut state = AnthropicSseState::new();
    let step = state.handle_at(SsePoll::Closed, NOW);
    assert!(step.finished);
    assert_eq!(
        step.outcomes,
        vec![Err(ApiError::Stream("stream closed before response.completed".to_string()))]
    );
}

#[test]
fn anthropic_closed_after_message_start_completes() {
    let (outcomes, finished) = run(vec![event("message_start", MESSAGE_START_1), SsePoll::Closed]);
    assert!(finished);
    assert_eq!(
        outcomes[2],
        Ok(ResponseEvent::Completed {
            response_id: "msg1".to_string(),
            token_usage: Some(TokenUsage {
                input_tokens: 10,
                cached_input_tokens: 0,
                output_tokens: 0,
                reasoning_output_tokens: 0,
                total_tokens: 10,
            }),
            end_turn: Some(true),
        })
    );
}

#[test]
fn anthropic_timeout_and_stream_error() {
    let mut state = AnthropicSseState::new();
    let step = state.handle_at(SsePoll::IdleTimeout, NOW);
    assert!(step.finished);
    assert_eq!(step.outcomes, vec![Err(ApiError::Stream("idle timeout waiting for SSE".to_string()))]);
    let mut state = AnthropicSseState::new();
    let step = state.handle_at(SsePoll::StreamError("reset".to_string()), NOW);
    assert!(step.finished);
    assert_eq!(step.outcomes, vec![Err(ApiError::Stream("reset".to_string()))]);
}

#[test]
fn anthropic_message_delta_without_usage_keeps_output_tokens() {
    let (outcomes, _) = run(vec![
        event("message_start", MESSAGE_START_1),
        event("message_delta", r#"{"type":"message_delta","delta":{"stop_reason":null},"usage":{"output_tokens":4}}"#),
        event("message_delta", r#"{"type":"message_delta","delta":{"stop_reason":"end_turn"}}"#),
        event("message_stop", MESSAGE_STOP),
    ]);
    if let Ok(ResponseEvent::Completed { token_usage, .. }) = &outcomes[2] {
        assert_eq!(token_usage.unwrap().output_tokens, 4);
        assert_eq!(token_usage.unwrap().total_tokens, 14);
    } else {
        panic!("expected Completed");
    }
}

#[test]
fn anthropic_handle_uses_the_clock() {
    let mut state = AnthropicSseState::new();
    let step = state.handle(event("content_block_start", TEXT_BLOCK_START));
    assert!(step.outcomes.is_empty());
    let step = state.handle(event("content_block_stop", BLOCK_STOP_0));
    if let Ok(ResponseEvent::OutputItemDone(ResponseItem::Message { id: Some(id), .. })) = &step.outcomes[0] {
        assert!(id.starts_with("msg-"));
        assert!(id.ends_with("-0"));
        assert!(id.len() > "msg--0".len());
    } else {
        panic!("expected OutputItemDone");
    }
}

#[test]
fn anthropic_decode_event_reads_each_kind() {
    match decode_event(MESSAGE_START_1) {
        Some(AnthropicSseEvent::MessageStart { id, model, input_tokens }) => {
            assert_eq!(id, "msg1");
            assert_eq!(model, "MiniMax-M2");
            assert_eq!(input_tokens, 10);
        }
        other => panic!("unexpected {other:?}"),
    }
    match decode_event(TEXT_BLOCK_START) {
        Some(AnthropicSseEvent::ContentBlockStart { index: 0, content_block: BlockStart::Text { text } }) => {
            assert_eq!(text, "")
        }
        other => panic!("unexpected {other:?}"),
    }
    match decode_event(&text_delta("hi")) {
        Some(AnthropicSseEvent::ContentBlockDelta { index: 0, delta: BlockDelta::TextDelta { text } }) => {
            assert_eq!(text, "hi")
        }
        other => panic!("unexpected {other:?}"),
    }
    assert!(matches!(decode_event(MESSAGE_STOP), Some(AnthropicSseEvent::MessageStop)));
    assert!(matches!(decode_event(BLOCK_STOP_0), Some(AnthropicSseEvent::ContentBlockStop { index: 0 })));
    // A required field is missing.
    assert!(decode_event(r#"{"type":"content_block_stop"}"#).is_none());
    // A field has the wrong type.
    assert!(decode_event(r#"{"type":"content_block_stop","index":"0"}"#).is_none());
    assert!(decode_event("[1,2]").is_none());
}

#[test]
fn anthropic_inserted_pings_and_noise_change_nothing() {
    let plain = vec![
        event("message_start", MESSAGE_START_1),
        event("content_block_start", TEXT_BLOCK_START),
        event("content_block_delta", &text_delta("Hi")),
        event("content_block_stop", BLOCK_STOP_0),
        event("message_stop", MESSAGE_STOP),
    ];
    let noisy = vec![
        event("ping", r#"{"type":"ping"}"#),
        event("message_start", MESSAGE_START_1),
        event("message", "{}"),
        event("content_block_start", TEXT_BLOCK_START),
        event("message", "x"),
        event("content_block_delta", &text_delta("Hi")),
        event("ping", MESSAGE_STOP),
        event("content_block_stop", BLOCK_STOP_0),
        event("message", r#"{"type":"ping"}"#),
        event("message_stop", MESSAGE_STOP),
    ];
    assert_eq!(run(plain), run(noisy));
}

#[test]
fn anthropic_decode_event_reads_records_written_as_arrays() {
    match decode_event(r#"["message_start", ["m1", "MiniMax-M2", [10]]]"#) {
        Some(AnthropicSseEvent::MessageStart { id, model, input_tokens }) => {
            assert_eq!((id.as_str(), model.as_str(), input_tokens), ("m1", "MiniMax-M2", 10));
        }
        other => panic!("unexpected {other:?}"),
    }
    match decode_event(r#"["content_block_start", 1, ["tool_use", "c", "f"]]"#) {
        Some(AnthropicSseEvent::ContentBlockStart { index: 1, content_block: BlockStart::ToolUse { id, name } }) => {
            assert_eq!((id.as_str(), name.as_str()), ("c", "f"));
        }
        other => panic!("unexpected {other:?}"),
    }
    match decode_event(r#"{"type":"content_block_delta","index":0,"delta":["input_json_delta","{"]}"#) {
        Some(AnthropicSseEvent::ContentBlockDelta { index: 0, delta: BlockDelta::InputJsonDelta { partial_json } }) => {
            assert_eq!(partial_json, "{")
        }
        other => panic!("unexpected {other:?}"),
    }
    match decode_event(r#"["message_delta", [null], null]"#) {
        Some(AnthropicSseEvent::MessageDelta { stop_reason: None, output_tokens: None }) => {}
        other => panic!("unexpected {other:?}"),
    }
    match decode_event(r#"["message_delta", {"stop_reason":"end_turn"}, [7]]"#) {
        Some(AnthropicSseEvent::MessageDelta { stop_reason: Some(r), output_tokens: Some(7) }) => assert_eq!(r, "end_turn"),
        other => panic!("unexpected {other:?}"),
    }
    match decode_event(r#"["error", ["Overloaded"]]"#) {
        Some(AnthropicSseEvent::Error { message }) => assert_eq!(message, "Overloaded"),
        other => panic!("unexpected {other:?}"),
    }
    assert!(matches!(decode_event(r#"["message_stop"]"#), Some(AnthropicSseEvent::MessageStop)));
    // An array must hold exactly one value per field.
    assert!(decode_event(r#"["message_stop", 1]"#).is_none());
    assert!(decode_event(r#"["content_block_stop", 0, 1]"#).is_none());
    assert!(decode_event(r#"["message_delta", [null]]"#).is_none());
    assert!(decode_event(r#"[]"#).is_none());
}

#[test]
fn anthropic_decode_event_nested_tags_may_be_variant_positions() {
    match decode_event(r#"{"type":"content_block_delta","index":0,"delta":{"type":0,"text":"x"}}"#) {
        Some(AnthropicSseEvent::ContentBlockDelta { delta: BlockDelta::TextDelta { text }, .. }) => assert_eq!(text, "x"),
        other => panic!("unexpected {other:?}"),
    }
    match decode_event(r#"["content_block_start", 0, [1, "hmm"]]"#) {
        Some(AnthropicSseEvent::ContentBlockStart { content_block: BlockStart::Thinking { thinking }, .. }) => {
            assert_eq!(thinking, "hmm")
        }
        other => panic!("unexpected {other:?}"),
    }
    assert!(decode_event(r#"{"type":"content_block_delta","index":0,"delta":{"type":4,"text":"x"}}"#).is_none());
    // At the top level the tag must be a string.
    assert!(decode_event(r#"{"type":5}"#).is_none());
    assert!(decode_event(r#"[5]"#).is_none());
}

#[test]
fn anthropic_stream_of_array_records() {
    let (outcomes, finished) = run(vec![
        event("message_start", r#"["message_start", ["m9", "M", [3]]]"#),
        event("content_block_start", r#"["content_block_start", 0, ["text", ""]]"#),
        event("content_block_delta", r#"["content_block_delta", 0, ["text_delta", "ok"]]"#),
        event("content_block_stop", r#"["content_block_stop", 0]"#),
        event("message_stop", r#"["message_stop"]"#),
    ]);
    assert!(finished);
    let events = ok_events(outcomes);
    assert_eq!(events.len(), 5);
    assert_eq!(events[2], ResponseEvent::OutputTextDelta("ok".to_string()));
    if let ResponseEvent::Completed { response_id, .. } = &events[4] {
        assert_eq!(response_id, "m9");
    } else {
        panic!("expected Completed");
    }
}
