use codex_api::common::{ApiError, ResponseEvent, TokenUsage};
use codex_api::models::{ContentItem, ResponseItem};
use codex_api::sse::chat_completions::{decode_chunk, ChatSseState};
use codex_api::sse::poll::{SsePoll, SseStep};

const NOW: i64 = 42;

fn data(d: &str) -> SsePoll {
    SsePoll::Event { event: "message".to_string(), data: d.to_string() }
}

fn run(polls: Vec<SsePoll>) -> (Vec<Result<ResponseEvent, ApiError>>, bool) {
    let mut state = ChatSseState::new();
    let mut all = Vec::new();
    for p in polls {
        let SseStep { outcomes, finished } = state.handle_at(p, NOW);
        all.extend(outcomes);
        if finished {
            return (all, true);
        }
    }
    (all, false)
}

fn ok_events(outcomes: Vec<Result<ResponseEvent, ApiError>>) -> Vec<ResponseEvent> {
    outcomes.into_iter().map(|o| o.expect("unexpected stream error")).collect()
}

fn message(id: &str, content: Vec<ContentItem>) -> ResponseItem {
    ResponseItem::Message { id: Some(id.to_string()), role: "assistant".to_string(), content }
}

fn call(id: &str, name: &str, arguments: &str) -> ResponseItem {
    ResponseItem::FunctionCall {
        id: Some(id.to_string()),
        name: name.to_string(),
        arguments: arguments.to_string(),
        call_id: id.to_string(),
    }
}

fn usage(input: i64, output: i64) -> Option<TokenUsage> {
    Some(TokenUsage {
        input_tokens: input,
        cached_input_tokens: 0,
        output_tokens: output,
        reasoning_output_tokens: 0,
        total_tokens: input + output,
    })
}

#[test]
fn chat_stream_text_then_stop_then_done() {
    let (outcomes, finished) = run(vec![
        data(r#"{"id":"c1","model":"MiniMax-M2","choices":[{"delta":{"role":"assistant","content":"Hel"},"finish_reason":null}]}"#),
        data(r#"{"id":"c1","choices":[{"delta":{"content":"lo"},"finish_reason":null}]}"#),
        data(r#"{"id":"c1","choices":[{"delta":{},"finish_reason":"stop"}],"usage":{"prompt_tokens":7,"completion_tokens":3,"total_tokens":10}}"#),
        data("[DONE]"),
    ]);
    assert!(finished);
    let events = ok_events(outcomes);
    assert_eq!(
        events,
        vec![
            ResponseEvent::Created,
            ResponseEvent::ServerModel("MiniMax-M2".to_string()),
            ResponseEvent::OutputItemAdded(message("msg-42", vec![])),
            ResponseEvent::OutputTextDelta("Hel".to_string()),
            ResponseEvent::OutputTextDelta("lo".to_string()),
            ResponseEvent::OutputItemDone(message("msg-42", vec![])),
            ResponseEvent::Completed { response_id: "c1".to_string(), token_usage: usage(7, 3), end_turn: Some(true) },
        ]
    );
}

#[test]
fn chat_stream_assembles_tool_call_arguments() {
    let (outcomes, finished) = run(vec![
        data(r#"{"id":"c2","model":"m","choices":[{"delta":{"tool_calls":[{"index":0,"id":"call_1","function":{"name":"get_weather","arguments":""}}]},"finish_reason":null}]}"#),
        data(r#"{"id":"c2","choices":[{"delta":{"tool_calls":[{"index":0,"function":{"arguments":"{\"location\":"}}]},"finish_reason":null}]}"#),
        data(r#"{"id":"c2","choices":[{"delta":{"tool_calls":[{"index":0,"function":{"arguments":"\"Paris\"}"}}]},"finish_reason":"tool_calls"}]}"#),
        data("[DONE]"),
    ]);
    assert!(finished);
    let events = ok_events(outcomes);
    assert_eq!(
        events,
        vec![
            ResponseEvent::Created,
            ResponseEvent::ServerModel("m".to_string()),
            ResponseEvent::OutputItemAdded(call("call_1", "get_weather", "")),
            ResponseEvent::ToolCallInputDelta {
                item_id: "call_1".to_string(),
                call_id: Some("call_1".to_string()),
                delta: String::new(),
            },
            ResponseEvent::ToolCallInputDelta {
                item_id: "call_1".to_string(),
                call_id: Some("call_1".to_string()),
                delta: "{\"location\":".to_string(),
            },
            ResponseEvent::ToolCallInputDelta {
                item_id: "call_1".to_string(),
                call_id: Some("call_1".to_string()),
                delta: "\"Paris\"}".to_string(),
            },
            ResponseEvent::OutputItemDone(call("call_1", "get_weather", "{\"location\":\"Paris\"}")),
            ResponseEvent::Completed { response_id: "c2".to_string(), token_usage: usage(0, 0), end_turn: Some(true) },
        ]
    );
}

#[test]
fn chat_stream_tool_calls_finish_closes_open_message_first() {
    let (outcomes, _) = run(vec![
        data(r#"{"id":"c3","choices":[{"delta":{"content":"Let me check."},"finish_reason":null}]}"#),
        data(r#"{"id":"c3","choices":[{"delta":{"tool_calls":[{"index":0,"id":"a","function":{"name":"f"}},{"index":1,"id":"b","function":{"name":"g","arguments":"{}"}}]},"finish_reason":"tool_calls"}]}"#),
    ]);
    let events = ok_events(outcomes);
    assert_eq!(
        events,
        vec![
            ResponseEvent::Created,
            ResponseEvent::OutputItemAdded(message("msg-42", vec![])),
            ResponseEvent::OutputTextDelta("Let me check.".to_string()),
            ResponseEvent::OutputItemAdded(call("a", "f", "")),
            ResponseEvent::OutputItemAdded(call("b", "g", "")),
            ResponseEvent::ToolCallInputDelta { item_id: "b".to_string(), call_id: Some("b".to_string()), delta: "{}".to_string() },
            ResponseEvent::OutputItemDone(message("msg-42", vec![ContentItem::OutputText { text: String::new() }])),
            ResponseEvent::OutputItemDone(call("a", "f", "")),
            ResponseEvent::OutputItemDone(call("b", "g", "{}")),
        ]
    );
}

#[test]
fn chat_stream_done_finishes_open_calls_and_message() {
    let (outcomes, finished) = run(vec![
        data(r#"{"id":"c4","choices":[{"delta":{"content":"x","tool_calls":[{"index":3,"id":"t","function":{"name":"n","arguments":"1"}}]},"finish_reason":null}]}"#),
        data("[DONE]"),
    ]);
    assert!(finished);
    let events = ok_events(outcomes);
    assert_eq!(events.len(), 8);
    assert_eq!(events[5], ResponseEvent::OutputItemDone(call("t", "n", "1")));
    assert_eq!(events[6], ResponseEvent::OutputItemDone(message("msg-42", vec![])));
    assert!(matches!(events[7], ResponseEvent::Completed { .. }));
}

#[test]
fn chat_stream_closed_before_any_data_is_an_error() {
    let mut state = ChatSseState::new();
    let step = state.handle_at(SsePoll::Closed, NOW);
    assert!(step.finished);
    assert_eq!(step.outcomes, vec![Err(ApiError::Stream("stream closed before any data".to_string()))]);
}

#[test]
fn chat_stream_closed_after_start_completes() {
    let (outcomes, finished) = run(vec![
        data(r#"{"id":"c5","choices":[],"usage":{"prompt_tokens":2,"completion_tokens":null}}"#),
        SsePoll::Closed,
    ]);
    assert!(finished);
    assert_eq!(
        outcomes,
        vec![
            Ok(ResponseEvent::Created),
            Ok(ResponseEvent::Completed { response_id: "c5".to_string(), token_usage: usage(2, 0), end_turn: Some(true) }),
        ]
    );
}

#[test]
fn chat_stream_timeout_and_stream_error() {
    let mut state = ChatSseState::new();
    let step = state.handle_at(SsePoll::IdleTimeout, NOW);
    assert!(step.finished);
    assert_eq!(step.outcomes, vec![Err(ApiError::Stream("idle timeout waiting for SSE".to_string()))]);
    let mut state = ChatSseState::new();
    let step = state.handle_at(SsePoll::StreamError("broken pipe".to_string()), NOW);
    assert!(step.finished);
    assert_eq!(step.outcomes, vec![Err(ApiError::Stream("broken pipe".to_string()))]);
}

#[test]
fn chat_stream_skips_unparsable_chunks() {
    let (outcomes, finished) = run(vec![data("{not json"), data(r#"{"id":"x"}"#), data(r#"[1]"#)]);
    assert!(!finished);
    assert!(outcomes.is_empty());
}

#[test]
fn chat_stream_model_is_announced_once() {
    let (outcomes, _) = run(vec![
        data(r#"{"id":"abc","model":"m1","choices":[]}"#),
        data(r#"{"id":"abcd","model":"m2","choices":[]}"#),
        data(r#"{"id":"xyz","model":"m3","choices":[]}"#),
        data(r#"{"id":"abc","model":"m1","choices":[]}"#),
    ]);
    assert_eq!(outcomes, vec![Ok(ResponseEvent::Created), Ok(ResponseEvent::ServerModel("m1".to_string()))]);
}

#[test]
fn chat_stream_repeated_first_chunk_announces_model_once() {
    let (outcomes, finished) = run(vec![
        data(r#"{"id":"c1","model":"m","choices":[]}"#),
        data(r#"{"id":"c1","model":"m","choices":[]}"#),
        data("[DONE]"),
    ]);
    assert!(finished);
    assert_eq!(
        outcomes,
        vec![
            Ok(ResponseEvent::Created),
            Ok(ResponseEvent::ServerModel("m".to_string())),
            Ok(ResponseEvent::Completed { response_id: "c1".to_string(), token_usage: usage(0, 0), end_turn: Some(true) }),
        ]
    );
}

#[test]
fn chat_stream_empty_model_on_first_chunk_is_not_announced() {
    let (outcomes, _) = run(vec![
        data(r#"{"id":"c1","model":"","choices":[]}"#),
        data(r#"{"id":"c1","model":"m","choices":[]}"#),
    ]);
    assert_eq!(outcomes, vec![Ok(ResponseEvent::Created)]);
}

#[test]
fn chat_stream_model_before_any_id_is_not_announced() {
    let (outcomes, _) = run(vec![data(r#"{"model":"m","choices":[{"delta":{"content":""},"finish_reason":"stop"}]}"#)]);
    assert!(outcomes.is_empty());
}

#[test]
fn chat_stream_handle_uses_the_clock() {
    let mut state = ChatSseState::new();
    let step = state.handle(data(r#"{"id":"c","choices":[{"delta":{"content":"hi"},"finish_reason":null}]}"#));
    if let Ok(ResponseEvent::OutputItemAdded(ResponseItem::Message { id: Some(id), .. })) = &step.outcomes[1] {
        assert!(id.starts_with("msg-"));
        assert!(id.len() > 4);
    } else {
        panic!("expected OutputItemAdded");
    }
}

#[test]
fn chat_decode_chunk_reads_fields() {
    let c = decode_chunk(
        r#"{"id":"i","model":"m","choices":[{"delta":{"role":"assistant","content":"t","tool_calls":[{"index":2,"id":"k","function":{"name":"n","arguments":"a"}}]},"finish_reason":"stop"}],"usage":{"prompt_tokens":1,"completion_tokens":2,"total_tokens":3}}"#,
    )
    .expect("chunk");
    assert_eq!(c.id.as_deref(), Some("i"));
    assert_eq!(c.model.as_deref(), Some("m"));
    assert_eq!(c.choices.len(), 1);
    let ch = &c.choices[0];
    assert_eq!(ch.finish_reason.as_deref(), Some("stop"));
    assert_eq!(ch.delta.role.as_deref(), Some("assistant"));
    assert_eq!(ch.delta.content.as_deref(), Some("t"));
    let tc = &ch.delta.tool_calls.as_ref().unwrap()[0];
    assert_eq!(tc.index, 2);
    assert_eq!(tc.id.as_deref(), Some("k"));
    let f = tc.function.as_ref().unwrap();
    assert_eq!(f.name.as_deref(), Some("n"));
    assert_eq!(f.arguments.as_deref(), Some("a"));
    let u = c.usage.as_ref().unwrap();
    assert_eq!((u.prompt_tokens, u.completion_tokens, u.total_tokens), (Some(1), Some(2), Some(3)));
    // `choices` is required, and a tool-call position is a non-negative integer.
    assert!(decode_chunk(r#"{"id":"i"}"#).is_none());
    assert!(decode_chunk(r#"{"choices":[{"delta":{"tool_calls":[{"index":-1}]}}]}"#).is_none());
    // A choice needs its delta; a missing finish reason reads as none.
    assert!(decode_chunk(r#"{"choices":[{"finish_reason":"stop"}]}"#).is_none());
    let c = decode_chunk(r#"{"choices":[{"delta":{}}]}"#).expect("chunk");
    assert!(c.choices[0].finish_reason.is_none());
    assert!(c.choices[0].delta.content.is_none());
}

#[test]
fn chat_decode_chunk_reads_records_written_as_arrays() {
    let c = decode_chunk(r#"["c1", "m", [[["assistant", "hi", null], null]], null]"#).expect("chunk");
    assert_eq!(c.id.as_deref(), Some("c1"));
    assert_eq!(c.model.as_deref(), Some("m"));
    assert_eq!(c.choices[0].delta.role.as_deref(), Some("assistant"));
    assert_eq!(c.choices[0].delta.content.as_deref(), Some("hi"));
    assert!(c.choices[0].finish_reason.is_none());
    assert!(c.usage.is_none());
    let c = decode_chunk(
        r#"{"choices":[{"delta":{"tool_calls":[[0,"k",["n","a"]]]},"finish_reason":null}],"usage":[1,2,3]}"#,
    )
    .expect("chunk");
    let tc = &c.choices[0].delta.tool_calls.as_ref().unwrap()[0];
    assert_eq!((tc.index, tc.id.as_deref()), (0, Some("k")));
    let f = tc.function.as_ref().unwrap();
    assert_eq!((f.name.as_deref(), f.arguments.as_deref()), (Some("n"), Some("a")));
    let u = c.usage.unwrap();
    assert_eq!((u.prompt_tokens, u.completion_tokens, u.total_tokens), (Some(1), Some(2), Some(3)));
    // An array must hold exactly one value per field.
    assert!(decode_chunk(r#"["c1", "m", []]"#).is_none());
    assert!(decode_chunk(r#"["c1", "m", [], null, 5]"#).is_none());
    assert!(decode_chunk(r#"{"choices":[[{}]]}"#).is_none());
}
