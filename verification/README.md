# codex_api

Request builders and streaming-event translators for two wire protocols that
a Codex-style agent can speak besides the Responses API: Anthropic Messages
and OpenAI Chat Completions.

- `src/` is the verified library.
  - `requests/` turns a Responses-style request (instructions, conversation
    items, tool definitions, tool choice) into an Anthropic Messages body or a
    Chat Completions body. Each translation is stated exactly over a
    mathematical model of both sides, with laws such as "consecutive Anthropic
    messages never share a role" and "the Chat system message comes first".
  - `sse/` holds the inbound translators as state machines: each takes one
    poll of the event stream (an event, a stream failure, the end of the
    stream, an idle timeout) and yields the events to forward and whether the
    stream is over. Laws state that streamed tool-call input is assembled in
    order before the finished call is announced, and that reported token
    usage reaches the completion event.
  - `json.rs`, `text.rs`, `models.rs`, `common.rs` hold the shared models.
    JSON text is read with serde_json and the system clock with chrono, each
    behind one small trusted function.
- `app/` is ordinary Rust around the library: serde forms of the request
  bodies, and the async tasks that read server-sent events with a timeout,
  feed the state machines and forward their output over a channel.
- `tests/` exercises the library on concrete inputs.
