//! Request builders and streaming-event translators for the Anthropic Messages
//! and OpenAI Chat Completions wire protocols, with their contracts.

pub mod json;
pub mod text;
pub mod clock;
pub mod models;
pub mod common;
pub mod requests;
pub mod sse;
