//! Inbound stream translators.

pub mod fields;
pub mod poll;
pub mod anthropic;
pub mod chat_completions;
