//! Outbound request translators.

pub mod anthropic;
pub mod system;
pub mod chat_completions;
