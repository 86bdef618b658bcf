//! The cloud and CLI chat providers.

pub mod claude_code;
pub mod codex;
pub mod openai_compat;
pub mod openai_stream;
pub mod stream;
