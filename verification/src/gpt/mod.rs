//! The AI chat participant: its conversation histories and the reading of
//! the model's streamed replies.

pub mod common;
pub mod deepseek_v3;
pub mod render;
