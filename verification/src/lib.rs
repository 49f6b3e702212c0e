//! Unified chat API model for OpenAI-compatible and Anthropic-compatible providers.
//!
//! A [`ChatRequest`] is converted into the wire request of the provider that a
//! [`Client`] talks to, and the provider's reply (a whole response, or an event stream
//! cut into `data:` payloads) is converted back into a [`ChatResponse`] or
//! [`StreamEvent`]s.
pub mod anthropic;
pub mod client;
pub mod config;
pub mod error;
pub mod json;
pub mod laws;
pub mod openai;
pub mod seqs;
pub mod sse;
pub mod text;
pub mod types;

pub use client::Client;
pub use config::{Headers, LlmConfig, LlmProviderConfig, ProviderType};
pub use error::Error;
pub use types::{
    ChatRequest, ChatResponse, ContentPart, F32Bits, ImageSource, Message, Role, StopReason,
    StreamEvent, Tool, ToolChoice, ToolResult, ToolUse, Usage,
};
