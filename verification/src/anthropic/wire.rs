//! The Anthropic messages wire format, as plain values. Serialization to and from JSON
//! happens at the transport edge.
use vstd::prelude::*;

use crate::types::F32Bits;

verus! {

// ---------------------------------------------------------------------------
// Content blocks (requests and responses)
// ---------------------------------------------------------------------------

#[derive(Debug, Clone)]
pub enum ImageSource {
    Url { url: String },
    Base64 { media_type: String, data: String },
}

/// The model of [`ImageSource`], with text as `Seq<char>` and lists as `Seq`.
pub enum ImageSourceModel {
    Url { url: Seq<char> },
    Base64 { media_type: Seq<char>, data: Seq<char> },
}

impl DeepView for ImageSource {
    type V = ImageSourceModel;

    open spec fn deep_view(&self) -> ImageSourceModel {
        match self {
            ImageSource::Url { url } => ImageSourceModel::Url { url: url@ },
            ImageSource::Base64 { media_type, data } => ImageSourceModel::Base64 {
                media_type: media_type@,
                data: data@,
            },
        }
    }
}

#[derive(Debug, Clone)]
pub enum ContentBlock {
    Text { text: String },
    Image { source: ImageSource },
    /// `input` is JSON text.
    ToolUse { id: String, name: String, input: String },
    ToolResult { tool_use_id: String, content: String, is_error: bool },
}

/// The model of [`ContentBlock`], with text as `Seq<char>` and lists as `Seq`.
pub enum ContentBlockModel {
    Text { text: Seq<char> },
    Image { source: ImageSourceModel },
    ToolUse { id: Seq<char>, name: Seq<char>, input: Seq<char> },
    ToolResult { tool_use_id: Seq<char>, content: Seq<char>, is_error: bool },
}

impl DeepView for ContentBlock {
    type V = ContentBlockModel;

    open spec fn deep_view(&self) -> ContentBlockModel {
        match self {
            ContentBlock::Text { text } => ContentBlockModel::Text { text: text@ },
            ContentBlock::Image { source } => ContentBlockModel::Image { source: source.deep_view() },
            ContentBlock::ToolUse { id, name, input } => ContentBlockModel::ToolUse {
                id: id@,
                name: name@,
                input: input@,
            },
            ContentBlock::ToolResult { tool_use_id, content, is_error } =>
                ContentBlockModel::ToolResult {
                tool_use_id: tool_use_id@,
                content: content@,
                is_error: *is_error,
            },
        }
    }
}

// ---------------------------------------------------------------------------
// Request
// ---------------------------------------------------------------------------

#[derive(Debug, Clone)]
pub struct Message {
    pub role: String,
    pub content: Vec<ContentBlock>,
}

/// The model of [`Message`], with text as `Seq<char>` and lists as `Seq`.
pub struct MessageModel {
    pub role: Seq<char>,
    pub content: Seq<ContentBlockModel>,
}

impl DeepView for Message {
    type V = MessageModel;

    open spec fn deep_view(&self) -> MessageModel {
        MessageModel { role: self.role@, content: self.content.deep_view() }
    }
}

#[derive(Debug, Clone)]
pub struct Tool {
    pub name: String,
    pub description: String,
    /// JSON Schema of the input, as JSON text.
    pub input_schema: String,
}

/// The model of [`Tool`], with text as `Seq<char>` and lists as `Seq`.
pub struct ToolModel {
    pub name: Seq<char>,
    pub description: Seq<char>,
    pub input_schema: Seq<char>,
}

impl DeepView for Tool {
    type V = ToolModel;

    open spec fn deep_view(&self) -> ToolModel {
        ToolModel {
            name: self.name@,
            description: self.description@,
            input_schema: self.input_schema@,
        }
    }
}

/// `{"type":"auto"}`, `{"type":"any"}`, `{"type":"none"}` or `{"type":"tool","name":...}`.
#[derive(Debug, Clone, PartialEq, Eq)]
pub enum ToolChoiceKind {
    Auto,
    Any,
    Never,
    Tool(String),
}

/// The model of [`ToolChoiceKind`], with text as `Seq<char>` and lists as `Seq`.
pub enum ToolChoiceKindModel {
    Auto,
    Any,
    Never,
    Tool(Seq<char>),
}

impl DeepView for ToolChoiceKind {
    type V = ToolChoiceKindModel;

    open spec fn deep_view(&self) -> ToolChoiceKindModel {
        match self {
            ToolChoiceKind::Auto => ToolChoiceKindModel::Auto,
            ToolChoiceKind::Any => ToolChoiceKindModel::Any,
            ToolChoiceKind::Never => ToolChoiceKindModel::Never,
            ToolChoiceKind::Tool(n) => ToolChoiceKindModel::Tool(n@),
        }
    }
}

#[derive(Debug, Clone)]
pub struct ToolChoice {
    pub kind: ToolChoiceKind,
    pub disable_parallel_tool_use: Option<bool>,
}

/// The model of [`ToolChoice`], with text as `Seq<char>` and lists as `Seq`.
pub struct ToolChoiceModel {
    pub kind: ToolChoiceKindModel,
    pub disable_parallel_tool_use: Option<bool>,
}

impl DeepView for ToolChoice {
    type V = ToolChoiceModel;

    open spec fn deep_view(&self) -> ToolChoiceModel {
        ToolChoiceModel {
            kind: self.kind.deep_view(),
            disable_parallel_tool_use: self.disable_parallel_tool_use,
        }
    }
}

#[derive(Debug, Clone)]
pub struct Request {
    pub model: String,
    pub messages: Vec<Message>,
    pub max_tokens: u32,
    pub system: Option<String>,
    pub temperature: Option<F32Bits>,
    pub top_p: Option<F32Bits>,
    pub tools: Option<Vec<Tool>>,
    pub tool_choice: Option<ToolChoice>,
    pub stop_sequences: Option<Vec<String>>,
    pub top_k: Option<u32>,
    /// `metadata.user_id`.
    pub user_id: Option<String>,
    /// `thinking: {"type":"enabled","budget_tokens":...}`.
    pub thinking_budget_tokens: Option<u32>,
    /// Whether to send `cache_control: {"type":"ephemeral"}`.
    pub cache_control: bool,
    pub stream: bool,
}

/// The model of [`Request`], with text as `Seq<char>` and lists as `Seq`.
pub struct RequestModel {
    pub model: Seq<char>,
    pub messages: Seq<MessageModel>,
    pub max_tokens: u32,
    pub system: Option<Seq<char>>,
    pub temperature: Option<F32Bits>,
    pub top_p: Option<F32Bits>,
    pub tools: Option<Seq<ToolModel>>,
    pub tool_choice: Option<ToolChoiceModel>,
    pub stop_sequences: Option<Seq<Seq<char>>>,
    pub top_k: Option<u32>,
    pub user_id: Option<Seq<char>>,
    pub thinking_budget_tokens: Option<u32>,
    pub cache_control: bool,
    pub stream: bool,
}

impl DeepView for Request {
    type V = RequestModel;

    open spec fn deep_view(&self) -> RequestModel {
        RequestModel {
            model: self.model@,
            messages: self.messages.deep_view(),
            max_tokens: self.max_tokens,
            system: self.system.deep_view(),
            temperature: self.temperature,
            top_p: self.top_p,
            tools: self.tools.deep_view(),
            tool_choice: self.tool_choice.deep_view(),
            stop_sequences: self.stop_sequences.deep_view(),
            top_k: self.top_k,
            user_id: self.user_id.deep_view(),
            thinking_budget_tokens: self.thinking_budget_tokens,
            cache_control: self.cache_control,
            stream: self.stream,
        }
    }
}

// ---------------------------------------------------------------------------
// Response and stream events
// ---------------------------------------------------------------------------

#[derive(Debug, Clone, Copy, PartialEq, Eq, Structural)]
pub struct Usage {
    pub input_tokens: u32,
    pub output_tokens: u32,
    pub cache_read_input_tokens: Option<u32>,
    pub cache_creation_input_tokens: Option<u32>,
}

#[derive(Debug, Clone)]
pub struct Response {
    pub id: String,
    pub model: String,
    pub content: Vec<ContentBlock>,
    pub stop_reason: Option<String>,
    pub usage: Usage,
}

#[derive(Debug, Clone)]
pub enum Delta {
    TextDelta { text: String },
    InputJsonDelta { partial_json: String },
}

#[derive(Debug, Clone)]
pub enum StreamEvent {
    /// `message_start`; `usage` is `message.usage`.
    MessageStart { usage: Usage },
    ContentBlockStart { index: usize, content_block: ContentBlock },
    ContentBlockDelta { index: usize, delta: Delta },
    ContentBlockStop { index: usize },
    /// `message_delta`; `stop_reason` is `delta.stop_reason`.
    MessageDelta { stop_reason: Option<String> },
    MessageStop,
    Ping,
    /// `error`; `message` is `error.message`.
    Error { message: String },
}

} // verus!
