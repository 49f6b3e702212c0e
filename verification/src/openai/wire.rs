//! The OpenAI chat-completions wire format, as plain values. Serialization to and from
//! JSON happens at the transport edge.
use vstd::prelude::*;

use crate::types::F32Bits;

verus! {

// ---------------------------------------------------------------------------
// Request
// ---------------------------------------------------------------------------

#[derive(Debug, Clone, Copy, PartialEq, Eq, Structural)]
pub struct StreamOptions {
    pub include_usage: bool,
}

#[derive(Debug, Clone)]
pub enum ContentPart {
    Text { text: String },
    /// `{"type":"image_url","image_url":{"url":...}}`
    ImageUrl { url: String },
}

/// The model of [`ContentPart`], with text as `Seq<char>` and lists as `Seq`.
pub enum ContentPartModel {
    Text { text: Seq<char> },
    ImageUrl { url: Seq<char> },
}

impl DeepView for ContentPart {
    type V = ContentPartModel;

    open spec fn deep_view(&self) -> ContentPartModel {
        match self {
            ContentPart::Text { text } => ContentPartModel::Text { text: text@ },
            ContentPart::ImageUrl { url } => ContentPartModel::ImageUrl { url: url@ },
        }
    }
}

/// Message content: a plain string or a list of parts.
#[derive(Debug, Clone)]
pub enum Content {
    Text(String),
    Parts(Vec<ContentPart>),
}

/// The model of [`Content`], with text as `Seq<char>` and lists as `Seq`.
pub enum ContentModel {
    Text(Seq<char>),
    Parts(Seq<ContentPartModel>),
}

impl DeepView for Content {
    type V = ContentModel;

    open spec fn deep_view(&self) -> ContentModel {
        match self {
            Content::Text(t) => ContentModel::Text(t@),
            Content::Parts(p) => ContentModel::Parts(p.deep_view()),
        }
    }
}

#[derive(Debug, Clone)]
pub struct FunctionCall {
    pub name: String,
    /// The arguments as JSON text.
    pub arguments: String,
}

#[derive(Debug, Clone)]
pub struct ToolCall {
    pub id: String,
    /// Always "function".
    pub call_type: String,
    pub function: FunctionCall,
}

/// The model of [`ToolCall`], with text as `Seq<char>` and lists as `Seq`.
pub struct ToolCallModel {
    pub id: Seq<char>,
    pub call_type: Seq<char>,
    pub name: Seq<char>,
    pub arguments: Seq<char>,
}

impl DeepView for ToolCall {
    type V = ToolCallModel;

    open spec fn deep_view(&self) -> ToolCallModel {
        ToolCallModel {
            id: self.id@,
            call_type: self.call_type@,
            name: self.function.name@,
            arguments: self.function.arguments@,
        }
    }
}

#[derive(Debug, Clone)]
pub struct Message {
    pub role: String,
    pub content: Option<Content>,
    pub reasoning_content: Option<String>,
    pub tool_calls: Option<Vec<ToolCall>>,
    pub tool_call_id: Option<String>,
}

/// The model of [`Message`], with text as `Seq<char>` and lists as `Seq`.
pub struct MessageModel {
    pub role: Seq<char>,
    pub content: Option<ContentModel>,
    pub reasoning_content: Option<Seq<char>>,
    pub tool_calls: Option<Seq<ToolCallModel>>,
    pub tool_call_id: Option<Seq<char>>,
}

impl DeepView for Message {
    type V = MessageModel;

    open spec fn deep_view(&self) -> MessageModel {
        MessageModel {
            role: self.role@,
            content: self.content.deep_view(),
            reasoning_content: self.reasoning_content.deep_view(),
            tool_calls: self.tool_calls.deep_view(),
            tool_call_id: self.tool_call_id.deep_view(),
        }
    }
}

#[derive(Debug, Clone)]
pub struct FunctionDef {
    pub name: String,
    pub description: String,
    /// JSON Schema of the parameters, as JSON text.
    pub parameters: String,
}

#[derive(Debug, Clone)]
pub struct Tool {
    /// Always "function".
    pub tool_type: String,
    pub function: FunctionDef,
}

/// The model of [`Tool`], with text as `Seq<char>` and lists as `Seq`.
pub struct ToolModel {
    pub tool_type: Seq<char>,
    pub name: Seq<char>,
    pub description: Seq<char>,
    pub parameters: Seq<char>,
}

impl DeepView for Tool {
    type V = ToolModel;

    open spec fn deep_view(&self) -> ToolModel {
        ToolModel {
            tool_type: self.tool_type@,
            name: self.function.name@,
            description: self.function.description@,
            parameters: self.function.parameters@,
        }
    }
}

/// `"auto"`, `"none"`, `"required"`, or `{"type":"function","function":{"name":...}}`.
#[derive(Debug, Clone, PartialEq, Eq)]
pub enum ToolChoice {
    Auto,
    Never,
    Required,
    Function(String),
}

/// The model of [`ToolChoice`], with text as `Seq<char>` and lists as `Seq`.
pub enum ToolChoiceModel {
    Auto,
    Never,
    Required,
    Function(Seq<char>),
}

impl DeepView for ToolChoice {
    type V = ToolChoiceModel;

    open spec fn deep_view(&self) -> ToolChoiceModel {
        match self {
            ToolChoice::Auto => ToolChoiceModel::Auto,
            ToolChoice::Never => ToolChoiceModel::Never,
            ToolChoice::Required => ToolChoiceModel::Required,
            ToolChoice::Function(n) => ToolChoiceModel::Function(n@),
        }
    }
}

#[derive(Debug, Clone)]
pub struct Request {
    pub model: String,
    pub messages: Vec<Message>,
    pub max_tokens: Option<u32>,
    pub temperature: Option<F32Bits>,
    pub top_p: Option<F32Bits>,
    pub tools: Option<Vec<Tool>>,
    pub tool_choice: Option<ToolChoice>,
    pub parallel_tool_calls: Option<bool>,
    pub stop: Option<Vec<String>>,
    pub user: Option<String>,
    pub store: Option<bool>,
    pub stream: bool,
    pub stream_options: Option<StreamOptions>,
}

/// The model of [`Request`], with text as `Seq<char>` and lists as `Seq`.
pub struct RequestModel {
    pub model: Seq<char>,
    pub messages: Seq<MessageModel>,
    pub max_tokens: Option<u32>,
    pub temperature: Option<F32Bits>,
    pub top_p: Option<F32Bits>,
    pub tools: Option<Seq<ToolModel>>,
    pub tool_choice: Option<ToolChoiceModel>,
    pub parallel_tool_calls: Option<bool>,
    pub stop: Option<Seq<Seq<char>>>,
    pub user: Option<Seq<char>>,
    pub store: Option<bool>,
    pub stream: bool,
    pub stream_options: Option<StreamOptions>,
}

impl DeepView for Request {
    type V = RequestModel;

    open spec fn deep_view(&self) -> RequestModel {
        RequestModel {
            model: self.model@,
            messages: self.messages.deep_view(),
            max_tokens: self.max_tokens,
            temperature: self.temperature,
            top_p: self.top_p,
            tools: self.tools.deep_view(),
            tool_choice: self.tool_choice.deep_view(),
            parallel_tool_calls: self.parallel_tool_calls,
            stop: self.stop.deep_view(),
            user: self.user.deep_view(),
            store: self.store,
            stream: self.stream,
            stream_options: self.stream_options,
        }
    }
}

// ---------------------------------------------------------------------------
// Response
// ---------------------------------------------------------------------------

/// Token usage; `cached_tokens` is `prompt_tokens_details.cached_tokens`.
#[derive(Debug, Clone, Copy, PartialEq, Eq, Structural)]
pub struct Usage {
    pub prompt_tokens: u32,
    pub completion_tokens: u32,
    pub cached_tokens: Option<u32>,
}

#[derive(Debug, Clone)]
pub struct ResponseMessage {
    pub content: Option<String>,
    pub reasoning_content: Option<String>,
    pub tool_calls: Option<Vec<ToolCall>>,
}

#[derive(Debug, Clone)]
pub struct Choice {
    pub message: ResponseMessage,
    pub finish_reason: Option<String>,
}

#[derive(Debug, Clone)]
pub struct Response {
    pub id: String,
    pub model: String,
    pub choices: Vec<Choice>,
    pub usage: Option<Usage>,
}

// ---------------------------------------------------------------------------
// Stream chunks
// ---------------------------------------------------------------------------

#[derive(Debug, Clone)]
pub struct DeltaFunction {
    pub name: Option<String>,
    pub arguments: Option<String>,
}

#[derive(Debug, Clone)]
pub struct DeltaToolCall {
    pub index: usize,
    pub id: Option<String>,
    pub function: Option<DeltaFunction>,
}

#[derive(Debug, Clone)]
pub struct Delta {
    pub content: Option<String>,
    pub reasoning_content: Option<String>,
    pub tool_calls: Option<Vec<DeltaToolCall>>,
}

#[derive(Debug, Clone)]
pub struct StreamChoice {
    pub delta: Delta,
    pub finish_reason: Option<String>,
}

#[derive(Debug, Clone)]
pub struct StreamChunk {
    pub choices: Vec<StreamChoice>,
    pub usage: Option<Usage>,
}

} // verus!
