//! Provider-agnostic request and response types, with their mathematical models.
use vstd::prelude::*;

use crate::seqs::{filter_map, first_of, lemma_filter_map_push, lemma_first_of_prefix, lemma_take_succ};

verus! {

/// Role of a message participant.
#[derive(Debug, Clone, Copy, PartialEq, Eq, Structural)]
pub enum Role {
    System,
    User,
    Assistant,
}

/// Source data for an image.
#[derive(Debug, Clone)]
pub enum ImageSource {
    Url(String),
    Base64 { media_type: String, data: String },
}

/// The model of [`ImageSource`], with text as `Seq<char>` and lists as `Seq`.
pub enum ImageSourceModel {
    Url(Seq<char>),
    Base64 { media_type: Seq<char>, data: Seq<char> },
}

impl DeepView for ImageSource {
    type V = ImageSourceModel;

    open spec fn deep_view(&self) -> ImageSourceModel {
        match self {
            ImageSource::Url(u) => ImageSourceModel::Url(u@),
            ImageSource::Base64 { media_type, data } => ImageSourceModel::Base64 {
                media_type: media_type@,
                data: data@,
            },
        }
    }
}

/// A tool invocation returned by the model. `input` holds the arguments as JSON text.
#[derive(Debug, Clone)]
pub struct ToolUse {
    pub id: String,
    pub name: String,
    pub input: String,
}

/// The model of [`ToolUse`], with text as `Seq<char>` and lists as `Seq`.
pub struct ToolUseModel {
    pub id: Seq<char>,
    pub name: Seq<char>,
    pub input: Seq<char>,
}

impl DeepView for ToolUse {
    type V = ToolUseModel;

    open spec fn deep_view(&self) -> ToolUseModel {
        ToolUseModel { id: self.id@, name: self.name@, input: self.input@ }
    }
}

/// Result of a tool invocation, sent back to the model.
#[derive(Debug, Clone)]
pub struct ToolResult {
    pub tool_use_id: String,
    pub content: String,
    pub is_error: bool,
}

/// The model of [`ToolResult`], with text as `Seq<char>` and lists as `Seq`.
pub struct ToolResultModel {
    pub tool_use_id: Seq<char>,
    pub content: Seq<char>,
    pub is_error: bool,
}

impl DeepView for ToolResult {
    type V = ToolResultModel;

    open spec fn deep_view(&self) -> ToolResultModel {
        ToolResultModel {
            tool_use_id: self.tool_use_id@,
            content: self.content@,
            is_error: self.is_error,
        }
    }
}

impl ToolResult {
    /// A copy with the same fields.
    pub fn duplicate(&self) -> (res: ToolResult)
        ensures
            res.deep_view() == self.deep_view(),
    {
        ToolResult {
            tool_use_id: self.tool_use_id.clone(),
            content: self.content.clone(),
            is_error: self.is_error,
        }
    }
}

/// A part of message content.
#[derive(Debug, Clone)]
pub enum ContentPart {
    Text(String),
    Reasoning(String),
    Image(ImageSource),
    ToolUse(ToolUse),
    ToolResult(ToolResult),
}

/// The model of [`ContentPart`], with text as `Seq<char>` and lists as `Seq`.
pub enum ContentPartModel {
    Text(Seq<char>),
    Reasoning(Seq<char>),
    Image(ImageSourceModel),
    ToolUse(ToolUseModel),
    ToolResult(ToolResultModel),
}

impl DeepView for ContentPart {
    type V = ContentPartModel;

    open spec fn deep_view(&self) -> ContentPartModel {
        match self {
            ContentPart::Text(t) => ContentPartModel::Text(t@),
            ContentPart::Reasoning(t) => ContentPartModel::Reasoning(t@),
            ContentPart::Image(s) => ContentPartModel::Image(s.deep_view()),
            ContentPart::ToolUse(t) => ContentPartModel::ToolUse(t.deep_view()),
            ContentPart::ToolResult(t) => ContentPartModel::ToolResult(t.deep_view()),
        }
    }
}

pub open spec fn part_text(p: ContentPartModel) -> Option<Seq<char>> {
    match p {
        ContentPartModel::Text(t) => Some(t),
        _ => None,
    }
}

pub open spec fn part_reasoning(p: ContentPartModel) -> Option<Seq<char>> {
    match p {
        ContentPartModel::Reasoning(t) => Some(t),
        _ => None,
    }
}

pub open spec fn part_tool_use(p: ContentPartModel) -> Option<ToolUseModel> {
    match p {
        ContentPartModel::ToolUse(t) => Some(t),
        _ => None,
    }
}

pub open spec fn part_tool_result(p: ContentPartModel) -> Option<ToolResultModel> {
    match p {
        ContentPartModel::ToolResult(t) => Some(t),
        _ => None,
    }
}

/// The text parts, in order.
pub open spec fn texts(parts: Seq<ContentPartModel>) -> Seq<Seq<char>> {
    filter_map(parts, |p: ContentPartModel| part_text(p))
}

/// The reasoning parts, in order.
pub open spec fn reasonings(parts: Seq<ContentPartModel>) -> Seq<Seq<char>> {
    filter_map(parts, |p: ContentPartModel| part_reasoning(p))
}

/// The tool-use parts, in order.
pub open spec fn tool_uses_of(parts: Seq<ContentPartModel>) -> Seq<ToolUseModel> {
    filter_map(parts, |p: ContentPartModel| part_tool_use(p))
}

/// The tool-result parts, in order.
pub open spec fn tool_results_of(parts: Seq<ContentPartModel>) -> Seq<ToolResultModel> {
    filter_map(parts, |p: ContentPartModel| part_tool_result(p))
}

/// A single message in the conversation.
#[derive(Debug, Clone)]
pub struct Message {
    pub role: Role,
    pub content: Vec<ContentPart>,
}

/// The model of [`Message`], with text as `Seq<char>` and lists as `Seq`.
pub struct MessageModel {
    pub role: Role,
    pub content: Seq<ContentPartModel>,
}

impl DeepView for Message {
    type V = MessageModel;

    open spec fn deep_view(&self) -> MessageModel {
        MessageModel { role: self.role, content: self.content.deep_view() }
    }
}

impl Message {
    pub fn system(text: &str) -> (res: Message)
        ensures
            res.role == Role::System,
            res.content.deep_view() == seq![ContentPartModel::Text(text@)],
    {
        let content = vec![ContentPart::Text(text.to_owned())];
        assert(content.deep_view() =~= seq![ContentPartModel::Text(text@)]);
        Message { role: Role::System, content }
    }

    pub fn user(text: &str) -> (res: Message)
        ensures
            res.role == Role::User,
            res.content.deep_view() == seq![ContentPartModel::Text(text@)],
    {
        let content = vec![ContentPart::Text(text.to_owned())];
        assert(content.deep_view() =~= seq![ContentPartModel::Text(text@)]);
        Message { role: Role::User, content }
    }

    pub fn assistant(text: &str) -> (res: Message)
        ensures
            res.role == Role::Assistant,
            res.content.deep_view() == seq![ContentPartModel::Text(text@)],
    {
        let content = vec![ContentPart::Text(text.to_owned())];
        assert(content.deep_view() =~= seq![ContentPartModel::Text(text@)]);
        Message { role: Role::Assistant, content }
    }

    pub fn assistant_with_reasoning(reasoning: &str, text: &str) -> (res: Message)
        ensures
            res.role == Role::Assistant,
            res.content.deep_view() == seq![
                ContentPartModel::Reasoning(reasoning@),
                ContentPartModel::Text(text@),
            ],
    {
        let content = vec![
            ContentPart::Reasoning(reasoning.to_owned()),
            ContentPart::Text(text.to_owned()),
        ];
        assert(content.deep_view() =~= seq![
            ContentPartModel::Reasoning(reasoning@),
            ContentPartModel::Text(text@),
        ]);
        Message { role: Role::Assistant, content }
    }

    pub fn user_with_image(text: &str, image: ImageSource) -> (res: Message)
        ensures
            res.role == Role::User,
            res.content.deep_view() == seq![
                ContentPartModel::Text(text@),
                ContentPartModel::Image(image.deep_view()),
            ],
    {
        let ghost img = image.deep_view();
        let content = vec![ContentPart::Text(text.to_owned()), ContentPart::Image(image)];
        assert(content.deep_view() =~= seq![
            ContentPartModel::Text(text@),
            ContentPartModel::Image(img),
        ]);
        Message { role: Role::User, content }
    }

    pub fn tool_results(results: Vec<ToolResult>) -> (res: Message)
        ensures
            res.role == Role::User,
            res.content.deep_view() == results.deep_view().map_values(
                |r: ToolResultModel| ContentPartModel::ToolResult(r),
            ),
    {
        let mut content: Vec<ContentPart> = Vec::new();
        let n = results.len();
        for i in 0..n
            invariant
                n == results.len(),
                content.deep_view() =~= results.deep_view().take(i as int).map_values(
                    |r: ToolResultModel| ContentPartModel::ToolResult(r),
                ),
        {
            let r = results[i].duplicate();
            let ghost before = content.deep_view();
            content.push(ContentPart::ToolResult(r));
            assert(content.deep_view() =~= before.push(ContentPartModel::ToolResult(r.deep_view())));
            assert(results.deep_view().take(i + 1) =~= results.deep_view().take(i as int).push(
                results.deep_view()[i as int],
            ));
        }
        assert(results.deep_view().take(n as int) =~= results.deep_view());
        Message { role: Role::User, content }
    }
}


/// Strategy for tool selection.
#[derive(Debug, Clone, PartialEq, Eq)]
pub enum ToolChoice {
    /// Let the model decide whether to call tools.
    Auto,
    /// Never call tools.
    Never,
    /// Force the model to call at least one tool (OpenAI: "required", Anthropic: "any").
    Required,
    /// Force the model to call a specific tool by name.
    Specific(String),
}

/// The model of [`ToolChoice`], with text as `Seq<char>` and lists as `Seq`.
pub enum ToolChoiceModel {
    Auto,
    Never,
    Required,
    Specific(Seq<char>),
}

impl DeepView for ToolChoice {
    type V = ToolChoiceModel;

    open spec fn deep_view(&self) -> ToolChoiceModel {
        match self {
            ToolChoice::Auto => ToolChoiceModel::Auto,
            ToolChoice::Never => ToolChoiceModel::Never,
            ToolChoice::Required => ToolChoiceModel::Required,
            ToolChoice::Specific(n) => ToolChoiceModel::Specific(n@),
        }
    }
}

/// A tool definition that the model can call.
#[derive(Debug, Clone)]
pub struct Tool {
    pub name: String,
    pub description: String,
    /// JSON Schema describing the tool parameters, as JSON text.
    pub parameters: String,
}

/// The model of [`Tool`], with text as `Seq<char>` and lists as `Seq`.
pub struct ToolModel {
    pub name: Seq<char>,
    pub description: Seq<char>,
    pub parameters: Seq<char>,
}

impl DeepView for Tool {
    type V = ToolModel;

    open spec fn deep_view(&self) -> ToolModel {
        ToolModel {
            name: self.name@,
            description: self.description@,
            parameters: self.parameters@,
        }
    }
}

/// An `f32` sampling parameter, carried by its IEEE-754 bit pattern (`f32::to_bits`).
/// The library passes it through to the provider unchanged.
#[derive(Debug, Clone, Copy, PartialEq, Eq, Structural)]
pub struct F32Bits {
    pub bits: u32,
}

/// A chat completion request.
#[derive(Debug, Clone)]
pub struct ChatRequest {
    pub model: String,
    pub messages: Vec<Message>,
    pub max_tokens: Option<u32>,
    pub temperature: Option<F32Bits>,
    pub top_p: Option<F32Bits>,
    pub tools: Option<Vec<Tool>>,
    /// Strategy for tool selection.
    pub tool_choice: Option<ToolChoice>,
    /// Whether to allow parallel tool calls.
    /// OpenAI: `parallel_tool_calls`; Anthropic: `tool_choice.disable_parallel_tool_use`.
    pub parallel_tool_calls: Option<bool>,
    /// Custom stop sequences.
    /// OpenAI: `stop`; Anthropic: `stop_sequences`.
    pub stop_sequences: Option<Vec<String>>,
    /// Top-k sampling parameter (Anthropic only; ignored for OpenAI).
    pub top_k: Option<u32>,
    /// End-user identifier for abuse detection.
    /// OpenAI: `user`; Anthropic: `metadata.user_id`.
    pub user: Option<String>,
    /// Budget tokens for extended thinking (Anthropic).
    pub budget_tokens: Option<u32>,
    /// Enable prompt caching.
    /// OpenAI: sets `store: true`; Anthropic: sets top-level `cache_control`.
    pub prompt_cache: Option<bool>,
}

/// The model of [`ChatRequest`], with text as `Seq<char>` and lists as `Seq`.
pub struct ChatRequestModel {
    pub model: Seq<char>,
    pub messages: Seq<MessageModel>,
    pub max_tokens: Option<u32>,
    pub temperature: Option<F32Bits>,
    pub top_p: Option<F32Bits>,
    pub tools: Option<Seq<ToolModel>>,
    pub tool_choice: Option<ToolChoiceModel>,
    pub parallel_tool_calls: Option<bool>,
    pub stop_sequences: Option<Seq<Seq<char>>>,
    pub top_k: Option<u32>,
    pub user: Option<Seq<char>>,
    pub budget_tokens: Option<u32>,
    pub prompt_cache: Option<bool>,
}

impl DeepView for ChatRequest {
    type V = ChatRequestModel;

    open spec fn deep_view(&self) -> ChatRequestModel {
        ChatRequestModel {
            model: self.model@,
            messages: self.messages.deep_view(),
            max_tokens: self.max_tokens,
            temperature: self.temperature,
            top_p: self.top_p,
            tools: self.tools.deep_view(),
            tool_choice: self.tool_choice.deep_view(),
            parallel_tool_calls: self.parallel_tool_calls,
            stop_sequences: self.stop_sequences.deep_view(),
            top_k: self.top_k,
            user: self.user.deep_view(),
            budget_tokens: self.budget_tokens,
            prompt_cache: self.prompt_cache,
        }
    }
}

impl ChatRequest {
    pub fn new(model: &str, messages: Vec<Message>) -> (res: ChatRequest)
        ensures
            res.deep_view() == (ChatRequestModel {
                model: model@,
                messages: messages.deep_view(),
                max_tokens: None,
                temperature: None,
                top_p: None,
                tools: None,
                tool_choice: None,
                parallel_tool_calls: None,
                stop_sequences: None,
                top_k: None,
                user: None,
                budget_tokens: None,
                prompt_cache: None,
            }),
    {
        ChatRequest {
            model: model.to_owned(),
            messages,
            max_tokens: None,
            temperature: None,
            top_p: None,
            tools: None,
            tool_choice: None,
            parallel_tool_calls: None,
            stop_sequences: None,
            top_k: None,
            user: None,
            budget_tokens: None,
            prompt_cache: None,
        }
    }

    pub fn max_tokens(self, n: u32) -> (res: ChatRequest)
        ensures
            res.deep_view() == (ChatRequestModel { max_tokens: Some(n), ..self.deep_view() }),
    {
        ChatRequest { max_tokens: Some(n), ..self }
    }

    pub fn temperature(self, t: F32Bits) -> (res: ChatRequest)
        ensures
            res.deep_view() == (ChatRequestModel { temperature: Some(t), ..self.deep_view() }),
    {
        ChatRequest { temperature: Some(t), ..self }
    }

    pub fn top_p(self, p: F32Bits) -> (res: ChatRequest)
        ensures
            res.deep_view() == (ChatRequestModel { top_p: Some(p), ..self.deep_view() }),
    {
        ChatRequest { top_p: Some(p), ..self }
    }

    pub fn tools(self, tools: Vec<Tool>) -> (res: ChatRequest)
        ensures
            res.deep_view() == (ChatRequestModel {
                tools: Some(tools.deep_view()),
                ..self.deep_view()
            }),
    {
        ChatRequest { tools: Some(tools), ..self }
    }

    pub fn tool_choice(self, choice: ToolChoice) -> (res: ChatRequest)
        ensures
            res.deep_view() == (ChatRequestModel {
                tool_choice: Some(choice.deep_view()),
                ..self.deep_view()
            }),
    {
        ChatRequest { tool_choice: Some(choice), ..self }
    }

    pub fn parallel_tool_calls(self, enabled: bool) -> (res: ChatRequest)
        ensures
            res.deep_view() == (ChatRequestModel {
                parallel_tool_calls: Some(enabled),
                ..self.deep_view()
            }),
    {
        ChatRequest { parallel_tool_calls: Some(enabled), ..self }
    }

    pub fn stop_sequences(self, sequences: Vec<String>) -> (res: ChatRequest)
        ensures
            res.deep_view() == (ChatRequestModel {
                stop_sequences: Some(sequences.deep_view()),
                ..self.deep_view()
            }),
    {
        ChatRequest { stop_sequences: Some(sequences), ..self }
    }

    pub fn top_k(self, k: u32) -> (res: ChatRequest)
        ensures
            res.deep_view() == (ChatRequestModel { top_k: Some(k), ..self.deep_view() }),
    {
        ChatRequest { top_k: Some(k), ..self }
    }

    pub fn user(self, user: &str) -> (res: ChatRequest)
        ensures
            res.deep_view() == (ChatRequestModel { user: Some(user@), ..self.deep_view() }),
    {
        ChatRequest { user: Some(user.to_owned()), ..self }
    }

    pub fn budget_tokens(self, n: u32) -> (res: ChatRequest)
        ensures
            res.deep_view() == (ChatRequestModel { budget_tokens: Some(n), ..self.deep_view() }),
    {
        ChatRequest { budget_tokens: Some(n), ..self }
    }

    pub fn prompt_cache(self, enabled: bool) -> (res: ChatRequest)
        ensures
            res.deep_view() == (ChatRequestModel {
                prompt_cache: Some(enabled),
                ..self.deep_view()
            }),
    {
        ChatRequest { prompt_cache: Some(enabled), ..self }
    }
}

/// Token usage information.
#[derive(Debug, Clone, Copy, PartialEq, Eq, Structural)]
pub struct Usage {
    pub input_tokens: u32,
    pub output_tokens: u32,
    /// Tokens read from cache (prompt cache hit).
    pub cache_read_input_tokens: Option<u32>,
    /// Tokens written to cache (prompt cache miss / creation).
    pub cache_creation_input_tokens: Option<u32>,
}

/// Reason why the model stopped generating.
#[derive(Debug, Clone, PartialEq, Eq)]
pub enum StopReason {
    EndTurn,
    MaxTokens,
    ToolUse,
    Unknown(String),
}

/// The model of [`StopReason`], with text as `Seq<char>` and lists as `Seq`.
pub enum StopReasonModel {
    EndTurn,
    MaxTokens,
    ToolUse,
    Unknown(Seq<char>),
}

impl DeepView for StopReason {
    type V = StopReasonModel;

    open spec fn deep_view(&self) -> StopReasonModel {
        match self {
            StopReason::EndTurn => StopReasonModel::EndTurn,
            StopReason::MaxTokens => StopReasonModel::MaxTokens,
            StopReason::ToolUse => StopReasonModel::ToolUse,
            StopReason::Unknown(s) => StopReasonModel::Unknown(s@),
        }
    }
}

/// A chat completion response.
#[derive(Debug, Clone)]
pub struct ChatResponse {
    pub id: String,
    pub model: String,
    pub content: Vec<ContentPart>,
    pub usage: Option<Usage>,
    pub stop_reason: StopReason,
}

/// The model of [`ChatResponse`], with text as `Seq<char>` and lists as `Seq`.
pub struct ChatResponseModel {
    pub id: Seq<char>,
    pub model: Seq<char>,
    pub content: Seq<ContentPartModel>,
    pub usage: Option<Usage>,
    pub stop_reason: StopReasonModel,
}

impl DeepView for ChatResponse {
    type V = ChatResponseModel;

    open spec fn deep_view(&self) -> ChatResponseModel {
        ChatResponseModel {
            id: self.id@,
            model: self.model@,
            content: self.content.deep_view(),
            usage: self.usage,
            stop_reason: self.stop_reason.deep_view(),
        }
    }
}

/// The first text part, if any.
pub fn first_text(content: &Vec<ContentPart>) -> (res: Option<&str>)
    ensures
        res.deep_view() == first_of(texts(content.deep_view())),
{
    let ghost parts = content.deep_view();
    let n = content.len();
    for i in 0..n
        invariant
            n == content.len(),
            parts == content.deep_view(),
            texts(parts.take(i as int)).len() == 0,
    {
        proof {
            lemma_take_succ(parts, i as int);
            lemma_filter_map_push(parts.take(i as int), parts[i as int], |p: ContentPartModel| part_text(p));
        }
        if let ContentPart::Text(t) = &content[i] {
            proof {
                lemma_first_of_prefix(parts, i + 1, |p: ContentPartModel| part_text(p));
            }
            return Some(t.as_str());
        }
    }
    assert(parts.take(n as int) =~= parts);
    None
}

/// The first reasoning part, if any.
pub fn first_reasoning(content: &Vec<ContentPart>) -> (res: Option<&str>)
    ensures
        res.deep_view() == first_of(reasonings(content.deep_view())),
{
    let ghost parts = content.deep_view();
    let n = content.len();
    for i in 0..n
        invariant
            n == content.len(),
            parts == content.deep_view(),
            reasonings(parts.take(i as int)).len() == 0,
    {
        proof {
            lemma_take_succ(parts, i as int);
            lemma_filter_map_push(parts.take(i as int), parts[i as int], |p: ContentPartModel| part_reasoning(p));
        }
        if let ContentPart::Reasoning(t) = &content[i] {
            proof {
                lemma_first_of_prefix(parts, i + 1, |p: ContentPartModel| part_reasoning(p));
            }
            return Some(t.as_str());
        }
    }
    assert(parts.take(n as int) =~= parts);
    None
}

/// The tool-use parts, in order.
pub fn tool_use_refs(content: &Vec<ContentPart>) -> (res: Vec<&ToolUse>)
    ensures
        res.deep_view() == tool_uses_of(content.deep_view()),
{
    let ghost parts = content.deep_view();
    let mut res: Vec<&ToolUse> = Vec::new();
    let n = content.len();
    for i in 0..n
        invariant
            n == content.len(),
            parts == content.deep_view(),
            res.deep_view() == tool_uses_of(parts.take(i as int)),
    {
        proof {
            lemma_take_succ(parts, i as int);
            lemma_filter_map_push(parts.take(i as int), parts[i as int], |p: ContentPartModel| part_tool_use(p));
        }
        if let ContentPart::ToolUse(t) = &content[i] {
            let ghost before = res.deep_view();
            res.push(t);
            assert(res.deep_view() =~= before.push(t.deep_view()));
        }
    }
    assert(parts.take(n as int) =~= parts);
    res
}

impl ChatResponse {
    /// Returns the first text content, if any.
    pub fn text(&self) -> (res: Option<&str>)
        ensures
            res.deep_view() == first_of(texts(self.content.deep_view())),
    {
        first_text(&self.content)
    }

    /// Returns the first reasoning content, if any.
    pub fn reasoning(&self) -> (res: Option<&str>)
        ensures
            res.deep_view() == first_of(reasonings(self.content.deep_view())),
    {
        first_reasoning(&self.content)
    }

    /// Returns all tool-use parts from the response, in order.
    pub fn tool_uses(&self) -> (res: Vec<&ToolUse>)
        ensures
            res.deep_view() == tool_uses_of(self.content.deep_view()),
    {
        tool_use_refs(&self.content)
    }
}

/// An event from a streaming chat response.
#[derive(Debug, Clone)]
pub enum StreamEvent {
    /// A chunk of text content.
    ContentDelta(String),
    /// A chunk of reasoning content.
    ReasoningDelta(String),
    /// Start of a new tool call.
    ToolCallStart { index: usize, id: String, name: String },
    /// Incremental arguments JSON for a tool call.
    ToolCallDelta { index: usize, arguments_delta: String },
    /// Token usage information.
    Usage(Usage),
    /// Generation finished.
    Done(StopReason),
}

/// The model of [`StreamEvent`], with text as `Seq<char>` and lists as `Seq`.
pub enum StreamEventModel {
    ContentDelta(Seq<char>),
    ReasoningDelta(Seq<char>),
    ToolCallStart { index: usize, id: Seq<char>, name: Seq<char> },
    ToolCallDelta { index: usize, arguments_delta: Seq<char> },
    Usage(Usage),
    Done(StopReasonModel),
}

impl DeepView for StreamEvent {
    type V = StreamEventModel;

    open spec fn deep_view(&self) -> StreamEventModel {
        match self {
            StreamEvent::ContentDelta(t) => StreamEventModel::ContentDelta(t@),
            StreamEvent::ReasoningDelta(t) => StreamEventModel::ReasoningDelta(t@),
            StreamEvent::ToolCallStart { index, id, name } => StreamEventModel::ToolCallStart {
                index: *index,
                id: id@,
                name: name@,
            },
            StreamEvent::ToolCallDelta { index, arguments_delta } =>
                StreamEventModel::ToolCallDelta { index: *index, arguments_delta: arguments_delta@ },
            StreamEvent::Usage(u) => StreamEventModel::Usage(*u),
            StreamEvent::Done(r) => StreamEventModel::Done(r.deep_view()),
        }
    }
}

} // verus!
