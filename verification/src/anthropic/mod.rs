//! Adapter for Anthropic-compatible messages APIs: request conversion, response
//! conversion, and the stream-event parser.
pub mod wire;

use vstd::prelude::*;

use crate::error::{Error, ErrorModel};
use crate::seqs::{filter_map, lemma_filter_map_push, lemma_take_succ};
use crate::sse::{join_lines, SseAction, SseActionModel};
use crate::text::text_is;
use crate::types::{
    part_text, texts, ChatRequest, ChatRequestModel, ChatResponse, ChatResponseModel,
    ContentPart, ContentPartModel, ImageSource, ImageSourceModel, Message, MessageModel, Role,
    StopReason, StopReasonModel, StreamEvent, StreamEventModel, ToolChoice, ToolChoiceModel,
    ToolModel, ToolUseModel, Usage,
};

verus! {

/// `max_tokens` when the request sets none.
pub const DEFAULT_MAX_TOKENS: u32 = 4096;

// ---------------------------------------------------------------------------
// Specification: request
// ---------------------------------------------------------------------------

pub open spec fn role_name(r: Role) -> Seq<char> {
    match r {
        Role::System => "system"@,
        Role::User => "user"@,
        Role::Assistant => "assistant"@,
    }
}

pub open spec fn wire_image(src: ImageSourceModel) -> wire::ImageSourceModel {
    match src {
        ImageSourceModel::Url(u) => wire::ImageSourceModel::Url { url: u },
        ImageSourceModel::Base64 { media_type, data } => wire::ImageSourceModel::Base64 {
            media_type,
            data,
        },
    }
}

/// The block for a part. Reasoning and empty text give no block.
pub open spec fn block_of(p: ContentPartModel) -> Option<wire::ContentBlockModel> {
    match p {
        ContentPartModel::Text(t) => if t.len() > 0 {
            Some(wire::ContentBlockModel::Text { text: t })
        } else {
            None
        },
        ContentPartModel::Reasoning(_) => None,
        ContentPartModel::Image(src) => Some(wire::ContentBlockModel::Image { source: wire_image(src) }),
        ContentPartModel::ToolUse(tu) => Some(
            wire::ContentBlockModel::ToolUse { id: tu.id, name: tu.name, input: tu.input },
        ),
        ContentPartModel::ToolResult(tr) => Some(
            wire::ContentBlockModel::ToolResult {
                tool_use_id: tr.tool_use_id,
                content: tr.content,
                is_error: tr.is_error,
            },
        ),
    }
}

pub open spec fn blocks_of(parts: Seq<ContentPartModel>) -> Seq<wire::ContentBlockModel> {
    filter_map(parts, |p: ContentPartModel| block_of(p))
}

/// A non-system message on the wire; system messages are not sent as messages.
pub open spec fn wire_message(m: MessageModel) -> Option<wire::MessageModel> {
    if m.role == Role::System {
        None
    } else {
        Some(wire::MessageModel { role: role_name(m.role), content: blocks_of(m.content) })
    }
}

pub open spec fn wire_messages(ms: Seq<MessageModel>) -> Seq<wire::MessageModel> {
    filter_map(ms, |m: MessageModel| wire_message(m))
}

/// The system prompt: the text parts of the last system message, joined by "\n".
pub open spec fn system_of(ms: Seq<MessageModel>) -> Option<Seq<char>>
    decreases ms.len(),
{
    if ms.len() == 0 {
        None
    } else if ms.last().role == Role::System {
        Some(join_lines(texts(ms.last().content)))
    } else {
        system_of(ms.drop_last())
    }
}

pub open spec fn wire_tool(t: ToolModel) -> wire::ToolModel {
    wire::ToolModel { name: t.name, description: t.description, input_schema: t.parameters }
}

pub open spec fn choice_kind(c: ToolChoiceModel) -> wire::ToolChoiceKindModel {
    match c {
        ToolChoiceModel::Auto => wire::ToolChoiceKindModel::Auto,
        ToolChoiceModel::Never => wire::ToolChoiceKindModel::Never,
        ToolChoiceModel::Required => wire::ToolChoiceKindModel::Any,
        ToolChoiceModel::Specific(n) => wire::ToolChoiceKindModel::Tool(n),
    }
}

/// The tool choice: present when the request sets a choice or parallel tool use;
/// "auto" when only the latter is set.
pub open spec fn wire_tool_choice(c: Option<ToolChoiceModel>, parallel: Option<bool>) -> Option<
    wire::ToolChoiceModel,
> {
    if c is None && parallel is None {
        None
    } else {
        Some(
            wire::ToolChoiceModel {
                kind: match c {
                    Some(c) => choice_kind(c),
                    None => wire::ToolChoiceKindModel::Auto,
                },
                disable_parallel_tool_use: match parallel {
                    Some(p) => Some(!p),
                    None => None,
                },
            },
        )
    }
}

/// The wire request for a unified request.
pub open spec fn request_for(r: ChatRequestModel, stream: bool) -> wire::RequestModel {
    wire::RequestModel {
        model: r.model,
        messages: wire_messages(r.messages),
        max_tokens: match r.max_tokens {
            Some(n) => n,
            None => DEFAULT_MAX_TOKENS,
        },
        system: system_of(r.messages),
        temperature: r.temperature,
        top_p: r.top_p,
        tools: match r.tools {
            Some(ts) => Some(ts.map_values(|t: ToolModel| wire_tool(t))),
            None => None,
        },
        tool_choice: wire_tool_choice(r.tool_choice, r.parallel_tool_calls),
        stop_sequences: r.stop_sequences,
        top_k: r.top_k,
        user_id: r.user,
        thinking_budget_tokens: r.budget_tokens,
        cache_control: r.prompt_cache == Some(true),
        stream,
    }
}

// ---------------------------------------------------------------------------
// Specification: response and stream
// ---------------------------------------------------------------------------

pub open spec fn stop_reason_of(r: Seq<char>) -> StopReasonModel {
    if r == "end_turn"@ {
        StopReasonModel::EndTurn
    } else if r == "max_tokens"@ {
        StopReasonModel::MaxTokens
    } else if r == "tool_use"@ {
        StopReasonModel::ToolUse
    } else {
        StopReasonModel::Unknown(r)
    }
}

pub open spec fn optional_stop_reason(f: Option<String>) -> StopReasonModel {
    match f {
        Some(r) => stop_reason_of(r@),
        None => StopReasonModel::Unknown("none"@),
    }
}

pub open spec fn usage_of(u: wire::Usage) -> Usage {
    Usage {
        input_tokens: u.input_tokens,
        output_tokens: u.output_tokens,
        cache_read_input_tokens: u.cache_read_input_tokens,
        cache_creation_input_tokens: u.cache_creation_input_tokens,
    }
}

/// Text and tool-use blocks of a response become parts; other blocks are dropped.
pub open spec fn part_of_block(b: wire::ContentBlockModel) -> Option<ContentPartModel> {
    match b {
        wire::ContentBlockModel::Text { text } => Some(ContentPartModel::Text(text)),
        wire::ContentBlockModel::ToolUse { id, name, input } => Some(
            ContentPartModel::ToolUse(ToolUseModel { id, name, input }),
        ),
        _ => None,
    }
}

pub open spec fn parts_of_blocks(bs: Seq<wire::ContentBlockModel>) -> Seq<ContentPartModel> {
    filter_map(bs, |b: wire::ContentBlockModel| part_of_block(b))
}

pub open spec fn response_for(resp: wire::Response) -> ChatResponseModel {
    ChatResponseModel {
        id: resp.id@,
        model: resp.model@,
        content: parts_of_blocks(resp.content.deep_view()),
        usage: Some(usage_of(resp.usage)),
        stop_reason: optional_stop_reason(resp.stop_reason),
    }
}

/// What one parsed stream event gives.
pub open spec fn event_action(e: wire::StreamEvent) -> SseActionModel<StreamEventModel> {
    match e {
        wire::StreamEvent::ContentBlockDelta { index, delta } => match delta {
            wire::Delta::TextDelta { text } => SseActionModel::Yield(
                Ok(StreamEventModel::ContentDelta(text@)),
            ),
            wire::Delta::InputJsonDelta { partial_json } => SseActionModel::Yield(
                Ok(StreamEventModel::ToolCallDelta { index, arguments_delta: partial_json@ }),
            ),
        },
        wire::StreamEvent::ContentBlockStart { index, content_block } => match content_block {
            wire::ContentBlock::ToolUse { id, name, .. } => SseActionModel::Yield(
                Ok(StreamEventModel::ToolCallStart { index, id: id@, name: name@ }),
            ),
            _ => SseActionModel::Skip,
        },
        wire::StreamEvent::MessageStart { usage } => SseActionModel::Yield(
            Ok(StreamEventModel::Usage(usage_of(usage))),
        ),
        wire::StreamEvent::MessageDelta { stop_reason } => SseActionModel::Yield(
            Ok(StreamEventModel::Done(optional_stop_reason(stop_reason))),
        ),
        wire::StreamEvent::Error { message } => SseActionModel::Yield(
            Err(ErrorModel::Stream(message@)),
        ),
        _ => SseActionModel::Skip,
    }
}

/// What a `data:` payload gives, given what parsing it as an event gave.
pub open spec fn stream_action(parsed: Result<wire::StreamEvent, String>) -> SseActionModel<
    StreamEventModel,
> {
    match parsed {
        Err(msg) => SseActionModel::Yield(Err(ErrorModel::Json(msg@))),
        Ok(e) => event_action(e),
    }
}

// ---------------------------------------------------------------------------
// Request conversion
// ---------------------------------------------------------------------------

fn role_str(role: &Role) -> (res: String)
    ensures
        res@ == role_name(*role),
{
    match role {
        Role::System => "system".to_owned(),
        Role::User => "user".to_owned(),
        Role::Assistant => "assistant".to_owned(),
    }
}

fn block_from(p: &ContentPart) -> (res: Option<wire::ContentBlock>)
    ensures
        res.deep_view() == block_of(p.deep_view()),
{
    match p {
        ContentPart::Text(t) => if t.as_str().is_empty() {
            None
        } else {
            Some(wire::ContentBlock::Text { text: t.clone() })
        },
        ContentPart::Reasoning(_) => None,
        ContentPart::Image(src) => {
            let source = match src {
                ImageSource::Url(u) => wire::ImageSource::Url { url: u.clone() },
                ImageSource::Base64 { media_type, data } => wire::ImageSource::Base64 {
                    media_type: media_type.clone(),
                    data: data.clone(),
                },
            };
            Some(wire::ContentBlock::Image { source })
        },
        ContentPart::ToolUse(tu) => Some(
            wire::ContentBlock::ToolUse {
                id: tu.id.clone(),
                name: tu.name.clone(),
                input: tu.input.clone(),
            },
        ),
        ContentPart::ToolResult(tr) => Some(
            wire::ContentBlock::ToolResult {
                tool_use_id: tr.tool_use_id.clone(),
                content: tr.content.clone(),
                is_error: tr.is_error,
            },
        ),
    }
}

/// The blocks for a list of parts.
pub fn convert_content(parts: &Vec<ContentPart>) -> (res: Vec<wire::ContentBlock>)
    ensures
        res.deep_view() == blocks_of(parts.deep_view()),
{
    let ghost ps = parts.deep_view();
    let mut out: Vec<wire::ContentBlock> = Vec::new();
    let n = parts.len();
    for i in 0..n
        invariant
            n == parts.len(),
            ps == parts.deep_view(),
            out.deep_view() == blocks_of(ps.take(i as int)),
    {
        proof {
            lemma_take_succ(ps, i as int);
            lemma_filter_map_push(ps.take(i as int), ps[i as int], |p: ContentPartModel| block_of(p));
        }
        let b = block_from(&parts[i]);
        if let Some(b) = b {
            let ghost before = out.deep_view();
            out.push(b);
            assert(out.deep_view() =~= before.push(b.deep_view()));
        }
    }
    assert(ps.take(n as int) =~= ps);
    out
}

/// The text parts of a system message, joined by "\n".
fn system_text(parts: &Vec<ContentPart>) -> (res: String)
    ensures
        res@ == join_lines(texts(parts.deep_view())),
{
    let ghost ps = parts.deep_view();
    let mut out = String::new();
    let mut count: usize = 0;
    let n = parts.len();
    for i in 0..n
        invariant
            n == parts.len(),
            ps == parts.deep_view(),
            count == texts(ps.take(i as int)).len(),
            count <= i,
            out@ == join_lines(texts(ps.take(i as int))),
    {
        proof {
            lemma_take_succ(ps, i as int);
            lemma_filter_map_push(ps.take(i as int), ps[i as int], |p: ContentPartModel| part_text(p));
        }
        if let ContentPart::Text(t) = &parts[i] {
            let ghost before = texts(ps.take(i as int));
            if count > 0 {
                out.append("\n");
            }
            out.append(t.as_str());
            proof {
                reveal_strlit("\n");
                let after = before.push(t@);
                assert(after.drop_last() =~= before);
                if count == 0 {
                    assert(out@ =~= t@);
                } else {
                    assert(out@ =~= join_lines(before) + seq!['\n'] + t@);
                }
            }
            count = count + 1;
        }
    }
    assert(ps.take(n as int) =~= ps);
    out
}

fn wire_tool_from(t: &crate::types::Tool) -> (res: wire::Tool)
    ensures
        res.deep_view() == wire_tool(t.deep_view()),
{
    wire::Tool {
        name: t.name.clone(),
        description: t.description.clone(),
        input_schema: t.parameters.clone(),
    }
}

fn tool_choice_from(c: &Option<ToolChoice>, parallel: Option<bool>) -> (res: Option<wire::ToolChoice>)
    ensures
        res.deep_view() == wire_tool_choice(c.deep_view(), parallel),
{
    if c.is_none() && parallel.is_none() {
        return None;
    }
    let kind = match c {
        Some(ToolChoice::Auto) => wire::ToolChoiceKind::Auto,
        Some(ToolChoice::Never) => wire::ToolChoiceKind::Never,
        Some(ToolChoice::Required) => wire::ToolChoiceKind::Any,
        Some(ToolChoice::Specific(n)) => wire::ToolChoiceKind::Tool(n.clone()),
        None => wire::ToolChoiceKind::Auto,
    };
    let disable = match parallel {
        Some(p) => Some(!p),
        None => None,
    };
    Some(wire::ToolChoice { kind, disable_parallel_tool_use: disable })
}

/// The wire request for `request`; `stream` asks for an event stream.
pub fn convert_request(request: ChatRequest, stream: bool) -> (res: wire::Request)
    ensures
        res.deep_view() == request_for(request.deep_view(), stream),
{
    let ghost ms = request.messages.deep_view();
    let mut system: Option<String> = None;
    let mut messages: Vec<wire::Message> = Vec::new();
    let n = request.messages.len();
    for i in 0..n
        invariant
            n == request.messages.len(),
            ms == request.messages.deep_view(),
            messages.deep_view() == wire_messages(ms.take(i as int)),
            system.deep_view() == system_of(ms.take(i as int)),
    {
        proof {
            lemma_take_succ(ms, i as int);
            lemma_filter_map_push(ms.take(i as int), ms[i as int], |m: MessageModel| wire_message(m));
            assert(ms.take(i + 1).drop_last() =~= ms.take(i as int));
        }
        let msg = &request.messages[i];
        if msg.role == Role::System {
            // The system prompt is a top-level parameter, not a message.
            system = Some(system_text(&msg.content));
        } else {
            let ghost before = messages.deep_view();
            let w = wire::Message { role: role_str(&msg.role), content: convert_content(&msg.content) };
            messages.push(w);
            assert(messages.deep_view() =~= before.push(w.deep_view()));
        }
    }
    assert(ms.take(n as int) =~= ms);
    let tools = match &request.tools {
        Some(ts) => {
            let mut out: Vec<wire::Tool> = Vec::new();
            let k = ts.len();
            for i in 0..k
                invariant
                    k == ts.len(),
                    out.deep_view() =~= ts.deep_view().take(i as int).map_values(
                        |t: ToolModel| wire_tool(t),
                    ),
            {
                let ghost before = out.deep_view();
                let t = wire_tool_from(&ts[i]);
                out.push(t);
                assert(out.deep_view() =~= before.push(t.deep_view()));
                assert(ts.deep_view().take(i + 1) =~= ts.deep_view().take(i as int).push(
                    ts.deep_view()[i as int],
                ));
            }
            assert(ts.deep_view().take(k as int) =~= ts.deep_view());
            Some(out)
        },
        None => None,
    };
    let tool_choice = tool_choice_from(&request.tool_choice, request.parallel_tool_calls);
    let max_tokens = match request.max_tokens {
        Some(m) => m,
        None => DEFAULT_MAX_TOKENS,
    };
    let cache_control = match request.prompt_cache {
        Some(true) => true,
        _ => false,
    };
    wire::Request {
        model: request.model,
        messages,
        max_tokens,
        system,
        temperature: request.temperature,
        top_p: request.top_p,
        tools,
        tool_choice,
        stop_sequences: request.stop_sequences,
        top_k: request.top_k,
        user_id: request.user,
        thinking_budget_tokens: request.budget_tokens,
        cache_control,
        stream,
    }
}

// ---------------------------------------------------------------------------
// Response conversion and stream parsing
// ---------------------------------------------------------------------------

/// The unified stop reason for an Anthropic stop reason.
pub fn stop_reason_from(r: &str) -> (res: StopReason)
    ensures
        res.deep_view() == stop_reason_of(r@),
{
    if text_is(r, "end_turn") {
        StopReason::EndTurn
    } else if text_is(r, "max_tokens") {
        StopReason::MaxTokens
    } else if text_is(r, "tool_use") {
        StopReason::ToolUse
    } else {
        StopReason::Unknown(r.to_owned())
    }
}

fn optional_stop_reason_from(f: &Option<String>) -> (res: StopReason)
    ensures
        res.deep_view() == optional_stop_reason(*f),
{
    match f {
        Some(r) => stop_reason_from(r.as_str()),
        None => StopReason::Unknown("none".to_owned()),
    }
}

fn usage_from(u: &wire::Usage) -> (res: Usage)
    ensures
        res == usage_of(*u),
{
    Usage {
        input_tokens: u.input_tokens,
        output_tokens: u.output_tokens,
        cache_read_input_tokens: u.cache_read_input_tokens,
        cache_creation_input_tokens: u.cache_creation_input_tokens,
    }
}

fn part_from_block(b: &wire::ContentBlock) -> (res: Option<ContentPart>)
    ensures
        res.deep_view() == part_of_block(b.deep_view()),
{
    match b {
        wire::ContentBlock::Text { text } => Some(ContentPart::Text(text.clone())),
        wire::ContentBlock::ToolUse { id, name, input } => Some(
            ContentPart::ToolUse(
                crate::types::ToolUse { id: id.clone(), name: name.clone(), input: input.clone() },
            ),
        ),
        _ => None,
    }
}

/// The unified response for a wire response.
pub fn convert_response(resp: wire::Response) -> (res: ChatResponse)
    ensures
        res.deep_view() == response_for(resp),
{
    let ghost bs = resp.content.deep_view();
    let mut content: Vec<ContentPart> = Vec::new();
    let n = resp.content.len();
    for i in 0..n
        invariant
            n == resp.content.len(),
            bs == resp.content.deep_view(),
            content.deep_view() == parts_of_blocks(bs.take(i as int)),
    {
        proof {
            lemma_take_succ(bs, i as int);
            lemma_filter_map_push(bs.take(i as int), bs[i as int], |b: wire::ContentBlockModel| part_of_block(b));
        }
        let p = part_from_block(&resp.content[i]);
        if let Some(p) = p {
            let ghost before = content.deep_view();
            content.push(p);
            assert(content.deep_view() =~= before.push(p.deep_view()));
        }
    }
    assert(bs.take(n as int) =~= bs);
    let stop_reason = optional_stop_reason_from(&resp.stop_reason);
    ChatResponse {
        id: resp.id.clone(),
        model: resp.model.clone(),
        content,
        usage: Some(usage_from(&resp.usage)),
        stop_reason,
    }
}

/// What one parsed stream event gives.
pub fn event_event(e: wire::StreamEvent) -> (res: SseAction<StreamEvent>)
    ensures
        res.deep_view() == event_action(e),
{
    match e {
        wire::StreamEvent::ContentBlockDelta { index, delta } => match delta {
            wire::Delta::TextDelta { text } => SseAction::Yield(Ok(StreamEvent::ContentDelta(text))),
            wire::Delta::InputJsonDelta { partial_json } => SseAction::Yield(
                Ok(StreamEvent::ToolCallDelta { index, arguments_delta: partial_json }),
            ),
        },
        wire::StreamEvent::ContentBlockStart { index, content_block } => match content_block {
            wire::ContentBlock::ToolUse { id, name, .. } => SseAction::Yield(
                Ok(StreamEvent::ToolCallStart { index, id, name }),
            ),
            _ => SseAction::Skip,
        },
        wire::StreamEvent::MessageStart { usage } => SseAction::Yield(
            Ok(StreamEvent::Usage(usage_from(&usage))),
        ),
        wire::StreamEvent::MessageDelta { stop_reason } => SseAction::Yield(
            Ok(StreamEvent::Done(optional_stop_reason_from(&stop_reason))),
        ),
        wire::StreamEvent::Error { message } => SseAction::Yield(Err(Error::Stream(message))),
        _ => SseAction::Skip,
    }
}

/// What a `data:` payload gives, given the outcome of parsing it as an event (the parse
/// error's message on failure).
pub fn parse_stream_data(parsed: Result<wire::StreamEvent, String>) -> (res: SseAction<StreamEvent>)
    ensures
        res.deep_view() == stream_action(parsed),
{
    match parsed {
        Err(msg) => SseAction::Yield(Err(Error::Json(msg))),
        Ok(e) => event_event(e),
    }
}

} // verus!
