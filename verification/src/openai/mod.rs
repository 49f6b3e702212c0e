//! Adapter for OpenAI-compatible chat-completions APIs: request conversion, response
//! conversion, and the stream-event parser.
pub mod wire;

use vstd::prelude::*;

use crate::error::{Error, ErrorModel};
use crate::json::{arguments_json, json_from_arguments};
use crate::seqs::{
    filter_map, first_of, flat_map, lemma_filter_map_push, lemma_first_of_prefix,
    lemma_flat_map_push, lemma_take_succ,
};
use crate::sse::{SseAction, SseActionModel};
use crate::text::{concat2, text_is, trim, trimmed_chars};
use crate::types::{
    first_reasoning, first_text, part_tool_result, part_tool_use, reasonings, texts,
    tool_results_of, tool_uses_of, ChatRequest, ChatRequestModel, ChatResponse,
    ChatResponseModel, ContentPart, ContentPartModel, ImageSource, ImageSourceModel, Message,
    MessageModel, Role, StopReason, StopReasonModel, StreamEvent, StreamEventModel, ToolChoice,
    ToolChoiceModel, ToolModel, ToolResultModel, ToolUse, ToolUseModel, Usage,
};

verus! {

// ---------------------------------------------------------------------------
// Specification: request
// ---------------------------------------------------------------------------

/// The wire name of a role.
pub open spec fn role_name(r: Role) -> Seq<char> {
    match r {
        Role::System => "system"@,
        Role::User => "user"@,
        Role::Assistant => "assistant"@,
    }
}

/// The URL an image is sent under: its URL, or a `data:` URL for inline data.
pub open spec fn image_url(src: ImageSourceModel) -> Seq<char> {
    match src {
        ImageSourceModel::Url(u) => u,
        ImageSourceModel::Base64 { media_type, data } => "data:"@ + media_type + ";base64,"@ + data,
    }
}

/// Text and image parts go on the wire; the other kinds are sent elsewhere or dropped.
pub open spec fn wire_part(p: ContentPartModel) -> Option<wire::ContentPartModel> {
    match p {
        ContentPartModel::Text(t) => Some(wire::ContentPartModel::Text { text: t }),
        ContentPartModel::Image(src) => Some(wire::ContentPartModel::ImageUrl { url: image_url(src) }),
        _ => None,
    }
}

pub open spec fn wire_parts(parts: Seq<ContentPartModel>) -> Seq<wire::ContentPartModel> {
    filter_map(parts, |p: ContentPartModel| wire_part(p))
}

/// A single text part is sent as a plain string; anything else as a list of parts.
pub open spec fn wire_content(parts: Seq<ContentPartModel>) -> wire::ContentModel {
    if parts.len() == 1 && parts[0] is Text {
        wire::ContentModel::Text(parts[0]->Text_0)
    } else {
        wire::ContentModel::Parts(wire_parts(parts))
    }
}

/// The "tool" message that carries a tool result.
pub open spec fn tool_message(tr: ToolResultModel) -> wire::MessageModel {
    wire::MessageModel {
        role: "tool"@,
        content: Some(wire::ContentModel::Text(tr.content)),
        reasoning_content: None,
        tool_calls: None,
        tool_call_id: Some(tr.tool_use_id),
    }
}

/// The wire form of a tool call made by the assistant.
pub open spec fn tool_call_of(tu: ToolUseModel) -> wire::ToolCallModel {
    wire::ToolCallModel { id: tu.id, call_type: "function"@, name: tu.name, arguments: tu.input }
}

pub open spec fn text_content(t: Option<Seq<char>>) -> Option<wire::ContentModel> {
    match t {
        Some(t) => Some(wire::ContentModel::Text(t)),
        None => None,
    }
}

/// The wire messages for one message: one "tool" message per tool result when it has
/// any; else, when it has tool uses, one message with its first text, first reasoning
/// and all its tool calls; else one message with its converted content.
pub open spec fn messages_for(m: MessageModel) -> Seq<wire::MessageModel> {
    let results = tool_results_of(m.content);
    let uses = tool_uses_of(m.content);
    if results.len() > 0 {
        results.map_values(|tr: ToolResultModel| tool_message(tr))
    } else if uses.len() > 0 {
        seq![
            wire::MessageModel {
                role: role_name(m.role),
                content: text_content(first_of(texts(m.content))),
                reasoning_content: first_of(reasonings(m.content)),
                tool_calls: Some(uses.map_values(|tu: ToolUseModel| tool_call_of(tu))),
                tool_call_id: None,
            },
        ]
    } else {
        seq![
            wire::MessageModel {
                role: role_name(m.role),
                content: Some(wire_content(m.content)),
                reasoning_content: first_of(reasonings(m.content)),
                tool_calls: None,
                tool_call_id: None,
            },
        ]
    }
}

pub open spec fn wire_messages(ms: Seq<MessageModel>) -> Seq<wire::MessageModel> {
    flat_map(ms, |m: MessageModel| messages_for(m))
}

pub open spec fn wire_tool(t: ToolModel) -> wire::ToolModel {
    wire::ToolModel {
        tool_type: "function"@,
        name: t.name,
        description: t.description,
        parameters: t.parameters,
    }
}

pub open spec fn wire_tool_choice(c: ToolChoiceModel) -> wire::ToolChoiceModel {
    match c {
        ToolChoiceModel::Auto => wire::ToolChoiceModel::Auto,
        ToolChoiceModel::Never => wire::ToolChoiceModel::Never,
        ToolChoiceModel::Required => wire::ToolChoiceModel::Required,
        ToolChoiceModel::Specific(n) => wire::ToolChoiceModel::Function(n),
    }
}

/// The wire request for a unified request. `top_k` and `budget_tokens` have no
/// counterpart here and are not sent.
pub open spec fn request_for(r: ChatRequestModel, stream: bool) -> wire::RequestModel {
    wire::RequestModel {
        model: r.model,
        messages: wire_messages(r.messages),
        max_tokens: r.max_tokens,
        temperature: r.temperature,
        top_p: r.top_p,
        tools: match r.tools {
            Some(ts) => Some(ts.map_values(|t: ToolModel| wire_tool(t))),
            None => None,
        },
        tool_choice: match r.tool_choice {
            Some(c) => Some(wire_tool_choice(c)),
            None => None,
        },
        parallel_tool_calls: r.parallel_tool_calls,
        stop: r.stop_sequences,
        user: r.user,
        store: if r.prompt_cache == Some(true) {
            Some(true)
        } else {
            None
        },
        stream,
        stream_options: if stream {
            Some(wire::StreamOptions { include_usage: true })
        } else {
            None
        },
    }
}

// ---------------------------------------------------------------------------
// Specification: response and stream
// ---------------------------------------------------------------------------

/// The unified stop reason for an OpenAI finish reason.
pub open spec fn stop_reason_of(r: Seq<char>) -> StopReasonModel {
    if r == "stop"@ {
        StopReasonModel::EndTurn
    } else if r == "length"@ {
        StopReasonModel::MaxTokens
    } else if r == "tool_calls"@ {
        StopReasonModel::ToolUse
    } else {
        StopReasonModel::Unknown(r)
    }
}

pub open spec fn finish_reason_of(f: Option<String>) -> StopReasonModel {
    match f {
        Some(r) => stop_reason_of(r@),
        None => StopReasonModel::Unknown("none"@),
    }
}

pub open spec fn usage_of(u: wire::Usage) -> Usage {
    Usage {
        input_tokens: u.prompt_tokens,
        output_tokens: u.completion_tokens,
        cache_read_input_tokens: u.cached_tokens,
        cache_creation_input_tokens: None,
    }
}

/// The tool use that a returned tool call stands for; its arguments become JSON text.
pub open spec fn tool_use_of_call(tc: wire::ToolCall) -> ToolUseModel {
    ToolUseModel {
        id: tc.id@,
        name: tc.function.name@,
        input: arguments_json(tc.function.arguments@),
    }
}

pub open spec fn nonempty_part(t: Option<String>, reasoning: bool) -> Seq<ContentPartModel> {
    match t {
        Some(s) => if s@.len() > 0 {
            if reasoning {
                seq![ContentPartModel::Reasoning(s@)]
            } else {
                seq![ContentPartModel::Text(s@)]
            }
        } else {
            Seq::empty()
        },
        None => Seq::empty(),
    }
}

/// The parts of a returned message: its reasoning, its text (each when non-empty), then
/// its tool calls in order.
pub open spec fn response_parts(m: wire::ResponseMessage) -> Seq<ContentPartModel> {
    nonempty_part(m.reasoning_content, true) + nonempty_part(m.content, false) + match m.tool_calls {
        Some(tcs) => tcs@.map_values(
            |tc: wire::ToolCall| ContentPartModel::ToolUse(tool_use_of_call(tc)),
        ),
        None => Seq::empty(),
    }
}

/// The unified response for a wire response: only the first choice is read.
pub open spec fn response_for(resp: wire::Response) -> ChatResponseModel {
    ChatResponseModel {
        id: resp.id@,
        model: resp.model@,
        content: if resp.choices@.len() > 0 {
            response_parts(resp.choices@[0].message)
        } else {
            Seq::empty()
        },
        usage: match resp.usage {
            Some(u) => Some(usage_of(u)),
            None => None,
        },
        stop_reason: if resp.choices@.len() > 0 {
            finish_reason_of(resp.choices@[0].finish_reason)
        } else {
            StopReasonModel::Unknown("no_choices"@)
        },
    }
}

/// The marker that ends an OpenAI event stream.
pub open spec fn done_marker() -> Seq<char> {
    seq!['[', 'D', 'O', 'N', 'E', ']']
}

/// The event a streamed tool-call delta gives: its start when it carries both id and
/// name, else its non-empty arguments fragment.
pub open spec fn tool_call_event(tc: wire::DeltaToolCall) -> Option<StreamEventModel> {
    match tc.function {
        Some(f) => if tc.id is Some && f.name is Some {
            Some(
                StreamEventModel::ToolCallStart {
                    index: tc.index,
                    id: tc.id->0@,
                    name: f.name->0@,
                },
            )
        } else {
            match f.arguments {
                Some(a) => if a@.len() > 0 {
                    Some(StreamEventModel::ToolCallDelta { index: tc.index, arguments_delta: a@ })
                } else {
                    None
                },
                None => None,
            }
        },
        None => None,
    }
}

pub open spec fn tool_call_events(tcs: Seq<wire::DeltaToolCall>) -> Seq<StreamEventModel> {
    filter_map(tcs, |tc: wire::DeltaToolCall| tool_call_event(tc))
}

/// What one parsed stream chunk gives: usage first; then, from the first choice, its
/// finish reason, its text, its reasoning, or its first tool-call event.
pub open spec fn chunk_action(chunk: wire::StreamChunk) -> SseActionModel<StreamEventModel> {
    if chunk.usage is Some {
        SseActionModel::Yield(Ok(StreamEventModel::Usage(usage_of(chunk.usage->0))))
    } else if chunk.choices@.len() == 0 {
        SseActionModel::Skip
    } else {
        let c = chunk.choices@[0];
        if c.finish_reason is Some {
            SseActionModel::Yield(Ok(StreamEventModel::Done(stop_reason_of(c.finish_reason->0@))))
        } else if c.delta.content is Some && c.delta.content->0@.len() > 0 {
            SseActionModel::Yield(Ok(StreamEventModel::ContentDelta(c.delta.content->0@)))
        } else if c.delta.reasoning_content is Some && c.delta.reasoning_content->0@.len() > 0 {
            SseActionModel::Yield(
                Ok(StreamEventModel::ReasoningDelta(c.delta.reasoning_content->0@)),
            )
        } else if c.delta.tool_calls is Some && tool_call_events(c.delta.tool_calls->0@).len() > 0 {
            SseActionModel::Yield(Ok(tool_call_events(c.delta.tool_calls->0@)[0]))
        } else {
            SseActionModel::Skip
        }
    }
}

/// What a `data:` payload gives, given what parsing it as a chunk gave: the "[DONE]"
/// marker (surrounding whitespace ignored) ends the stream; a payload that is not a chunk
/// is a JSON error; a chunk goes through `chunk_action`.
pub open spec fn stream_action(
    data: Seq<char>,
    parsed: Result<wire::StreamChunk, String>,
) -> SseActionModel<StreamEventModel> {
    if trim(data) == done_marker() {
        SseActionModel::Done
    } else {
        match parsed {
            Err(msg) => SseActionModel::Yield(Err(ErrorModel::Json(msg@))),
            Ok(chunk) => chunk_action(chunk),
        }
    }
}

// ---------------------------------------------------------------------------
// Request conversion
// ---------------------------------------------------------------------------

pub fn role_str(role: &Role) -> (res: String)
    ensures
        res@ == role_name(*role),
{
    match role {
        Role::System => "system".to_owned(),
        Role::User => "user".to_owned(),
        Role::Assistant => "assistant".to_owned(),
    }
}

fn image_url_of(src: &ImageSource) -> (res: String)
    ensures
        res@ == image_url(src.deep_view()),
{
    match src {
        ImageSource::Url(u) => u.clone(),
        ImageSource::Base64 { media_type, data } => {
            let mut s = concat2("data:", media_type.as_str());
            s.append(";base64,");
            s.append(data.as_str());
            s
        },
    }
}

/// The wire content for a list of parts.
pub fn convert_content(parts: &Vec<ContentPart>) -> (res: wire::Content)
    ensures
        res.deep_view() == wire_content(parts.deep_view()),
{
    let ghost ps = parts.deep_view();
    if parts.len() == 1 {
        if let ContentPart::Text(t) = &parts[0] {
            return wire::Content::Text(t.clone());
        }
    }
    let mut out: Vec<wire::ContentPart> = Vec::new();
    let n = parts.len();
    for i in 0..n
        invariant
            n == parts.len(),
            ps == parts.deep_view(),
            out.deep_view() == wire_parts(ps.take(i as int)),
    {
        proof {
            lemma_take_succ(ps, i as int);
            lemma_filter_map_push(ps.take(i as int), ps[i as int], |p: ContentPartModel| wire_part(p));
        }
        let ghost before = out.deep_view();
        match &parts[i] {
            ContentPart::Text(t) => {
                out.push(wire::ContentPart::Text { text: t.clone() });
                assert(out.deep_view() =~= before.push(wire::ContentPartModel::Text { text: t@ }));
            },
            ContentPart::Image(src) => {
                let url = image_url_of(src);
                out.push(wire::ContentPart::ImageUrl { url });
                assert(out.deep_view() =~= before.push(wire::ContentPartModel::ImageUrl { url: url@ }));
            },
            _ => {},
        }
    }
    assert(ps.take(n as int) =~= ps);
    wire::Content::Parts(out)
}

fn tool_message_of(tool_use_id: &String, content: &String) -> (res: wire::Message)
    ensures
        res.deep_view() == tool_message(
            ToolResultModel { tool_use_id: tool_use_id@, content: content@, is_error: false },
        ),
{
    wire::Message {
        role: "tool".to_owned(),
        content: Some(wire::Content::Text(content.clone())),
        reasoning_content: None,
        tool_calls: None,
        tool_call_id: Some(tool_use_id.clone()),
    }
}

fn tool_call_from(tu: &ToolUse) -> (res: wire::ToolCall)
    ensures
        res.deep_view() == tool_call_of(tu.deep_view()),
{
    wire::ToolCall {
        id: tu.id.clone(),
        call_type: "function".to_owned(),
        function: wire::FunctionCall { name: tu.name.clone(), arguments: tu.input.clone() },
    }
}

fn owned_text(t: Option<&str>) -> (res: Option<String>)
    ensures
        res.deep_view() == t.deep_view(),
{
    match t {
        Some(s) => Some(s.to_owned()),
        None => None,
    }
}

/// Appends the wire messages for `m` to `out`.
pub fn push_messages_for(m: &Message, out: &mut Vec<wire::Message>)
    ensures
        final(out).deep_view() == old(out).deep_view() + messages_for(m.deep_view()),
{
    let ghost ps = m.content.deep_view();
    let n = m.content.len();
    // Tool results, each as its own "tool" message.
    let mut results: Vec<wire::Message> = Vec::new();
    for i in 0..n
        invariant
            n == m.content.len(),
            ps == m.content.deep_view(),
            results.deep_view() == tool_results_of(ps.take(i as int)).map_values(
                |tr: ToolResultModel| tool_message(tr),
            ),
    {
        proof {
            lemma_take_succ(ps, i as int);
            lemma_filter_map_push(ps.take(i as int), ps[i as int], |p: ContentPartModel| part_tool_result(p));
        }
        if let ContentPart::ToolResult(tr) = &m.content[i] {
            let ghost before = tool_results_of(ps.take(i as int));
            let msg = tool_message_of(&tr.tool_use_id, &tr.content);
            results.push(msg);
            assert(before.push(tr.deep_view()).map_values(|tr: ToolResultModel| tool_message(tr))
                =~= before.map_values(|tr: ToolResultModel| tool_message(tr)).push(
                tool_message(tr.deep_view()),
            ));
            assert(results.deep_view() =~= before.map_values(|tr: ToolResultModel| tool_message(tr)).push(
                msg.deep_view(),
            ));
        }
    }
    assert(ps.take(n as int) =~= ps);
    if results.len() > 0 {
        let ghost o = out.deep_view();
        let ghost r = results.deep_view();
        out.append(&mut results);
        assert(out.deep_view() =~= o + r);
        return;
    }
    // Tool uses, gathered into one assistant message.
    let mut calls: Vec<wire::ToolCall> = Vec::new();
    for i in 0..n
        invariant
            n == m.content.len(),
            ps == m.content.deep_view(),
            calls.deep_view() == tool_uses_of(ps.take(i as int)).map_values(
                |tu: ToolUseModel| tool_call_of(tu),
            ),
    {
        proof {
            lemma_take_succ(ps, i as int);
            lemma_filter_map_push(ps.take(i as int), ps[i as int], |p: ContentPartModel| part_tool_use(p));
        }
        if let ContentPart::ToolUse(tu) = &m.content[i] {
            let ghost before = tool_uses_of(ps.take(i as int));
            let c = tool_call_from(tu);
            calls.push(c);
            assert(before.push(tu.deep_view()).map_values(|tu: ToolUseModel| tool_call_of(tu))
                =~= before.map_values(|tu: ToolUseModel| tool_call_of(tu)).push(
                tool_call_of(tu.deep_view()),
            ));
            assert(calls.deep_view() =~= before.map_values(|tu: ToolUseModel| tool_call_of(tu)).push(
                c.deep_view(),
            ));
        }
    }
    let reasoning = owned_text(first_reasoning(&m.content));
    if calls.len() > 0 {
        let text = owned_text(first_text(&m.content));
        let content = match text {
            Some(t) => Some(wire::Content::Text(t)),
            None => None,
        };
        let msg = wire::Message {
            role: role_str(&m.role),
            content,
            reasoning_content: reasoning,
            tool_calls: Some(calls),
            tool_call_id: None,
        };
        let ghost o = out.deep_view();
        out.push(msg);
        assert(out.deep_view() =~= o + seq![msg.deep_view()]);
        return;
    }
    let msg = wire::Message {
        role: role_str(&m.role),
        content: Some(convert_content(&m.content)),
        reasoning_content: reasoning,
        tool_calls: None,
        tool_call_id: None,
    };
    let ghost o = out.deep_view();
    out.push(msg);
    assert(out.deep_view() =~= o + seq![msg.deep_view()]);
}

fn wire_tool_from(t: &crate::types::Tool) -> (res: wire::Tool)
    ensures
        res.deep_view() == wire_tool(t.deep_view()),
{
    wire::Tool {
        tool_type: "function".to_owned(),
        function: wire::FunctionDef {
            name: t.name.clone(),
            description: t.description.clone(),
            parameters: t.parameters.clone(),
        },
    }
}

fn wire_tool_choice_from(c: &ToolChoice) -> (res: wire::ToolChoice)
    ensures
        res.deep_view() == wire_tool_choice(c.deep_view()),
{
    match c {
        ToolChoice::Auto => wire::ToolChoice::Auto,
        ToolChoice::Never => wire::ToolChoice::Never,
        ToolChoice::Required => wire::ToolChoice::Required,
        ToolChoice::Specific(n) => wire::ToolChoice::Function(n.clone()),
    }
}

/// The wire request for `request`; `stream` asks for an event stream with usage.
pub fn convert_request(request: ChatRequest, stream: bool) -> (res: wire::Request)
    ensures
        res.deep_view() == request_for(request.deep_view(), stream),
{
    let ghost ms = request.messages.deep_view();
    let mut messages: Vec<wire::Message> = Vec::new();
    let n = request.messages.len();
    for i in 0..n
        invariant
            n == request.messages.len(),
            ms == request.messages.deep_view(),
            messages.deep_view() == wire_messages(ms.take(i as int)),
    {
        proof {
            lemma_take_succ(ms, i as int);
            lemma_flat_map_push(ms.take(i as int), ms[i as int], |m: MessageModel| messages_for(m));
        }
        push_messages_for(&request.messages[i], &mut messages);
    }
    assert(ms.take(n as int) =~= ms);
    let tools = match &request.tools {
        Some(ts) => {
            let mut out: Vec<wire::Tool> = Vec::new();
            let k = ts.len();
            for i in 0..k
                invariant
                    k == ts.len(),
                    out.deep_view() =~= ts.deep_view().take(i as int).map_values(
                        |t: ToolModel| wire_tool(t),
                    ),
            {
                let ghost before = out.deep_view();
                let t = wire_tool_from(&ts[i]);
                out.push(t);
                assert(out.deep_view() =~= before.push(t.deep_view()));
                assert(ts.deep_view().take(i + 1) =~= ts.deep_view().take(i as int).push(
                    ts.deep_view()[i as int],
                ));
            }
            assert(ts.deep_view().take(k as int) =~= ts.deep_view());
            Some(out)
        },
        None => None,
    };
    let tool_choice = match &request.tool_choice {
        Some(c) => Some(wire_tool_choice_from(c)),
        None => None,
    };
    let store = match request.prompt_cache {
        Some(true) => Some(true),
        _ => None,
    };
    let stream_options = if stream {
        Some(wire::StreamOptions { include_usage: true })
    } else {
        None
    };
    wire::Request {
        model: request.model,
        messages,
        max_tokens: request.max_tokens,
        temperature: request.temperature,
        top_p: request.top_p,
        tools,
        tool_choice,
        parallel_tool_calls: request.parallel_tool_calls,
        stop: request.stop_sequences,
        user: request.user,
        store,
        stream,
        stream_options,
    }
}

// ---------------------------------------------------------------------------
// Response conversion
// ---------------------------------------------------------------------------

/// The unified stop reason for an OpenAI finish reason.
pub fn stop_reason_from(r: &str) -> (res: StopReason)
    ensures
        res.deep_view() == stop_reason_of(r@),
{
    if text_is(r, "stop") {
        StopReason::EndTurn
    } else if text_is(r, "length") {
        StopReason::MaxTokens
    } else if text_is(r, "tool_calls") {
        StopReason::ToolUse
    } else {
        StopReason::Unknown(r.to_owned())
    }
}

fn finish_reason_from(f: &Option<String>) -> (res: StopReason)
    ensures
        res.deep_view() == finish_reason_of(*f),
{
    match f {
        Some(r) => stop_reason_from(r.as_str()),
        None => StopReason::Unknown("none".to_owned()),
    }
}

fn usage_from(u: &wire::Usage) -> (res: Usage)
    ensures
        res == usage_of(*u),
{
    Usage {
        input_tokens: u.prompt_tokens,
        output_tokens: u.completion_tokens,
        cache_read_input_tokens: u.cached_tokens,
        cache_creation_input_tokens: None,
    }
}

fn tool_use_from_call(tc: &wire::ToolCall) -> (res: ToolUse)
    ensures
        res.deep_view() == tool_use_of_call(*tc),
{
    ToolUse {
        id: tc.id.clone(),
        name: tc.function.name.clone(),
        input: json_from_arguments(tc.function.arguments.as_str()),
    }
}

/// The parts of a returned message.
fn response_parts_from(m: &wire::ResponseMessage) -> (res: Vec<ContentPart>)
    ensures
        res.deep_view() == response_parts(*m),
{
    let mut parts: Vec<ContentPart> = Vec::new();
    if let Some(r) = &m.reasoning_content {
        if !r.as_str().is_empty() {
            parts.push(ContentPart::Reasoning(r.clone()));
        }
    }
    if let Some(t) = &m.content {
        if !t.as_str().is_empty() {
            let ghost before = parts.deep_view();
            parts.push(ContentPart::Text(t.clone()));
            assert(parts.deep_view() =~= before.push(ContentPartModel::Text(t@)));
        }
    }
    let ghost head = parts.deep_view();
    assert(head =~= nonempty_part(m.reasoning_content, true) + nonempty_part(m.content, false));
    if let Some(tcs) = &m.tool_calls {
        let k = tcs.len();
        for i in 0..k
            invariant
                k == tcs.len(),
                parts.deep_view() =~= head + tcs@.take(i as int).map_values(
                    |tc: wire::ToolCall| ContentPartModel::ToolUse(tool_use_of_call(tc)),
                ),
        {
            let ghost before = parts.deep_view();
            let tu = tool_use_from_call(&tcs[i]);
            parts.push(ContentPart::ToolUse(tu));
            assert(parts.deep_view() =~= before.push(ContentPartModel::ToolUse(tu.deep_view())));
            assert(tcs@.take(i + 1) =~= tcs@.take(i as int).push(tcs@[i as int]));
        }
        assert(tcs@.take(k as int) =~= tcs@);
    } else {
        assert(parts.deep_view() =~= head + Seq::<ContentPartModel>::empty());
    }
    parts
}

/// The unified response for a wire response.
pub fn convert_response(resp: wire::Response) -> (res: ChatResponse)
    ensures
        res.deep_view() == response_for(resp),
{
    let (content, stop_reason) = if resp.choices.len() > 0 {
        let c = &resp.choices[0];
        (response_parts_from(&c.message), finish_reason_from(&c.finish_reason))
    } else {
        (Vec::new(), StopReason::Unknown("no_choices".to_owned()))
    };
    let usage = match &resp.usage {
        Some(u) => Some(usage_from(u)),
        None => None,
    };
    let res = ChatResponse { id: resp.id.clone(), model: resp.model.clone(), content, usage, stop_reason };
    assert(res.content.deep_view() =~= response_for(resp).content);
    res
}

// ---------------------------------------------------------------------------
// Stream parsing
// ---------------------------------------------------------------------------

/// Whether a payload is the end-of-stream marker, surrounding whitespace ignored.
pub fn is_done_marker(data: &str) -> (res: bool)
    ensures
        res == (trim(data@) == done_marker()),
{
    let t = trimmed_chars(data);
    let res = t.len() == 6 && t[0] == '[' && t[1] == 'D' && t[2] == 'O' && t[3] == 'N' && t[4] == 'E'
        && t[5] == ']';
    proof {
        if res {
            assert(t@ =~= done_marker());
        }
    }
    res
}

fn tool_call_event_from(tc: &wire::DeltaToolCall) -> (res: Option<StreamEvent>)
    ensures
        res.deep_view() == tool_call_event(*tc),
{
    if let Some(f) = &tc.function {
        if let (Some(id), Some(name)) = (&tc.id, &f.name) {
            return Some(
                StreamEvent::ToolCallStart { index: tc.index, id: id.clone(), name: name.clone() },
            );
        }
        if let Some(a) = &f.arguments {
            if !a.as_str().is_empty() {
                return Some(StreamEvent::ToolCallDelta { index: tc.index, arguments_delta: a.clone() });
            }
        }
    }
    None
}

/// What one parsed stream chunk gives.
pub fn chunk_event(chunk: &wire::StreamChunk) -> (res: SseAction<StreamEvent>)
    ensures
        res.deep_view() == chunk_action(*chunk),
{
    if let Some(u) = &chunk.usage {
        return SseAction::Yield(Ok(StreamEvent::Usage(usage_from(u))));
    }
    if chunk.choices.len() == 0 {
        return SseAction::Skip;
    }
    let c = &chunk.choices[0];
    if let Some(r) = &c.finish_reason {
        return SseAction::Yield(Ok(StreamEvent::Done(stop_reason_from(r.as_str()))));
    }
    if let Some(t) = &c.delta.content {
        if !t.as_str().is_empty() {
            return SseAction::Yield(Ok(StreamEvent::ContentDelta(t.clone())));
        }
    }
    if let Some(t) = &c.delta.reasoning_content {
        if !t.as_str().is_empty() {
            return SseAction::Yield(Ok(StreamEvent::ReasoningDelta(t.clone())));
        }
    }
    if let Some(tcs) = &c.delta.tool_calls {
        let ghost s = tcs@;
        let ghost expected = if tool_call_events(s).len() > 0 {
            SseActionModel::Yield(Ok(tool_call_events(s)[0]))
        } else {
            SseActionModel::Skip
        };
        assert(chunk_action(*chunk) == expected);
        let n = tcs.len();
        for i in 0..n
            invariant
                n == tcs.len(),
                s == tcs@,
                chunk_action(*chunk) == expected,
                expected == (if tool_call_events(s).len() > 0 {
                    SseActionModel::Yield(Ok(tool_call_events(s)[0]))
                } else {
                    SseActionModel::Skip
                }),
                tool_call_events(s.take(i as int)).len() == 0,
        {
            proof {
                lemma_take_succ(s, i as int);
                lemma_filter_map_push(s.take(i as int), s[i as int], |tc: wire::DeltaToolCall| tool_call_event(tc));
            }
            let e = tool_call_event_from(&tcs[i]);
            if let Some(ev) = e {
                proof {
                    lemma_first_of_prefix(s, i + 1, |tc: wire::DeltaToolCall| tool_call_event(tc));
                    assert(tool_call_events(s.take(i + 1)) =~= seq![ev.deep_view()]);
                }
                return SseAction::Yield(Ok(ev));
            }
        }
        assert(s.take(n as int) =~= s);
    }
    SseAction::Skip
}

/// What a `data:` payload gives, given the outcome of parsing it as a chunk (the parse
/// error's message on failure).
pub fn parse_stream_data(data: &str, parsed: Result<wire::StreamChunk, String>) -> (res: SseAction<
    StreamEvent,
>)
    ensures
        res.deep_view() == stream_action(data@, parsed),
{
    if is_done_marker(data) {
        return SseAction::Done;
    }
    match parsed {
        Err(msg) => SseAction::Yield(Err(Error::Json(msg))),
        Ok(chunk) => chunk_event(&chunk),
    }
}

} // verus!
