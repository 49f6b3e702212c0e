//! Properties that span several functions of the library.
use vstd::prelude::*;

use crate::anthropic;
use crate::client::{call_headers, ClientModel};
use crate::config::{LlmProviderConfig, ProviderType};
use crate::sse::SseActionModel;
use crate::text::trim;
use crate::json::arguments_json;
use crate::openai;
use crate::seqs::{
    filter_map, first_of, lemma_filter_map_all, lemma_filter_map_compose, lemma_filter_map_concat,
    lemma_filter_map_empty, lemma_filter_map_total,
};
use crate::types::{
    part_reasoning, part_text, part_tool_result, part_tool_use, reasonings, texts,
    tool_results_of, tool_uses_of, ChatRequestModel, ContentPartModel, MessageModel, Role,
    StopReasonModel, StreamEventModel, ToolResultModel, ToolUseModel,
};

verus! {

/// The text of an optional string when it is non-empty.
pub open spec fn nonempty_text(t: Option<String>) -> Option<Seq<char>> {
    match t {
        Some(s) => if s@.len() > 0 {
            Some(s@)
        } else {
            None
        },
        None => None,
    }
}

/// The wire form of a returned OpenAI tool call when it is sent back: same id and name,
/// arguments as the JSON text the response gave them.
pub open spec fn resent_tool_call(tc: openai::wire::ToolCall) -> openai::wire::ToolCallModel {
    openai::wire::ToolCallModel {
        id: tc.id@,
        call_type: "function"@,
        name: tc.function.name@,
        arguments: arguments_json(tc.function.arguments@),
    }
}

/// OpenAI tool-call round trip: when a response with tool calls is sent back as the
/// assistant's message (its content unchanged), it becomes one assistant message that
/// carries the same tool calls, in order, with the same ids and names, together with the
/// response's non-empty text and reasoning.
pub proof fn law_openai_tool_calls_sent_back(resp: openai::wire::Response)
    requires
        resp.choices@.len() > 0,
        resp.choices@[0].message.tool_calls matches Some(tcs) && tcs@.len() > 0,
    ensures
        ({
            let msg = resp.choices@[0].message;
            openai::messages_for(
                MessageModel { role: Role::Assistant, content: openai::response_for(resp).content },
            ) == seq![
                openai::wire::MessageModel {
                    role: "assistant"@,
                    content: openai::text_content(nonempty_text(msg.content)),
                    reasoning_content: nonempty_text(msg.reasoning_content),
                    tool_calls: Some(
                        msg.tool_calls->0@.map_values(
                            |tc: openai::wire::ToolCall| resent_tool_call(tc),
                        ),
                    ),
                    tool_call_id: None,
                },
            ]
        }),
{
    let msg = resp.choices@[0].message;
    let tcs = msg.tool_calls->0@;
    let r = openai::nonempty_part(msg.reasoning_content, true);
    let t = openai::nonempty_part(msg.content, false);
    let u = tcs.map_values(
        |tc: openai::wire::ToolCall| ContentPartModel::ToolUse(openai::tool_use_of_call(tc)),
    );
    let parts = openai::response_for(resp).content;
    assert(parts == r + t + u);
    let fr = |p: ContentPartModel| part_tool_result(p);
    let fu = |p: ContentPartModel| part_tool_use(p);
    let ft = |p: ContentPartModel| part_text(p);
    let fre = |p: ContentPartModel| part_reasoning(p);
    lemma_filter_map_concat(r + t, u, fr);
    lemma_filter_map_concat(r, t, fr);
    lemma_filter_map_concat(r + t, u, fu);
    lemma_filter_map_concat(r, t, fu);
    lemma_filter_map_concat(r + t, u, ft);
    lemma_filter_map_concat(r, t, ft);
    lemma_filter_map_concat(r + t, u, fre);
    lemma_filter_map_concat(r, t, fre);
    lemma_filter_map_empty(u, fr);
    lemma_filter_map_empty(u, ft);
    lemma_filter_map_empty(u, fre);
    lemma_filter_map_total(u, fu, |p: ContentPartModel| p->ToolUse_0);
    // The reasoning and text parts hold no tool use or tool result.
    lemma_filter_map_empty(r, fr);
    lemma_filter_map_empty(t, fr);
    lemma_filter_map_empty(r, fu);
    lemma_filter_map_empty(t, fu);
    lemma_filter_map_empty(r, ft);
    lemma_filter_map_empty(t, fre);
    assert(tool_results_of(parts) =~= Seq::<ToolResultModel>::empty());
    let uses = tool_uses_of(parts);
    assert(uses =~= u.map_values(|p: ContentPartModel| p->ToolUse_0));
    assert(uses.len() == tcs.len());
    assert(uses.map_values(|tu: ToolUseModel| openai::tool_call_of(tu)) =~= tcs.map_values(
        |tc: openai::wire::ToolCall| resent_tool_call(tc),
    ));
    assert(texts(parts) =~= filter_map(t, ft));
    assert(reasonings(parts) =~= filter_map(r, fre));
    match msg.content {
        Some(c) => if c@.len() > 0 {
            assert(t == seq![ContentPartModel::Text(c@)]);
            assert(t.drop_last() =~= Seq::<ContentPartModel>::empty());
            assert(ft(t.last()) == Some(c@));
            assert(filter_map(t.drop_last(), ft) == Seq::<Seq<char>>::empty());
            assert(filter_map(t, ft) =~= seq![c@]);
        } else {
            assert(t =~= Seq::<ContentPartModel>::empty());
        },
        None => {},
    }
    match msg.reasoning_content {
        Some(c) => if c@.len() > 0 {
            assert(r == seq![ContentPartModel::Reasoning(c@)]);
            assert(r.drop_last() =~= Seq::<ContentPartModel>::empty());
            assert(fre(r.last()) == Some(c@));
            assert(filter_map(r.drop_last(), fre) == Seq::<Seq<char>>::empty());
            assert(filter_map(r, fre) =~= seq![c@]);
        } else {
            assert(r =~= Seq::<ContentPartModel>::empty());
        },
        None => {},
    }
    assert(first_of(texts(parts)) == nonempty_text(msg.content));
    assert(first_of(reasonings(parts)) == nonempty_text(msg.reasoning_content));
}

/// OpenAI tool results: a message made of tool results (as `Message::tool_results` makes
/// it) is sent as one "tool" message per result, in order, each carrying the result's
/// content and the id of the call it answers.
pub proof fn law_openai_tool_results_sent(results: Seq<ToolResultModel>, role: Role)
    requires
        results.len() > 0,
    ensures
        openai::messages_for(
            MessageModel {
                role,
                content: results.map_values(|r: ToolResultModel| ContentPartModel::ToolResult(r)),
            },
        ) == results.map_values(|r: ToolResultModel| openai::tool_message(r)),
{
    let content = results.map_values(|r: ToolResultModel| ContentPartModel::ToolResult(r));
    lemma_filter_map_total(
        content,
        |p: ContentPartModel| part_tool_result(p),
        |p: ContentPartModel| p->ToolResult_0,
    );
    assert(tool_results_of(content) =~= results);
}

/// The block that an Anthropic response block becomes when the response's content is
/// sent back: non-empty text and tool uses come back unchanged; nothing else does.
pub open spec fn resent_block(b: anthropic::wire::ContentBlockModel) -> Option<
    anthropic::wire::ContentBlockModel,
> {
    match b {
        anthropic::wire::ContentBlockModel::Text { text } => if text.len() > 0 {
            Some(b)
        } else {
            None
        },
        anthropic::wire::ContentBlockModel::ToolUse { .. } => Some(b),
        _ => None,
    }
}

/// Anthropic round trip: sending a response's content back gives exactly the response's
/// non-empty text blocks and tool-use blocks, unchanged and in order.
pub proof fn law_anthropic_content_sent_back(resp: anthropic::wire::Response)
    ensures
        anthropic::blocks_of(anthropic::response_for(resp).content) == filter_map(
            resp.content.deep_view(),
            |b: anthropic::wire::ContentBlockModel| resent_block(b),
        ),
{
    lemma_filter_map_compose(
        resp.content.deep_view(),
        |b: anthropic::wire::ContentBlockModel| anthropic::part_of_block(b),
        |p: ContentPartModel| anthropic::block_of(p),
        |b: anthropic::wire::ContentBlockModel| resent_block(b),
    );
}

/// Anthropic: system messages never reach the message list; every message sent is a
/// "user" or "assistant" message.
pub proof fn law_anthropic_no_system_messages(r: ChatRequestModel, stream: bool)
    ensures
        forall|i: int|
            0 <= i < anthropic::request_for(r, stream).messages.len() ==> {
                let role = #[trigger] anthropic::request_for(r, stream).messages[i].role;
                role == "user"@ || role == "assistant"@
            },
{
    lemma_filter_map_all(
        r.messages,
        |m: MessageModel| anthropic::wire_message(m),
        |w: anthropic::wire::MessageModel| w.role == "user"@ || w.role == "assistant"@,
    );
}

/// Anthropic: no empty text block is ever sent.
pub proof fn law_anthropic_no_empty_text(parts: Seq<ContentPartModel>)
    ensures
        forall|i: int|
            0 <= i < anthropic::blocks_of(parts).len() ==> (#[trigger] anthropic::blocks_of(
                parts,
            )[i] matches anthropic::wire::ContentBlockModel::Text { text } ==> text.len() > 0),
{
    lemma_filter_map_all(
        parts,
        |p: ContentPartModel| anthropic::block_of(p),
        |b: anthropic::wire::ContentBlockModel|
            (b matches anthropic::wire::ContentBlockModel::Text { text } ==> text.len() > 0),
    );
}

/// The tool result that an Anthropic `tool_result` block carries.
pub open spec fn sent_tool_result(b: anthropic::wire::ContentBlockModel) -> Option<ToolResultModel> {
    match b {
        anthropic::wire::ContentBlockModel::ToolResult { tool_use_id, content, is_error } => Some(
            ToolResultModel { tool_use_id, content, is_error },
        ),
        _ => None,
    }
}

/// Anthropic tool results: the `tool_result` blocks sent for a list of parts carry
/// exactly the tool results of the parts, in order and unchanged: the id of the call each
/// answers, its content, and whether it is an error.
pub proof fn law_anthropic_tool_results_sent(parts: Seq<ContentPartModel>)
    ensures
        filter_map(
            anthropic::blocks_of(parts),
            |b: anthropic::wire::ContentBlockModel| sent_tool_result(b),
        ) == tool_results_of(parts),
{
    lemma_filter_map_compose(
        parts,
        |p: ContentPartModel| anthropic::block_of(p),
        |b: anthropic::wire::ContentBlockModel| sent_tool_result(b),
        |p: ContentPartModel| part_tool_result(p),
    );
}

/// The finish of a streamed Anthropic turn: the `message_delta` event that carries a stop
/// reason ends the stream with the stop reason that a whole response with that stop
/// reason reports.
pub proof fn law_anthropic_stream_stop_reason(resp: anthropic::wire::Response)
    ensures
        anthropic::stream_action(
            Ok(anthropic::wire::StreamEvent::MessageDelta { stop_reason: resp.stop_reason }),
        ) == SseActionModel::<StreamEventModel>::Yield(
            Ok(StreamEventModel::Done(anthropic::response_for(resp).stop_reason)),
        ),
{
}

/// Anthropic stop reasons: "end_turn", "max_tokens" and "tool_use" are the end of a turn,
/// the token limit and a tool call; any other reason is kept as it is. The same holds of
/// the end of a stream.
pub proof fn law_anthropic_stop_reasons(r: String)
    ensures
        anthropic::stop_reason_of(r@) == StopReasonModel::EndTurn <==> r@ == "end_turn"@,
        anthropic::stop_reason_of(r@) == StopReasonModel::MaxTokens <==> r@ == "max_tokens"@,
        anthropic::stop_reason_of(r@) == StopReasonModel::ToolUse <==> r@ == "tool_use"@,
        anthropic::stop_reason_of(r@) is Unknown ==> anthropic::stop_reason_of(r@)
            == StopReasonModel::Unknown(r@),
        anthropic::stream_action(
            Ok(anthropic::wire::StreamEvent::MessageDelta { stop_reason: Some(r) }),
        ) == SseActionModel::<StreamEventModel>::Yield(
            Ok(StreamEventModel::Done(anthropic::stop_reason_of(r@))),
        ),
{
    reveal_strlit("end_turn");
    reveal_strlit("max_tokens");
    reveal_strlit("tool_use");
    assert("end_turn"@ != "max_tokens"@) by {
        assert("end_turn"@.len() != "max_tokens"@.len());
    }
    assert("end_turn"@ != "tool_use"@) by {
        assert("end_turn"@[0] != "tool_use"@[0]);
    }
    assert("max_tokens"@ != "tool_use"@) by {
        assert("max_tokens"@.len() != "tool_use"@.len());
    }
}

/// The finish of a streamed OpenAI turn: a chunk without usage whose first choice carries
/// a finish reason ends the stream with the stop reason that a whole response whose first
/// choice has that finish reason reports.
pub proof fn law_openai_stream_stop_reason(
    data: Seq<char>,
    chunk: openai::wire::StreamChunk,
    resp: openai::wire::Response,
)
    requires
        trim(data) != openai::done_marker(),
        chunk.usage is None,
        chunk.choices@.len() > 0,
        chunk.choices@[0].finish_reason is Some,
        resp.choices@.len() > 0,
        resp.choices@[0].finish_reason == chunk.choices@[0].finish_reason,
    ensures
        openai::stream_action(data, Ok(chunk)) == SseActionModel::<StreamEventModel>::Yield(
            Ok(StreamEventModel::Done(openai::response_for(resp).stop_reason)),
        ),
{
}

/// OpenAI finish reasons: "stop", "length" and "tool_calls" are the end of a turn, the
/// token limit and a tool call; any other reason is kept as it is.
pub proof fn law_openai_stop_reasons(r: Seq<char>)
    ensures
        openai::stop_reason_of(r) == StopReasonModel::EndTurn <==> r == "stop"@,
        openai::stop_reason_of(r) == StopReasonModel::MaxTokens <==> r == "length"@,
        openai::stop_reason_of(r) == StopReasonModel::ToolUse <==> r == "tool_calls"@,
        openai::stop_reason_of(r) is Unknown ==> openai::stop_reason_of(r)
            == StopReasonModel::Unknown(r),
{
    reveal_strlit("stop");
    reveal_strlit("length");
    reveal_strlit("tool_calls");
    assert("stop"@.len() != "length"@.len());
    assert("stop"@.len() != "tool_calls"@.len());
    assert("length"@.len() != "tool_calls"@.len());
}

/// OpenAI reasoning: whatever the tool calls of the first choice, the response's first
/// reasoning is the non-empty `reasoning_content` of its message (so
/// `ChatResponse::reasoning` returns it) and its first text is the non-empty `content`;
/// non-empty reasoning is the response's first part.
pub proof fn law_openai_reasoning_first(resp: openai::wire::Response)
    requires
        resp.choices@.len() > 0,
    ensures
        ({
            let msg = resp.choices@[0].message;
            let parts = openai::response_for(resp).content;
            &&& first_of(reasonings(parts)) == nonempty_text(msg.reasoning_content)
            &&& first_of(texts(parts)) == nonempty_text(msg.content)
            &&& nonempty_text(msg.reasoning_content) matches Some(r) ==> parts.len() > 0
                && parts[0] == ContentPartModel::Reasoning(r)
        }),
{
    let msg = resp.choices@[0].message;
    let r = openai::nonempty_part(msg.reasoning_content, true);
    let t = openai::nonempty_part(msg.content, false);
    let u = match msg.tool_calls {
        Some(tcs) => tcs@.map_values(
            |tc: openai::wire::ToolCall| ContentPartModel::ToolUse(openai::tool_use_of_call(tc)),
        ),
        None => Seq::empty(),
    };
    let parts = openai::response_for(resp).content;
    assert(parts == r + t + u);
    let ft = |p: ContentPartModel| part_text(p);
    let fre = |p: ContentPartModel| part_reasoning(p);
    lemma_filter_map_concat(r + t, u, ft);
    lemma_filter_map_concat(r, t, ft);
    lemma_filter_map_concat(r + t, u, fre);
    lemma_filter_map_concat(r, t, fre);
    lemma_filter_map_empty(u, ft);
    lemma_filter_map_empty(u, fre);
    lemma_filter_map_empty(r, ft);
    lemma_filter_map_empty(t, fre);
    match msg.content {
        Some(c) => if c@.len() > 0 {
            assert(t == seq![ContentPartModel::Text(c@)]);
            assert(t.drop_last() =~= Seq::<ContentPartModel>::empty());
            assert(ft(t.last()) == Some(c@));
            assert(filter_map(t.drop_last(), ft) == Seq::<Seq<char>>::empty());
            assert(filter_map(t, ft) =~= seq![c@]);
        } else {
            assert(t =~= Seq::<ContentPartModel>::empty());
        },
        None => {},
    }
    match msg.reasoning_content {
        Some(c) => if c@.len() > 0 {
            assert(r == seq![ContentPartModel::Reasoning(c@)]);
            assert(r.drop_last() =~= Seq::<ContentPartModel>::empty());
            assert(fre(r.last()) == Some(c@));
            assert(filter_map(r.drop_last(), fre) == Seq::<Seq<char>>::empty());
            assert(filter_map(r, fre) =~= seq![c@]);
            assert(parts[0] == r[0]);
        } else {
            assert(r =~= Seq::<ContentPartModel>::empty());
        },
        None => {},
    }
    assert(texts(parts) == filter_map(parts, ft));
    assert(reasonings(parts) == filter_map(parts, fre));
    assert(filter_map(r + t + u, ft) =~= filter_map(t, ft));
    assert(filter_map(r + t + u, fre) =~= filter_map(r, fre));
}

/// The headers a client sends with a call: its authentication headers (the bearer key for
/// OpenAI; the key and the API version for Anthropic), then every custom header of the
/// client, in order, with its value.
pub proof fn law_call_headers(c: ClientModel)
    ensures
        ({
            let h = call_headers(c);
            let k: int = match c.provider_type {
                ProviderType::OpenAi => 1,
                ProviderType::Anthropic => 2,
            };
            &&& h.len() == k + c.custom_headers.len()
            &&& h.skip(k) == c.custom_headers
            &&& c.provider_type == ProviderType::OpenAi ==> h[0] == ("Authorization"@, "Bearer "@
                + c.api_key)
            &&& c.provider_type == ProviderType::Anthropic ==> h[0] == ("x-api-key"@, c.api_key)
                && h[1] == ("anthropic-version"@, c.api_version.unwrap_or(Seq::empty()))
        }),
{
    let h = call_headers(c);
    match c.provider_type {
        ProviderType::OpenAi => {
            assert(h.skip(1) =~= c.custom_headers);
        },
        ProviderType::Anthropic => {
            assert(h.skip(2) =~= c.custom_headers);
        },
    }
}

/// Custom headers reach the wire: every call of a client built from a provider
/// configuration sends the configuration's custom headers, in order, after the
/// authentication headers.
pub proof fn law_config_headers_sent(client: crate::client::Client, config: LlmProviderConfig)
    requires
        client.spec_from_config(config),
    ensures
        ({
            let k: int = match config.provider_type {
                ProviderType::OpenAi => 1,
                ProviderType::Anthropic => 2,
            };
            call_headers(client@).skip(k) == config.custom_header.pair_list()
        }),
{
    law_call_headers(client@);
}

} // verus!
