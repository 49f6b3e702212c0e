# self_llm

A unified chat model for OpenAI-compatible and Anthropic-compatible providers, verified
with Verus.

- `src/` — the verified library.
  - `types.rs`: the provider-agnostic request/response types and their models.
  - `openai/`, `anthropic/`: each provider's wire format (`wire.rs`) and the
    conversions between it and the unified types, including the stream-event parsers.
  - `sse.rs`: Server-Sent Events framing and the event-stream state machine.
  - `client.rs`: the client and the HTTP call a chat request becomes.
  - `config.rs`: model and provider configuration, custom headers.
  - `json.rs`, `text.rs`: JSON text (through `serde_json`) and character helpers.
  - `laws.rs`: properties that span several functions.
- `app/` — the transport: JSON encoding of the wire types, the HTTP calls
  (`reqwest`), the event-stream loop, and process-wide configuration identifiers.
- `tests/` — tests of the library on concrete values.

JSON values (tool arguments, tool parameter schemas) are held as JSON text; `f32`
sampling parameters as their bit patterns (`F32Bits`).
