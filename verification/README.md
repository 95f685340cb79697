# simple_codex

A minimal model-client / app-server pipeline with a verified core.

A prompt (system instructions plus conversation items) becomes either an
OpenAI Responses-API request or a chat-completions request; the provider's
server-sent events are decoded into typed response events; and an HTTP+SSE
server (`POST /v1/chat`) relays a turn back as `task_started`,
`agent_message_delta`, `agent_message`, `task_complete` and `error` events.

## Layout

- `src/` — the library, verified with Verus:
  - `types.rs` — prompt, conversation items, stream events, wire payloads, `ApiError`
  - `config.rs` — the configuration and the resolution of the active provider
  - `client.rs` — the model client: request bodies, URLs, headers, status handling
  - `sse.rs` — the decisions of the Responses-API and chat-completions SSE pumps
  - `protocol.rs`, `state.rs`, `transport.rs` — the app server's contract, state and turn relay
  - `text.rs` — text helpers (trimming, equality, concatenation)
  - `json.rs` — the opaque JSON values carried through
  - `laws.rs` — properties across functions, proved
- `app/` — the program: configuration loading, the HTTP client and the SSE
  pumps' loops, the axum server, and the serde forms of the library's types.
- `tests/` — tests of the library on concrete values.

Run the server with `config.toml` in the working directory; pass `--hello`
for a single console round-trip instead.
