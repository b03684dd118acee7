# chat_rs

A multi-provider chat library whose logic is verified with Verus: the message
model, the JSON wire formats of the Gemini and OpenAI Responses APIs, the
circuit breaker and provider router, and the decision loops of a chat (tool
calls, steps, retries, streaming). Each function states its result in a
contract over mathematical models (`Seq`, `Map`, views of the data types), and
the laws that span several functions are proved as public proof functions.

Layout:

- `src/` — the verified library.
  - `json.rs` — JSON documents and their view; reading and writing JSON text
    through `serde_json`.
  - `messages/` — text, files, parts, messages and conversations.
  - `metadata.rs`, `error.rs`, `tools.rs` — usage, provider reports, errors, tool calls.
  - `router/` — circuit breaker and the routing decisions, with their laws.
  - `chat.rs` — the call loop, retry loop and streaming loop as state machines.
  - `gemini/` — Gemini request bodies, response parsing, tools, builder, laws.
  - `openai/` — OpenAI roles and parts, native tools, embedding requests, stream
    state, and the type-state client builder.
  - `wire/` — Responses API requests, error mapping, endpoints, request chaining,
    and the type-state Responses client builder.
  - `openrouter.rs` — the OpenRouter builder over the Responses client.
  - `options.rs` — sampling settings of a request.
  - `clock.rs`, `urls.rs`, `decimal.rs`, `chars.rs`, `transport.rs`,
    `wire/encoding.rs` — the trusted wrappers over `std`, `url`, `base64` and
    `reqwest`; those over `serde_json` are in `json.rs`, over `tools_rs` in
    `tools.rs`, and the remaining `std` ones beside their callers
    (`messages/file.rs`, `messages/parts.rs`, `wire/http.rs`).
- `tests/` — tests of the library.
- `app/` — the program around it: HTTP calls, async drivers of the loops and
  routers, serde forms, environment keys, file reading, floating-point
  embeddings.
