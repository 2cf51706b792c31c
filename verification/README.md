# otari

A typed client library for the Otari LLM gateway, written in Verus.

`src/` is the verified library:

- `types/` — messages, tools, completion parameters and responses, stream
  chunks and the accumulator that folds them, moderation, rerank, batch and
  media request types.
- `json.rs` — the JSON model the wire formats are built in.
- `gateway.rs` — the gateway's OpenAI-compatible request body, and the
  conversion of its responses and stream chunks.
- `anthropic.rs` — the Anthropic Messages API request body, response and
  stream-event conversions.
- `client.rs` — how a configuration and the environment resolve to a base URL,
  an authentication mode and a credentials header; how failed responses map to
  typed errors; how JSON and transcription response bodies decode.
- `http_error.rs` — the shared status-to-error table.
- `stream.rs` — what the gateway, Anthropic and raw-event streams do with each
  server-sent event, and what a decoded event becomes.
- `openai.rs` — the OpenAI chat API's request, response and stream-chunk
  forms, and the classification of its error messages.
- `config.rs`, `api.rs`, `provider.rs`, `control_plane.rs`, `error.rs`,
  `text.rs` — configuration, options, provider capability checks, the
  control-plane configuration, error types and text helpers.

`app/` is the HTTP side: it reads the environment, sends requests with
`reqwest`, runs the SSE streams, and carries the serde forms of the library's
types.
