# tachyon

Verified core of a provider-neutral coding-agent kernel, written in Verus.

- `src/` is the library. Every function in it is verified against its `requires`/`ensures`
  contract; the laws that relate several functions are public proof functions (`lemma_*`).
  - `ir`, `history`, `responses`: the canonical model vocabulary, the conversation-history
    vocabulary and the Responses-shaped compatibility items.
  - `projection`, `stored_history`, `normalize`: lossless projection of compatibility items into
    history, and normalization of tool call/output pairs.
  - `codex_request`, `tool_spec`, `tool_schema`, `event`, `tool_result`, `tools`: conversions
    across the model-runtime boundary (requests and their tool declarations, stream events, tool
    results and tool outputs).
  - `unsupported_media`: replacing image and audio content a model cannot take.
  - `route`, `runtime`, `retry`, `startup`, `provider`: routing, transport fallback, retry and
    startup-preparation decisions, provider URLs.
  - `reconcile`, `web_search`, `mcp`, `text_order`, `data_url`, `ids`, `json`, `text`: smaller
    pieces and shared helpers. `json`, `ids` and `provider` hold the trusted contracts of the
    `serde_json`, `uuid`, `url` and `http` calls the library makes.
- `app/` holds the asynchronous plumbing that carries out the library's decisions (sleeping,
  racing a background task against a deadline).
- `tests/` runs the library on concrete values.
