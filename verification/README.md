# ghostwriter

An MCP server that drafts, rewrites, reviews and composes prose through an
OpenAI-compatible writing model, under one enforced house style. This crate
holds its logic as a Verus-verified library; the server around it is thin.

## Layout

- `src/` — the verified library.
  - `prompts.rs`: the style guides and per-kind instructions, with proofs
    that every guide carries the one banned-vocabulary list and that the
    rewrite and critique guides share one AI-writing pattern block.
  - `config.rs`: layering of defaults, config file and environment, and
    the validation of the merged settings (temperatures are handled as
    `f32` bit patterns).
  - `client.rs`: the server-sent-event reader, the classification of failed
    attempts, the resend policy, and the model-list response.
  - `writer.rs`: payload selection, file capping, and the prompt each tool
    sends or the refusal it answers with.
  - `text.rs`: Unicode trimming, literal comparison, decimal rendering.
  - `decode.rs`: the wrappers around lossy UTF-8 decoding, `{:?}` quoting
    and `serde_json`, whose results the rest of the library names.
- `app/` — the binary: argument handling, file and environment reads, the
  TOML schema, HTTP with reqwest, and the rmcp tool surface.
- `tests/` — tests of the library.
