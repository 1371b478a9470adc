# axum_apcore

Axum integration for the apcore ecosystem, with its decision logic written
in Verus and proved against its contracts.

## Layout

- `src/` — the verified library.
  - `args.rs`, `cli.rs` — reading the command line, and what each command
    decides and prints (tag lists, output and export formats, server
    address, task table).
  - `config.rs` — settings, their defaults, `APCORE_*` overrides and
    validation.
  - `context.rs` — request identities and trace headers to apcore contexts.
  - `engine/` — module-id validation and binding documents, observability
    set-up, and the task manager with its laws.
  - `scanner/` — the native and OpenAPI scanners, id de-duplication and
    filtering.
  - `client.rs` — scanner choice, handler lookup, timeout text, MCP server
    set-up.
  - `json.rs`, `text.rs`, `errors.rs` — JSON documents as plain values,
    string helpers, the error type.
- `app/` — the runtime around it: process environment, global registries,
  the Axum extractor, binding files on disk, the apcore executor, MCP and the
  command line's input and output.
- `tests/` — tests of the library.

Calls into apcore, apcore-toolkit, apcore-mcp, regex, serde_json,
serde_yaml and chrono stand behind small trusted functions. Each one's doc
comment names the call it makes; its contract states what can be stated of
the result (some results, such as a fresh cancel token or metrics
collector, are opaque and have no `ensures`).
