# chibi_core

The core logic of chibi, a small building block for LLM conversations:
persistent contexts, built-in tools, a plugin and hook system. The library is
written in Verus; each public function carries a contract that Verus proves.

## Layout

- `src/` — the verified library.
  - `json.rs`, `text.rs`, `error.rs` — JSON values and their mathematical
    form, character-level text helpers (lines, ordering),
    the error type.
  - `state/` — transcript entries and JSONL decoding, the conversion between
    entries and chat messages, the context window rebuilt from the
    transcript, task summaries, flock prompt sections, the chibi home layout
    and the bookkeeping of known contexts (`state.json`).
  - `tools/` — the built-in tool tables and their JSON schemas, the tool
    registry, hook points and their documentation, and the pure parts of
    each tool: argument reading, file edits, grep, directory listings, the
    size-limited URL body, MCP bridge replies.
- `app/` — what the library leaves to its caller: files, processes, the
  network. It hands the library plain values and acts on its answers.
- `tests/` — tests of the library on concrete values.

Calls into `serde_json`, `regex`, `uuid` and `indexmap`, and the system
clock, stand behind small trusted wrappers whose contracts say what those
crates and std document.

`state/save_load.rs` proves that saving a conversation and loading it back
gives the same messages: roles, contents, tool calls and the ids that tool
results answer.

Left out: reading configuration (`config.toml`, `models.toml`, per-context
local config and the resolution between them) and reading `.task` files as
text. Both rest on modules and crates that are not part of this library
(the configuration types and a TOML reader; the s-expression reader). The
task logic starts from the datums the reader gives (`task_meta_from_datums`).
The shared file space (`vfs://` paths, flocks, tool caches) is likewise
provided by the caller.
