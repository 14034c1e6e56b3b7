# cotrex

Cotrex is a local developer execution engine: commands run through RTK with their output
normalized, free-text tasks go to an agent that runs commands and built-in tools before it
answers, and other agents reach it as an MCP server over stdio.

## Layout

- `src/` — the library, verified with Verus. Every public function states its result in its
  contract; the laws that span several calls are public proof functions.
  - `text`, `order`, `json` — character-sequence helpers, the lexicographic order, and a
    one-level model of JSON values parsed by `serde_json`.
  - `agent/` — prompts and decisions (`prompt`), the built-in tools (`tool`), the agent loop as a
    state machine (`session`), and model qualification (`qualify`).
  - `mcp` — the JSON-RPC protocol: requests, replies, tool routing and tool results.
  - `stream`, `normalize`, `plan`, `prompt`, `config`, `install_agent`, `ai_runtime`,
    `kernel/git`, `commands/` — the stream reader, output normalization, stack plans, category
    prompts, settings, agent skills, AI results, git snapshots, model files and system checks.
- `app/` — the program around the library: the command line, files, processes, HTTP, terminal
  output and the serializable copies of the library's types.
- `tests/` — tests of the library's public functions.

Outside crates are reached from `src/` only through small wrappers whose contracts name what
the crate computes (`serde_json`, `regex`, `markdown-to-ansi`).
