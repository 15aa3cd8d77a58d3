# hindsight

Hindsight keeps a project's development history — git commits, test runs
and AI-assistant chat sessions — in a SQLite database, and answers
questions about it as an MCP server over stdio.

The crate is written in Verus. `src/` is the verified library: every
function there carries a contract that Verus proves.

- `cli/` — the command line: its grammar as a state machine (`grammar`),
  the parser proved equal to it (`parser`), the configuration built from it
  (`config`) and the laws of the command line (`laws`).
- `testing/` — test outcomes and results, and the reader of cargo-nextest
  reports, batch and streaming, with the law that both agree.
- `git`, `copilot`, `lsp` — commits and diffs, chat sessions, JSON-RPC
  messages.
- `ingest`, `records`, `migrations` — what an ingestion writes, the rows,
  and the schema migrations to run or undo.
- `handlers`, `queries`, `tools` — the tools the server offers, the checks
  on their inputs and the shapes of their answers.
- `runner` — the decisions of the `test` and `ingest` subcommands.
- `text`, `support` — string helpers, and the trusted calls into uuid,
  chrono and serde_json.

`app/` is the program around the library: argument reading, the database,
git, the file system, the subprocess running nextest, logging and the MCP
transport. `tests/` holds the tests.
