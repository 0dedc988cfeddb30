# Lorekeeper

A long-term memory bank for coding agents, served over MCP (stdio) and stored
in SQLite with FTS5 full-text search. Agents store typed entries (DECISION,
COMMIT, PLAN, STUB, …), search and list them, update them under role and
status rules, and ask for a health report of the bank.

## Layout

- `src/` — the library, verified with Verus:
  - `model/` — entry types and their roles, the entry records, the JSON
    metadata model with its schema checks and pretty printer, and the
    validation rules (role enforcement, metadata schemas, the PLAN and STUB
    status machines, links between entries);
  - `store/` — what the repository decides around its queries: the entry it
    stores, the merge it writes on update, what a fetch or delete answers,
    the statistics, the duplicate-search query and the reflect report;
  - `render.rs` — the Markdown dump of the bank;
  - `server/` — the tool catalogue, tool names and defaults, and help texts;
  - `project.rs` — choosing the project root among the directories upward.
- `tests/` — tests of the library.
- `app/` — the server program: SQLite access, configuration file, the MCP
  handler and the serde forms of the library's types.

The database lives at `<PROJECT_ROOT>/.lorekeeper/memory.db`, its settings in
`<PROJECT_ROOT>/.lorekeeper/config.toml`.
