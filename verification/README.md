# cage-bro

A sandboxed execution environment for AI agents: a workspace jail for file
operations, isolated command execution (resource limits and Landlock), terminal
sessions, a headless browser, Jupyter kernels, an E2B-compatible lifecycle API
and an MCP server.

## Layout

- `src/` — the library, verified with Verus. Its public functions state their
  behaviour in `requires`/`ensures`; where the answer comes from the disk, a
  contract names the questions asked (`disk`) and what follows from each
  answer. The laws the system relies on are proof functions or contracts:
  - `disk` — probes of the disk, each recording the path it asked;
  - `path`, `filesystem` — lexical path normalization and the workspace jail
    (`lemma_resolved_path_in_jail`, `lemma_resolve_idempotent`; a resolved
    path's real location, symbolic links followed, must lie in the real
    root), in-memory edits;
  - `search` — the content search walk, its optional limit, and what it finds
    (`lemma_search_finds_matching_lines`);
  - `isolation`, `capture` — the isolation policy (resource limits, Landlock
    rules, `lemma_only_workspace_and_shared_paths_writable`) and bounded output
    capture;
  - `runtime`, `sandbox`, `ids` — the sandbox and snapshot registry
    (`lemma_restore_keeps_configuration`, `lemma_restored_workspace_is_new`);
  - `mcp` — JSON-RPC routing, the tool catalogue and tool-call plans
    (`lemma_listed_tools_are_callable`), reply texts;
  - `shell`, `code`, `browser`, `cdp`, `e2b`, `setup`, `config` — command
    lines and terminals, kernels, browser control and the DevTools call book,
    lifecycle API helpers, browser installation, configuration;
  - `assets` — the dashboard's asset keys and content types.
- `app/` — the server program around the library: HTTP routes, the MCP
  transports, process spawning, PTYs, sockets and the filesystem.
- `tests/` — tests of the library on concrete values.
