# cunzhi

The logic of the cunzhi assistant tools, written in Verus with its behaviour
stated in contracts and proved.

- `src/workflow/`: the workflow model, the built-in workflow, the evaluation of
  a task (complexity and suggested or skipped steps), the choice between a
  custom and the built-in workflow, the rules text, and the laws that every
  hint obeys (`laws.rs`).
- `src/workflow_mcp/`: the guidance server's instructions, tools and hints.
- `src/mcp/handlers/popup.rs`: the popup retry session, the per-project lock
  and timer state, the project key and lexical path normalization.
- `src/mcp/ipc/`: the daemon protocol: messages, routing and replies.
- `src/app/cli.rs`: the popup program's command line.
- `src/text.rs`: string primitives with their specifications.
- `app/`: file, process, network and MCP plumbing around the library.
- `tests/`: behaviour on concrete inputs.
