# mini_coding_agent

A coding-agent runtime for the DeepSeek chat-completions API: an interactive
shell with persistent sessions, a model/tool loop with budgets and a
no-progress guard, context compaction, and six tools (shell, read_file,
edit_file, calculator, search, todo).

The library under `src/` holds the runtime's decisions and data, each function
with a contract proved by Verus:

- `commands`, `repl`: reading shell input (slash commands, paste mode), session
  titles, resuming a session, the shell's texts.
- `agent`, `batch`, `context`: the agent loop's budgets, compaction planning,
  what a model reply asks for, the no-progress guard, preparing a tool batch,
  deciding how it runs, and one result per call in the model's order.
- `model`, `json`: the chat protocol's messages, requests, responses and tool
  outputs with their JSON wire forms.
- `tools`: argument checking, effects and result building of each tool, the
  `Tool` trait and a registry that finds tools by name.
- `llm`: the endpoint, the retry policy and reading a completion.
- `config`, `paths`, `memory`, `permission`, `renderer`, `error`, `text`:
  settings and API-key lookup, paths, the session store's schema, permission
  modes, console lines, errors, and character-level helpers. `resolve_on`
  resolves a tool's path with what the platform's `Path` says of it;
  `resolve` and `join_path` follow the rules of Unix-like systems.

The program under `app/` performs the I/O around it: the command line,
SQLite, HTTP, the file system and processes, the terminal and the credential
store.
