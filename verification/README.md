# winforge

The verified core of the WinForge tools for Windows: a shell-extension
runner that forwards Explorer context-menu commands over a named pipe, a
desktop application whose worker threads convert PDF pages to JPEG, and a
background service that records commands in SQLite and serves them over HTTP.

- `src/` is the library, verified with Verus: framing of pipe messages
  (`ipc_message`), start of the IPC server (`ipc_server`), command routing
  (`commands`), the records exchanged (`payload`) and their identifiers
  (`digest`), the folders API (`folders`), PDF job naming (`pdf`), the desktop
  commands (`desktop`), the shared job queue (`work_queue`) and text helpers
  (`text`).
- `app/` holds the three programs around it: pipes, files, SQLite, HTTP
  routes, PDF rendering and the Tauri shell.
- `tests/` runs the library on concrete values.
