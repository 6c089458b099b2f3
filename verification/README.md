# luneweb

LuneWeb runs Luau scripts that open windows and web views. This crate holds
its logic as a verified library (`src/`), checked with Verus, and the program
around it (`app/`).

- `src/path.rs` — `require` paths: aliases, the `./`/`../` rule, cleaning
  (through `path_clean`) and the `.luau` extension.
- `src/response.rs` — Lua handler results as HTTP responses: header and
  status checks (through `http`).
- `src/windows.rs`, `src/app.rs` — the event loop's state: windows and their
  visibility, Lua threads, their results and the senders waiting for them,
  and when the loop stops.
- `src/event_loop.rs`, `src/connection.rs`, `src/webview.rs`,
  `src/message.rs` — the decisions of the Lua libraries: event dispatch,
  custom protocols, start scripts, page messages.
- `src/config.rs`, `src/scheduler.rs`, `src/libraries.rs`, `src/ctx.rs` —
  configuration defaults, thread counts, library names, context builder.
- `app/` — the program: the Lua runtime (`mlua`), windows (`tao`) and web
  views (`wry`). Its event loop follows the library's window and thread
  decisions; it uses only part of the library (no command line, no
  event-loop, window or message Lua libraries).
- `tests/` — tests of the library on concrete values.
