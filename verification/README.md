# llm_daemon

Starts a local LLM server (llama.cpp, a llamafile, or mlc-llm) in a background
daemon only when a program needs it, and stops it again once no client has
sent a heartbeat for a while (30 seconds for llama.cpp servers).

Layout:

- `src/` — the verified library (Verus). It decides the daemon's files and
  port, the server's command line, where the server binary lies, the URLs of
  the server, and — in `supervisor.rs` — when the daemon shuts its server
  down. `supervisor.rs` also proves that a daemon fed only heartbeats and idle
  ticks shuts down exactly when it has been quiet for its idle period.
- `app/` — the I/O around it: forking with `daemonize`, the tokio event loop
  that feeds the supervisor, spawning the server, heartbeats and pings.
- `tests/` — tests of the library.
