# smolvm-tray

System-tray controller for a local smolvm microVM running the "kite"
workload (kitewright MCP on 8090, CDP chromium console on 9222).

- `src/` is the verified library (Verus). The tray worker is a state machine
  (`worker.rs`, specified in `model.rs`, with its properties proved in
  `laws.rs`): the caller performs each request (run a smolvm command, probe a
  port, sleep, read the clock, wait for a menu message) and hands the answer
  back; the worker decides everything else. The other modules hold the
  smolvm command lines and how their output is read (`smolvm.rs`), the probe
  request and answer reading (`net.rs`), log layout and stamps (`log.rs`,
  `notes.rs`), what the tray shows (`tray.rs`, `state.rs`), configuration
  choices (`config.rs`), autostart texts and the lockfile (`platform.rs`),
  and text helpers (`text.rs`).
- `app/` is the program around it: the Slint tray UI, icon painting,
  processes, sockets, files, registry and the single-instance guard.
- `tests/` exercises the library.
