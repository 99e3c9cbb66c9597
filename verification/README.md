# cfr_decompiler_gui

A desktop front end for the CFR Java decompiler, split in two:

- `src/` is the verified library (Verus). It holds the front end's state
  (chosen paths, run status, console, whether a worker is listened to) and
  every decision on it: what starting a run does, what each worker message
  does, what clearing the console does, which buttons are active, how console
  lines are coloured, which command runs the decompiler and which message the
  worker sends for each outcome of the subprocess.
  - `app.rs`: the state machine `DecompilerApp` and its laws.
  - `worker.rs`: the decompiler command, the jar-rewrite decision, the worker's step function and messages.
  - `message.rs`, `status.rs`, `console.rs`: messages, run status and pill, line kinds.
  - `palette.rs`: the colours that the state decides.
  - `text.rs`: character-level string helpers (prefix, blank, join).
- `app/main.rs` is the egui window, the file dialogs, writing the embedded
  jar to disk, and the worker thread; it asks the library for every decision
  that depends on the state (the fixed styling of the window stays there).
- `tests/` runs the library on concrete values.
