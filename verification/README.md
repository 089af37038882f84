# Codex Voice

Push-to-talk dictation for GNOME: record, transcribe with `codex-asr`, save
the transcript to history, copy it and paste it into the focused window.

## Layout

- `src/` is the verified library. Every decision of the product lives here
  with a contract proved by Verus:
  - `cli.rs` — the command-line grammar and the command lines of the helper
    processes, with the law that they read back as their commands;
  - `settings.rs` — language and shortcut normalisation, GVariant reading,
    the `settings set` plan, and the laws that saved values read back;
  - `protocol.rs`, `runtime_state.rs` — the runtime-state document of the
    desktop protocol;
  - `process_identity.rs` — process identities from `/proc/<pid>/stat`;
  - `session.rs` — runtime files, lifecycle decisions, cancellation and
    cleanup rules, status;
  - `claim_stop.rs`, `start_recording.rs`, `stop_recording.rs` — the session
    as state machines: the executable performs each action and reports what
    happened, the machine decides what comes next; the laws state what every
    session keeps (audio recovery, history before clipboard, rollbacks);
  - `paste_automation.rs`, `product_package.rs`, `transcript_history.rs`,
    `text.rs`, `failure.rs` — the remaining rules and their text helpers.
- `app/` is the executable: files, locks, signals, child processes, SQLite
  and `gsettings`, driving the library's machines.
- `tests/` runs the library on concrete values.
