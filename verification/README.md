# warp_tui

Verified core of Warp's headless terminal-UI frontend.

- `src/args.rs` — the frontend's command line (`--prompt`, `--conversation-id`),
  its parser, and the environment variables that carry it to the app.
- `src/recording_controller.rs` — the registry of in-progress screen
  recordings with its single-recording slot.
- `src/computer_use.rs` — the recording and action backends of platforms
  without computer-use support.
- `src/conversation_selection.rs` — conversation ids, the next-prompt target,
  and lookups over a surface's conversations.
- `src/tui.rs` — start-up and login decisions, the per-surface conversation
  model (prompt routing as a state machine, history-event filtering) and the
  prompt-streaming surface.
- `src/text.rs` — string equality, prefix test.

`app/` holds the UI-framework plumbing that performs the actions these
functions decide on.
