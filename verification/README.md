# cmux

The model of the cmux terminal multiplexer for Linux, verified with Verus:
workspaces of terminal panels arranged in split layouts, the metadata that
tools report about each panel and what a workspace shows of it, the reducer
for the terminal engine's runtime actions, the v2 socket protocol, the
sidebar's summaries, session snapshots and their restoration, and the
command-line client's requests and output.

## Layout

- `src/` — the library; every function carries a contract that Verus proves.
  - `layout.rs` — the layout tree of panes and splits.
  - `panel.rs`, `workspace.rs`, `workspace_ops.rs` — panels, workspaces and
    their operations; `ordering.rs` orders metadata for display.
  - `tab_manager.rs` — the ordered workspaces of a window and the selection.
  - `ghostty_actions.rs` — the reducer for terminal runtime actions.
  - `protocol.rs`, `commands.rs` — JSON values, parameter parsing and the
    handlers of the v2 socket methods.
  - `session.rs` — snapshots, their restoration and repair, the session
    file's path, and the debounced writer's steps.
  - `sidebar.rs`, `pane_view.rs`, `shortcuts.rs`, `ui_events.rs`,
    `startup.rs` — what the window shows, the keys it answers to, and how
    it handles bursts of events.
  - `cli.rs` — the command-line client's requests and how replies are shown.
  - `ids.rs`, `text.rs` — identities and text helpers.
- `tests/` — tests run against the compiled library.
- `app/` — the command-line client, the JSON (de)serialization of socket
  lines and session files, and the file and socket I/O around the library.
