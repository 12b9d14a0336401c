# codex_gui_ui

The verified core of the Codex desktop shell: the state the UI owns and
every rule that moves it, proved with Verus.

The shell is a reducer. `Shell` holds the UI-owned state (session and
composer, pending image attachments, preview tabs, panels and menus, card
expansion, commit composer, palette, search bar, Quest overlays, MCP
sign-in banner, request-dialog drafts); each event is a method that moves
it to the next state and returns the ordered `Effect`s the application
performs (backend calls, focus moves, clipboard writes, list reloads).
Every transition's contract is a spec function over `ShellView`, so the
state after an event is pinned down exactly.

Layout of `src/`:

- `shell*.rs`: the reducer, by area (files, models, turns, git, quest,
  panels, sessions); `status.rs` projects status notifications; `keys.rs`
  maps key presses to shortcuts; `menu.rs` lists the dropdown rows;
  `requests.rs` pins the request fields the shell sets; `routing.rs`
  decides where a server notification goes.
- `attachments.rs`, `state.rs`, `sets.rs`, `drafts.rs`: the state pieces
  and their invariants (distinct pending images, well-formed preview tabs,
  duplicate-free id sets and draft tables); the selected working-tree rows
  are a `BTreeSet<usize>` through vstd's specification of it.
- `commands.rs`, `command_palette.rs`, `diff_view.rs`, `chat.rs`,
  `plan_view.rs`, `board.rs`, `preview.rs`: the pure helpers behind the
  views (slash commands, palette filter, diff classification and cap,
  transcript rows, relative times, plan text, board filter and project
  tabs, preview classification).
- `text.rs`, `paths.rs`: character-level helpers and the few std calls
  (`Path`, `to_lowercase`, `String::push`) the library trusts.
- `laws.rs`: properties that span operations.

`app/` holds what stays outside the proofs: the clock, file reads, the
float-formatted labels, pacing logs, and JSON projections of server
replies.
