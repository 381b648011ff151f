# hexatalk

The core of the HexaTalk desktop messenger, verified with Verus.

`src/` is a library without I/O. The client's state machine takes a message and
the time, changes the state, and hands back effects for the outside world:
backend calls, commands to the live channels, notifications, files. Everything
it decides -- what is sent where, what is encrypted first, what closes with
Escape -- is stated in contracts and proved.

| Path | What it holds |
|------|---------------|
| `src/state/` | The state of the client and its update loop, one file per part of the screen; `laws.rs` states what holds of the loop as a whole |
| `src/ui/` | Rows that the screens show, mentions, times, colors and the theme |
| `src/update_check.rs`, `src/delta.rs`, `src/versions.rs` | The self-update: what each download leads to, update packages and their signatures |
| `src/primitives.rs`, `src/clock.rs` | Functions of other crates and of std, with what the proofs rely on |
| `src/text.rs`, `src/strmap.rs`, `src/paths.rs`, `src/hex.rs` | Texts, maps with text keys, paths |
| `src/tray.rs` | The tray icon's picture and reactions |
| `tests/` | Scenarios on concrete values |
| `app/` | The desktop shell: network, disk, tray, dialogs, timers and widgets |

The effects that need other parts of the product -- parsing of backend rows,
the live channels, media, the window -- reach them through `app/host.rs`.
