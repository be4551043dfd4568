# panes

panes is a keyboard- and menu-driven window manager for macOS and Windows:
global hotkeys and a tray menu run window commands such as Left Half,
Maximize or Restore on the focused window.

## Layout

- `src/` is the verified library. Each module states what its functions do
  in `requires`/`ensures` contracts over mathematical models (`Seq`, `Map`,
  `Set`, integers), and Verus proves them:
  - `command`: the commands, their stable ids, labels and categories;
  - `cli`: the command-line modes and the one-line failure records;
  - `config`: resolving the `[hotkeys]` and `[commands]` sections;
  - `platform`: default hotkeys and menu, shared values and errors;
  - `hotkeys`: reading accelerators as global hotkeys, and finding the
    command behind a pressed hotkey or a chosen menu item;
  - `pending`: the bounded, run-length encoded queue of hotkey presses;
  - `history`: per-window restore rectangles and last commands, window
    identities and the recently used windows;
  - `login`: launch-at-login decisions and the state machines that toggle
    and reconcile it;
  - `failure`, `accessibility`, `navigation`, `geometry`, `tray`, `text`.
- `tests/` runs the library on concrete values.
- `app/` is the program around the library: argument handling, loading the
  configuration file, the `f64` layout and command executor, and the macOS
  and Windows adapters.
