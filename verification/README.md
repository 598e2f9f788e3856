# reveal_winui

Verified control logic for a desktop widget kit: the decisions a control makes from its
state and input, proved with Verus.

- `src/` — the verified library. Each module models one family of controls with plain values
  (enums, flags, indices, identities) and states its behaviour in `ensures` clauses over spec
  functions; the laws that relate several operations are public proof functions.
  - `placement`: flyout and tooltip sides, their fallback order, edge alignment, point placement.
  - `grid`: cell clamping, the unit types a cell spans, measure groups and the measure order.
  - `split_view`: the settled and transitioning layout of each pane display mode.
  - `tab_strip`, `tab_header`: selection moves, reordering, drag and drop previews, focus order,
    selection reconciliation, key handling and header chrome.
  - `menu`: input devices, menu item keys and invocation, presenter keys, submenus.
  - `buttons`, `slider`: common visual states, toggle cycles, split and repeat buttons, toggle
    switches, slider keys and pointer states.
  - `navigation`: pane chrome, item presenter layout, the primary/overflow partition.
  - `status`: info badge display kinds and the info bar's open/close protocol.
  - `tool_tip`, `tool_tip_service`: tooltip delays, keys, pointer policy, placement choices,
    and the service that owns the active tooltip and its timers.
  - `text_edit_menu`: the text context menu's commands and accelerators.
- `tests/` — tests of the library on concrete values.
- `app/` — logical-pixel geometry and timing (flyout and tooltip positions, grid sizes, the top
  navigation width policy, split view and indicator tweens) built on the library's decisions.
