# rewind_overlay

The `/rewind` flow of a terminal coding agent: pick a turn, choose whether the conversation, the
files or both go back to it, look at what a dry run says would move, confirm, and let the shell do
it. Everything that decides something is verified with Verus.

- `src/` — the library.
  - `phase` — what the shell reports, the phases of the overlay, its inputs.
  - `input`, `layout`, `overlay_list` — keys, cursor, rows, heights, hit-testing.
  - `captions`, `theme`, `render`, `screen` — the text of the overlay and how it gets onto a
    ratatui `Buffer`. `screen` holds the trusted items for ratatui.
  - `transcript`, `composer`, `app_state` — the parts of the program's state that the flow reads
    or changes.
  - `points`, `flow`, `answers`, `dispatch` — the flow itself: for one agent as the user drives
    it, for one agent as the shell answers it, and for the program.
  - `laws` — what holds of the flow as a whole.
- `tests/` — the flow, the overlay and the drawing, run on concrete values.
- `app/` — wire formats, crossterm events, and the dimming of an unfocused panel.
