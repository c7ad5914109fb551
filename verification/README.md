# console_ui

The layout, hit-testing and status logic of a terminal system monitor's user
interface, verified with Verus:

- `src/geometry.rs`: terminal-cell rectangles.
- `src/text.rs`: clipping text to a number of terminal cells, decimal formatting.
- `src/header.rs`: the header bar's headings, their layout, overflow into the
  More heading, and hit-testing.
- `src/status.rs`: the header's status line (activity, interval, stale and pause
  badges, profile badge, log name) and its clipping.
- `src/main_menu.rs`: the drop-down main menu: shortcuts, width, anchoring,
  scrolling, hit-testing and row text.
- `src/context_menu.rs`: context-menu placement, scrolling, hit-testing and rows.
- `src/cpu_cores.rs`: the per-core CPU dialog's grid and lines.
- `src/app.rs`, `src/help.rs`: status-line feedback expiry, the contextual help
  title and the help page's keyboard and mouse handling.

Text widths come from ratatui (`Span::width`, `Line::width`); everything else is
proved. `app/` holds the ratatui/crossterm glue that draws what the library
computes.
