# crates-tui

A terminal browser for the crates.io registry. The library under `src/` holds
the application's state machine, verified with Verus: paging, the search query
and local filter (word splitting, lower-cased substring matching), the stable
ordering of a page by download count, the results table and its wrapping
selection, popups, key-sequence handling and what every action does.

- `src/app.rs`: the application state, its abstract view and one method per
  action; `handle_action` and `handle_tui_event` dispatch.
- `src/laws.rs`: properties relating several actions (paging round trips,
  scrolling round trips, filtering, popups).
- `src/input.rs`: the text input of `tui-input` and key events of `crossterm`,
  behind trusted wrappers.
- `app/`: the program around the library: command line, terminal, event loop,
  crates.io requests and drawing.
