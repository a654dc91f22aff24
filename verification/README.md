# storageshower

A disk-usage monitor for the terminal: a live table of the mounted file systems with
usage bars, sorting, filtering, bookmarks, a directory drill-down, themes, tooltips
and a command line to set it all up.

## Layout

- `src/` is the library, verified with Verus. It holds the application state and
  every decision of the interface: what a key press or a mouse event does
  (`keys`, `mouse`), the sorted and filtered disk listing (`app`, `order`), the
  command-line grammar and how its flags override the saved preferences (`cli`,
  `prefs`), the palettes and themes (`palette`, `listing`), column widths and
  human-readable sizes (`columns`, `helpers`), the tooltips and the export report
  (`tooltips`, `report`), calendar arithmetic (`system`), and the parsers of the
  system's tables and reports (`tables`). Each public function states what it
  returns or changes in its `requires`/`ensures`; `laws` states and proves the
  properties that span several calls.
- `tests/` runs the library on concrete inputs.
- `app/` is the program around the library: the terminal (crossterm, ratatui), the
  collection of mounts and host figures (libc, sysinfo), the configuration file
  (serde, toml, dirs), the clipboard helpers, and the figures with fractions
  (percentages, rates, latencies), which stay in floating point.

## Checking

The library is checked with `verus` on `src/lib.rs`; the tests and the program are
ordinary Rust built against it.
