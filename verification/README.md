# systemd-tui, verified core

A terminal browser for systemd units. The library under `src/` holds everything
the browser decides, verified with Verus; `app/` holds the program around it
(terminal drawing, key input, the D-Bus connection, SSH and journal processes).

- `units`: unit load/active states, one unit of the manager's listing, how a unit
  is shown, and the stable sort by name.
- `app`: the browser's state (`App`, its model `AppView`) and every transition:
  key presses, a new unit list, new logs, outcomes of unit actions.
- `laws`: properties across calls (key cycles, visible rows, selection kept across
  a refresh, help and filter keys).
- `actions`, `bus`, `manager`, `cli`: what each manager call, connection and
  external command is made of.
- `view`: the header, panel titles, scroll limits and help text.
- `text`: character-level string helpers and the std string calls they rest on.
