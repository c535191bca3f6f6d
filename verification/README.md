# marketmaker_iced

A scalper trading terminal (order book, cluster, tick and bubble charts, tape)
built with iced. The logic that decides things is a Verus-verified library in
`src/`; the iced application around it is in `app/`.

`src/`:
- `message` — panel identities, order sides.
- `panel_map` — a map keyed by panel identity.
- `layout` — sub-panel order, visibility, widths, drag-and-drop reordering and
  divider resizing of a trading panel.
- `settings` — settings keys of panels; saving and restoring a panel layout.
- `dashboard` — a grid of cells holding trading panels.
- `workspace` — the set of dashboards, the active one and the focused cell;
  window title and symbol normalisation.
- `price_axis` — follow-mode transitions of the price axis.
- `hotkeys` — decoding of key presses.
- `picker` — symbol filtering and warnings of the instrument picker.
- `tape` — `HH:MM:SS` formatting of trade times.
- `ws` — decisions of the market-data connection loop.
- `text` — string helpers.

`app/` holds what works with floating-point prices, iced widgets and
canvases, the WebSocket and HTTP clients, the settings file and `main`.
