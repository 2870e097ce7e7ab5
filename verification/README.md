# rwui

A small UI library for personal tools: a page of Bootstrap elements
(buttons, labels, dropdowns, tabs, dialogs, grids, charts, ...) is built in
Rust, served on localhost, opened in the browser, and driven through a
websocket while it runs.

## Layout

- `src/` — the library, verified with Verus.
  - `text.rs`: decimal writing and reading of numbers, whitespace tokens,
    the `@@` separator of page events.
  - `templates.rs`: the fixed pieces of markup and script.
  - `elem.rs`: elements, nesting (`add`), styling, and the messages that
    change a running page, with the law that the page's script reads each
    message back field by field.
  - `markup.rs`: how tags nest, and the law that `add` keeps nesting.
  - `gui.rs`: the page configuration, element ids and every builder.
  - `plot.rs`: charts.
  - `events.rs`: callbacks and what a page event makes them do.
  - `server.rs`: the page written out, request routing, the console.
  - `channel.rs`: the channel ends of `crossbeam_channel` that elements use.
- `app/` — the running side: files, sockets, threads, the browser, and
  the conversion of numbers to text for charts and sliders.
- `tests/` — tests of the library on concrete pages and events.

Copy a `static/` folder with Bootstrap, Bootstrap Icons and (for charts)
plotly next to the program; the page is written to `static/index.html`.
