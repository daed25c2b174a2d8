# r-sqlite

A read-only terminal viewer for SQLite databases: pick a directory, choose a
database found under it, list its tables and views, and browse the rows of a
table in a grid that only ever holds a window of rows around the highlight.

## Layout

- `src/` — the verified library.
  - `bindings.rs`: keys, commands and help texts.
  - `action.rs`: what a screen asks of the shell.
  - `picker.rs`, `tables.rs`, `grid.rs`: the three screens as state machines,
    each with a mathematical model (`View`), an invariant, a step function and
    laws over them.
  - `shell.rs`: the application shell: key routing, screen changes, and the
    outside work it waits for (directory scan, opening a database, reading a
    table, loading a window of rows).
  - `query.rs`: the SQL text and bound values of every statement (all
    `SELECT`s, identifiers quoted, search terms bound), and cell rendering.
  - `like.rs`: what a search pattern matches under `LIKE ... ESCAPE '\'`.
  - `discover.rs`: which scanned files are databases.
  - `logo.rs`, `text.rs`: the logo, decimal rendering, trimming.
- `app/` — the program: command line, terminal, file system and SQLite, and
  drawing with ratatui. It performs the work the shell asks for and hands the
  results back.
- `tests/` — tests of the library, including its statements run against an
  in-memory SQLite database.
