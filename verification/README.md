# dbmod_tui3

A terminal menu that rebuilds PostgreSQL tables from two JSON files (table
definitions and row statements).

- `src/` is the verified library (Verus): text helpers and input validation
  (`text`), the screen buffer (`screen`), a string-keyed map (`str_map`),
  reading the JSON files (`handle_files`), the rebuild of a table as a state
  machine over database replies (`db_tools`), the menus and how a page reacts
  to a typed line (`menu`), the program's pages and navigation (`pages`), and
  properties that span calls (`laws`).
- `app/` is the program: keyboard, files, the PostgreSQL connection and
  printing; it runs the library's state machines.
- `tests/` exercises the library on concrete values.
