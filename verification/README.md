# japanese_immersion_cli

A command-line tracker for the anime a learner watches while immersing in
Japanese: search AniList, add a show, track episodes, Anki flashcards, dates
and watch status, and export the list as CSV.

- `src/` is the verified library (Verus): the data model, the exact SQL
  statements and parameters that each command runs against the SQLite
  database, the request body sent to AniList, and the decisions each command
  takes between reading and writing, each with its contract, plus the proved
  laws (status text round trip, at most one current anime, listings find what
  was added, decimal text reads back as its number, home-relative paths).
- `app/` is the program around it: argument parsing (clap), the database
  connection (rusqlite), HTTP (reqwest, tokio), colours (colored), CSV
  (csv), directories (dirs) and terminal input and output.
- `tests/` runs the library on concrete values.
