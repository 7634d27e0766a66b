# scouting

The decision logic of a match-scouting web service for robotics events,
written in Verus and verified.

- `src/` is the verified library: report scoring, the normalisation of
  search and pit forms, the grouping of the match queue, the conversion of
  The Blue Alliance's schedule into queue records, the permission gates, and
  the report submission as a sequence of database steps (`submission`), each
  with a contract and, where they hold across calls, laws as proof functions.
- `app/` is the Rocket web server around it: routes, database queries,
  HTTP requests, templates, and the serde/form copies of the library's types.
- `tests/` runs the library on concrete values.
