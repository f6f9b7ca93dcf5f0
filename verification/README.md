# postgres_talk

Companion code for a set of PostgreSQL experiments (crosstab pivots, window
functions, lateral joins, JSON documents built in SQL, row-level security).

`src/` is a library verified with Verus. It holds the decisions that the
experiments make around their database work:

- `db`: the `dropdb`/`createdb` command lines, how their exit status is read,
  the order of a reset (create only after a successful drop), and the
  connection URL of a local database;
- `session`: which PostgreSQL role a request runs under and which user name
  the row policies see, read from the request's `user` header;
- `users`, `movies`: the statements each HTTP endpoint runs, what it
  answers, and whether its transaction is committed (a successful update is);
- `sql`: statements with bound values;
- `seeds`, `events`, `videos`, `time`, `text`: the seeding logic: how many
  rows each program stores and with which statements, which events a
  visitor leaves, how sampled offsets become video and user ids, the time
  windows that timestamps are drawn from (random timestamps are drawn here,
  through `fake`), and how generated words become text.

`app/` is the program: the database connections, the HTTP server, the
clock, ids, words and the floating-point samples. Run it with the experiment's name as first
argument (`pivot_table`, `window_functions`, `lateral_join`, `json_ops`,
`rls`); it reads each experiment's SQL scripts from `src/<experiment>/...`
at run time.
