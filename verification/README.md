# dbnest

Cozy local databases in seconds: a command line tool that provisions SQLite
files and PostgreSQL containers, keeps a registry of them, and turns a JSON
schema into SQL.

`src/` is the verified library (Verus):

- `schema/` – the schema model, validation (`validate_schema` succeeds exactly
  on well-formed schemas and otherwise names the first problem), planning
  for PostgreSQL and SQLite (`plan_postgres`, `plan_sqlite`: one `CREATE
  TABLE` per table followed by one `CREATE INDEX` per index, in each
  dialect's column types; `plan_for_engine` validates first and picks the
  generator) and the targets a plan is applied to.
- `instance/` – the instance model, the registry's layout and its
  newest-first ordering, and the status decisions.
- `paths.rs` – paths as the pieces they are joined from, and the data
  directory layout.
- `runtime.rs`, `sqlite.rs` – connection URLs, the docker command, the
  readiness retries, where a SQLite file goes, and the instance records of
  the two engines.
- `instance_ops.rs` – how each engine is provisioned, what removing an
  instance takes (its managed file), and the rollback of a new instance
  whose schema could not be applied (its managed file and its container).
- `cli.rs` – the command line arguments and what each command asks for.

`app/` is the program around it: argument parsing with clap, the registry's
JSON files, docker, the database connections and the output.
