# glaredb_pg

The Postgres-facing layer of a SQL server, written in Verus: the wire
representation of values, the catalog of Postgres types and built-in
relations, the protocol's messages and the decisions a session makes while
it talks to a client. Verus checks all of `src/`: every public function
carries a contract that it proves (small private helpers are checked inside
the functions that call them); the few calls into outside crates (`bytes`,
`tokio-postgres`, `chrono`, `chrono-tz`, `uuid`) go through small trusted
wrappers whose contracts say what those crates document.

## Layout

- `src/pg_type_oid.rs`, `src/types.rs`, `src/arrow.rs`, `src/delta.rs`: the
  table of Postgres types, lookups by OID and name, the mapping from Arrow
  types, and the Arrow types announced for Delta Lake columns.
- `src/writer.rs`, `src/wire.rs`, `src/datetime_text.rs`, `src/interval.rs`,
  `src/numfmt.rs`: text and binary encoders of values, including the
  `numeric` payload of decimals.
- `src/messages.rs`, `src/notice.rs`, `src/format.rs`, `src/error.rs`:
  protocol messages, error and notice codes, SQLSTATE classification.
- `src/handler.rs`, `src/startup.rs`, `src/query_flow.rs`: the session's
  decisions — opening a connection, authentication, the simple-query flow,
  the extended-query records, transaction states, cancel keys.
- `src/catalog.rs`: the catalog mutator and its bounded commit retries.
- `src/builtins.rs`, `src/builtin_views.rs`, `src/pg_functions.rs`,
  `src/expand_array.rs`: built-in schemas, tables, views and functions.
- `src/scalar.rs`: which wire values convert to which engine values, and
  times of day in each time unit.
- `src/vars.rs`, `src/timezone.rs`, `src/text.rs`: session-variable values,
  time zones and character-level helpers.
- `tests/`: tests run against the compiled library.
- `app/`: what stays outside the library — floating-point encoders, a shared
  cancel registry behind a mutex, and adapters from the client library's and
  chrono's types.

The library's laws are the `lemma_*` proof functions next to the code they
speak of.

## What is not here

- The conversion of engine values (DataFusion `ScalarValue`s and Arrow
  arrays) to wire values and to JSON text, the streaming of rows, and the
  decoding of parameter values: they are built on DataFusion, which is not a
  dependency, and on floating-point values. `src/scalar.rs` holds the
  decision table of the conversion, over the library's own Arrow model.
- The loops that drive a connection (`BeginFlow`, `QueryFlow`, `CommitFlow`):
  they await an engine session, a SQL parser and a framed connection that
  are not part of this crate. The library gives each step of those loops.
- Loading Delta Lake tables; `src/delta.rs` holds only the schema mapping.
