# record_history

Record-history identifiers, shared constants and the dispatch of a
`HistorySource` record to the platform's E2E fixture tables, verified with Verus.

- `src/record_id.rs`: `RecordId`, a table name and a primary key.
- `src/constants.rs`: paging, access-message and fixture constants, and the
  identifiers of the two seeded fixture parents.
- `src/source.rs`: which fixture table (if any) a record is read from, and what
  the read's outcome resolves to.
- `src/laws.rs`: proved properties of that dispatch.
- `app/lib.rs`: the asynchronous driver that performs the read.
