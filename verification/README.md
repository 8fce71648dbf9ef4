# jxc_server

The core of a multi-tenant wholesale/retail inventory service (purchasing, sales, stock
checks, stock ledger), written in Rust with its behaviour stated as contracts and proved
with Verus.

## Layout

- `src/` — the verified library.
  - `models`, `money`, `text`: records, amounts in ten-thousandths, text helpers.
  - `costing`: the moving weighted average cost (division by `rust_decimal`).
  - `inventory`, `moves`: inbound, outbound and the stock movements of documents.
  - `purchase`, `sales`, `stock_check`, `documents`: the document state machines; each
    transition is planned from the locked rows and returns everything it writes (document,
    products, stock-log entries, audit entry) or the refusal.
  - `records`: documents put together from stored rows.
  - `error`, `response`, `extractors`, `middleware`: refusals and their answers, the answer
    envelope, request ids, bearer tokens and who a request acts for.
  - `config`, `persistence`, `repository`, `repository_sqlite`, `standalone`, `serials`:
    configuration, storage choices, stored values read back, the standalone mode, serial
    numbers.
  - `laws`: properties of the library as a whole (optimistic locking, state machines, the
    stock ledger, reversibility, cost bounds), as proof functions.
- `tests/` — tests on concrete values.
- `app/` — the process: environment, database access, HTTP.

## Checking

`verus` verifies `src/lib.rs`; the tests run as ordinary Rust tests against the compiled
library.
