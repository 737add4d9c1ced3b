# cuba_ims

The verified core of a warehouse-management back end for a phone-screen
assembly plant: master data checks and list queries, defect documents,
customer returns, document statuses, configuration, the HTTP layer's
decisions (trace ids, bearer tokens, the authentication guard, audit rows)
and the error-code table generator.

- `src/` — the library, every function proved against its contract:
  - `status` — the document state machine (DRAFT → SUBMITTED → COMPLETED /
    VOIDED; void only from the first two);
  - `catalog`, `catalog_lists` — material, supplier, customer, BOM, route and
    recovery-template rules, and the SQL of their list queries;
  - `defect`, `customer_return` — create checks, submit conversations (state
    + answer → next state + action), void rules and list queries;
  - `query` — list SQL with its bound values; `validation` — field-length
    errors as the `validator` crate reports them;
  - `config`, `api`, `errorcodes`, `error`, `inventory`, `text`, `schema`.
- `tests/` — concrete scenarios for every module and law.
- `app/` — the error-code generator program, which runs the library's
  scanning, ordering, grouping and rendering over the source tree; and the
  pieces a server is assembled from: environment loading, tracing, database
  pools, the cache, storage (list queries, document and material writes) and
  the drivers that run the submit conversations against an inventory engine.
  The program does not start a server: the HTTP encoding, token decoding and
  inventory engine belong to workspace crates that are not part of this one.
