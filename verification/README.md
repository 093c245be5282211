# styrene_storage

The message store of a Styrene node, verified with Verus: messages and
conversations, drafts and contacts, outbound routes and their delivery
evidence, LXMF tickets and stamp costs, canonical inbound messages with their
attachments, announces and the roster, and the standard LXMF propagation queue
(offers, ingest, downloads, observation).

## Layout

- `src/` — the library, all of it verified.
  - `sql.rs`, `store.rs`: the SQLite connection (through `rusqlite`), the
    plain values statements take and return, and exact readers of columns.
  - `message_rows.rs`, `propagation_rows.rs`: exact readers from a row to a
    record.
  - `schema*.rs`, `migration.rs`, `propagation_schema.rs`: the schema, its
    migrations and the attestation that a stored schema is exactly it.
  - `message_store.rs`, `conversations.rs`, `attachment_store.rs`,
    `outbound_store.rs`, `ticket_store.rs`, `directory_store.rs`: the store
    operations.
  - `propagation*.rs`, `lifecycle.rs`: the propagation engine; its decisions
    (offer comparison, capacity, download plan) are pure functions with exact
    contracts.
  - `pages.rs`: conversation and message paging; a cursor's scope and epoch
    checks and the page built from one query's rows.
  - `record_text.rs`: log texts of propagation records without payload or
    stamp bytes.
  - `laws.rs`: properties that relate several functions.
  - `outside.rs`, `text.rs`, `error.rs`: the calls into `hex`, `sha2`,
    `serde_json`, `rand_core` and std, each behind a stated contract.
- `tests/` — tests run against in-memory and temporary SQLite databases.
- `app/` — what Verus does not take: opening database files securely, LXMF
  decoding, serde and error-trait copies of the record types.

What SQLite holds is not modelled. Instead, a store carries a ghost record
of every call it hands to SQLite (`SqlCall`: a statement with its parameters
and the number of rows it changed, a batch, or a query with its parameters
and the rows it returned), and that record is the store's view. The
primitives in `store.rs` append exactly their call to it, so each operation's
contract can say which statements it issued with which values, which reads
decided its result and how (the route a delivery finishes from, the stored
flags and queue figures an offer was compared against, the payloads a
download returned, the rows a page or a snapshot was built from), and that a
transaction commits only on success and rolls back on failure. What rows the
database returns is left open: the contracts relate results to the rows
recorded, not to what was written before.
