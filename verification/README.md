# key_store

The storage rules of an API-key proxy, verified with Verus: how alert events
are grouped and queried, how request statistics are coalesced in memory and
flushed, how HA peers replicate rows and runtime counters, how old logs are
collected, and how credit recharges and upstream usage are reconciled.

## Layout

- `src/` — the verified library. Every function states its behaviour in
  `requires`/`ensures` over mathematical models (`Seq`, `Map`-like
  association lists with distinct keys, `int`), and the laws that relate
  several functions are public proof functions.
  - `alerts/` — alert events: their semantic windows and subjects, grouping
    into compatibility, mother and child groups, the SQL that pages them,
    rebuilding records from query rows, and the recent-alerts summary.
  - `coalescer.rs`, `rollups.rs`, `flush.rs`, `metrics.rs` — request
    counters gathered between flushes, what each request adds, and how a
    flush takes them out or puts them back.
  - `ha.rs`, `ha_json.rs`, `ha_lines.rs`, `ha_apply.rs`, `ha_rows.rs`,
    `ha_counters.rs`, `ha_events.rs` — HA replication: channels and their
    tables, the JSON of the stream lines and their payloads, reading
    replicated streams line by line, the SQL that writes a peer's row, merging peer counters
    through shadow values, and the control-plane event pages.
  - `gc.rs`, `gc_runs.rs` — request-log body collection and bounded
    collection runs.
  - `migration.rs`, `sidecar.rs`, `sqlite.rs` — request-kind backfills,
    the observability sidecar migration, and SQLite housekeeping.
  - `announcements.rs`, `recharge.rs`, `entitlements.rs`,
    `reconciliation.rs`, `quota_charge.rs`, `store.rs` — announcements,
    credit recharges and account entitlements, upstream reconciliation,
    quota charges and the scheduled-jobs queue.
  - `sql.rs`, `text.rs`, `sort.rs`, `num.rs` — query building, text,
    stable sorting and saturating arithmetic.
  - `clock.rs`, `paths.rs` — the calls into `chrono` and `std::path`, with
    the contracts the rest relies on.
- `app/` — the I/O around the library: SQLite access through `sqlx`, the
  clock, the host, and serialisable views. It runs the statements the
  library builds and hands the library plain values.
- `tests/` — tests of the library on concrete values.
