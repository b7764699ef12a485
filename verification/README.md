# synapse_contract

The Synapse deposit contract for Stellar/Soroban, written as a state machine
in Verus and proved against its model.

A relayer registers fiat deposits; each one moves

```
Pending ──► Processing ──► Completed ──► settled in a batch
   │            │
   └────────────┴──► Failed ──► dead-letter queue ──► retry ──► Pending
Pending ──► Cancelled (admin)
```

and every step publishes an event.

## Layout

- `src/lib.rs` — `SynapseContract`: the entry points. Each one is proved to
  produce exactly the storage, events or refusal that its model states.
- `src/model.rs` — the model of every entry point, over `StorageModel`.
- `src/laws.rs` — properties proved over the models: refused calls change
  nothing, a paused contract refuses everything but pausing and unpausing,
  statuses only move along the lifecycle, failed deposits are exactly the
  queued ones, settled deposits are completed, registration is idempotent,
  and more.
- `src/storage/` — the ledger storage and its typed accessors; `table.rs` is
  the keyed table it is built from.
- `src/crypto.rs` — deposit and settlement ids: hex of SHA-256 digests,
  computed by the Soroban host.
- `src/types/`, `src/error.rs`, `src/rules.rs`, `src/access.rs`,
  `src/bytes.rs` — records, events, refusal reasons, validation rules,
  authorisation checks and byte helpers.
- `app/` — the Soroban contract itself: authorisation, ledger sequence and
  timestamp, publishing events, and the ledger layout (`app/store.rs`):
  settings in instance storage, each deposit, settlement and dead-letter
  entry under its own persistent key with its time to live.
- `tests/` — tests of the library.
