# prro

Decision core of the PRRO fiscal gateway services, verified with Verus.

* `src/` — the library: offline backlog drain and KVT2 confirmation
  routing, per-FN backoff, return-online probing, offline code
  replenishment, boot and online reconciliation, the inbox reaper,
  operator completion, the offline session lifecycle and the cash ledger.
  Each function takes the values the service read (node state, document
  rows, DPS replies) and returns the decision to carry out; contracts state
  those decisions exactly, and the laws that tie several functions together
  are proof functions beside them.
* `app/` — I/O around the library, as far as it can stand without the
  service's document repositories and send stages: SQLite reads and
  writes through `sqlx`, DPS calls, audit rows, the return-online probe
  loop, the held-evidence probe tick, the inbox reaper sweep, the orphan-trace scan and the cash ledger
  reads.  The drain, boot and convergence orchestrators, which run on those
  repositories and stages, are not part of it.
* `tests/` — executable tests of the library.
