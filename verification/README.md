# subspace_node

Verified parts of a Subspace node.

- `src/overseer`: follows the active leaves of the chain and tells the collation generation
  subsystem of every change. Holds the updates, the events, the overseer's state and its loop as
  single steps.
- `src/proof_of_time`: the source of proofs of time. Decides where the timekeeper starts, and runs
  the timekeeper and the source by single steps.
- `src/fees`: charges domain transactions for their fees, refunds what was overpaid and splits the
  rest between storage and execution.

Each of them has a `laws` module that states what holds of it as a whole.

The library decides; `app` does what was decided: it owns the channels and the thread, and reads
the client, the runtime and the balances. The library calls two crates itself, each behind a few
functions whose contracts are taken on trust: `smallvec` in `overseer::leaves` and `lru` in
`overseer::known`.
