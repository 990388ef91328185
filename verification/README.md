# deadman-switch-vault

A dead man's switch vault for a CosmWasm chain, verified with Verus. The owner keeps
the vault alive with heartbeats; once a whole heartbeat window passes without one,
the beneficiary may claim the vault's balance in its configured denomination.

- `src/` is the verified library: the vault's state (`state.rs`), its messages and
  answers (`msg.rs`), the chain's coin, message-info and response shapes as plain
  values (`cosmos.rs`), every operation with its contract (`contract.rs`), the
  properties that span operations (`laws.rs`), and the text helpers (`text.rs`).
- `app/` holds the CosmWasm entry points: they load and save storage, ask the chain
  to validate addresses and to report the balance, convert between the chain's
  types and the library's, and call the library for every decision.
- `tests/` runs the library on concrete values.
