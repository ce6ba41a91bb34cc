# amaru (verified core)

The logic of the Amaru Cardano node that can be stated and proved, written
in Verus:

- `src/ordered_map.rs`: maps kept in a canonical key order, as scripts read
  them; inserting keeps the order, and of pairs inserted one after the other
  the last one for a key wins.
- `src/kernel/`: addresses and the Plutus order of stake addresses, the
  phase-two views of a transaction (values, withdrawals, datums, redeemers,
  scripts, script contexts, votes, mints, time ranges), and the parameters
  of the public networks.
- `src/ledger/`: the state overlay that carries an epoch transition until it
  is flushed, and the rewards it holds.
- `src/uplc/`: the CEK machine's cost model, environments, frames and
  states, zig-zag encoding and the grammar of types.
- `src/version.rs`, `src/text.rs`: the version the node reports.

`app/main.rs` is the command around it: argument handling, and the copies of
the library's types that carry command-line, serialisation and error-message
derives. `tests/` runs the library with the outside crates linked.
