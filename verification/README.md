# kolny_colony

The allocation, settlement and loss-containment logic of the KOLNY colony, a
Solana program that allocates depositor capital across operator-run foragers
in proportion to a decaying trail built from realized, on-chain performance.

Layout:

- `src/` — the verified library.
  - `math.rs`: fixed-point tanh, pheromone update, bounded water-filling,
    the trail board, share accounting, the loss waterfall and slashing math.
  - `state.rs`, `events.rs`, `errors.rs`, `constants.rs`: the accounts as plain
    values, the event records, the refusals and the published parameters.
  - `instructions/`: one decision function per instruction, from the accounts
    it reads to the accounts it writes and the events it emits.
  - `invariants.rs`: properties that span instructions — registration burns
    the admission in $KOLNY, and what was burned never reaches allocation; a
    forager settles once per epoch; settlement order moves neither the
    accumulators nor the trail board.
- `tests/` — tests on concrete values.
- `app/` — the Anchor program around the library: account contexts, token
  transfers, events and entry points.
