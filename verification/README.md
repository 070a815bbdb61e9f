# Scavenger contract core

The Scavenger contract tracks recyclable waste through its supply chain:
participants register as recyclers, collectors or manufacturers, submit and
verify materials, hand waste items forward along the permitted routes
(recycler → collector → manufacturer), and earn tokens from verification
rewards and from manufacturers' incentives.

This crate is the contract's logic, verified with Verus. Every entry point is a
method of `ScavengerContract` whose contract states, over the mathematical
model `ContractState`, exactly when the call is refused (and that a refused
call changes nothing) and what a successful call does to the state.

The ledger host is left to the caller:

- the contract state lives in the `ScavengerContract` value;
- calls that record a time take the ledger timestamp as `now`;
- published events accumulate in `events()`;
- `distribute_rewards` returns the token payments to make from the
  manufacturer's balance;
- signatures are checked by the caller before an entry point is invoked;
  `required_signer` and `batch_transfer_signers` (`src/contract/signers.rs`)
  name the address that must authorise each call;
- `ContractEvent::indexed` and `payload` give each event's topic value and
  payload order as they are published.

Layout:

- `src/contract.rs` — the state, its model and invariant, shared checks;
- `src/contract/` — entry points by area: `admin`, `participants`,
  `materials` (v1 materials), `wastes` (v2 waste items), `incentives`,
  `rewards` (the reward split of a verified material), `tokens`,
  `signers`;
- `src/laws.rs` — properties that span entry points, proved;
- `src/types.rs`, `src/events.rs`, `src/errors.rs`, `src/validation.rs` —
  records, events, refusals and coordinate checks;
- `tests/` — scenario tests.
