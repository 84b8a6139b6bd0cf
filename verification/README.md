# pallet-origin-and-gate

An "AND gate" for origins: a call is proposed under one origin and is
executed, with the root origin, only once a second, distinct origin has
approved it. Proposals expire, can be cancelled by their proposer, removed
once expired, and approvals can be withdrawn by the account that gave them.

Layout:

- `src/` — the library, verified with Verus.
  - `pallet.rs`: the pallet's storage (`Pallet`) and its dispatchables
    (`propose`, `add_approval`, `complete_execution`, `cancel_proposal`,
    `remove`, `withdraw_approval`, `set_dummy`), each with a contract that
    equates its effect with a step of the model.
  - `model.rs`: the storage as maps (`PalletState`) and the step of each
    dispatchable.
  - `laws.rs`: properties across dispatchables (a failing dispatchable
    changes nothing but a recorded expiry, only approvals execute, execution needs two distinct
    approvals, approval records and approval lists name the same origins,
    withdrawal undoes an approval, cancellation undoes a proposal, the AND
    gate admits only what both of its checks admit, approval lists stay
    bounded).
  - `origin.rs`: origins, `ensure_signed`/`ensure_root`, the `EnsureOrigin`
    checks and `AndGate`.
  - `collective_metadata.rs` and `collective_metadata/`: metadata of
    collective origins, their privileges and permissions.
  - `table.rs`: storage maps as vectors of entries with distinct keys.
  - `bounded.rs`, `hashing.rs`: the outside items the library relies on
    (`bounded-collections`, `sp-crypto-hashing`), with their trusted
    contracts.
- `tests/` — the tests.
- `app/` — SCALE encodings of the stored values and events, the encoding of
  proposed calls, the dispatch of executed proposals, and logging.

A failing dispatchable leaves storage and events as they were, with one
exception: an approval or a withdrawal that finds its proposal past its
expiry block marks the proposal expired, reports the expiry in an event and
fails with `ProposalExpired`. An approval that completes a proposal marks it
executed, records the execution under the current block number and extrinsic
index, and returns an `Execution` holding the proposal's encoded call; the
caller dispatches the call with the root origin and reports the outcome with
`complete_execution`. Either way the proposal stays executed, its approvals
and stored call are cleared and the execution is reported with the dispatch's
result; a failed dispatch is answered with `FailedToExecute`.
