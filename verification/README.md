# content_treasury

Two ledger contracts as verified state machines:

- `src/content_access.rs`: creators price content, buyers pay the creator in
  the configured token to unlock it until an expiry ledger, an admin caps
  prices and can hand the role over.
- `src/treasury.rs` and `src/errors.rs`: an admin-controlled token treasury
  with a pause switch and a minimum balance that withdrawals must leave.
- `src/host.rs`: the invocation context (ledger sequence, signers, published
  events, token calls) and `settles`, which every state-changing operation's
  contract is stated with: on success the state and context take exactly the
  specified step, on failure nothing changes.
- `src/store.rs`: the keyed store behind the contract's maps.
- `src/content_access_laws.rs`, `src/treasury_laws.rs`: laws proved over the
  specified steps (read after write, idempotent unlock, access specificity,
  admin-only configuration, minimum balance kept, ...).

`app/` binds the same decision functions (`plan_unlock`, `check_access`,
`check_price`, `plan_max_price`, `check_movement`, `check_min_balance`,
`check_withdrawal`) to a Soroban host through `soroban_sdk`: storage,
authorization, token calls and events happen there.
