# arcyield

Verified core of a private orderbook and yield router on Solana whose order
contents are processed by an Arcium MPC cluster.

- `src/` — the library, verified with Verus:
  - `circuits`, `matching`, `mxe_instruction`, `rebalance`: the confidential
    instructions (order matching, validation, VWAP and midpoint pricing, yield
    routing and rebalancing, yield accrual, risk checks, settlement legs, batch
    matching), as functions over the plaintext values the cluster computes on;
  - `program`: the decisions of the on-chain instructions (orderbook creation,
    order placement, queueing and callbacks, settlement, cancellation, yield
    positions), from account data, signer and clock to new account data,
    transfers and events;
  - `yield_router`: off-chain protocol choice, APY blending and allocation;
  - `state`, `errors`, `keys`, `arith`: account data, error codes and helpers.
- `app/` — the Anchor/Arcium program around the library: account validation,
  token transfers, computation queueing, event emission, and the
  floating-point privacy score.
- `tests/` — tests of the library on concrete values.
