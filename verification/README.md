# liquid_staking

A liquid-staking pool. Users stake an underlying token and receive a liquid
staking token at the pool's exchange rate; unstaking records an unbonding
request that can be withdrawn once the pool's unbonding delay has passed.

- `src/` is the verified library: the accounts (`state`), account addresses
  (`pubkey`), errors, each instruction as a transition of the accounts it
  touches (`instructions`), and properties that span instructions (`laws`).
  The exchange rate is kept as an exact fraction.
- `app/` is the on-chain program around it: account validation, the clock,
  token transfers, mints and burns, and the floating-point conversions at
  the exchange rate.
