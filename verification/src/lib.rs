//! A liquid-staking pool: users stake an underlying token and receive a
//! liquid staking token at the pool's exchange rate, unstake it into an
//! unbonding request, and withdraw the underlying once the pool's unbonding
//! delay has passed.

pub mod pubkey;
pub mod error;
pub mod state;
pub mod instructions;
pub mod laws;
