//! Creating a pool.

use vstd::prelude::*;

use crate::pubkey::Pubkey;
use crate::state::{ExchangeRate, Pool, PoolConfig};

verus! {

/// The accounts that creating a pool reads and writes.
#[derive(Clone, Copy, Debug, PartialEq, Eq)]
pub struct InitializePool {
    /// The creator, who becomes the pool's owner.
    pub signer: Pubkey,
    pub pool_config: PoolConfig,
    pub pool: Pool,
    pub staking_token_mint: Pubkey,
    pub underlaying_mint: Pubkey,
}

impl InitializePool {
    /// Records the owner, the two mints and the unbonding delay in the pool
    /// configuration, and the creation time `now` in the pool. Returns the
    /// pool's starting exchange rate, one.
    pub fn process(&mut self, unbound_delay: i64, now: i64) -> (rate: ExchangeRate)
        ensures
            rate == ExchangeRate::one(),
            rate.numerator == 1 && rate.denominator == 1,
            final(self).pool_config == (PoolConfig {
                owner: old(self).signer,
                staking_token_mint: old(self).staking_token_mint,
                underlaying_mint: old(self).underlaying_mint,
                unbound_delay,
                ..old(self).pool_config
            }),
            final(self).pool == (Pool { last_updated: now, ..old(self).pool }),
            final(self).signer == old(self).signer,
            final(self).staking_token_mint == old(self).staking_token_mint,
            final(self).underlaying_mint == old(self).underlaying_mint,
    {
        self.pool_config.owner = self.signer;
        self.pool_config.staking_token_mint = self.staking_token_mint;
        self.pool_config.underlaying_mint = self.underlaying_mint;
        self.pool_config.unbound_delay = unbound_delay;
        self.pool.last_updated = now;
        ExchangeRate::unit()
    }
}

} // verus!
