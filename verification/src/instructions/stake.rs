//! Staking underlying tokens into a pool.

use vstd::prelude::*;

use crate::pubkey::Pubkey;
use crate::state::{ExchangeRate, Pool, PoolConfig, UserUnboundRequest};

verus! {

/// The accounts that a stake reads and writes.
#[derive(Clone, Copy, Debug, PartialEq, Eq)]
pub struct Stake {
    /// The staking user.
    pub signer: Pubkey,
    /// The address of the pool configuration account.
    pub pool_config_key: Pubkey,
    pub pool_config: PoolConfig,
    pub pool: Pool,
    /// The liquid staking tokens in circulation before the stake.
    pub staking_token_supply: u64,
    pub user_unbound_request: UserUnboundRequest,
}

impl Stake {
    /// Stakes `amount` underlying tokens.
    ///
    /// Returns the pool's exchange rate, computed before the stake is
    /// counted; the user receives `amount` divided by this rate, rounded
    /// down, in liquid staking tokens. The pool counts `amount` more staked
    /// tokens, and a user's request that has never been assigned becomes
    /// the user's idle request.
    pub fn process(&mut self, amount: u64) -> (rate: ExchangeRate)
        requires
            old(self).pool.rate_computable(old(self).staking_token_supply),
            old(self).pool.total_staked + amount <= u64::MAX,
        ensures
            rate == old(self).pool.rate_for(old(self).staking_token_supply),
            rate.wf(),
            final(self).pool == (Pool {
                total_staked: (old(self).pool.total_staked + amount) as u64,
                ..old(self).pool
            }),
            final(self).user_unbound_request == old(self).user_unbound_request.after_stake(
                old(self).signer,
                old(self).pool_config_key,
            ),
            (exists|i: int| 0 <= i < 32 && #[trigger] old(self).user_unbound_request.owner.0@[i]
                != 0u8) ==> final(self).user_unbound_request == old(self).user_unbound_request,
            (forall|i: int| 0 <= i < 32 ==> #[trigger] old(self).user_unbound_request.owner.0@[i]
                == 0u8) ==> final(self).user_unbound_request == (UserUnboundRequest {
                owner: old(self).signer,
                pool_config: old(self).pool_config_key,
                amount: 0,
                withdraw_timestamp: 0,
                is_unstaked: false,
            }),
            final(self).pool.total_staked == old(self).pool.total_staked + amount,
            final(self).pool.accumulated_reward == old(self).pool.accumulated_reward,
            old(self).staking_token_supply != 0 ==> rate.numerator == old(self).pool.total_staked
                + old(self).pool.accumulated_reward && rate.denominator
                == old(self).staking_token_supply,
            old(self).staking_token_supply == 0 ==> rate.numerator == 1 && rate.denominator == 1,
            final(self).signer == old(self).signer,
            final(self).pool_config_key == old(self).pool_config_key,
            final(self).pool_config == old(self).pool_config,
            final(self).staking_token_supply == old(self).staking_token_supply,
    {
        let rate = self.pool.update_exchange_rate(self.staking_token_supply);
        self.pool.total_staked = self.pool.total_staked + amount;
        if self.user_unbound_request.owner.is_default() {
            self.user_unbound_request.owner = self.signer;
            self.user_unbound_request.pool_config = self.pool_config_key;
            self.user_unbound_request.amount = 0;
            self.user_unbound_request.withdraw_timestamp = 0;
            self.user_unbound_request.is_unstaked = false;
        }
        rate
    }
}

} // verus!
