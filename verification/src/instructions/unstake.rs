//! Unstaking liquid staking tokens into an unbonding request.

use vstd::prelude::*;

use crate::error::ErrorCode;
use crate::state::{ExchangeRate, Pool, PoolConfig, UserUnboundRequest};

verus! {

/// The accounts that an unstake reads and writes.
#[derive(Clone, Copy, Debug, PartialEq, Eq)]
pub struct Unstake {
    pub pool_config: PoolConfig,
    pub pool: Pool,
    /// The liquid staking tokens in circulation before the unstake.
    pub staking_token_supply: u64,
    pub user_unbound_request: UserUnboundRequest,
}

impl Unstake {
    /// The unstake can go ahead: the user has no unstake awaiting its
    /// withdrawal.
    pub open spec fn allowed(self) -> bool {
        !self.user_unbound_request.is_unstaked
    }

    /// The exchange rate at which an unstake converts liquid staking
    /// tokens, or the error that refuses the unstake.
    pub fn rate(&self) -> (r: Result<ExchangeRate, ErrorCode>)
        requires
            !self.user_unbound_request.is_unstaked ==> self.pool.rate_computable(
                self.staking_token_supply,
            ),
        ensures
            r is Err <==> self.user_unbound_request.is_unstaked,
            r matches Err(e) ==> e == ErrorCode::UserAlreadyUnstaked,
            r matches Ok(rate) ==> (self.staking_token_supply != 0 ==> rate.numerator
                == self.pool.total_staked + self.pool.accumulated_reward && rate.denominator
                == self.staking_token_supply) && (self.staking_token_supply == 0 ==> rate.numerator
                == 1 && rate.denominator == 1),
            self.allowed() ==> r == Ok::<ExchangeRate, ErrorCode>(
                self.pool.rate_for(self.staking_token_supply),
            ),
            !self.allowed() ==> r == Err::<ExchangeRate, ErrorCode>(ErrorCode::UserAlreadyUnstaked),
            r matches Ok(rate) ==> rate.wf(),
    {
        if self.user_unbound_request.is_unstaked {
            return Err(ErrorCode::UserAlreadyUnstaked);
        }
        Ok(self.pool.update_exchange_rate(self.staking_token_supply))
    }

    /// Unstakes liquid staking tokens worth `underlying_amount` underlying
    /// tokens at time `now`.
    ///
    /// Refused with `UserAlreadyUnstaked`, changing nothing, when a
    /// previous unstake awaits its withdrawal. Otherwise the pool counts
    /// `underlying_amount` fewer staked tokens, the user's request records
    /// the amount and the release time `now` plus the pool's unbonding
    /// delay, and the pool's exchange rate, computed before the unstake, is
    /// returned.
    pub fn process(&mut self, underlying_amount: u64, now: i64) -> (r: Result<ExchangeRate, ErrorCode>)
        requires
            !old(self).user_unbound_request.is_unstaked ==> {
                &&& old(self).pool.rate_computable(old(self).staking_token_supply)
                &&& underlying_amount <= old(self).pool.total_staked
                &&& i64::MIN <= now + old(self).pool_config.unbound_delay <= i64::MAX
            },
        ensures
            r is Err <==> old(self).user_unbound_request.is_unstaked,
            r matches Err(e) ==> e == ErrorCode::UserAlreadyUnstaked && *final(self) == *old(self),
            r is Ok ==> {
                &&& final(self).pool.total_staked == old(self).pool.total_staked - underlying_amount
                &&& final(self).pool.accumulated_reward == old(self).pool.accumulated_reward
                &&& final(self).user_unbound_request.amount == underlying_amount
                &&& final(self).user_unbound_request.withdraw_timestamp == now
                    + old(self).pool_config.unbound_delay
                &&& final(self).user_unbound_request.is_unstaked
                &&& final(self).user_unbound_request.owner == old(self).user_unbound_request.owner
                &&& final(self).user_unbound_request.pool_config
                    == old(self).user_unbound_request.pool_config
            },
            !old(self).allowed() ==> {
                &&& r == Err::<ExchangeRate, ErrorCode>(ErrorCode::UserAlreadyUnstaked)
                &&& *final(self) == *old(self)
            },
            old(self).allowed() ==> {
                &&& r == Ok::<ExchangeRate, ErrorCode>(
                    old(self).pool.rate_for(old(self).staking_token_supply),
                )
                &&& final(self).pool == (Pool {
                    total_staked: (old(self).pool.total_staked - underlying_amount) as u64,
                    ..old(self).pool
                })
                &&& Ok::<UserUnboundRequest, ErrorCode>(final(self).user_unbound_request)
                    == old(self).user_unbound_request.after_unstake(
                    underlying_amount,
                    (now + old(self).pool_config.unbound_delay) as i64,
                )
                &&& final(self).pool_config == old(self).pool_config
                &&& final(self).staking_token_supply == old(self).staking_token_supply
            },
            r matches Ok(rate) ==> rate.wf(),
    {
        if self.user_unbound_request.is_unstaked {
            return Err(ErrorCode::UserAlreadyUnstaked);
        }
        let rate = self.pool.update_exchange_rate(self.staking_token_supply);
        self.pool.total_staked = self.pool.total_staked - underlying_amount;
        self.user_unbound_request.is_unstaked = true;
        self.user_unbound_request.amount = underlying_amount;
        self.user_unbound_request.withdraw_timestamp = now + self.pool_config.unbound_delay;
        Ok(rate)
    }
}

} // verus!
