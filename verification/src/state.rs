//! The pool's accounts: its configuration, its balances and each user's
//! unbonding request.

use vstd::prelude::*;

use crate::error::ErrorCode;
use crate::pubkey::Pubkey;
use vstd::string::StringSliceAdditionalSpecFns;

verus! {

/// The seed prefix of the pool configuration account's address, which also
/// signs the pool's token transfers.
pub const POOL_CONFIG_SEED: &'static str = "pool_config";

/// The seed prefix of the pool balance account's address.
pub const POOL_SEED: &'static str = "pool";

/// The seed prefix of a user's unbonding request account's address.
pub const USER_UNBOUND_REQUEST_SEED: &'static str = "user_unbound_request";

/// Bytes reserved for a pool configuration account.
pub const POOL_CONFIG_SIZE: usize = 8 + 32 + 32 + 32 + 8 + 1;

/// Bytes reserved for a pool balance account.
pub const POOL_SIZE: usize = 8 + 8 + 8 + 8 + 8;

/// Bytes reserved for a user's unbonding request account.
pub const USER_UNBOUND_REQUEST_SIZE: usize = 8 + 32 + 32 + 8 + 8 + 1 + 1;


/// The pool's exchange rate as a fraction: `numerator` units of the
/// underlying token are worth `denominator` units of the liquid staking
/// token.
#[derive(Clone, Copy, Debug, PartialEq, Eq)]
pub struct ExchangeRate {
    pub numerator: u64,
    pub denominator: u64,
}

impl ExchangeRate {
    /// One underlying unit per liquid unit.
    pub open spec fn one() -> ExchangeRate {
        ExchangeRate { numerator: 1, denominator: 1 }
    }

    /// The fraction is well formed: its denominator is positive.
    pub open spec fn wf(self) -> bool {
        self.denominator > 0
    }

    /// `self` is at most `other`, compared as fractions.
    pub open spec fn at_most(self, other: ExchangeRate) -> bool {
        self.numerator * other.denominator <= other.numerator * self.denominator
    }

    /// The rate of one underlying unit per liquid unit.
    pub fn unit() -> (rate: ExchangeRate)
        ensures
            rate == ExchangeRate::one(),
            rate.numerator == 1 && rate.denominator == 1,
    {
        ExchangeRate { numerator: 1, denominator: 1 }
    }
}

/// The signer and key material of the pool: which tokens it pairs, who
/// created it, and how long unstaked funds stay locked.
#[derive(Clone, Copy, Debug, PartialEq, Eq)]
pub struct PoolConfig {
    pub owner: Pubkey,
    pub underlaying_mint: Pubkey,
    pub staking_token_mint: Pubkey,
    /// Seconds between an unstake and the earliest withdrawal.
    pub unbound_delay: i64,
    pub bump: [u8; 1],
}

impl PoolConfig {
    /// The seeds with which the pool configuration account signs: its
    /// address prefix, the two mints and its bump.
    pub open spec fn spec_auth_seeds(self) -> Seq<Seq<u8>> {
        seq![
            POOL_CONFIG_SEED.spec_bytes(),
            self.staking_token_mint.bytes(),
            self.underlaying_mint.bytes(),
            self.bump@,
        ]
    }

    /// The seeds with which the pool configuration account signs the
    /// pool's transfers: the configuration seed prefix, the liquid staking
    /// mint, the underlying mint and the bump, in that order.
    pub fn auth_seeds(&self) -> (seeds: Vec<Vec<u8>>)
        ensures
            seeds@.len() == 4,
            forall|i: int| 0 <= i < 4 ==> #[trigger] seeds@[i]@ == self.spec_auth_seeds()[i],
            seeds@[0]@ == POOL_CONFIG_SEED.spec_bytes(),
            seeds@[1]@ == self.staking_token_mint.0@,
            seeds@[2]@ == self.underlaying_mint.0@,
            seeds@[3]@ == self.bump@,
    {
        let mut seeds: Vec<Vec<u8>> = Vec::new();
        seeds.push(vstd::slice::slice_to_vec(POOL_CONFIG_SEED.as_bytes()));
        seeds.push(self.staking_token_mint.to_vec());
        seeds.push(self.underlaying_mint.to_vec());
        seeds.push(vstd::slice::slice_to_vec(vstd::array::array_as_slice(&self.bump)));
        seeds
    }
}

/// The pool's balances.
///
/// The pool account also stores the exchange rate as a floating-point
/// number; the library computes that rate as an [`ExchangeRate`] fraction
/// and hands it back, and the program around it stores its value.
#[derive(Clone, Copy, Debug, PartialEq, Eq)]
pub struct Pool {
    /// When the pool was created.
    pub last_updated: i64,
    /// The underlying tokens staked into the pool.
    pub total_staked: u64,
    /// The rewards paid into the pool.
    pub accumulated_reward: u64,
    pub acoount_admin: [Pubkey; 128],
}

impl Pool {
    /// The rate can be computed without overflow for `total_lst` liquid
    /// tokens in circulation.
    pub open spec fn rate_computable(self, total_lst: u64) -> bool {
        total_lst != 0 ==> self.total_staked + self.accumulated_reward <= u64::MAX
    }

    /// The exchange rate for `total_lst` liquid tokens in circulation: the
    /// staked tokens and rewards per liquid token, or one when no liquid
    /// token is in circulation.
    pub open spec fn rate_for(self, total_lst: u64) -> ExchangeRate {
        if total_lst != 0 {
            ExchangeRate {
                numerator: (self.total_staked + self.accumulated_reward) as u64,
                denominator: total_lst,
            }
        } else {
            ExchangeRate::one()
        }
    }

    /// The exchange rate that the pool takes on when `total_lst` liquid
    /// tokens are in circulation.
    pub fn update_exchange_rate(&self, total_lst: u64) -> (rate: ExchangeRate)
        requires
            self.rate_computable(total_lst),
        ensures
            rate == self.rate_for(total_lst),
            rate.wf(),
            total_lst != 0 ==> rate.numerator == self.total_staked + self.accumulated_reward
                && rate.denominator == total_lst,
            total_lst == 0 ==> rate.numerator == 1 && rate.denominator == 1,
    {
        if total_lst != 0 {
            ExchangeRate {
                numerator: self.total_staked + self.accumulated_reward,
                denominator: total_lst,
            }
        } else {
            ExchangeRate::unit()
        }
    }
}

/// A user's unbonding request: the underlying tokens that the user unstaked
/// and when they can be withdrawn.
#[derive(Clone, Copy, Debug, PartialEq, Eq)]
pub struct UserUnboundRequest {
    pub owner: Pubkey,
    pub pool_config: Pubkey,
    /// The underlying tokens to be withdrawn.
    pub amount: u64,
    /// The earliest time of the withdrawal.
    pub withdraw_timestamp: i64,
    /// Whether an unstake awaits its withdrawal.
    pub is_unstaked: bool,
}

impl UserUnboundRequest {
    /// The request of `owner` in the pool `pool_config`, with nothing
    /// unstaked.
    pub open spec fn idle(owner: Pubkey, pool_config: Pubkey) -> UserUnboundRequest {
        UserUnboundRequest {
            owner,
            pool_config,
            amount: 0,
            withdraw_timestamp: 0,
            is_unstaked: false,
        }
    }

    /// The underlying tokens that the request still claims from the pool:
    /// its amount while an unstake awaits withdrawal, nothing otherwise.
    pub open spec fn pending_claim(self) -> int {
        if self.is_unstaked {
            self.amount as int
        } else {
            0
        }
    }

    /// A request with no unstake awaiting withdrawal holds no amount and no
    /// release time, as a newly created request does.
    pub open spec fn settled_when_idle(self) -> bool {
        !self.is_unstaked ==> self.amount == 0 && self.withdraw_timestamp == 0
    }

    /// The request after a stake by `signer`: a request that was never
    /// assigned an owner becomes the signer's idle request; any other is
    /// left as it is.
    pub open spec fn after_stake(self, signer: Pubkey, pool_config: Pubkey) -> UserUnboundRequest {
        if self.owner.spec_is_default() {
            UserUnboundRequest::idle(signer, pool_config)
        } else {
            self
        }
    }

    /// The request after an unstake that releases `underlying` tokens at
    /// time `release_at`, or the error when a previous unstake awaits its
    /// withdrawal.
    pub open spec fn after_unstake(self, underlying: u64, release_at: i64) -> Result<
        UserUnboundRequest,
        ErrorCode,
    > {
        if self.is_unstaked {
            Err(ErrorCode::UserAlreadyUnstaked)
        } else {
            Ok(
                UserUnboundRequest {
                    amount: underlying,
                    withdraw_timestamp: release_at,
                    is_unstaked: true,
                    ..self
                },
            )
        }
    }

    /// The request after a withdrawal at time `now`, with the tokens paid
    /// out, or the error when the release time has not come.
    pub open spec fn after_withdraw(self, now: i64) -> Result<(UserUnboundRequest, u64), ErrorCode> {
        if now >= self.withdraw_timestamp {
            Ok(
                (
                    UserUnboundRequest {
                        amount: 0,
                        withdraw_timestamp: 0,
                        is_unstaked: false,
                        ..self
                    },
                    self.amount,
                ),
            )
        } else {
            Err(ErrorCode::UnboundDelayNotPassed)
        }
    }
}

} // verus!
