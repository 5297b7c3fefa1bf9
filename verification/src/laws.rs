//! Properties of the pool that span several instructions.

use vstd::prelude::*;

use crate::error::ErrorCode;
use crate::pubkey::Pubkey;
use crate::instructions::unstake::Unstake;
use crate::state::{ExchangeRate, Pool, UserUnboundRequest};

verus! {

/// An unstake of `underlying` tokens released at `release_at` can be
/// withdrawn at any time `now` from `release_at` on; the withdrawal pays
/// out exactly `underlying` and leaves the user's idle request, with its
/// owner and pool unchanged. Before `release_at` the withdrawal is refused.
pub proof fn unstake_then_withdraw(
    request: UserUnboundRequest,
    underlying: u64,
    release_at: i64,
    now: i64,
)
    requires
        !request.is_unstaked,
    ensures
        request.after_unstake(underlying, release_at) matches Ok(unstaked) && {
            &&& now >= release_at ==> unstaked.after_withdraw(now) == Ok::<
                (UserUnboundRequest, u64),
                ErrorCode,
            >((UserUnboundRequest::idle(request.owner, request.pool_config), underlying))
            &&& now < release_at ==> unstaked.after_withdraw(now) == Err::<
                (UserUnboundRequest, u64),
                ErrorCode,
            >(ErrorCode::UnboundDelayNotPassed)
        },
{
}

/// Once an unstake has gone through, every further unstake is refused
/// until the request is withdrawn.
pub proof fn no_second_unstake(
    request: UserUnboundRequest,
    underlying: u64,
    release_at: i64,
    next_underlying: u64,
    next_release_at: i64,
)
    requires
        request.after_unstake(underlying, release_at) is Ok,
    ensures
        request.after_unstake(underlying, release_at)->Ok_0.after_unstake(
            next_underlying,
            next_release_at,
        ) == Err::<UserUnboundRequest, ErrorCode>(ErrorCode::UserAlreadyUnstaked),
{
}

/// After a withdrawal the user can unstake again.
pub proof fn withdraw_then_unstake(
    request: UserUnboundRequest,
    now: i64,
    underlying: u64,
    release_at: i64,
)
    requires
        request.after_withdraw(now) is Ok,
    ensures
        request.after_withdraw(now)->Ok_0.0.after_unstake(underlying, release_at) is Ok,
{
}

/// A withdrawn request holds nothing: a second withdrawal at a time that is
/// not negative pays out nothing and changes nothing.
pub proof fn second_withdraw_pays_nothing(request: UserUnboundRequest, now: i64, later: i64)
    requires
        request.after_withdraw(now) is Ok,
        later >= 0,
    ensures
        ({
            let cleared = request.after_withdraw(now)->Ok_0.0;
            cleared.after_withdraw(later) == Ok::<(UserUnboundRequest, u64), ErrorCode>(
                (cleared, 0),
            )
        }),
{
}

/// A user's request is opened once: after a stake by a signer whose
/// address is not the all-zero one, further stakes leave the request as it
/// is, whoever signs them.
pub proof fn request_opened_once(
    request: UserUnboundRequest,
    signer: Pubkey,
    pool_config: Pubkey,
    next_signer: Pubkey,
    next_pool_config: Pubkey,
)
    requires
        !signer.spec_is_default(),
    ensures
        ({
            let opened = request.after_stake(signer, pool_config);
            opened.after_stake(next_signer, next_pool_config) == opened
        }),
{
}

/// A user's first stake leaves a request from which the user can unstake.
pub proof fn first_stake_allows_unstake(
    request: UserUnboundRequest,
    signer: Pubkey,
    pool_config: Pubkey,
    underlying: u64,
    release_at: i64,
)
    requires
        request.owner.spec_is_default(),
    ensures
        request.after_stake(signer, pool_config).after_unstake(underlying, release_at) is Ok,
{
}

/// Paying rewards into the pool never lowers its exchange rate for a given
/// number of liquid tokens in circulation.
pub proof fn rewards_never_lower_rate(pool: Pool, reward: u64, total_lst: u64)
    requires
        pool.accumulated_reward + reward <= u64::MAX,
        (Pool {
            accumulated_reward: (pool.accumulated_reward + reward) as u64,
            ..pool
        }).rate_computable(total_lst),
    ensures
        pool.rate_for(total_lst).at_most(
            (Pool { accumulated_reward: (pool.accumulated_reward + reward) as u64, ..pool }).rate_for(
                total_lst,
            ),
        ),
{
    if total_lst != 0 {
        let a: int = pool.total_staked + pool.accumulated_reward;
        let b: int = a + reward;
        let n: int = total_lst as int;
        assert(a * n <= b * n) by (nonlinear_arith)
            requires
                a <= b,
                n > 0,
        ;
    }
}

/// A stake of `amount` followed by an unstake worth `underlying` changes
/// the pool's staked tokens by `amount - underlying` and leaves its rewards,
/// creation time and admins as they were.
pub proof fn stake_then_unstake_accounting(pool: Pool, amount: u64, underlying: u64)
    requires
        pool.total_staked + amount <= u64::MAX,
        underlying <= pool.total_staked + amount,
    ensures
        ({
            let staked = Pool { total_staked: (pool.total_staked + amount) as u64, ..pool };
            let unstaked = Pool {
                total_staked: (staked.total_staked - underlying) as u64,
                ..staked
            };
            &&& unstaked.total_staked == pool.total_staked + amount - underlying
            &&& unstaked == (Pool {
                total_staked: (pool.total_staked + amount - underlying) as u64,
                ..pool
            })
        }),
{
}

/// A stake leaves a request that already has an owner exactly as it is:
/// it neither takes the request over for the new signer nor resets a
/// pending unstake.
pub proof fn stake_keeps_assigned_request(
    request: UserUnboundRequest,
    signer: Pubkey,
    pool_config: Pubkey,
)
    requires
        !request.owner.spec_is_default(),
    ensures
        request.after_stake(signer, pool_config) == request,
{
}

/// What a stake gives does not depend on who stakes: two stakes of the same
/// amount into pools with the same staked tokens and rewards, with the same
/// liquid tokens in circulation, get the same exchange rate and leave the
/// same staked tokens and rewards.
pub proof fn stake_independent_of_staker(
    pool: Pool,
    other: Pool,
    total_lst: u64,
    amount: u64,
)
    requires
        pool.total_staked == other.total_staked,
        pool.accumulated_reward == other.accumulated_reward,
    ensures
        pool.rate_for(total_lst) == other.rate_for(total_lst),
        (Pool { total_staked: (pool.total_staked + amount) as u64, ..pool }).total_staked
            == (Pool { total_staked: (other.total_staked + amount) as u64, ..other }).total_staked,
        (Pool { total_staked: (pool.total_staked + amount) as u64, ..pool }).accumulated_reward
            == (Pool {
            total_staked: (other.total_staked + amount) as u64,
            ..other
        }).accumulated_reward,
{
}

/// The exchange rate is worth exactly one: its numerator equals its
/// denominator.
pub open spec fn rate_is_one(rate: ExchangeRate) -> bool {
    rate.numerator == rate.denominator
}

/// In a pool without rewards whose liquid tokens match its staked tokens
/// one for one, the exchange rate is one both for a stake of `amount` and
/// for the unstake of the `amount` liquid tokens that it mints; unstaking
/// `amount` underlying tokens then leaves the pool's staked tokens as they
/// were before the stake.
pub proof fn stake_unstake_at_rate_one(pool: Pool, amount: u64)
    requires
        pool.accumulated_reward == 0,
        pool.total_staked + amount <= u64::MAX,
    ensures
        rate_is_one(pool.rate_for(pool.total_staked)),
        ({
            let staked = Pool { total_staked: (pool.total_staked + amount) as u64, ..pool };
            &&& rate_is_one(staked.rate_for((pool.total_staked + amount) as u64))
            &&& (Pool {
                total_staked: (staked.total_staked - amount) as u64,
                ..staked
            }) == pool
        }),
{
}

/// The underlying tokens in the pool's vault that the pool does not count:
/// the vault balance less the staked tokens, the rewards and what the
/// user's request still claims.
pub open spec fn vault_surplus(vault: int, pool: Pool, request: UserUnboundRequest) -> int {
    vault - (pool.total_staked + pool.accumulated_reward + request.pending_claim())
}

/// A stake of `amount` puts `amount` into the vault and counts it as
/// staked: the vault surplus stays the same. This holds unless the stake
/// reassigns a request that has no owner but a pending unstake, whose claim
/// the stake then drops.
pub proof fn stake_keeps_vault_surplus(
    vault: int,
    pool: Pool,
    request: UserUnboundRequest,
    signer: Pubkey,
    pool_config: Pubkey,
    amount: u64,
)
    requires
        pool.total_staked + amount <= u64::MAX,
        request.owner.spec_is_default() ==> !request.is_unstaked,
    ensures
        vault_surplus(
            vault + amount,
            Pool { total_staked: (pool.total_staked + amount) as u64, ..pool },
            request.after_stake(signer, pool_config),
        ) == vault_surplus(vault, pool, request),
{
}

/// A reward puts `reward` into the vault and counts it as reward: the
/// vault surplus stays the same.
pub proof fn reward_keeps_vault_surplus(
    vault: int,
    pool: Pool,
    request: UserUnboundRequest,
    reward: u64,
)
    requires
        pool.accumulated_reward + reward <= u64::MAX,
    ensures
        vault_surplus(
            vault + reward,
            Pool { accumulated_reward: (pool.accumulated_reward + reward) as u64, ..pool },
            request,
        ) == vault_surplus(vault, pool, request),
{
}

/// An unstake worth `underlying` moves that amount from the staked tokens
/// to the request's claim and leaves the vault alone: the vault surplus
/// stays the same.
pub proof fn unstake_keeps_vault_surplus(
    vault: int,
    pool: Pool,
    request: UserUnboundRequest,
    underlying: u64,
    release_at: i64,
)
    requires
        !request.is_unstaked,
        request.settled_when_idle(),
        underlying <= pool.total_staked,
    ensures
        request.after_unstake(underlying, release_at) matches Ok(unstaked) && vault_surplus(
            vault,
            Pool { total_staked: (pool.total_staked - underlying) as u64, ..pool },
            unstaked,
        ) == vault_surplus(vault, pool, request),
{
}

/// A withdrawal pays out of the vault exactly what the request claimed:
/// the vault surplus stays the same.
pub proof fn withdraw_keeps_vault_surplus(
    vault: int,
    pool: Pool,
    request: UserUnboundRequest,
    now: i64,
)
    requires
        request.settled_when_idle(),
        request.after_withdraw(now) is Ok,
    ensures
        ({
            let (cleared, paid) = request.after_withdraw(now)->Ok_0;
            vault_surplus(vault - paid, pool, cleared) == vault_surplus(vault, pool, request)
        }),
{
}

/// Stakes, unstakes and withdrawals keep a request settled when idle, and
/// a successful withdrawal leaves it holding nothing.
pub proof fn requests_stay_settled_when_idle(
    request: UserUnboundRequest,
    signer: Pubkey,
    pool_config: Pubkey,
    underlying: u64,
    release_at: i64,
    now: i64,
)
    requires
        request.settled_when_idle(),
    ensures
        request.after_stake(signer, pool_config).settled_when_idle(),
        request.after_unstake(underlying, release_at) matches Ok(unstaked)
            ==> unstaked.settled_when_idle(),
        request.after_withdraw(now) matches Ok((cleared, paid)) ==> {
            &&& cleared.settled_when_idle()
            &&& cleared.amount == 0
            &&& cleared.withdraw_timestamp == 0
            &&& !cleared.is_unstaked
        },
{
}

/// The exchange rate counts every staked token and every reward against
/// the liquid tokens in circulation, whatever the balances are: for a
/// positive supply its numerator is the staked tokens plus the rewards and
/// its denominator the supply; with no liquid token in circulation it is
/// one to one.
pub proof fn rate_counts_stake_and_rewards(pool: Pool, total_lst: u64)
    requires
        pool.rate_computable(total_lst),
    ensures
        total_lst != 0 ==> pool.rate_for(total_lst).numerator == pool.total_staked
            + pool.accumulated_reward && pool.rate_for(total_lst).denominator == total_lst,
        total_lst == 0 ==> pool.rate_for(total_lst).numerator == 1
            && pool.rate_for(total_lst).denominator == 1,
{
}

/// Rewards raise the rate by exactly their share: with a positive supply,
/// adding `reward` to the pool adds `reward` to the rate's numerator and
/// keeps its denominator, whatever the staked tokens are.
pub proof fn rate_grows_by_reward(pool: Pool, reward: u64, total_lst: u64)
    requires
        total_lst != 0,
        pool.total_staked + pool.accumulated_reward + reward <= u64::MAX,
    ensures
        ({
            let rewarded = Pool {
                accumulated_reward: (pool.accumulated_reward + reward) as u64,
                ..pool
            };
            &&& rewarded.rate_for(total_lst).numerator == pool.rate_for(total_lst).numerator
                + reward
            &&& rewarded.rate_for(total_lst).denominator == pool.rate_for(total_lst).denominator
        }),
{
}

/// The one refusal of an unstake is a pending unstake: an unstake is
/// allowed exactly when the user's request has no unstake awaiting
/// withdrawal, whoever owns the request and whatever the pool's balances
/// and supply are.
pub proof fn unstake_allowed_unless_pending(unstake: Unstake)
    ensures
        unstake.allowed() <==> !unstake.user_unbound_request.is_unstaked,
{
}

/// An unstake from a request with nothing pending always goes through, and
/// records exactly the unstaked amount and release time, keeping the owner
/// and pool; from a request with an unstake pending it is refused with
/// `UserAlreadyUnstaked`.
pub proof fn unstake_outcome(request: UserUnboundRequest, underlying: u64, release_at: i64)
    ensures
        !request.is_unstaked ==> request.after_unstake(underlying, release_at) == Ok::<
            UserUnboundRequest,
            ErrorCode,
        >(
            UserUnboundRequest {
                owner: request.owner,
                pool_config: request.pool_config,
                amount: underlying,
                withdraw_timestamp: release_at,
                is_unstaked: true,
            },
        ),
        request.is_unstaked ==> request.after_unstake(underlying, release_at) == Err::<
            UserUnboundRequest,
            ErrorCode,
        >(ErrorCode::UserAlreadyUnstaked),
{
}

/// A withdrawal at or after the release time pays out the request's amount
/// and clears it; before the release time it is refused with
/// `UnboundDelayNotPassed`.
pub proof fn withdraw_outcome(request: UserUnboundRequest, now: i64)
    ensures
        now >= request.withdraw_timestamp ==> request.after_withdraw(now) == Ok::<
            (UserUnboundRequest, u64),
            ErrorCode,
        >(
            (
                UserUnboundRequest {
                    owner: request.owner,
                    pool_config: request.pool_config,
                    amount: 0,
                    withdraw_timestamp: 0,
                    is_unstaked: false,
                },
                request.amount,
            ),
        ),
        now < request.withdraw_timestamp ==> request.after_withdraw(now) == Err::<
            (UserUnboundRequest, u64),
            ErrorCode,
        >(ErrorCode::UnboundDelayNotPassed),
{
}

/// An address is the default one exactly when all 32 of its bytes are
/// zero.
pub proof fn default_means_all_zero(key: Pubkey)
    ensures
        key.spec_is_default() <==> (forall|i: int| 0 <= i < 32 ==> #[trigger] key.0@[i] == 0u8),
        key.spec_is_default() <==> key.bytes() == Seq::new(32, |i: int| 0u8),
{
    if key.spec_is_default() {
        assert forall|i: int| 0 <= i < 32 implies #[trigger] key.0@[i] == 0u8 by {
            assert(key.bytes()[i] == crate::pubkey::zero_bytes()[i]);
        }
    }
    if forall|i: int| 0 <= i < 32 ==> #[trigger] key.0@[i] == 0u8 {
        assert(key.bytes() =~= crate::pubkey::zero_bytes());
    }
    assert(crate::pubkey::zero_bytes() =~= Seq::new(32, |i: int| 0u8));
}

/// A stake opens the request only when its owner is the all-zero address:
/// a request whose owner has any byte that is not zero is left exactly as
/// it is, pending unstake included; a request whose owner is all zero
/// becomes the signer's request in the pool, with nothing pending.
pub proof fn stake_opens_only_unowned_requests(
    request: UserUnboundRequest,
    signer: Pubkey,
    pool_config: Pubkey,
)
    ensures
        (exists|i: int| 0 <= i < 32 && #[trigger] request.owner.0@[i] != 0u8) ==> request.after_stake(
            signer,
            pool_config,
        ) == request,
        (forall|i: int| 0 <= i < 32 ==> #[trigger] request.owner.0@[i] == 0u8) ==> request.after_stake(
            signer,
            pool_config,
        ) == (UserUnboundRequest {
            owner: signer,
            pool_config,
            amount: 0,
            withdraw_timestamp: 0,
            is_unstaked: false,
        }),
{
    default_means_all_zero(request.owner);
}

} // verus!
