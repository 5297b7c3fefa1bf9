use liquid_staking::error::ErrorCode;
use liquid_staking::instructions::add_rewards::AddReward;
use liquid_staking::instructions::initialize_pool::InitializePool;
use liquid_staking::instructions::stake::Stake;
use liquid_staking::instructions::unstake::Unstake;
use liquid_staking::instructions::withdraw::WithDraw;
use liquid_staking::pubkey::Pubkey;
use liquid_staking::state::{
    ExchangeRate, Pool, PoolConfig, UserUnboundRequest, POOL_CONFIG_SEED, POOL_CONFIG_SIZE,
    POOL_SIZE, USER_UNBOUND_REQUEST_SIZE,
};

fn key(b: u8) -> Pubkey {
    Pubkey([b; 32])
}

fn zero_pool() -> Pool {
    Pool {
        last_updated: 0,
        total_staked: 0,
        accumulated_reward: 0,
        acoount_admin: [Pubkey([0; 32]); 128],
    }
}

fn pool(staked: u64, reward: u64) -> Pool {
    Pool { total_staked: staked, accumulated_reward: reward, ..zero_pool() }
}

fn config(delay: i64) -> PoolConfig {
    PoolConfig {
        owner: key(1),
        underlaying_mint: key(2),
        staking_token_mint: key(3),
        unbound_delay: delay,
        bump: [254],
    }
}

fn unassigned_request() -> UserUnboundRequest {
    UserUnboundRequest {
        owner: Pubkey::default_key(),
        pool_config: Pubkey::default_key(),
        amount: 0,
        withdraw_timestamp: 0,
        is_unstaked: false,
    }
}

fn idle_request() -> UserUnboundRequest {
    UserUnboundRequest { owner: key(7), pool_config: key(8), ..unassigned_request() }
}

#[test]
fn default_key_is_all_zero() {
    let k = Pubkey::default_key();
    assert_eq!(k.to_bytes(), [0u8; 32]);
    assert!(k.is_default());
    let mut bytes = [0u8; 32];
    bytes[31] = 1;
    assert!(!Pubkey::new_from_array(bytes).is_default());
    assert_eq!(key(9).to_vec(), vec![9u8; 32]);
}

#[test]
fn sizes_of_accounts() {
    assert_eq!(POOL_CONFIG_SIZE, 113);
    assert_eq!(POOL_SIZE, 40);
    assert_eq!(USER_UNBOUND_REQUEST_SIZE, 90);
}

#[test]
fn exchange_rate_without_liquid_tokens_is_one() {
    let rate = pool(500, 30).update_exchange_rate(0);
    assert_eq!(rate, ExchangeRate { numerator: 1, denominator: 1 });
    assert_eq!(ExchangeRate::unit(), rate);
}

#[test]
fn exchange_rate_is_staked_and_rewards_per_liquid_token() {
    let rate = pool(150, 50).update_exchange_rate(100);
    assert_eq!(rate, ExchangeRate { numerator: 200, denominator: 100 });
    let rate = pool(0, 0).update_exchange_rate(7);
    assert_eq!(rate, ExchangeRate { numerator: 0, denominator: 7 });
}

#[test]
fn auth_seeds_are_prefix_mints_and_bump() {
    let seeds = config(10).auth_seeds();
    assert_eq!(seeds.len(), 4);
    assert_eq!(seeds[0], POOL_CONFIG_SEED.as_bytes().to_vec());
    assert_eq!(seeds[1], vec![3u8; 32]);
    assert_eq!(seeds[2], vec![2u8; 32]);
    assert_eq!(seeds[3], vec![254u8]);
}

#[test]
fn error_messages() {
    assert_eq!(ErrorCode::UserAlreadyUnstaked.msg(), "User have already unstaked before");
    assert_eq!(ErrorCode::UnboundDelayNotPassed.msg(), "Unbound delay not passed");
}

#[test]
fn initialize_records_owner_mints_delay_and_time() {
    let mut ix = InitializePool {
        signer: key(4),
        pool_config: PoolConfig {
            owner: Pubkey::default_key(),
            underlaying_mint: Pubkey::default_key(),
            staking_token_mint: Pubkey::default_key(),
            unbound_delay: 0,
            bump: [0],
        },
        pool: zero_pool(),
        staking_token_mint: key(5),
        underlaying_mint: key(6),
    };
    let rate = ix.process(3600, 1_700_000_000);
    assert_eq!(rate, ExchangeRate { numerator: 1, denominator: 1 });
    assert_eq!(ix.pool_config.owner, key(4));
    assert_eq!(ix.pool_config.staking_token_mint, key(5));
    assert_eq!(ix.pool_config.underlaying_mint, key(6));
    assert_eq!(ix.pool_config.unbound_delay, 3600);
    assert_eq!(ix.pool_config.bump, [0]);
    assert_eq!(ix.pool.last_updated, 1_700_000_000);
    assert_eq!(ix.pool.total_staked, 0);
}

#[test]
fn add_reward_accumulates() {
    let mut ix = AddReward { pool: pool(100, 5) };
    ix.process(20);
    assert_eq!(ix.pool.accumulated_reward, 25);
    assert_eq!(ix.pool.total_staked, 100);
}

fn stake_ix(request: UserUnboundRequest, staked: u64, reward: u64, supply: u64) -> Stake {
    Stake {
        signer: key(7),
        pool_config_key: key(8),
        pool_config: config(10),
        pool: pool(staked, reward),
        staking_token_supply: supply,
        user_unbound_request: request,
    }
}

#[test]
fn first_stake_opens_the_request() {
    let mut ix = stake_ix(unassigned_request(), 0, 0, 0);
    let rate = ix.process(1_000);
    assert_eq!(rate, ExchangeRate { numerator: 1, denominator: 1 });
    assert_eq!(ix.pool.total_staked, 1_000);
    assert_eq!(ix.user_unbound_request, idle_request());
}

#[test]
fn later_stake_keeps_the_request() {
    let request = UserUnboundRequest {
        owner: key(9),
        pool_config: key(10),
        amount: 40,
        withdraw_timestamp: 77,
        is_unstaked: true,
    };
    let mut ix = stake_ix(request, 300, 100, 200);
    let rate = ix.process(50);
    assert_eq!(rate, ExchangeRate { numerator: 400, denominator: 200 });
    assert_eq!(ix.pool.total_staked, 350);
    assert_eq!(ix.pool.accumulated_reward, 100);
    assert_eq!(ix.user_unbound_request, request);
}

fn unstake_ix(request: UserUnboundRequest) -> Unstake {
    Unstake {
        pool_config: config(3600),
        pool: pool(1_000, 200),
        staking_token_supply: 600,
        user_unbound_request: request,
    }
}

#[test]
fn unstake_records_amount_and_release_time() {
    let mut ix = unstake_ix(idle_request());
    assert_eq!(ix.rate(), Ok(ExchangeRate { numerator: 1_200, denominator: 600 }));
    let r = ix.process(400, 1_000);
    assert_eq!(r, Ok(ExchangeRate { numerator: 1_200, denominator: 600 }));
    assert_eq!(ix.pool.total_staked, 600);
    assert_eq!(ix.pool.accumulated_reward, 200);
    assert_eq!(
        ix.user_unbound_request,
        UserUnboundRequest { amount: 400, withdraw_timestamp: 4_600, is_unstaked: true, ..idle_request() }
    );
}

#[test]
fn unstake_refused_while_previous_awaits_withdrawal() {
    let request = UserUnboundRequest { amount: 10, withdraw_timestamp: 50, is_unstaked: true, ..idle_request() };
    let mut ix = unstake_ix(request);
    assert_eq!(ix.rate(), Err(ErrorCode::UserAlreadyUnstaked));
    let before = ix;
    assert_eq!(ix.process(5, 10), Err(ErrorCode::UserAlreadyUnstaked));
    assert_eq!(ix, before);
}

#[test]
fn withdraw_refused_before_release_time() {
    let request = UserUnboundRequest { amount: 10, withdraw_timestamp: 50, is_unstaked: true, ..idle_request() };
    let mut ix = WithDraw { pool_config: config(3600), user_unbound_request: request };
    assert_eq!(ix.process(49), Err(ErrorCode::UnboundDelayNotPassed));
    assert_eq!(ix.user_unbound_request, request);
}

#[test]
fn withdraw_pays_out_and_clears() {
    let request = UserUnboundRequest { amount: 10, withdraw_timestamp: 50, is_unstaked: true, ..idle_request() };
    let mut ix = WithDraw { pool_config: config(3600), user_unbound_request: request };
    assert_eq!(ix.process(50), Ok(10));
    assert_eq!(ix.user_unbound_request, idle_request());
    assert_eq!(ix.process(51), Ok(0));
}

#[test]
fn full_cycle_stake_unstake_withdraw() {
    let mut stake = stake_ix(unassigned_request(), 0, 0, 0);
    stake.process(500);
    let mut unstake = Unstake {
        pool_config: config(100),
        pool: stake.pool,
        staking_token_supply: 500,
        user_unbound_request: stake.user_unbound_request,
    };
    assert_eq!(unstake.process(500, 1_000), Ok(ExchangeRate { numerator: 500, denominator: 500 }));
    assert_eq!(unstake.pool.total_staked, 0);
    let mut again = unstake;
    assert_eq!(again.process(1, 1_001), Err(ErrorCode::UserAlreadyUnstaked));
    let mut withdraw = WithDraw { pool_config: config(100), user_unbound_request: unstake.user_unbound_request };
    assert_eq!(withdraw.process(1_099), Err(ErrorCode::UnboundDelayNotPassed));
    assert_eq!(withdraw.process(1_100), Ok(500));
    assert_eq!(withdraw.user_unbound_request, idle_request());
    let mut next = Unstake { user_unbound_request: withdraw.user_unbound_request, ..unstake };
    next.pool.total_staked = 10;
    assert!(next.process(10, 2_000).is_ok());
}

#[test]
fn rewards_raise_the_rate() {
    let before = pool(100, 0).update_exchange_rate(100);
    let mut ix = AddReward { pool: pool(100, 0) };
    ix.process(50);
    let after = ix.pool.update_exchange_rate(100);
    assert_eq!(before, ExchangeRate { numerator: 100, denominator: 100 });
    assert_eq!(after, ExchangeRate { numerator: 150, denominator: 100 });
}

fn pending(r: &UserUnboundRequest) -> i128 {
    if r.is_unstaked { r.amount as i128 } else { 0 }
}

fn surplus(vault: i128, p: &Pool, r: &UserUnboundRequest) -> i128 {
    vault - (p.total_staked as i128 + p.accumulated_reward as i128 + pending(r))
}

#[test]
fn vault_accounting_over_a_cycle() {
    let mut vault: i128 = 0;
    let mut stake = stake_ix(unassigned_request(), 0, 0, 0);
    let s0 = surplus(vault, &stake.pool, &stake.user_unbound_request);
    stake.process(900);
    vault += 900;
    assert_eq!(surplus(vault, &stake.pool, &stake.user_unbound_request), s0);

    let mut reward = AddReward { pool: stake.pool };
    reward.process(90);
    vault += 90;
    assert_eq!(surplus(vault, &reward.pool, &stake.user_unbound_request), s0);

    let mut unstake = Unstake {
        pool_config: config(10),
        pool: reward.pool,
        staking_token_supply: 900,
        user_unbound_request: stake.user_unbound_request,
    };
    assert!(unstake.process(330, 5).is_ok());
    assert_eq!(surplus(vault, &unstake.pool, &unstake.user_unbound_request), s0);

    let mut withdraw = WithDraw { pool_config: config(10), user_unbound_request: unstake.user_unbound_request };
    let paid = withdraw.process(15).unwrap();
    vault -= paid as i128;
    assert_eq!(paid, 330);
    assert_eq!(surplus(vault, &unstake.pool, &withdraw.user_unbound_request), s0);
}

#[test]
fn stake_at_rate_one_round_trip() {
    let mut stake = stake_ix(idle_request(), 250, 0, 250);
    let rate = stake.process(40);
    assert_eq!(rate, ExchangeRate { numerator: 250, denominator: 250 });
    let mut unstake = Unstake {
        pool_config: config(0),
        pool: stake.pool,
        staking_token_supply: 290,
        user_unbound_request: stake.user_unbound_request,
    };
    assert_eq!(unstake.process(40, 0), Ok(ExchangeRate { numerator: 290, denominator: 290 }));
    assert_eq!(unstake.pool.total_staked, 250);
    assert_eq!(unstake.user_unbound_request.amount, 40);
}

#[test]
fn stake_gives_the_same_to_any_staker() {
    let mut a = stake_ix(unassigned_request(), 300, 30, 200);
    let mut b = Stake { signer: key(20), user_unbound_request: idle_request(), ..stake_ix(idle_request(), 300, 30, 200) };
    assert_eq!(a.process(77), b.process(77));
    assert_eq!(a.pool, b.pool);
}
