use anchor_lang::prelude::Pubkey;
use bonding_yield_farm::authority::{check_mint_authority, mint_authority_bump};
use bonding_yield_farm::farm::{initialize_pool, stake, toggle_pause, withdraw};
use bonding_yield_farm::reward::{calculate_boosted_reward, split_fee};
use bonding_yield_farm::types::{ErrorCode, Key, Pool, StakedPosition};

const START: i64 = 1_000_000;
const DAY: i64 = 86_400;

fn key(b: u8) -> Key {
    Key::new([b; 32])
}

fn token_program() -> Key {
    key(7)
}

fn farm_authority() -> Key {
    let (pda, _) =
        Pubkey::find_program_address(&[b"farm-mint"], &Pubkey::new_from_array(token_program().bytes));
    Key::new(pda.to_bytes())
}

fn pool_with(coefficient: u64, max_user: u64, max_pool: u64) -> Pool {
    initialize_pool(key(1), key(2), key(3), coefficient, max_user, max_pool, START).0
}

fn stake_minted(
    pool: &mut Pool,
    position: &mut StakedPosition,
    amount: u64,
    lockup: Option<u64>,
    now: i64,
) -> Result<u64, ErrorCode> {
    stake(pool, position, key(9), amount, false, lockup, now, farm_authority(), token_program())
        .map(|e| e.rewards)
}

fn same_pool(a: &Pool, b: &Pool) -> bool {
    a.admin == b.admin
        && a.token_mint == b.token_mint
        && a.total_liquidity == b.total_liquidity
        && a.reward_coefficient == b.reward_coefficient
        && a.fee_rate == b.fee_rate
        && a.last_update == b.last_update
        && a.top_staker == b.top_staker
        && a.top_staker_amount == b.top_staker_amount
        && a.total_rewards_distributed == b.total_rewards_distributed
        && a.max_deposit_per_user == b.max_deposit_per_user
        && a.total_max_liquidity == b.total_max_liquidity
        && a.is_paused == b.is_paused
}

#[test]
fn initialize_sets_parameters_and_zeroes_counters() {
    let (pool, event) = initialize_pool(key(1), key(2), key(3), 100, 10, 20, START);
    assert!(pool.admin == key(2));
    assert!(pool.token_mint == key(3));
    assert_eq!(pool.total_liquidity, 0);
    assert_eq!(pool.reward_coefficient, 100);
    assert_eq!(pool.fee_rate, 2);
    assert_eq!(pool.last_update, START);
    assert!(pool.top_staker == Key::zero());
    assert_eq!(pool.top_staker_amount, 0);
    assert_eq!(pool.total_rewards_distributed, 0);
    assert_eq!(pool.max_deposit_per_user, 10);
    assert_eq!(pool.total_max_liquidity, 20);
    assert!(!pool.is_paused);
    assert!(event.pool == key(1));
    assert!(event.token_mint == key(3));
    assert_eq!(event.reward_coefficient, 100);
}

#[test]
fn reward_with_no_elapsed_time() {
    assert_eq!(calculate_boosted_reward(1000, START, START, 100), Some(101000));
}

#[test]
fn reward_counts_full_days_only() {
    // 2 days and 5 seconds: time multiplier 102; 2500 staked: amount multiplier 102.
    assert_eq!(calculate_boosted_reward(2500, START + 2 * DAY + 5, START, 1), Some(2601));
    assert_eq!(calculate_boosted_reward(2500, START + DAY - 1, START, 1), Some(2550));
}

#[test]
fn reward_ignores_stakes_before_baseline() {
    assert_eq!(calculate_boosted_reward(1000, START - 10 * DAY, START, 100), Some(101000));
}

#[test]
fn reward_at_the_u64_boundary() {
    assert_eq!(calculate_boosted_reward(1, START, START, u64::MAX), Some(u64::MAX));
    assert_eq!(calculate_boosted_reward(2, START, START, u64::MAX), None);
    assert_eq!(calculate_boosted_reward(u64::MAX, i64::MAX, i64::MIN, u64::MAX), None);
    assert_eq!(calculate_boosted_reward(u64::MAX, i64::MAX, i64::MIN, 0), Some(0));
}

#[test]
fn fee_of_two_percent() {
    assert_eq!(split_fee(1000, 2), Some((20, 980)));
    assert_eq!(split_fee(49, 2), Some((0, 49)));
    assert_eq!(split_fee(u64::MAX, 100), Some((u64::MAX, 0)));
    assert_eq!(split_fee(100, 101), None);
}

#[test]
fn withdraw_pays_fee_and_net() {
    let mut pool = pool_with(0, 5000, 5000);
    let mut position = StakedPosition::empty();
    assert_eq!(stake_minted(&mut pool, &mut position, 1000, None, START), Ok(0));
    let (event, net) = withdraw(&mut pool, &mut position, key(9), 1000, START + 1).unwrap();
    assert_eq!(event.amount, 1000);
    assert_eq!(event.fee_amount, 20);
    assert_eq!(event.timestamp, START + 1);
    assert!(event.user == key(9));
    assert_eq!(net, 980);
    assert_eq!(position.amount, 0);
    assert_eq!(pool.total_liquidity, 0);
}

#[test]
fn pool_cap_rejects_extra_stake() {
    let mut pool = pool_with(1, 1000, 500);
    let mut position = StakedPosition::empty();
    assert!(stake_minted(&mut pool, &mut position, 500, None, START).is_ok());
    assert_eq!(pool.total_liquidity, 500);
    let before_pool = pool;
    let before_position = position;
    assert_eq!(
        stake_minted(&mut pool, &mut position, 1, None, START),
        Err(ErrorCode::PoolLiquidityExceeded)
    );
    assert_eq!(pool.total_liquidity, 500);
    assert!(same_pool(&pool, &before_pool));
    assert_eq!(position, before_position);
}

#[test]
fn lockup_blocks_early_withdrawal() {
    let mut pool = pool_with(0, 1000, 1000);
    let mut position = StakedPosition::empty();
    let t = START + 50;
    assert!(stake_minted(&mut pool, &mut position, 100, Some(3600), t).is_ok());
    assert_eq!(position.unlock_time, t + 3600);
    assert_eq!(
        withdraw(&mut pool, &mut position, key(9), 100, t + 1000).map(|r| r.1),
        Err(ErrorCode::StillLocked)
    );
    assert_eq!(position.amount, 100);
    assert_eq!(withdraw(&mut pool, &mut position, key(9), 100, t + 3600).map(|r| r.1), Ok(98));
    assert_eq!(position.amount, 0);
}

#[test]
fn toggle_pause_by_non_admin_is_rejected() {
    let mut pool = pool_with(1, 10, 10);
    assert_eq!(toggle_pause(&mut pool, key(5)), Err(ErrorCode::Unauthorized));
    assert!(!pool.is_paused);
    assert_eq!(toggle_pause(&mut pool, key(2)), Ok(()));
    assert!(pool.is_paused);
    assert_eq!(toggle_pause(&mut pool, key(2)), Ok(()));
    assert!(!pool.is_paused);
}

#[test]
fn paused_pool_rejects_stake_and_withdraw() {
    let mut pool = pool_with(0, 1000, 1000);
    let mut position = StakedPosition::empty();
    assert!(stake_minted(&mut pool, &mut position, 100, None, START).is_ok());
    toggle_pause(&mut pool, key(2)).unwrap();
    let before_pool = pool;
    assert_eq!(stake_minted(&mut pool, &mut position, 1, None, START), Err(ErrorCode::PoolPaused));
    assert_eq!(
        withdraw(&mut pool, &mut position, key(9), 1, START).map(|r| r.1),
        Err(ErrorCode::PoolPaused)
    );
    assert!(same_pool(&pool, &before_pool));
    assert_eq!(position.amount, 100);
}

#[test]
fn user_cap_rejects_and_holds_after_minted_stakes() {
    let mut pool = pool_with(1, 300, 10_000);
    let mut position = StakedPosition::empty();
    assert!(stake_minted(&mut pool, &mut position, 200, None, START).is_ok());
    assert!(stake_minted(&mut pool, &mut position, 100, None, START).is_ok());
    assert!(position.amount <= pool.max_deposit_per_user);
    assert_eq!(
        stake_minted(&mut pool, &mut position, 1, None, START),
        Err(ErrorCode::UserDepositLimitExceeded)
    );
    assert_eq!(position.amount, 300);
}

#[test]
fn insufficient_funds_on_withdraw() {
    let mut pool = pool_with(0, 1000, 1000);
    let mut position = StakedPosition::empty();
    assert!(stake_minted(&mut pool, &mut position, 100, None, START).is_ok());
    assert_eq!(
        withdraw(&mut pool, &mut position, key(9), 101, START).map(|r| r.1),
        Err(ErrorCode::InsufficientFunds)
    );
    assert_eq!(position.amount, 100);
    assert_eq!(pool.total_liquidity, 100);
}

#[test]
fn wrong_mint_authority_is_rejected() {
    let mut pool = pool_with(1, 1000, 1000);
    let mut position = StakedPosition::empty();
    let r = stake(&mut pool, &mut position, key(9), 10, false, None, START, key(4), token_program());
    assert_eq!(r.map(|e| e.rewards), Err(ErrorCode::InvalidAuthority));
    assert_eq!(position.amount, 0);
    assert_eq!(pool.total_liquidity, 0);
    // A compounded reward needs no mint authority.
    let r = stake(&mut pool, &mut position, key(9), 10, true, None, START, key(4), token_program());
    assert!(r.is_ok());
}

#[test]
fn derived_mint_authority_is_accepted() {
    let (_, bump) =
        Pubkey::find_program_address(&[b"farm-mint"], &Pubkey::new_from_array(token_program().bytes));
    assert_eq!(mint_authority_bump(farm_authority(), token_program()), Ok(bump));
    assert_eq!(mint_authority_bump(token_program(), token_program()), Err(ErrorCode::InvalidAuthority));
    assert_eq!(check_mint_authority(Some((key(4), 250)), key(4)), Ok(250));
    assert_eq!(check_mint_authority(Some((key(4), 250)), key(5)), Err(ErrorCode::InvalidAuthority));
    assert_eq!(check_mint_authority(None, key(4)), Err(ErrorCode::InvalidAuthority));
}

#[test]
fn compounding_grows_position_but_not_liquidity() {
    let mut pool = pool_with(100, 10_000, 10_000);
    let mut position = StakedPosition::empty();
    let r = stake(&mut pool, &mut position, key(9), 1000, true, None, START, key(4), token_program());
    assert_eq!(r.map(|e| e.rewards), Ok(101000));
    assert_eq!(pool.total_liquidity, 1000);
    assert_eq!(position.amount, 102000);
    assert_eq!(pool.total_rewards_distributed, 101000);
    assert!(pool.top_staker == key(9));
    assert_eq!(pool.top_staker_amount, 102000);
    // The position now holds more than the pool's liquidity: withdrawing it would
    // take the liquidity below zero.
    assert_eq!(
        withdraw(&mut pool, &mut position, key(9), 2000, START).map(|r| r.1),
        Err(ErrorCode::ArithmeticOverflow)
    );
    assert_eq!(withdraw(&mut pool, &mut position, key(9), 1000, START).map(|r| r.1), Ok(980));
    assert_eq!(pool.total_liquidity, 0);
    assert_eq!(position.amount, 101000);
}

#[test]
fn liquidity_matches_minted_positions() {
    let mut pool = pool_with(1, 1000, 10_000);
    let mut a = StakedPosition::empty();
    let mut b = StakedPosition::empty();
    assert!(stake_minted(&mut pool, &mut a, 300, None, START).is_ok());
    assert!(stake_minted(&mut pool, &mut b, 450, None, START + DAY).is_ok());
    assert!(withdraw(&mut pool, &mut a, key(9), 120, START + DAY).is_ok());
    assert!(stake_minted(&mut pool, &mut a, 20, None, START + 2 * DAY).is_ok());
    assert_eq!(pool.total_liquidity, a.amount + b.amount);
    assert!(pool.total_liquidity <= pool.total_max_liquidity);
}

#[test]
fn counters_never_decrease() {
    let mut pool = pool_with(100, 10_000, 10_000);
    let mut a = StakedPosition::empty();
    let mut b = StakedPosition::empty();
    stake(&mut pool, &mut a, key(9), 2000, true, None, START, key(4), token_program()).unwrap();
    let (rewards, top) = (pool.total_rewards_distributed, pool.top_staker_amount);
    assert_eq!(rewards, 204000);
    assert_eq!(top, 206000);
    withdraw(&mut pool, &mut a, key(9), 2000, START).unwrap();
    assert_eq!(pool.total_rewards_distributed, rewards);
    assert_eq!(pool.top_staker_amount, top);
    stake(&mut pool, &mut b, key(8), 10, true, None, START, key(4), token_program()).unwrap();
    assert_eq!(pool.total_rewards_distributed, rewards + 1000);
    assert_eq!(pool.top_staker_amount, top);
    assert!(pool.top_staker == key(9));
}

#[test]
fn lockup_overflow_is_rejected() {
    let mut pool = pool_with(0, 1000, 1000);
    let mut position = StakedPosition::empty();
    assert_eq!(
        stake_minted(&mut pool, &mut position, 1, Some(u64::MAX), START),
        Err(ErrorCode::ArithmeticOverflow)
    );
    assert_eq!(position, StakedPosition::empty());
    assert!(stake_minted(&mut pool, &mut position, 1, Some(u64::MAX), i64::MIN).is_ok());
    assert_eq!(position.unlock_time, i64::MAX);
}

#[test]
fn reward_overflow_is_rejected() {
    let mut pool = pool_with(u64::MAX, u64::MAX, u64::MAX);
    let mut position = StakedPosition::empty();
    assert_eq!(
        stake_minted(&mut pool, &mut position, 2, None, START),
        Err(ErrorCode::ArithmeticOverflow)
    );
    assert_eq!(pool.total_liquidity, 0);
    assert_eq!(stake_minted(&mut pool, &mut position, 1, None, START), Ok(u64::MAX));
    assert_eq!(
        stake(&mut pool, &mut position, key(9), 0, false, None, START, farm_authority(), token_program())
            .map(|e| e.rewards),
        Err(ErrorCode::ArithmeticOverflow)
    );
    assert_eq!(pool.total_rewards_distributed, u64::MAX);
}
