use vstd::prelude::*;
use crate::authority::{authority_check, farm_mint_seed, mint_authority_bump, program_address_of};
use crate::reward::{calculate_boosted_reward, fee_split, reward_value, split_fee};
use crate::types::{ErrorCode, Key, Pool, PoolInitializedEvent, StakeEvent, StakedPosition, WithdrawEvent};

verus! {

/// Withdrawal fee, in percent, of every new pool.
pub const DEFAULT_FEE_RATE: u64 = 2;

/// A new pool: the given parameters, zeroed counters, not paused.
pub open spec fn new_pool(
    admin: Key,
    token_mint: Key,
    reward_coefficient: u64,
    max_deposit_per_user: u64,
    total_max_liquidity: u64,
    now: i64,
    nobody: Key,
) -> Pool {
    Pool {
        admin,
        token_mint,
        total_liquidity: 0,
        reward_coefficient,
        fee_rate: DEFAULT_FEE_RATE,
        last_update: now,
        top_staker: nobody,
        top_staker_amount: 0,
        total_rewards_distributed: 0,
        max_deposit_per_user,
        total_max_liquidity,
        is_paused: false,
    }
}

/// Creates the record of a pool at address `pool_key`, administered by `admin`,
/// at time `now`, with the notification of its creation.
pub fn initialize_pool(
    pool_key: Key,
    admin: Key,
    token_mint: Key,
    reward_coefficient: u64,
    max_deposit_per_user: u64,
    total_max_liquidity: u64,
    now: i64,
) -> (r: (Pool, PoolInitializedEvent))
    ensures
        r.0.top_staker@ == Seq::new(32, |i: int| 0u8),
        r.0 == new_pool(
            admin,
            token_mint,
            reward_coefficient,
            max_deposit_per_user,
            total_max_liquidity,
            now,
            r.0.top_staker,
        ),
        r.1.pool == pool_key,
        r.1.token_mint == token_mint,
        r.1.reward_coefficient == reward_coefficient,
{
    let pool = Pool {
        admin,
        token_mint,
        total_liquidity: 0,
        reward_coefficient,
        fee_rate: DEFAULT_FEE_RATE,
        last_update: now,
        top_staker: Key::zero(),
        top_staker_amount: 0,
        total_rewards_distributed: 0,
        max_deposit_per_user,
        total_max_liquidity,
        is_paused: false,
    };
    let event = PoolInitializedEvent { pool: pool_key, token_mint, reward_coefficient };
    (pool, event)
}

/// The outcome of a stake of `amount` by `user` at time `now`. `authority` is the
/// result of checking the mint authority; it matters only when the reward is
/// minted rather than compounded. On success: the new pool, the new position
/// and the notification.
pub open spec fn stake_spec(
    pool: Pool,
    position: StakedPosition,
    user: Key,
    amount: u64,
    auto_compound: bool,
    lockup_period: Option<u64>,
    now: i64,
    authority: Result<u8, ErrorCode>,
) -> Result<(Pool, StakedPosition, StakeEvent), ErrorCode> {
    let staked = position.amount + amount;
    if pool.is_paused {
        Err(ErrorCode::PoolPaused)
    } else if pool.total_liquidity + amount > pool.total_max_liquidity {
        Err(ErrorCode::PoolLiquidityExceeded)
    } else if staked > pool.max_deposit_per_user {
        Err(ErrorCode::UserDepositLimitExceeded)
    } else if lockup_period is Some && now + lockup_period->0 > i64::MAX {
        Err(ErrorCode::ArithmeticOverflow)
    } else {
        let reward = reward_value(staked as u64, now, pool.last_update, pool.reward_coefficient);
        let held = if auto_compound {
            staked + reward
        } else {
            staked
        };
        if reward > u64::MAX {
            Err(ErrorCode::ArithmeticOverflow)
        } else if !auto_compound && authority is Err {
            Err(authority->Err_0)
        } else if held > u64::MAX || pool.total_rewards_distributed + reward > u64::MAX {
            Err(ErrorCode::ArithmeticOverflow)
        } else {
            let new_position = StakedPosition {
                amount: held as u64,
                stake_time: now,
                unlock_time: match lockup_period {
                    Some(d) => (now + d) as i64,
                    None => position.unlock_time,
                },
                multiplier: position.multiplier,
            };
            let leads = held > pool.top_staker_amount;
            let new_pool = Pool {
                total_liquidity: (pool.total_liquidity + amount) as u64,
                total_rewards_distributed: (pool.total_rewards_distributed + reward) as u64,
                top_staker: if leads {
                    user
                } else {
                    pool.top_staker
                },
                top_staker_amount: if leads {
                    held as u64
                } else {
                    pool.top_staker_amount
                },
                ..pool
            };
            Ok((new_pool, new_position, StakeEvent { user, amount, rewards: reward as u64 }))
        }
    }
}

/// Applies a stake, given the outcome of the mint-authority check. On rejection
/// neither record changes.
pub fn apply_stake(
    pool: &mut Pool,
    position: &mut StakedPosition,
    user: Key,
    amount: u64,
    auto_compound: bool,
    lockup_period: Option<u64>,
    now: i64,
    authority: Result<u8, ErrorCode>,
) -> (r: Result<StakeEvent, ErrorCode>)
    ensures
        match stake_spec(
            *old(pool),
            *old(position),
            user,
            amount,
            auto_compound,
            lockup_period,
            now,
            authority,
        ) {
            Ok((p, q, e)) => r == Ok::<StakeEvent, ErrorCode>(e) && *final(pool) == p
                && *final(position) == q,
            Err(e) => r == Err::<StakeEvent, ErrorCode>(e) && *final(pool) == *old(pool)
                && *final(position) == *old(position),
        },
{
    if pool.is_paused {
        return Err(ErrorCode::PoolPaused);
    }
    if amount > pool.total_max_liquidity || pool.total_liquidity > pool.total_max_liquidity
        - amount {
        return Err(ErrorCode::PoolLiquidityExceeded);
    }
    if amount > pool.max_deposit_per_user || position.amount > pool.max_deposit_per_user
        - amount {
        return Err(ErrorCode::UserDepositLimitExceeded);
    }
    let unlock_time: i64 = match lockup_period {
        Some(d) => {
            let until: i128 = now as i128 + d as i128;
            if until > i64::MAX as i128 {
                return Err(ErrorCode::ArithmeticOverflow);
            }
            until as i64
        },
        None => position.unlock_time,
    };
    let staked: u64 = position.amount + amount;
    let reward: u64 = match calculate_boosted_reward(
        staked,
        now,
        pool.last_update,
        pool.reward_coefficient,
    ) {
        Some(x) => x,
        None => {
            return Err(ErrorCode::ArithmeticOverflow);
        },
    };
    if !auto_compound {
        if let Err(e) = authority {
            return Err(e);
        }
    }
    let held: u64 = if auto_compound {
        if staked > u64::MAX - reward {
            return Err(ErrorCode::ArithmeticOverflow);
        }
        staked + reward
    } else {
        staked
    };
    if pool.total_rewards_distributed > u64::MAX - reward {
        return Err(ErrorCode::ArithmeticOverflow);
    }
    position.amount = held;
    position.stake_time = now;
    position.unlock_time = unlock_time;
    pool.total_liquidity = pool.total_liquidity + amount;
    pool.total_rewards_distributed = pool.total_rewards_distributed + reward;
    if held > pool.top_staker_amount {
        pool.top_staker = user;
        pool.top_staker_amount = held;
    }
    Ok(StakeEvent { user, amount, rewards: reward })
}

/// Stakes `amount` for `user` at time `now`. Unless the reward is compounded into
/// the position, it is to be minted by `mint_authority`, which must be the
/// farm-reward mint authority derived for `token_program`. On rejection neither
/// record changes.
pub fn stake(
    pool: &mut Pool,
    position: &mut StakedPosition,
    user: Key,
    amount: u64,
    auto_compound: bool,
    lockup_period: Option<u64>,
    now: i64,
    mint_authority: Key,
    token_program: Key,
) -> (r: Result<StakeEvent, ErrorCode>)
    ensures
        match stake_spec(
            *old(pool),
            *old(position),
            user,
            amount,
            auto_compound,
            lockup_period,
            now,
            authority_check(program_address_of(farm_mint_seed(), token_program), mint_authority),
        ) {
            Ok((p, q, e)) => r == Ok::<StakeEvent, ErrorCode>(e) && *final(pool) == p
                && *final(position) == q,
            Err(e) => r == Err::<StakeEvent, ErrorCode>(e) && *final(pool) == *old(pool)
                && *final(position) == *old(position),
        },
{
    let authority = if auto_compound {
        Ok(0u8)
    } else {
        mint_authority_bump(mint_authority, token_program)
    };
    let ghost checked = authority_check(
        program_address_of(farm_mint_seed(), token_program),
        mint_authority,
    );
    assert(stake_spec(*pool, *position, user, amount, auto_compound, lockup_period, now, authority)
        == stake_spec(*pool, *position, user, amount, auto_compound, lockup_period, now, checked));
    apply_stake(pool, position, user, amount, auto_compound, lockup_period, now, authority)
}

/// The outcome of a withdrawal of `amount` by `user` at time `now`. On success:
/// the new pool, the new position, the notification and the net payout.
pub open spec fn withdraw_spec(
    pool: Pool,
    position: StakedPosition,
    user: Key,
    amount: u64,
    now: i64,
) -> Result<(Pool, StakedPosition, WithdrawEvent, u64), ErrorCode> {
    if pool.is_paused {
        Err(ErrorCode::PoolPaused)
    } else if now < position.unlock_time {
        Err(ErrorCode::StillLocked)
    } else if position.amount < amount {
        Err(ErrorCode::InsufficientFunds)
    } else if fee_split(amount, pool.fee_rate) is None || pool.total_liquidity < amount {
        Err(ErrorCode::ArithmeticOverflow)
    } else {
        let (fee, net) = fee_split(amount, pool.fee_rate)->0;
        Ok(
            (
                Pool { total_liquidity: (pool.total_liquidity - amount) as u64, ..pool },
                StakedPosition { amount: (position.amount - amount) as u64, ..position },
                WithdrawEvent { user, amount, fee_amount: fee, timestamp: now },
                net,
            ),
        )
    }
}

/// Withdraws `amount` from `user`'s position at time `now`. On success returns
/// the notification, whose fee goes to the treasury, and the net payout to the
/// user. On rejection neither record changes.
pub fn withdraw(
    pool: &mut Pool,
    position: &mut StakedPosition,
    user: Key,
    amount: u64,
    now: i64,
) -> (r: Result<(WithdrawEvent, u64), ErrorCode>)
    ensures
        match withdraw_spec(*old(pool), *old(position), user, amount, now) {
            Ok((p, q, e, net)) => r == Ok::<(WithdrawEvent, u64), ErrorCode>((e, net))
                && *final(pool) == p && *final(position) == q,
            Err(e) => r == Err::<(WithdrawEvent, u64), ErrorCode>(e) && *final(pool)
                == *old(pool) && *final(position) == *old(position),
        },
{
    if pool.is_paused {
        return Err(ErrorCode::PoolPaused);
    }
    if now < position.unlock_time {
        return Err(ErrorCode::StillLocked);
    }
    if position.amount < amount {
        return Err(ErrorCode::InsufficientFunds);
    }
    let (fee, net) = match split_fee(amount, pool.fee_rate) {
        Some(s) => s,
        None => {
            return Err(ErrorCode::ArithmeticOverflow);
        },
    };
    if pool.total_liquidity < amount {
        return Err(ErrorCode::ArithmeticOverflow);
    }
    position.amount = position.amount - amount;
    pool.total_liquidity = pool.total_liquidity - amount;
    Ok((WithdrawEvent { user, amount, fee_amount: fee, timestamp: now }, net))
}

/// The outcome of a pause toggle requested by `caller`: only the admin may flip it.
pub open spec fn toggle_spec(pool: Pool, caller: Key) -> Result<Pool, ErrorCode> {
    if caller@ == pool.admin@ {
        Ok(Pool { is_paused: !pool.is_paused, ..pool })
    } else {
        Err(ErrorCode::Unauthorized)
    }
}

/// Flips the pause switch; only the pool's admin may. On rejection the pool does
/// not change.
pub fn toggle_pause(pool: &mut Pool, caller: Key) -> (r: Result<(), ErrorCode>)
    ensures
        match toggle_spec(*old(pool), caller) {
            Ok(p) => r is Ok && *final(pool) == p,
            Err(e) => r == Err::<(), ErrorCode>(e) && *final(pool) == *old(pool),
        },
{
    if caller != pool.admin {
        return Err(ErrorCode::Unauthorized);
    }
    pool.is_paused = !pool.is_paused;
    Ok(())
}

} // verus!
