use vstd::prelude::*;
use crate::farm::{stake_spec, toggle_spec, withdraw_spec};
use crate::types::{ErrorCode, Key, Pool, StakedPosition};

verus! {

/// Liquidity accounting across a stake: if the pool's liquidity is `others` plus
/// this position's amount before a successful stake, it is `others` plus the new
/// amount after it, less the reward when that reward was compounded (compounded
/// rewards grow the position but not the pool's liquidity).
pub proof fn lemma_stake_liquidity_accounting(
    pool: Pool,
    position: StakedPosition,
    user: Key,
    amount: u64,
    auto_compound: bool,
    lockup_period: Option<u64>,
    now: i64,
    authority: Result<u8, ErrorCode>,
    others: int,
)
    requires
        pool.total_liquidity == others + position.amount,
        stake_spec(pool, position, user, amount, auto_compound, lockup_period, now, authority) is Ok,
    ensures
        ({
            let (p, q, e) = stake_spec(
                pool,
                position,
                user,
                amount,
                auto_compound,
                lockup_period,
                now,
                authority,
            )->Ok_0;
            &&& p.total_liquidity == pool.total_liquidity + amount
            &&& p.total_liquidity + (if auto_compound {
                e.rewards as int
            } else {
                0
            }) == others + q.amount
        }),
{
}

/// Liquidity accounting across a withdrawal: if the pool's liquidity is `others`
/// plus this position's amount before a successful withdrawal, it still is after.
pub proof fn lemma_withdraw_liquidity_accounting(
    pool: Pool,
    position: StakedPosition,
    user: Key,
    amount: u64,
    now: i64,
    others: int,
)
    requires
        pool.total_liquidity == others + position.amount,
        withdraw_spec(pool, position, user, amount, now) is Ok,
    ensures
        ({
            let (p, q, e, net) = withdraw_spec(pool, position, user, amount, now)->Ok_0;
            &&& p.total_liquidity == pool.total_liquidity - amount
            &&& p.total_liquidity == others + q.amount
        }),
{
}

/// After a successful stake the pool's liquidity is within its cap.
pub proof fn lemma_stake_within_pool_cap(
    pool: Pool,
    position: StakedPosition,
    user: Key,
    amount: u64,
    auto_compound: bool,
    lockup_period: Option<u64>,
    now: i64,
    authority: Result<u8, ErrorCode>,
)
    requires
        stake_spec(pool, position, user, amount, auto_compound, lockup_period, now, authority) is Ok,
    ensures
        ({
            let (p, q, e) = stake_spec(
                pool,
                position,
                user,
                amount,
                auto_compound,
                lockup_period,
                now,
                authority,
            )->Ok_0;
            &&& p.total_max_liquidity == pool.total_max_liquidity
            &&& p.total_liquidity <= p.total_max_liquidity
        }),
{
}

/// After a successful stake whose reward is minted rather than compounded, the
/// position is within the per-user cap.
pub proof fn lemma_stake_within_user_cap(
    pool: Pool,
    position: StakedPosition,
    user: Key,
    amount: u64,
    lockup_period: Option<u64>,
    now: i64,
    authority: Result<u8, ErrorCode>,
)
    requires
        stake_spec(pool, position, user, amount, false, lockup_period, now, authority) is Ok,
    ensures
        ({
            let (p, q, e) = stake_spec(
                pool,
                position,
                user,
                amount,
                false,
                lockup_period,
                now,
                authority,
            )->Ok_0;
            &&& p.max_deposit_per_user == pool.max_deposit_per_user
            &&& q.amount <= p.max_deposit_per_user
        }),
{
}

/// A successful withdrawal keeps a position that was within the per-user cap
/// within it.
pub proof fn lemma_withdraw_within_user_cap(
    pool: Pool,
    position: StakedPosition,
    user: Key,
    amount: u64,
    now: i64,
)
    requires
        position.amount <= pool.max_deposit_per_user,
        withdraw_spec(pool, position, user, amount, now) is Ok,
    ensures
        ({
            let (p, q, e, net) = withdraw_spec(pool, position, user, amount, now)->Ok_0;
            q.amount <= p.max_deposit_per_user
        }),
{
}

/// The rewards counter and the leaderboard amount never decrease: not across a
/// stake, a withdrawal or a pause toggle, whether it succeeds or is rejected.
pub proof fn lemma_counters_never_decrease(
    pool: Pool,
    position: StakedPosition,
    user: Key,
    amount: u64,
    auto_compound: bool,
    lockup_period: Option<u64>,
    now: i64,
    authority: Result<u8, ErrorCode>,
    caller: Key,
)
    ensures
        stake_spec(pool, position, user, amount, auto_compound, lockup_period, now, authority) is Ok
            ==> ({
            let p = stake_spec(
                pool,
                position,
                user,
                amount,
                auto_compound,
                lockup_period,
                now,
                authority,
            )->Ok_0.0;
            &&& p.total_rewards_distributed >= pool.total_rewards_distributed
            &&& p.top_staker_amount >= pool.top_staker_amount
        }),
        withdraw_spec(pool, position, user, amount, now) is Ok ==> ({
            let p = withdraw_spec(pool, position, user, amount, now)->Ok_0.0;
            &&& p.total_rewards_distributed == pool.total_rewards_distributed
            &&& p.top_staker_amount == pool.top_staker_amount
        }),
        toggle_spec(pool, caller) is Ok ==> ({
            let p = toggle_spec(pool, caller)->Ok_0;
            &&& p.total_rewards_distributed == pool.total_rewards_distributed
            &&& p.top_staker_amount == pool.top_staker_amount
        }),
{
}

/// One operation on a pool and one of its positions.
pub enum Operation {
    Stake {
        user: Key,
        amount: u64,
        auto_compound: bool,
        lockup_period: Option<u64>,
        now: i64,
        authority: Result<u8, ErrorCode>,
    },
    Withdraw { user: Key, amount: u64, now: i64 },
}

/// The pool and the position after one operation, with the reward it compounded
/// into the position; none when the operation is rejected.
pub open spec fn step(pool: Pool, position: StakedPosition, op: Operation) -> Option<
    (Pool, StakedPosition, int),
> {
    match op {
        Operation::Stake { user, amount, auto_compound, lockup_period, now, authority } => {
            match stake_spec(pool, position, user, amount, auto_compound, lockup_period, now, authority) {
                Ok((p, q, e)) => Some(
                    (
                        p,
                        q,
                        if auto_compound {
                            e.rewards as int
                        } else {
                            0
                        },
                    ),
                ),
                Err(_) => None,
            }
        },
        Operation::Withdraw { user, amount, now } => {
            match withdraw_spec(pool, position, user, amount, now) {
                Ok((p, q, e, net)) => Some((p, q, 0)),
                Err(_) => None,
            }
        },
    }
}

/// The pool and the position after running `ops` in order, with the total reward
/// compounded into the position; none when any of them is rejected.
pub open spec fn run(pool: Pool, position: StakedPosition, ops: Seq<Operation>) -> Option<
    (Pool, StakedPosition, int),
>
    decreases ops.len(),
{
    if ops.len() == 0 {
        Some((pool, position, 0))
    } else {
        match step(pool, position, ops[0]) {
            None => None,
            Some((p, q, c)) => match run(p, q, ops.drop_first()) {
                None => None,
                Some((p2, q2, c2)) => Some((p2, q2, c + c2)),
            },
        }
    }
}

/// Liquidity accounting over any sequence of successful stakes and withdrawals:
/// if the pool's liquidity is `others` plus this position's amount at the start,
/// it is `others` plus the position's final amount at the end, less every reward
/// that was compounded into the position along the way.
pub proof fn lemma_liquidity_accounting_over_runs(
    pool: Pool,
    position: StakedPosition,
    ops: Seq<Operation>,
    others: int,
)
    requires
        pool.total_liquidity == others + position.amount,
        run(pool, position, ops) is Some,
    ensures
        ({
            let (p, q, c) = run(pool, position, ops)->0;
            p.total_liquidity + c == others + q.amount
        }),
    decreases ops.len(),
{
    if ops.len() > 0 {
        let (p, q, c) = step(pool, position, ops[0])->0;
        match ops[0] {
            Operation::Stake { user, amount, auto_compound, lockup_period, now, authority } => {
                lemma_stake_liquidity_accounting(
                    pool,
                    position,
                    user,
                    amount,
                    auto_compound,
                    lockup_period,
                    now,
                    authority,
                    others,
                );
            },
            Operation::Withdraw { user, amount, now } => {
                lemma_withdraw_liquidity_accounting(pool, position, user, amount, now, others);
            },
        }
        lemma_liquidity_accounting_over_runs(p, q, ops.drop_first(), others - c);
    }
}

/// Over any sequence of successful stakes and withdrawals, the rewards counter
/// and the leaderboard amount end at least where they started.
pub proof fn lemma_counters_never_decrease_over_runs(
    pool: Pool,
    position: StakedPosition,
    ops: Seq<Operation>,
)
    requires
        run(pool, position, ops) is Some,
    ensures
        ({
            let (p, q, c) = run(pool, position, ops)->0;
            &&& p.total_rewards_distributed >= pool.total_rewards_distributed
            &&& p.top_staker_amount >= pool.top_staker_amount
        }),
    decreases ops.len(),
{
    if ops.len() > 0 {
        let (p, q, c) = step(pool, position, ops[0])->0;
        match ops[0] {
            Operation::Stake { user, amount, auto_compound, lockup_period, now, authority } => {
                lemma_counters_never_decrease(
                    pool,
                    position,
                    user,
                    amount,
                    auto_compound,
                    lockup_period,
                    now,
                    authority,
                    user,
                );
            },
            Operation::Withdraw { user, amount, now } => {
                lemma_counters_never_decrease(
                    pool,
                    position,
                    user,
                    amount,
                    false,
                    None,
                    now,
                    Ok(0u8),
                    user,
                );
            },
        }
        lemma_counters_never_decrease_over_runs(p, q, ops.drop_first());
    }
}

} // verus!
