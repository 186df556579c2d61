use vstd::prelude::*;

verus! {

/// Seconds in one day: the time multiplier grows by one unit per full day.
pub const SECONDS_PER_DAY: u64 = 86400;

/// Staked units that raise the amount multiplier by one unit.
pub const AMOUNT_STEP: u64 = 1000;

/// Both multipliers are percentages, so the product is scaled by 100 * 100.
pub const REWARD_SCALE: u64 = 10000;

/// Seconds from the pool's baseline to the stake, never negative.
pub open spec fn elapsed_seconds(stake_time: i64, last_update: i64) -> int {
    if stake_time > last_update {
        stake_time - last_update
    } else {
        0
    }
}

pub open spec fn time_multiplier(stake_time: i64, last_update: i64) -> int {
    100 + elapsed_seconds(stake_time, last_update) / (SECONDS_PER_DAY as int)
}

pub open spec fn amount_multiplier(amount: u64) -> int {
    100 + (amount as int) / (AMOUNT_STEP as int)
}

/// The boosted reward as an unbounded integer.
pub open spec fn reward_value(
    amount: u64,
    stake_time: i64,
    last_update: i64,
    reward_coefficient: u64,
) -> int {
    ((amount as int) * time_multiplier(stake_time, last_update) * amount_multiplier(amount)
        * (reward_coefficient as int)) / (REWARD_SCALE as int)
}

/// The reward when it fits in a `u64`; none when it does not.
pub open spec fn reward_result(
    amount: u64,
    stake_time: i64,
    last_update: i64,
    reward_coefficient: u64,
) -> Option<u64> {
    let r = reward_value(amount, stake_time, last_update, reward_coefficient);
    if r <= u64::MAX {
        Some(r as u64)
    } else {
        None
    }
}

proof fn lemma_product_reorder(a: int, c: int, t: int, m: int)
    ensures
        a * c * t * m == a * t * m * c,
        (a * c) * t * m == a * c * t * m,
{
    assert(a * c * t * m == a * t * m * c) by (nonlinear_arith);
}

proof fn lemma_grow(p: int, f: int)
    requires
        p >= 0,
        f >= 1,
    ensures
        p * f >= p,
{
    assert(p * f >= p) by (nonlinear_arith)
        requires
            p >= 0,
            f >= 1,
    ;
}

/// The reward for staking `amount` at `stake_time` in a pool whose baseline is
/// `last_update`. Every intermediate product is taken in 128 bits; a reward that
/// does not fit in a `u64` is reported as none.
pub fn calculate_boosted_reward(
    amount: u64,
    stake_time: i64,
    last_update: i64,
    reward_coefficient: u64,
) -> (r: Option<u64>)
    ensures
        r == reward_result(amount, stake_time, last_update, reward_coefficient),
{
    let elapsed: u64 = if stake_time > last_update {
        (stake_time as i128 - last_update as i128) as u64
    } else {
        0
    };
    let tm: u128 = 100 + (elapsed / SECONDS_PER_DAY) as u128;
    let am: u128 = 100 + (amount / AMOUNT_STEP) as u128;
    assert(tm == time_multiplier(stake_time, last_update));
    assert(am == amount_multiplier(amount));
    let a: u128 = amount as u128;
    let c: u128 = reward_coefficient as u128;
    assert(a * c <= u64::MAX * u64::MAX) by (nonlinear_arith)
        requires
            a <= u64::MAX,
            c <= u64::MAX,
    ;
    let p1: u128 = a * c;
    proof {
        lemma_product_reorder(a as int, c as int, tm as int, am as int);
    }
    let ghost full: int = p1 * tm * am;
    assert(reward_value(amount, stake_time, last_update, reward_coefficient) == full / 10000);
    match p1.checked_mul(tm) {
        None => {
            proof {
                lemma_grow(p1 * tm, am as int);
            }
            None
        },
        Some(p2) => match p2.checked_mul(am) {
            None => None,
            Some(p3) => {
                let q: u128 = p3 / REWARD_SCALE as u128;
                if q <= u64::MAX as u128 {
                    Some(q as u64)
                } else {
                    None
                }
            },
        },
    }
}

/// The withdrawal fee on `amount` at `fee_rate` percent, rounded down.
pub open spec fn fee_value(amount: u64, fee_rate: u64) -> int {
    (amount as int) * (fee_rate as int) / 100
}

/// The fee and the net payout of a withdrawal, or none when the fee would exceed
/// the amount (a fee rate above one hundred percent).
pub open spec fn fee_split(amount: u64, fee_rate: u64) -> Option<(u64, u64)> {
    let fee = fee_value(amount, fee_rate);
    if fee <= amount {
        Some((fee as u64, (amount - fee) as u64))
    } else {
        None
    }
}

/// Splits a withdrawal of `amount` into the fee kept by the treasury and the net
/// amount paid to the user.
pub fn split_fee(amount: u64, fee_rate: u64) -> (r: Option<(u64, u64)>)
    ensures
        r == fee_split(amount, fee_rate),
        fee_rate <= 100 ==> r is Some,
{
    let a: u128 = amount as u128;
    let f: u128 = fee_rate as u128;
    assert(a * f <= u64::MAX * u64::MAX) by (nonlinear_arith)
        requires
            a <= u64::MAX,
            f <= u64::MAX,
    ;
    let fee: u128 = a * f / 100;
    assert(fee_rate <= 100 ==> fee <= amount) by (nonlinear_arith)
        requires
            fee == a * f / 100,
            a == amount,
            f == fee_rate,
            a >= 0,
    ;
    if fee <= a {
        Some((fee as u64, amount - fee as u64))
    } else {
        None
    }
}

} // verus!
