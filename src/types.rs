use vstd::prelude::*;

verus! {

/// A 32-byte account identity: a signer's public key, a mint, or a program-derived address.
#[derive(Clone, Copy, Debug)]
pub struct Key {
    pub bytes: [u8; 32],
}

impl View for Key {
    type V = Seq<u8>;

    open spec fn view(&self) -> Seq<u8> {
        self.bytes@
    }
}

impl Key {
    pub fn new(bytes: [u8; 32]) -> (r: Key)
        ensures
            r@ == bytes@,
    {
        Key { bytes }
    }

    /// The all-zero identity.
    pub fn zero() -> (r: Key)
        ensures
            r@ == Seq::new(32, |i: int| 0u8),
    {
        let r = Key { bytes: [0u8; 32] };
        assert(r@ =~= Seq::new(32, |i: int| 0u8));
        r
    }
}

impl PartialEq for Key {
    fn eq(&self, other: &Key) -> (r: bool) {
        let mut i: usize = 0;
        while i < 32
            invariant
                0 <= i <= 32,
                forall|j: int| 0 <= j < i ==> self.bytes@[j] == other.bytes@[j],
            decreases 32 - i,
        {
            if self.bytes[i] != other.bytes[i] {
                return false;
            }
            i = i + 1;
        }
        assert(self@ =~= other@);
        true
    }
}

impl vstd::std_specs::cmp::PartialEqSpecImpl for Key {
    open spec fn obeys_eq_spec() -> bool {
        true
    }

    open spec fn eq_spec(&self, other: &Key) -> bool {
        self@ == other@
    }
}

/// The ways an operation on the pool can be rejected.
#[derive(Clone, Copy, Debug, PartialEq, Eq, Structural)]
pub enum ErrorCode {
    /// The withdrawal amount exceeds the position's balance.
    InsufficientFunds,
    /// The mint authority is not the address derived for minting farm rewards.
    InvalidAuthority,
    /// The position's lockup has not expired yet.
    StillLocked,
    /// The stake would take the pool past its liquidity cap.
    PoolLiquidityExceeded,
    /// The stake would take the position past the per-user cap.
    UserDepositLimitExceeded,
    /// The pool is paused.
    PoolPaused,
    /// The caller is not the pool's admin.
    Unauthorized,
    /// A reward, a balance or a timestamp does not fit its integer type.
    ArithmeticOverflow,
}

/// The shared record of one staking pool.
#[derive(Clone, Copy, Debug)]
pub struct Pool {
    pub admin: Key,
    pub token_mint: Key,
    pub total_liquidity: u64,
    pub reward_coefficient: u64,
    pub fee_rate: u64,
    pub last_update: i64,
    pub top_staker: Key,
    pub top_staker_amount: u64,
    pub total_rewards_distributed: u64,
    pub max_deposit_per_user: u64,
    pub total_max_liquidity: u64,
    pub is_paused: bool,
}

/// One user's stake in a pool.
#[derive(Clone, Copy, Debug, PartialEq, Eq, Structural)]
pub struct StakedPosition {
    pub amount: u64,
    pub stake_time: i64,
    pub unlock_time: i64,
    pub multiplier: u64,
}

impl StakedPosition {
    /// A freshly allocated position: nothing staked, no lockup.
    pub fn empty() -> (r: StakedPosition)
        ensures
            r.amount == 0,
            r.stake_time == 0,
            r.unlock_time == 0,
            r.multiplier == 0,
    {
        StakedPosition { amount: 0, stake_time: 0, unlock_time: 0, multiplier: 0 }
    }
}

/// Notification of a pool's creation.
#[derive(Clone, Copy, Debug)]
pub struct PoolInitializedEvent {
    pub pool: Key,
    pub token_mint: Key,
    pub reward_coefficient: u64,
}

/// Notification of a successful stake.
#[derive(Clone, Copy, Debug)]
pub struct StakeEvent {
    pub user: Key,
    pub amount: u64,
    pub rewards: u64,
}

/// Notification of a successful withdrawal.
#[derive(Clone, Copy, Debug)]
pub struct WithdrawEvent {
    pub user: Key,
    pub amount: u64,
    pub fee_amount: u64,
    pub timestamp: i64,
}

} // verus!
