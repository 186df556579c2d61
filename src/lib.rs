//! Accounting for a bonding yield farm: a pool that takes deposits of one token,
//! pays size- and time-boosted rewards, caps deposits per user and in total,
//! charges a withdrawal fee and keeps a top-staker leaderboard. Every operation
//! is a verified state transition on plain records; its rejections leave the
//! records untouched.
use vstd::prelude::*;

pub mod authority;
pub mod farm;
pub mod laws;
pub mod reward;
pub mod types;

verus! {

} // verus!
