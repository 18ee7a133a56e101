//! A token-staking reward-accounting engine.
//!
//! Users lock a quantity of a fungible asset, accrue a proportional share of
//! a reward stream, and may withdraw principal after a cooldown.  Rewards
//! scale with a time-weighted multiplier tier, and an administrator can
//! throttle, pause, or unwind the whole system through a graded
//! emergency-control workflow with multi-party approval.
//!
//! The engine is pure state-transition logic over plain values: the hosting
//! environment supplies the current time, performs the actual value
//! transfers, and persists the records.  Every operation here either fully
//! computes its successor state or returns an error and leaves the state
//! untouched.

pub mod emergency;
pub mod invariants;
pub mod lifecycle;
pub mod reward_math;
pub mod state;
