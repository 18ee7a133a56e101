//! The stake lifecycle state machine.
//!
//! Every operation settles the global reward accumulator first, then
//! validates, then computes its successor state on private copies: on any
//! error the records handed in are left exactly as they were, so a failed
//! operation never leaves a partial mutation behind.  The actual value
//! transfers are carried out by the hosting environment after the
//! operation has committed its bookkeeping.

use vstd::prelude::*;
use crate::state::AccountId;
use crate::state::GlobalPool;
use crate::state::UserStake;

verus! {

/// Fixed-point scale of the reward-per-weight accumulator (1e12).
pub const ACCUMULATOR_SCALE: u128 = 1_000_000_000_000;

/// Mandatory cooldown between requesting and completing an unstake
/// (3 days).
pub const COOLDOWN_DURATION: u64 = 3 * 24 * 60 * 60;

/// Errors of the stake lifecycle.
#[derive(Debug, Clone, Copy, PartialEq, Eq, Structural)]
pub enum StakingError {
    /// Zero amount where a positive one is required.
    InvalidAmount,
    /// New stakes are paused.
    PoolPaused,
    /// The operation is not available in emergency mode.
    InEmergencyMode,
    /// No active stake.
    NoStake,
    /// More than the staked amount was requested.
    InsufficientStake,
    /// A cooldown is already running.
    CooldownActive,
    /// No cooldown is running.
    NoCooldownActive,
    /// The cooldown has not elapsed yet.
    CooldownNotComplete,
    /// Nothing to claim.
    NoRewardsToClaim,
    /// The reward custody cannot cover the claim.
    InsufficientRewardBalance,
    /// The caller is not the authority the operation requires.
    Unauthorized,
    /// Arithmetic overflow.
    Overflow,
}

/// Notification of a completed stake.
#[derive(Debug, Clone, Copy, PartialEq, Eq, Structural)]
pub struct StakeEvent {
    pub user: AccountId,
    pub amount: u64,
    pub weight: u64,
    pub timestamp: u64,
}

/// Notification of a started unstake cooldown.
#[derive(Debug, Clone, Copy, PartialEq, Eq, Structural)]
pub struct UnstakeInitiatedEvent {
    pub user: AccountId,
    pub amount: u64,
    pub cooldown_end: u64,
}

/// Notification of a completed unstake.
#[derive(Debug, Clone, Copy, PartialEq, Eq, Structural)]
pub struct UnstakeCompletedEvent {
    pub user: AccountId,
    pub amount: u64,
    pub remaining_stake: u64,
    pub timestamp: u64,
}

/// Notification of a paid reward claim.
#[derive(Debug, Clone, Copy, PartialEq, Eq, Structural)]
pub struct RewardsClaimedEvent {
    pub user: AccountId,
    pub amount: u64,
    pub multiplier: u64,
    pub timestamp: u64,
}

/// Notification of a reward deposit.
#[derive(Debug, Clone, Copy, PartialEq, Eq, Structural)]
pub struct RewardsDepositedEvent {
    pub authority: AccountId,
    pub amount: u64,
    pub timestamp: u64,
}

/// Notification of a reward-rate change.
#[derive(Debug, Clone, Copy, PartialEq, Eq, Structural)]
pub struct RewardRateUpdatedEvent {
    pub old_rate: u64,
    pub new_rate: u64,
    pub timestamp: u64,
}

/// Seconds since the pool's last settlement, saturating at zero.
pub open spec fn spec_elapsed(pool: GlobalPool, now: u64) -> int {
    if now >= pool.last_update_time {
        now - pool.last_update_time
    } else {
        0
    }
}

/// The accumulator increment of a settlement at `now`:
/// `elapsed * reward_rate * ACCUMULATOR_SCALE / total_weight`, and zero
/// while nothing is staked.
pub open spec fn spec_rpw_delta(pool: GlobalPool, now: u64) -> int {
    if pool.total_weight == 0 {
        0
    } else {
        (spec_elapsed(pool, now) * (pool.reward_rate as int) * (ACCUMULATOR_SCALE as int)) / (
        pool.total_weight as int)
    }
}

/// Whether the settlement arithmetic fits its 128-bit intermediate.
pub open spec fn spec_settle_ok(pool: GlobalPool, now: u64) -> bool {
    pool.total_weight != 0 ==> {
        &&& spec_elapsed(pool, now) * (pool.reward_rate as int) * (ACCUMULATOR_SCALE as int)
            <= u128::MAX
        &&& pool.reward_per_weight + spec_rpw_delta(pool, now) <= u128::MAX
    }
}

/// The pool after a successful settlement at `now`.
pub open spec fn spec_settled_pool(pool: GlobalPool, now: u64) -> GlobalPool {
    GlobalPool {
        reward_per_weight: (pool.reward_per_weight + spec_rpw_delta(pool, now)) as u128,
        last_update_time: if pool.total_weight == 0 || spec_elapsed(pool, now) > 0 {
            now
        } else {
            pool.last_update_time
        },
        ..pool
    }
}

/// Settle the global reward accumulator up to `now`.
///
/// The accumulator never decreases, whatever the timestamps: elapsed time
/// saturates at zero, so a settlement with an older timestamp adds
/// nothing.  Calling twice at the same `now` adds nothing the second
/// time.  On error the pool is unchanged.
pub fn update_pool_rewards(pool: &mut GlobalPool, now: u64) -> (r: Result<(), StakingError>)
    ensures
        match r {
            Ok(()) => spec_settle_ok(*old(pool), now) && *final(pool) == spec_settled_pool(
                *old(pool),
                now,
            ),
            Err(e) => {
                &&& !spec_settle_ok(*old(pool), now)
                &&& e == StakingError::Overflow
                &&& *final(pool) == *old(pool)
            },
        },
        final(pool).reward_per_weight >= old(pool).reward_per_weight,
{
    if pool.total_weight == 0 {
        pool.last_update_time = now;
        return Ok(());
    }

    let time_elapsed = now.saturating_sub(pool.last_update_time);
    if time_elapsed == 0 {
        return Ok(());
    }

    proof {
        vstd::arithmetic::mul::lemma_mul_upper_bound(
            time_elapsed as int,
            u64::MAX as int,
            pool.reward_rate as int,
            u64::MAX as int,
        );
    }
    let rewards = time_elapsed as u128 * pool.reward_rate as u128;

    let scaled = match rewards.checked_mul(ACCUMULATOR_SCALE) {
        Some(v) => v,
        None => {
            return Err(StakingError::Overflow);
        },
    };
    let reward_per_weight_delta = scaled / (pool.total_weight as u128);

    pool.reward_per_weight = match pool.reward_per_weight.checked_add(reward_per_weight_delta) {
        Some(v) => v,
        None => {
            return Err(StakingError::Overflow);
        },
    };
    pool.last_update_time = now;

    Ok(())
}

/// Reward earned by a user since their last settlement:
/// `weight * (reward_per_weight - reward_debt) / ACCUMULATOR_SCALE`, with
/// the subtraction saturating at zero.
pub open spec fn spec_pending(pool: GlobalPool, user: UserStake) -> int {
    let diff = if pool.reward_per_weight >= user.reward_debt {
        pool.reward_per_weight - user.reward_debt
    } else {
        0
    };
    ((user.weight as int) * diff) / (ACCUMULATOR_SCALE as int)
}

/// Whether the pending-reward arithmetic fits: the 128-bit product and the
/// 64-bit result.
pub open spec fn spec_pending_ok(pool: GlobalPool, user: UserStake) -> bool {
    let diff = if pool.reward_per_weight >= user.reward_debt {
        pool.reward_per_weight - user.reward_debt
    } else {
        0
    };
    &&& (user.weight as int) * diff <= u128::MAX
    &&& spec_pending(pool, user) <= u64::MAX
}

/// Newly accrued rewards of a user against the current accumulator.
///
/// Never negative: a stale `reward_debt` equal to the current accumulator
/// yields exactly zero.
pub fn calculate_pending(pool: &GlobalPool, user_stake: &UserStake) -> (r: Result<
    u64,
    StakingError,
>)
    ensures
        match r {
            Ok(v) => spec_pending_ok(*pool, *user_stake) && v as int == spec_pending(
                *pool,
                *user_stake,
            ),
            Err(e) => !spec_pending_ok(*pool, *user_stake) && e == StakingError::Overflow,
        },
        user_stake.reward_debt == pool.reward_per_weight ==> r == Ok::<u64, StakingError>(0),
{
    let diff = pool.reward_per_weight.saturating_sub(user_stake.reward_debt);

    proof {
        vstd::arithmetic::mul::lemma_mul_basics(user_stake.weight as int);
        if diff == 0 {
            vstd::arithmetic::div_mod::lemma_div_of0(ACCUMULATOR_SCALE as int);
        }
    }

    let accumulated = match (user_stake.weight as u128).checked_mul(diff) {
        Some(v) => v,
        None => {
            return Err(StakingError::Overflow);
        },
    };
    let pending = accumulated / ACCUMULATOR_SCALE;

    if pending > u64::MAX as u128 {
        return Err(StakingError::Overflow);
    }
    Ok(pending as u64)
}

/// Create the global pool.
pub fn initialize_pool(authority: AccountId, reward_rate: u64, now: u64) -> (pool: GlobalPool)
    ensures
        pool == (GlobalPool {
            authority,
            reward_rate,
            total_staked: 0,
            total_weight: 0,
            total_stakers: 0,
            reward_per_weight: 0,
            last_update_time: now,
            reward_vault_balance: 0,
            total_rewards_distributed: 0,
            is_paused: false,
            emergency_mode: false,
            created_at: now,
        }),
{
    GlobalPool {
        authority,
        reward_rate,
        total_staked: 0,
        total_weight: 0,
        total_stakers: 0,
        reward_per_weight: 0,
        last_update_time: now,
        reward_vault_balance: 0,
        total_rewards_distributed: 0,
        is_paused: false,
        emergency_mode: false,
        created_at: now,
    }
}

/// A fresh, empty stake record for an owner, as the record store creates
/// it on first use.
pub fn new_user_stake(owner: AccountId) -> (user: UserStake)
    ensures
        user == (UserStake {
            owner,
            amount: 0,
            weight: 0,
            stake_start_time: 0,
            reward_debt: 0,
            pending_rewards: 0,
            total_claimed: 0,
            cooldown_amount: 0,
            cooldown_end: 0,
            early_holder_tier: 0,
        }),
        user.wf(),
{
    UserStake {
        owner,
        amount: 0,
        weight: 0,
        stake_start_time: 0,
        reward_debt: 0,
        pending_rewards: 0,
        total_claimed: 0,
        cooldown_amount: 0,
        cooldown_end: 0,
        early_holder_tier: 0,
    }
}

/// Everything `stake` needs to succeed: a positive amount, an open pool,
/// and room in every counter it touches.
pub open spec fn spec_stake_ok(pool: GlobalPool, user: UserStake, amount: u64, now: u64) -> bool {
    let sp = spec_settled_pool(pool, now);
    &&& amount > 0
    &&& !pool.is_paused
    &&& !pool.emergency_mode
    &&& spec_settle_ok(pool, now)
    &&& (user.amount > 0 ==> spec_pending_ok(sp, user) && user.pending_rewards + spec_pending(
        sp,
        user,
    ) <= u64::MAX)
    &&& (user.amount == 0 ==> pool.total_stakers + 1 <= u64::MAX)
    &&& user.amount + amount <= u64::MAX
    &&& user.weight + amount <= u64::MAX
    &&& pool.total_staked + amount <= u64::MAX
    &&& pool.total_weight + amount <= u64::MAX
}

/// Stake `amount` tokens for `user`.
///
/// Settles the pool, locks in any rewards already accrued, and adds the
/// amount to the principal at the schedule's base weight (a new stake
/// enters at multiplier 1.00).  The host transfers the principal into
/// custody only after this returns `Ok`.
pub fn stake(
    pool: &mut GlobalPool,
    user_stake: &mut UserStake,
    user: AccountId,
    amount: u64,
    now: u64,
) -> (r: Result<StakeEvent, StakingError>)
    requires
        old(user_stake).wf(),
    ensures
        r is Err ==> *final(pool) == *old(pool) && *final(user_stake) == *old(user_stake),
        r is Ok <==> spec_stake_ok(*old(pool), *old(user_stake), amount, now),
        amount == 0 ==> r == Err::<StakeEvent, StakingError>(StakingError::InvalidAmount),
        amount > 0 && old(pool).is_paused ==> r == Err::<StakeEvent, StakingError>(
            StakingError::PoolPaused,
        ),
        amount > 0 && !old(pool).is_paused && old(pool).emergency_mode ==> r == Err::<
            StakeEvent,
            StakingError,
        >(StakingError::InEmergencyMode),
        amount > 0 && !old(pool).is_paused && !old(pool).emergency_mode && !spec_stake_ok(
            *old(pool),
            *old(user_stake),
            amount,
            now,
        ) ==> r == Err::<StakeEvent, StakingError>(StakingError::Overflow),
        r matches Ok(ev) ==> {
            let sp = spec_settled_pool(*old(pool), now);
            let fresh = old(user_stake).amount == 0;
            &&& *final(pool) == (GlobalPool {
                total_staked: (sp.total_staked + amount) as u64,
                total_weight: (sp.total_weight + amount) as u64,
                total_stakers: if fresh {
                    (sp.total_stakers + 1) as u64
                } else {
                    sp.total_stakers
                },
                ..sp
            })
            &&& *final(user_stake) == (UserStake {
                owner: if fresh {
                    user
                } else {
                    old(user_stake).owner
                },
                amount: (old(user_stake).amount + amount) as u64,
                weight: (old(user_stake).weight + amount) as u64,
                stake_start_time: if fresh {
                    now
                } else {
                    old(user_stake).stake_start_time
                },
                reward_debt: sp.reward_per_weight,
                pending_rewards: if fresh {
                    old(user_stake).pending_rewards
                } else {
                    (old(user_stake).pending_rewards + spec_pending(sp, *old(user_stake))) as u64
                },
                ..*old(user_stake)
            })
            &&& ev == (StakeEvent { user, amount, weight: amount, timestamp: now })
            &&& final(user_stake).wf()
        },
{
    if amount == 0 {
        return Err(StakingError::InvalidAmount);
    }
    if pool.is_paused {
        return Err(StakingError::PoolPaused);
    }
    if pool.emergency_mode {
        return Err(StakingError::InEmergencyMode);
    }

    let mut new_pool = *pool;
    let mut new_user = *user_stake;

    // Bring the accumulator up to date.
    match update_pool_rewards(&mut new_pool, now) {
        Ok(()) => (),
        Err(e) => {
            return Err(e);
        },
    }

    if new_user.amount == 0 {
        // First stake of this record: tier accrual starts now.
        new_user.owner = user;
        new_user.stake_start_time = now;
        new_pool.total_stakers = match new_pool.total_stakers.checked_add(1) {
            Some(v) => v,
            None => {
                return Err(StakingError::Overflow);
            },
        };
    } else {
        // Lock in rewards accrued so far before the stake grows.
        let pending = match calculate_pending(&new_pool, &new_user) {
            Ok(v) => v,
            Err(e) => {
                return Err(e);
            },
        };
        new_user.pending_rewards = match new_user.pending_rewards.checked_add(pending) {
            Some(v) => v,
            None => {
                return Err(StakingError::Overflow);
            },
        };
    }

    // A new stake enters at the base multiplier.
    let multiplier = crate::reward_math::calculate_multiplier(0);
    proof {
        vstd::arithmetic::div_mod::lemma_div_by_multiple(amount as int, 100);
    }
    let weight = (amount as u128 * multiplier as u128 / 100) as u64;

    new_user.amount = match new_user.amount.checked_add(amount) {
        Some(v) => v,
        None => {
            return Err(StakingError::Overflow);
        },
    };
    new_user.weight = match new_user.weight.checked_add(weight) {
        Some(v) => v,
        None => {
            return Err(StakingError::Overflow);
        },
    };
    new_user.reward_debt = new_pool.reward_per_weight;

    new_pool.total_staked = match new_pool.total_staked.checked_add(amount) {
        Some(v) => v,
        None => {
            return Err(StakingError::Overflow);
        },
    };
    new_pool.total_weight = match new_pool.total_weight.checked_add(weight) {
        Some(v) => v,
        None => {
            return Err(StakingError::Overflow);
        },
    };

    *pool = new_pool;
    *user_stake = new_user;

    Ok(StakeEvent { user, amount, weight, timestamp: now })
}

/// Everything `initiate_unstake` needs to succeed.
pub open spec fn spec_initiate_unstake_ok(
    pool: GlobalPool,
    user: UserStake,
    amount: u64,
    now: u64,
) -> bool {
    let sp = spec_settled_pool(pool, now);
    &&& amount > 0
    &&& amount <= user.amount
    &&& user.cooldown_end == 0
    &&& spec_settle_ok(pool, now)
    &&& spec_pending_ok(sp, user)
    &&& user.pending_rewards + spec_pending(sp, user) <= u64::MAX
    &&& now + COOLDOWN_DURATION <= u64::MAX
}

/// Request to unstake `amount` tokens: settles rewards, then starts the
/// cooldown timer.  The principal stays in custody until the cooldown
/// elapses and `complete_unstake` is called.
pub fn initiate_unstake(
    pool: &mut GlobalPool,
    user_stake: &mut UserStake,
    amount: u64,
    now: u64,
) -> (r: Result<UnstakeInitiatedEvent, StakingError>)
    requires
        old(user_stake).wf(),
    ensures
        r is Err ==> *final(pool) == *old(pool) && *final(user_stake) == *old(user_stake),
        r is Ok <==> spec_initiate_unstake_ok(*old(pool), *old(user_stake), amount, now),
        amount == 0 ==> r == Err::<UnstakeInitiatedEvent, StakingError>(
            StakingError::InvalidAmount,
        ),
        amount > 0 && amount > old(user_stake).amount ==> r == Err::<
            UnstakeInitiatedEvent,
            StakingError,
        >(StakingError::InsufficientStake),
        amount > 0 && amount <= old(user_stake).amount && old(user_stake).cooldown_end != 0 ==> r
            == Err::<UnstakeInitiatedEvent, StakingError>(StakingError::CooldownActive),
        amount > 0 && amount <= old(user_stake).amount && old(user_stake).cooldown_end == 0
            && !spec_initiate_unstake_ok(*old(pool), *old(user_stake), amount, now) ==> r == Err::<
            UnstakeInitiatedEvent,
            StakingError,
        >(StakingError::Overflow),
        r matches Ok(ev) ==> {
            let sp = spec_settled_pool(*old(pool), now);
            &&& *final(pool) == sp
            &&& *final(user_stake) == (UserStake {
                reward_debt: sp.reward_per_weight,
                pending_rewards: (old(user_stake).pending_rewards + spec_pending(
                    sp,
                    *old(user_stake),
                )) as u64,
                cooldown_amount: amount,
                cooldown_end: (now + COOLDOWN_DURATION) as u64,
                ..*old(user_stake)
            })
            &&& ev == (UnstakeInitiatedEvent {
                user: old(user_stake).owner,
                amount,
                cooldown_end: (now + COOLDOWN_DURATION) as u64,
            })
            &&& final(user_stake).wf()
        },
{
    if amount == 0 {
        return Err(StakingError::InvalidAmount);
    }
    if amount > user_stake.amount {
        return Err(StakingError::InsufficientStake);
    }
    if user_stake.cooldown_end != 0 {
        return Err(StakingError::CooldownActive);
    }

    let mut new_pool = *pool;
    let mut new_user = *user_stake;

    // Lock in rewards at the accumulator state of this instant.
    match update_pool_rewards(&mut new_pool, now) {
        Ok(()) => (),
        Err(e) => {
            return Err(e);
        },
    }
    let pending = match calculate_pending(&new_pool, &new_user) {
        Ok(v) => v,
        Err(e) => {
            return Err(e);
        },
    };
    new_user.pending_rewards = match new_user.pending_rewards.checked_add(pending) {
        Some(v) => v,
        None => {
            return Err(StakingError::Overflow);
        },
    };
    new_user.reward_debt = new_pool.reward_per_weight;

    // Start the cooldown.
    let cooldown_end = match now.checked_add(COOLDOWN_DURATION) {
        Some(v) => v,
        None => {
            return Err(StakingError::Overflow);
        },
    };
    new_user.cooldown_amount = amount;
    new_user.cooldown_end = cooldown_end;

    *pool = new_pool;
    *user_stake = new_user;

    Ok(UnstakeInitiatedEvent { user: user_stake.owner, amount, cooldown_end })
}

/// The weight released by unstaking `cooldown_amount`: all of it when the
/// whole principal leaves, else the proportional floor share.
pub open spec fn spec_released_weight(user: UserStake) -> int {
    if user.cooldown_amount == user.amount {
        user.weight as int
    } else {
        ((user.weight as int) * (user.cooldown_amount as int)) / (user.amount as int)
    }
}

/// Everything `complete_unstake` needs to succeed.
pub open spec fn spec_complete_unstake_ok(pool: GlobalPool, user: UserStake, now: u64) -> bool {
    let sp = spec_settled_pool(pool, now);
    &&& user.cooldown_amount > 0
    &&& now >= user.cooldown_end
    &&& spec_settle_ok(pool, now)
    &&& spec_pending_ok(sp, user)
    &&& user.pending_rewards + spec_pending(sp, user) <= u64::MAX
}

/// Complete an unstake whose cooldown has elapsed: settles rewards,
/// returns the principal to the user, clears the cooldown, and restarts
/// tier accrual if the whole principal left.
///
/// One second before `cooldown_end` this fails with
/// `CooldownNotComplete`; at or after it, it succeeds exactly once, and a
/// second call fails with `NoCooldownActive`.  The host transfers the
/// principal out of custody only after this returns `Ok`.
pub fn complete_unstake(pool: &mut GlobalPool, user_stake: &mut UserStake, now: u64) -> (r: Result<
    UnstakeCompletedEvent,
    StakingError,
>)
    requires
        old(user_stake).wf(),
    ensures
        r is Err ==> *final(pool) == *old(pool) && *final(user_stake) == *old(user_stake),
        r is Ok <==> spec_complete_unstake_ok(*old(pool), *old(user_stake), now),
        old(user_stake).cooldown_amount == 0 ==> r == Err::<UnstakeCompletedEvent, StakingError>(
            StakingError::NoCooldownActive,
        ),
        old(user_stake).cooldown_amount > 0 && now < old(user_stake).cooldown_end ==> r == Err::<
            UnstakeCompletedEvent,
            StakingError,
        >(StakingError::CooldownNotComplete),
        old(user_stake).cooldown_amount > 0 && now >= old(user_stake).cooldown_end
            && !spec_complete_unstake_ok(*old(pool), *old(user_stake), now) ==> r == Err::<
            UnstakeCompletedEvent,
            StakingError,
        >(StakingError::Overflow),
        r matches Ok(ev) ==> {
            let sp = spec_settled_pool(*old(pool), now);
            let unstaked = old(user_stake).cooldown_amount;
            let released = spec_released_weight(*old(user_stake));
            let remaining = old(user_stake).amount - unstaked;
            &&& *final(pool) == (GlobalPool {
                total_staked: if sp.total_staked >= unstaked {
                    (sp.total_staked - unstaked) as u64
                } else {
                    0
                },
                total_weight: if sp.total_weight >= released {
                    (sp.total_weight - released) as u64
                } else {
                    0
                },
                total_stakers: if remaining == 0 && sp.total_stakers > 0 {
                    (sp.total_stakers - 1) as u64
                } else {
                    sp.total_stakers
                },
                ..sp
            })
            &&& *final(user_stake) == (UserStake {
                amount: remaining as u64,
                weight: (old(user_stake).weight - released) as u64,
                stake_start_time: if remaining == 0 {
                    0
                } else {
                    old(user_stake).stake_start_time
                },
                reward_debt: sp.reward_per_weight,
                pending_rewards: (old(user_stake).pending_rewards + spec_pending(
                    sp,
                    *old(user_stake),
                )) as u64,
                cooldown_amount: 0,
                cooldown_end: 0,
                ..*old(user_stake)
            })
            &&& ev == (UnstakeCompletedEvent {
                user: old(user_stake).owner,
                amount: unstaked,
                remaining_stake: remaining as u64,
                timestamp: now,
            })
            &&& final(user_stake).wf()
        },
{
    if user_stake.cooldown_amount == 0 {
        return Err(StakingError::NoCooldownActive);
    }
    if now < user_stake.cooldown_end {
        return Err(StakingError::CooldownNotComplete);
    }

    let mut new_pool = *pool;
    let mut new_user = *user_stake;

    // Settle rewards before the principal changes.
    match update_pool_rewards(&mut new_pool, now) {
        Ok(()) => (),
        Err(e) => {
            return Err(e);
        },
    }
    let pending = match calculate_pending(&new_pool, &new_user) {
        Ok(v) => v,
        Err(e) => {
            return Err(e);
        },
    };
    new_user.pending_rewards = match new_user.pending_rewards.checked_add(pending) {
        Some(v) => v,
        None => {
            return Err(StakingError::Overflow);
        },
    };
    new_user.reward_debt = new_pool.reward_per_weight;

    let unstaked = new_user.cooldown_amount;

    // Release the matching share of the weight.
    let released: u64 = if unstaked == new_user.amount {
        new_user.weight
    } else {
        proof {
            let w = new_user.weight as int;
            let c = unstaked as int;
            let a = new_user.amount as int;
            vstd::arithmetic::mul::lemma_mul_upper_bound(w, u64::MAX as int, c, u64::MAX as int);
            if w > 0 {
                vstd::arithmetic::mul::lemma_mul_left_inequality(w, c, a);
            } else {
                vstd::arithmetic::mul::lemma_mul_basics(c);
                vstd::arithmetic::mul::lemma_mul_basics(a);
            }
            vstd::arithmetic::div_mod::lemma_div_is_ordered(w * c, w * a, a);
            vstd::arithmetic::mul::lemma_mul_is_commutative(w, a);
            vstd::arithmetic::div_mod::lemma_div_multiples_vanish(w, a);
        }
        (new_user.weight as u128 * unstaked as u128 / new_user.amount as u128) as u64
    };

    new_user.amount = new_user.amount - unstaked;
    new_user.weight = new_user.weight - released;
    new_user.cooldown_amount = 0;
    new_user.cooldown_end = 0;

    new_pool.total_staked = new_pool.total_staked.saturating_sub(unstaked);
    new_pool.total_weight = new_pool.total_weight.saturating_sub(released);

    // A fully drained record restarts tier accrual on any future stake.
    if new_user.amount == 0 {
        new_user.stake_start_time = 0;
        new_pool.total_stakers = new_pool.total_stakers.saturating_sub(1);
    }

    *pool = new_pool;
    *user_stake = new_user;

    Ok(
        UnstakeCompletedEvent {
            user: user_stake.owner,
            amount: unstaked,
            remaining_stake: user_stake.amount,
            timestamp: now,
        },
    )
}

/// Whole days the user has been staked at `now`.
pub open spec fn spec_claim_days(user: UserStake, now: u64) -> int {
    (if now >= user.stake_start_time {
        now - user.stake_start_time
    } else {
        0
    }) / 86400
}

/// The weight the stake is entitled to at `now`:
/// `amount * multiplier / 100` on the tier schedule.
pub open spec fn spec_claim_new_weight(user: UserStake, now: u64) -> int {
    ((user.amount as int) * crate::reward_math::spec_multiplier_for_days(
        spec_claim_days(user, now),
    )) / 100
}

/// The stake record with its weight raised to the current entitlement.
/// Weight only ever ratchets up; a lower entitlement leaves it alone.
pub open spec fn spec_claim_user_weighted(user: UserStake, now: u64) -> UserStake {
    if spec_claim_new_weight(user, now) > user.weight {
        UserStake { weight: spec_claim_new_weight(user, now) as u64, ..user }
    } else {
        user
    }
}

/// The total a claim at `now` pays out: settled rewards plus the newly
/// accrued ones at the ratcheted weight.
pub open spec fn spec_claim_total(pool: GlobalPool, user: UserStake, now: u64) -> int {
    user.pending_rewards + spec_pending(
        spec_settled_pool(pool, now),
        spec_claim_user_weighted(user, now),
    )
}

/// The arithmetic of a claim up to the payout total fits.
pub open spec fn spec_claim_arith_ok(pool: GlobalPool, user: UserStake, now: u64) -> bool {
    let sp = spec_settled_pool(pool, now);
    let nw = spec_claim_new_weight(user, now);
    let uw = spec_claim_user_weighted(user, now);
    &&& spec_settle_ok(pool, now)
    &&& nw <= u64::MAX
    &&& (nw > user.weight ==> sp.total_weight + (nw - user.weight) <= u64::MAX)
    &&& spec_pending_ok(sp, uw)
    &&& user.pending_rewards + spec_pending(sp, uw) <= u64::MAX
}

/// The payout counters have room for the claim total.
pub open spec fn spec_claim_pays_ok(pool: GlobalPool, user: UserStake, now: u64) -> bool {
    let total = spec_claim_total(pool, user, now);
    &&& pool.total_rewards_distributed + total <= u64::MAX
    &&& user.total_claimed + total <= u64::MAX
}

/// Everything `claim_rewards` needs to succeed.
pub open spec fn spec_claim_ok(pool: GlobalPool, user: UserStake, now: u64) -> bool {
    &&& user.amount > 0
    &&& !pool.emergency_mode
    &&& spec_claim_arith_ok(pool, user, now)
    &&& spec_claim_total(pool, user, now) > 0
    &&& spec_claim_total(pool, user, now) <= pool.reward_vault_balance
    &&& spec_claim_pays_ok(pool, user, now)
}

/// Claim all pending rewards without unstaking.
///
/// Settles the pool, ratchets the user's weight up to the multiplier now
/// in force, pays out the settled plus newly accrued rewards from the
/// reward custody, and resets the user's debt to the current accumulator.
/// The host transfers the rewards only after this returns `Ok`.
pub fn claim_rewards(pool: &mut GlobalPool, user_stake: &mut UserStake, now: u64) -> (r: Result<
    RewardsClaimedEvent,
    StakingError,
>)
    requires
        old(user_stake).wf(),
    ensures
        r is Err ==> *final(pool) == *old(pool) && *final(user_stake) == *old(user_stake),
        r is Ok <==> spec_claim_ok(*old(pool), *old(user_stake), now),
        old(user_stake).amount == 0 ==> r == Err::<RewardsClaimedEvent, StakingError>(
            StakingError::NoStake,
        ),
        old(user_stake).amount > 0 && old(pool).emergency_mode ==> r == Err::<
            RewardsClaimedEvent,
            StakingError,
        >(StakingError::InEmergencyMode),
        old(user_stake).amount > 0 && !old(pool).emergency_mode && !spec_claim_arith_ok(
            *old(pool),
            *old(user_stake),
            now,
        ) ==> r == Err::<RewardsClaimedEvent, StakingError>(StakingError::Overflow),
        old(user_stake).amount > 0 && !old(pool).emergency_mode && spec_claim_arith_ok(
            *old(pool),
            *old(user_stake),
            now,
        ) && spec_claim_total(*old(pool), *old(user_stake), now) == 0 ==> r == Err::<
            RewardsClaimedEvent,
            StakingError,
        >(StakingError::NoRewardsToClaim),
        old(user_stake).amount > 0 && !old(pool).emergency_mode && spec_claim_arith_ok(
            *old(pool),
            *old(user_stake),
            now,
        ) && spec_claim_total(*old(pool), *old(user_stake), now) > 0 && spec_claim_total(
            *old(pool),
            *old(user_stake),
            now,
        ) > old(pool).reward_vault_balance ==> r == Err::<RewardsClaimedEvent, StakingError>(
            StakingError::InsufficientRewardBalance,
        ),
        old(user_stake).amount > 0 && !old(pool).emergency_mode && spec_claim_arith_ok(
            *old(pool),
            *old(user_stake),
            now,
        ) && 0 < spec_claim_total(*old(pool), *old(user_stake), now) <= old(
            pool,
        ).reward_vault_balance && !spec_claim_pays_ok(*old(pool), *old(user_stake), now) ==> r
            == Err::<RewardsClaimedEvent, StakingError>(StakingError::Overflow),
        r matches Ok(ev) ==> {
            let sp = spec_settled_pool(*old(pool), now);
            let nw = spec_claim_new_weight(*old(user_stake), now);
            let uw = spec_claim_user_weighted(*old(user_stake), now);
            let total = spec_claim_total(*old(pool), *old(user_stake), now);
            &&& *final(pool) == (GlobalPool {
                total_weight: if nw > old(user_stake).weight {
                    (sp.total_weight + (nw - old(user_stake).weight)) as u64
                } else {
                    sp.total_weight
                },
                reward_vault_balance: (sp.reward_vault_balance - total) as u64,
                total_rewards_distributed: (sp.total_rewards_distributed + total) as u64,
                ..sp
            })
            &&& *final(user_stake) == (UserStake {
                weight: uw.weight,
                reward_debt: sp.reward_per_weight,
                pending_rewards: 0,
                total_claimed: (old(user_stake).total_claimed + total) as u64,
                ..*old(user_stake)
            })
            &&& ev == (RewardsClaimedEvent {
                user: old(user_stake).owner,
                amount: total as u64,
                multiplier: crate::reward_math::spec_multiplier_for_days(
                    spec_claim_days(*old(user_stake), now),
                ) as u64,
                timestamp: now,
            })
            &&& final(user_stake).wf()
        },
{
    if user_stake.amount == 0 {
        return Err(StakingError::NoStake);
    }
    if pool.emergency_mode {
        return Err(StakingError::InEmergencyMode);
    }

    let mut new_pool = *pool;
    let mut new_user = *user_stake;

    match update_pool_rewards(&mut new_pool, now) {
        Ok(()) => (),
        Err(e) => {
            return Err(e);
        },
    }

    // Ratchet the weight up to the multiplier the stake has earned.
    let days_staked = now.saturating_sub(new_user.stake_start_time) / 86400;
    let new_multiplier = crate::reward_math::calculate_multiplier(days_staked);
    proof {
        vstd::arithmetic::mul::lemma_mul_upper_bound(
            new_user.amount as int,
            u64::MAX as int,
            new_multiplier as int,
            250,
        );
    }
    let new_weight_wide = new_user.amount as u128 * new_multiplier as u128 / 100;
    if new_weight_wide > u64::MAX as u128 {
        return Err(StakingError::Overflow);
    }
    let new_weight = new_weight_wide as u64;

    if new_weight > new_user.weight {
        let weight_diff = new_weight - new_user.weight;
        new_pool.total_weight = match new_pool.total_weight.checked_add(weight_diff) {
            Some(v) => v,
            None => {
                return Err(StakingError::Overflow);
            },
        };
        new_user.weight = new_weight;
    }

    // Settled plus newly accrued rewards.
    let pending = match calculate_pending(&new_pool, &new_user) {
        Ok(v) => v,
        Err(e) => {
            return Err(e);
        },
    };
    let total_rewards = match new_user.pending_rewards.checked_add(pending) {
        Some(v) => v,
        None => {
            return Err(StakingError::Overflow);
        },
    };

    if total_rewards == 0 {
        return Err(StakingError::NoRewardsToClaim);
    }
    if total_rewards > new_pool.reward_vault_balance {
        return Err(StakingError::InsufficientRewardBalance);
    }

    // Pay out of the reward custody and reset the debt.
    new_pool.reward_vault_balance = new_pool.reward_vault_balance - total_rewards;
    new_pool.total_rewards_distributed = match new_pool.total_rewards_distributed.checked_add(
        total_rewards,
    ) {
        Some(v) => v,
        None => {
            return Err(StakingError::Overflow);
        },
    };
    new_user.total_claimed = match new_user.total_claimed.checked_add(total_rewards) {
        Some(v) => v,
        None => {
            return Err(StakingError::Overflow);
        },
    };
    new_user.reward_debt = new_pool.reward_per_weight;
    new_user.pending_rewards = 0;

    *pool = new_pool;
    *user_stake = new_user;

    Ok(
        RewardsClaimedEvent {
            user: user_stake.owner,
            amount: total_rewards,
            multiplier: new_multiplier,
            timestamp: now,
        },
    )
}

/// Fund the reward custody (admin only).
pub fn deposit_rewards(pool: &mut GlobalPool, authority: AccountId, amount: u64, now: u64) -> (r:
    Result<RewardsDepositedEvent, StakingError>)
    ensures
        r is Err ==> *final(pool) == *old(pool),
        authority != old(pool).authority ==> r == Err::<RewardsDepositedEvent, StakingError>(
            StakingError::Unauthorized,
        ),
        authority == old(pool).authority && amount == 0 ==> r == Err::<
            RewardsDepositedEvent,
            StakingError,
        >(StakingError::InvalidAmount),
        authority == old(pool).authority && amount > 0 && old(pool).reward_vault_balance + amount
            > u64::MAX ==> r == Err::<RewardsDepositedEvent, StakingError>(StakingError::Overflow),
        r is Ok <==> (authority == old(pool).authority && amount > 0 && old(
            pool,
        ).reward_vault_balance + amount <= u64::MAX),
        r matches Ok(ev) ==> {
            &&& *final(pool) == (GlobalPool {
                reward_vault_balance: (old(pool).reward_vault_balance + amount) as u64,
                ..*old(pool)
            })
            &&& ev == (RewardsDepositedEvent { authority, amount, timestamp: now })
        },
{
    if authority != pool.authority {
        return Err(StakingError::Unauthorized);
    }
    if amount == 0 {
        return Err(StakingError::InvalidAmount);
    }
    pool.reward_vault_balance = match pool.reward_vault_balance.checked_add(amount) {
        Some(v) => v,
        None => {
            return Err(StakingError::Overflow);
        },
    };
    Ok(RewardsDepositedEvent { authority, amount, timestamp: now })
}

/// Change the reward rate (admin only).
///
/// Settles the accumulator at the old rate first, so time already accrued
/// keeps the old rate and the new one applies only from `now` on.
pub fn update_reward_rate(
    pool: &mut GlobalPool,
    authority: AccountId,
    new_rate: u64,
    now: u64,
) -> (r: Result<RewardRateUpdatedEvent, StakingError>)
    ensures
        r is Err ==> *final(pool) == *old(pool),
        authority != old(pool).authority ==> r == Err::<RewardRateUpdatedEvent, StakingError>(
            StakingError::Unauthorized,
        ),
        authority == old(pool).authority && !spec_settle_ok(*old(pool), now) ==> r == Err::<
            RewardRateUpdatedEvent,
            StakingError,
        >(StakingError::Overflow),
        r is Ok <==> (authority == old(pool).authority && spec_settle_ok(*old(pool), now)),
        r matches Ok(ev) ==> {
            &&& *final(pool) == (GlobalPool {
                reward_rate: new_rate,
                ..spec_settled_pool(*old(pool), now)
            })
            &&& ev == (RewardRateUpdatedEvent {
                old_rate: old(pool).reward_rate,
                new_rate,
                timestamp: now,
            })
        },
{
    if authority != pool.authority {
        return Err(StakingError::Unauthorized);
    }

    let mut new_pool = *pool;
    match update_pool_rewards(&mut new_pool, now) {
        Ok(()) => (),
        Err(e) => {
            return Err(e);
        },
    }

    let old_rate = new_pool.reward_rate;
    new_pool.reward_rate = new_rate;
    *pool = new_pool;

    Ok(RewardRateUpdatedEvent { old_rate, new_rate, timestamp: now })
}

/// Pause or resume admission of new stakes (admin only).
pub fn set_paused(pool: &mut GlobalPool, authority: AccountId, paused: bool) -> (r: Result<
    (),
    StakingError,
>)
    ensures
        r is Err ==> *final(pool) == *old(pool),
        authority != old(pool).authority ==> r == Err::<(), StakingError>(
            StakingError::Unauthorized,
        ),
        r is Ok <==> authority == old(pool).authority,
        r is Ok ==> *final(pool) == (GlobalPool { is_paused: paused, ..*old(pool) }),
{
    if authority != pool.authority {
        return Err(StakingError::Unauthorized);
    }
    pool.is_paused = paused;
    Ok(())
}

} // verus!
