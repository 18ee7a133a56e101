//! Time-weighted reward mathematics.
//!
//! A settlement interval may span several multiplier tiers.  The interval is
//! partitioned at the absolute tier-boundary timestamps, each sub-interval
//! earns at its own multiplier (raised to the early-holder bonus where that
//! is higher), and the per-tier rewards are summed.  All arithmetic uses a
//! 128-bit intermediate and checked operations: overflow aborts the
//! calculation instead of wrapping.

use vstd::prelude::*;
use vstd::arithmetic::div_mod::lemma_div_is_ordered;
use vstd::arithmetic::mul::lemma_mul_inequality;
use vstd::arithmetic::mul::lemma_mul_left_inequality;

verus! {

/// Precision for fixed-point reward rates (1e9).
pub const PRECISION: u128 = 1_000_000_000;

/// Seconds per day.
pub const SECONDS_PER_DAY: i64 = 86_400;

/// Multiplier tiers (scaled by 100).
pub const MULTIPLIER_BRONZE: u64 = 100;

pub const MULTIPLIER_SILVER: u64 = 150;

pub const MULTIPLIER_GOLD: u64 = 200;

pub const MULTIPLIER_DIAMOND: u64 = 250;

/// Tier boundaries in days.
pub const TIER_BRONZE_END: i64 = 6;

pub const TIER_SILVER_END: i64 = 29;

pub const TIER_GOLD_END: i64 = 89;

/// Errors of the reward calculation.
#[derive(Debug, Clone, Copy, PartialEq, Eq, Structural)]
pub enum RewardError {
    /// Arithmetic overflow in a reward calculation.
    Overflow,
    /// Invalid time range for a calculation.
    InvalidTimeRange,
    /// Invalid percentage value.
    InvalidPercentage,
    /// Division by zero.
    DivisionByZero,
}

/// Input parameters for a reward calculation.
#[derive(Debug, Clone, Copy)]
pub struct RewardCalculationInput {
    pub user_stake_amount: u64,
    pub stake_start_time: i64,
    pub last_claim_time: i64,
    pub current_time: i64,
    /// Rewards per second per staked token, scaled by `PRECISION`.
    pub global_reward_rate: u64,
    /// Additional per-user multiplier, scaled by 100.
    pub early_holder_bonus: u64,
}

/// Output of a reward calculation.
#[derive(Debug, Clone, Copy)]
pub struct RewardCalculationOutput {
    pub total_pending_rewards: u64,
    pub rewards_per_tier: TierRewards,
    pub effective_multiplier: u64,
    pub time_in_each_tier: TierDurations,
}

/// Rewards broken down by tier.
#[derive(Debug, Clone, Copy)]
pub struct TierRewards {
    pub bronze_rewards: u64,
    pub silver_rewards: u64,
    pub gold_rewards: u64,
    pub diamond_rewards: u64,
}

/// Time spent in each tier during a reward period.
#[derive(Debug, Clone, Copy)]
pub struct TierDurations {
    pub bronze_seconds: i64,
    pub silver_seconds: i64,
    pub gold_seconds: i64,
    pub diamond_seconds: i64,
}

/// The multiplier (scale 100) earned after `days` whole days of staking.
pub open spec fn spec_multiplier_for_days(days: int) -> int {
    if days >= 90 {
        MULTIPLIER_DIAMOND as int
    } else if days >= 30 {
        MULTIPLIER_GOLD as int
    } else if days >= 7 {
        MULTIPLIER_SILVER as int
    } else {
        MULTIPLIER_BRONZE as int
    }
}

/// Get the multiplier for a number of days staked.
pub fn get_multiplier_for_days(days: i64) -> (r: u64)
    requires
        0 <= days,
    ensures
        r as int == spec_multiplier_for_days(days as int),
{
    if days >= 90 {
        MULTIPLIER_DIAMOND
    } else if days >= 30 {
        MULTIPLIER_GOLD
    } else if days >= 7 {
        MULTIPLIER_SILVER
    } else {
        MULTIPLIER_BRONZE
    }
}

/// The multiplier schedule on a day count already known to be non-negative.
pub fn calculate_multiplier(days: u64) -> (r: u64)
    ensures
        r as int == spec_multiplier_for_days(days as int),
{
    if days >= 90 {
        MULTIPLIER_DIAMOND
    } else if days >= 30 {
        MULTIPLIER_GOLD
    } else if days >= 7 {
        MULTIPLIER_SILVER
    } else {
        MULTIPLIER_BRONZE
    }
}

/// Monotonicity of the tier schedule: staying staked longer never lowers
/// the multiplier, matching the table
/// `{0..6: 100, 7..29: 150, 30..89: 200, 90..: 250}`.
pub proof fn lemma_multiplier_monotonic(d1: int, d2: int)
    requires
        0 <= d1 <= d2,
    ensures
        spec_multiplier_for_days(d1) <= spec_multiplier_for_days(d2),
{
}

/// Absolute timestamp at which the bronze tier ends: the start of day 7.
pub open spec fn spec_bronze_end(stake_start_time: int) -> int {
    stake_start_time + ((TIER_BRONZE_END + 1) as int) * (SECONDS_PER_DAY as int)
}

/// Absolute timestamp at which the silver tier ends: the start of day 30.
pub open spec fn spec_silver_end(stake_start_time: int) -> int {
    stake_start_time + ((TIER_SILVER_END + 1) as int) * (SECONDS_PER_DAY as int)
}

/// Absolute timestamp at which the gold tier ends: the start of day 90.
pub open spec fn spec_gold_end(stake_start_time: int) -> int {
    stake_start_time + ((TIER_GOLD_END + 1) as int) * (SECONDS_PER_DAY as int)
}

/// Length of the part of `[lc, ct]` that falls inside `[lo, hi]`.
pub open spec fn spec_segment(lc: int, ct: int, lo: int, hi: int) -> int {
    let s = if lc > lo {
        lc
    } else {
        lo
    };
    let e = if ct < hi {
        ct
    } else {
        hi
    };
    if e > s {
        e - s
    } else {
        0
    }
}

pub open spec fn spec_bronze_seconds(ss: int, lc: int, ct: int) -> int {
    spec_segment(lc, ct, lc, spec_bronze_end(ss))
}

pub open spec fn spec_silver_seconds(ss: int, lc: int, ct: int) -> int {
    spec_segment(lc, ct, spec_bronze_end(ss), spec_silver_end(ss))
}

pub open spec fn spec_gold_seconds(ss: int, lc: int, ct: int) -> int {
    spec_segment(lc, ct, spec_silver_end(ss), spec_gold_end(ss))
}

pub open spec fn spec_diamond_seconds(ss: int, lc: int, ct: int) -> int {
    spec_segment(lc, ct, spec_gold_end(ss), ct)
}

/// Split a settlement interval into the time spent in each tier.
///
/// The four durations always sum exactly to the interval length
/// `current_time - last_claim_time`: the partition is exact, not an
/// approximation.
pub fn calculate_tier_durations(
    stake_start_time: i64,
    last_claim_time: i64,
    current_time: i64,
) -> (d: TierDurations)
    requires
        stake_start_time <= last_claim_time,
        last_claim_time <= current_time,
        spec_gold_end(stake_start_time as int) <= i64::MAX,
        current_time - stake_start_time <= i64::MAX,
    ensures
        d.bronze_seconds as int == spec_bronze_seconds(
            stake_start_time as int,
            last_claim_time as int,
            current_time as int,
        ),
        d.silver_seconds as int == spec_silver_seconds(
            stake_start_time as int,
            last_claim_time as int,
            current_time as int,
        ),
        d.gold_seconds as int == spec_gold_seconds(
            stake_start_time as int,
            last_claim_time as int,
            current_time as int,
        ),
        d.diamond_seconds as int == spec_diamond_seconds(
            stake_start_time as int,
            last_claim_time as int,
            current_time as int,
        ),
        d.bronze_seconds >= 0,
        d.silver_seconds >= 0,
        d.gold_seconds >= 0,
        d.diamond_seconds >= 0,
        d.bronze_seconds + d.silver_seconds + d.gold_seconds + d.diamond_seconds == current_time
            - last_claim_time,
{
    let mut durations = TierDurations {
        bronze_seconds: 0,
        silver_seconds: 0,
        gold_seconds: 0,
        diamond_seconds: 0,
    };

    // Convert tier boundaries to absolute timestamps.
    let bronze_end: i64 = stake_start_time + (TIER_BRONZE_END + 1) * SECONDS_PER_DAY;
    let silver_end: i64 = stake_start_time + (TIER_SILVER_END + 1) * SECONDS_PER_DAY;
    let gold_end: i64 = stake_start_time + (TIER_GOLD_END + 1) * SECONDS_PER_DAY;

    // Time in the bronze tier.
    if last_claim_time < bronze_end {
        let start = last_claim_time;
        let end = if current_time < bronze_end {
            current_time
        } else {
            bronze_end
        };
        if end > start {
            durations.bronze_seconds = end - start;
        }
    }

    // Time in the silver tier.
    if current_time > bronze_end && last_claim_time < silver_end {
        let start = if last_claim_time > bronze_end {
            last_claim_time
        } else {
            bronze_end
        };
        let end = if current_time < silver_end {
            current_time
        } else {
            silver_end
        };
        if end > start {
            durations.silver_seconds = end - start;
        }
    }

    // Time in the gold tier.
    if current_time > silver_end && last_claim_time < gold_end {
        let start = if last_claim_time > silver_end {
            last_claim_time
        } else {
            silver_end
        };
        let end = if current_time < gold_end {
            current_time
        } else {
            gold_end
        };
        if end > start {
            durations.gold_seconds = end - start;
        }
    }

    // Time in the diamond tier.
    if current_time > gold_end {
        let start = if last_claim_time > gold_end {
            last_claim_time
        } else {
            gold_end
        };
        let end = current_time;
        if end > start {
            durations.diamond_seconds = end - start;
        }
    }

    durations
}

/// The greater of a tier multiplier and the early-holder bonus: the bonus
/// only raises the floor, it never stacks additively.
pub open spec fn spec_combined_multiplier(tier_multiplier: int, bonus: int) -> int {
    if tier_multiplier >= bonus {
        tier_multiplier
    } else {
        bonus
    }
}

/// Whether `stake * rate * seconds * multiplier` can be computed left to
/// right in 128-bit arithmetic and the divided result fits in 64 bits.
pub open spec fn spec_tier_reward_ok(stake: int, rate: int, seconds: int, multiplier: int) -> bool {
    &&& stake * rate <= u128::MAX
    &&& stake * rate * seconds <= u128::MAX
    &&& stake * rate * seconds * multiplier <= u128::MAX
    &&& (stake * rate * seconds * multiplier) / 100_000_000_000 <= u64::MAX
}

/// Reward for a single tier segment:
/// `stake * rate * seconds * multiplier / (PRECISION * 100)`.
pub open spec fn spec_tier_reward(stake: int, rate: int, seconds: int, multiplier: int) -> int {
    (stake * rate * seconds * multiplier) / 100_000_000_000
}

/// Compute the reward earned during a single tier segment.
pub fn calculate_tier_reward(
    stake_amount: u64,
    reward_rate: u64,
    seconds: i64,
    multiplier: u64,
) -> (r: Result<u64, RewardError>)
    requires
        0 <= seconds,
    ensures
        ({
            let ok = spec_tier_reward_ok(
                stake_amount as int,
                reward_rate as int,
                seconds as int,
                multiplier as int,
            );
            match r {
                Ok(v) => ok && v as int == spec_tier_reward(
                    stake_amount as int,
                    reward_rate as int,
                    seconds as int,
                    multiplier as int,
                ),
                Err(e) => !ok && e == RewardError::Overflow,
            }
        }),
{
    let stake = stake_amount as u128;
    let rate = reward_rate as u128;
    let time = seconds as u128;
    let mult = multiplier as u128;

    let p1 = match stake.checked_mul(rate) {
        Some(v) => v,
        None => {
            return Err(RewardError::Overflow);
        },
    };
    let p2 = match p1.checked_mul(time) {
        Some(v) => v,
        None => {
            return Err(RewardError::Overflow);
        },
    };
    let numerator = match p2.checked_mul(mult) {
        Some(v) => v,
        None => {
            return Err(RewardError::Overflow);
        },
    };

    let denominator: u128 = PRECISION * 100;
    let result = numerator / denominator;

    // A result beyond 64 bits aborts too: accounting never truncates.
    if result > u64::MAX as u128 {
        Err(RewardError::Overflow)
    } else {
        Ok(result as u64)
    }
}

/// Reward of one tier over a whole settlement interval: zero when the
/// interval spends no time in the tier.
pub open spec fn spec_tier_payout(
    stake: int,
    rate: int,
    seconds: int,
    tier_multiplier: int,
    bonus: int,
) -> int {
    if seconds > 0 {
        spec_tier_reward(stake, rate, seconds, spec_combined_multiplier(tier_multiplier, bonus))
    } else {
        0
    }
}

/// Whether the payout of one tier can be computed without 128-bit overflow.
pub open spec fn spec_tier_payout_ok(
    stake: int,
    rate: int,
    seconds: int,
    tier_multiplier: int,
    bonus: int,
) -> bool {
    seconds > 0 ==> spec_tier_reward_ok(
        stake,
        rate,
        seconds,
        spec_combined_multiplier(tier_multiplier, bonus),
    )
}

/// Compute the reward for each tier of a settlement interval.
pub fn calculate_tier_rewards(
    stake_amount: u64,
    reward_rate: u64,
    durations: &TierDurations,
    early_bonus: u64,
) -> (r: Result<TierRewards, RewardError>)
    ensures
        ({
            let stake = stake_amount as int;
            let rate = reward_rate as int;
            let bonus = early_bonus as int;
            let ok = {
                &&& spec_tier_payout_ok(
                    stake,
                    rate,
                    durations.bronze_seconds as int,
                    MULTIPLIER_BRONZE as int,
                    bonus,
                )
                &&& spec_tier_payout_ok(
                    stake,
                    rate,
                    durations.silver_seconds as int,
                    MULTIPLIER_SILVER as int,
                    bonus,
                )
                &&& spec_tier_payout_ok(
                    stake,
                    rate,
                    durations.gold_seconds as int,
                    MULTIPLIER_GOLD as int,
                    bonus,
                )
                &&& spec_tier_payout_ok(
                    stake,
                    rate,
                    durations.diamond_seconds as int,
                    MULTIPLIER_DIAMOND as int,
                    bonus,
                )
            };
            match r {
                Ok(tr) => {
                    &&& ok
                    &&& tr.bronze_rewards as int == spec_tier_payout(
                        stake,
                        rate,
                        durations.bronze_seconds as int,
                        MULTIPLIER_BRONZE as int,
                        bonus,
                    )
                    &&& tr.silver_rewards as int == spec_tier_payout(
                        stake,
                        rate,
                        durations.silver_seconds as int,
                        MULTIPLIER_SILVER as int,
                        bonus,
                    )
                    &&& tr.gold_rewards as int == spec_tier_payout(
                        stake,
                        rate,
                        durations.gold_seconds as int,
                        MULTIPLIER_GOLD as int,
                        bonus,
                    )
                    &&& tr.diamond_rewards as int == spec_tier_payout(
                        stake,
                        rate,
                        durations.diamond_seconds as int,
                        MULTIPLIER_DIAMOND as int,
                        bonus,
                    )
                },
                Err(e) => !ok && e == RewardError::Overflow,
            }
        }),
{
    let mut rewards = TierRewards {
        bronze_rewards: 0,
        silver_rewards: 0,
        gold_rewards: 0,
        diamond_rewards: 0,
    };

    if durations.bronze_seconds > 0 {
        let multiplier = if MULTIPLIER_BRONZE >= early_bonus {
            MULTIPLIER_BRONZE
        } else {
            early_bonus
        };
        rewards.bronze_rewards = match calculate_tier_reward(
            stake_amount,
            reward_rate,
            durations.bronze_seconds,
            multiplier,
        ) {
            Ok(v) => v,
            Err(e) => {
                return Err(e);
            },
        };
    }

    if durations.silver_seconds > 0 {
        let multiplier = if MULTIPLIER_SILVER >= early_bonus {
            MULTIPLIER_SILVER
        } else {
            early_bonus
        };
        rewards.silver_rewards = match calculate_tier_reward(
            stake_amount,
            reward_rate,
            durations.silver_seconds,
            multiplier,
        ) {
            Ok(v) => v,
            Err(e) => {
                return Err(e);
            },
        };
    }

    if durations.gold_seconds > 0 {
        let multiplier = if MULTIPLIER_GOLD >= early_bonus {
            MULTIPLIER_GOLD
        } else {
            early_bonus
        };
        rewards.gold_rewards = match calculate_tier_reward(
            stake_amount,
            reward_rate,
            durations.gold_seconds,
            multiplier,
        ) {
            Ok(v) => v,
            Err(e) => {
                return Err(e);
            },
        };
    }

    if durations.diamond_seconds > 0 {
        let multiplier = if MULTIPLIER_DIAMOND >= early_bonus {
            MULTIPLIER_DIAMOND
        } else {
            early_bonus
        };
        rewards.diamond_rewards = match calculate_tier_reward(
            stake_amount,
            reward_rate,
            durations.diamond_seconds,
            multiplier,
        ) {
            Ok(v) => v,
            Err(e) => {
                return Err(e);
            },
        };
    }

    Ok(rewards)
}

/// The times of a calculation input are ordered:
/// `stake_start_time <= last_claim_time <= current_time`.
pub open spec fn spec_input_valid(input: RewardCalculationInput) -> bool {
    &&& input.stake_start_time <= input.last_claim_time
    &&& input.last_claim_time <= input.current_time
}

/// Machine bound: the tier boundaries and the total elapsed time of a valid
/// input fit in a 64-bit signed integer.
pub open spec fn spec_input_fits(input: RewardCalculationInput) -> bool {
    spec_input_valid(input) ==> {
        &&& spec_gold_end(input.stake_start_time as int) <= i64::MAX
        &&& input.current_time - input.stake_start_time <= i64::MAX
    }
}

/// Total reward over a settlement interval: the sum of the four tier
/// payouts.
pub open spec fn spec_total_rewards(
    stake: int,
    rate: int,
    ss: int,
    lc: int,
    ct: int,
    bonus: int,
) -> int {
    spec_tier_payout(stake, rate, spec_bronze_seconds(ss, lc, ct), MULTIPLIER_BRONZE as int, bonus)
        + spec_tier_payout(
        stake,
        rate,
        spec_silver_seconds(ss, lc, ct),
        MULTIPLIER_SILVER as int,
        bonus,
    ) + spec_tier_payout(stake, rate, spec_gold_seconds(ss, lc, ct), MULTIPLIER_GOLD as int, bonus)
        + spec_tier_payout(
        stake,
        rate,
        spec_diamond_seconds(ss, lc, ct),
        MULTIPLIER_DIAMOND as int,
        bonus,
    )
}

/// Whether the whole calculation succeeds: every tier payout is computable
/// and the sum fits in 64 bits.
pub open spec fn spec_total_rewards_ok(
    stake: int,
    rate: int,
    ss: int,
    lc: int,
    ct: int,
    bonus: int,
) -> bool {
    &&& spec_tier_payout_ok(
        stake,
        rate,
        spec_bronze_seconds(ss, lc, ct),
        MULTIPLIER_BRONZE as int,
        bonus,
    )
    &&& spec_tier_payout_ok(
        stake,
        rate,
        spec_silver_seconds(ss, lc, ct),
        MULTIPLIER_SILVER as int,
        bonus,
    )
    &&& spec_tier_payout_ok(stake, rate, spec_gold_seconds(ss, lc, ct), MULTIPLIER_GOLD as int, bonus)
    &&& spec_tier_payout_ok(
        stake,
        rate,
        spec_diamond_seconds(ss, lc, ct),
        MULTIPLIER_DIAMOND as int,
        bonus,
    )
    &&& spec_total_rewards(stake, rate, ss, lc, ct, bonus) <= u64::MAX
}

/// Calculate the rewards accrued over `[last_claim_time, current_time]`,
/// tier by tier.
///
/// Fails with `InvalidTimeRange` exactly when the input times are out of
/// order, and with `Overflow` exactly when some intermediate product or the
/// final sum does not fit its integer width.  A zero stake earns zero.
pub fn calculate_rewards(input: &RewardCalculationInput) -> (r: Result<
    RewardCalculationOutput,
    RewardError,
>)
    requires
        spec_input_fits(*input),
    ensures
        !spec_input_valid(*input) ==> r == Err::<RewardCalculationOutput, RewardError>(
            RewardError::InvalidTimeRange,
        ),
        spec_input_valid(*input) && input.user_stake_amount == 0 ==> (r matches Ok(out) && {
            &&& out.total_pending_rewards == 0
            &&& out.effective_multiplier == MULTIPLIER_BRONZE
            &&& out.rewards_per_tier.bronze_rewards == 0
            &&& out.rewards_per_tier.silver_rewards == 0
            &&& out.rewards_per_tier.gold_rewards == 0
            &&& out.rewards_per_tier.diamond_rewards == 0
            &&& out.time_in_each_tier.bronze_seconds == 0
            &&& out.time_in_each_tier.silver_seconds == 0
            &&& out.time_in_each_tier.gold_seconds == 0
            &&& out.time_in_each_tier.diamond_seconds == 0
        }),
        spec_input_valid(*input) && input.user_stake_amount > 0 ==> {
            let stake = input.user_stake_amount as int;
            let rate = input.global_reward_rate as int;
            let ss = input.stake_start_time as int;
            let lc = input.last_claim_time as int;
            let ct = input.current_time as int;
            let bonus = input.early_holder_bonus as int;
            let ok = spec_total_rewards_ok(stake, rate, ss, lc, ct, bonus);
            match r {
                Ok(out) => {
                    &&& ok
                    &&& out.total_pending_rewards as int == spec_total_rewards(
                        stake,
                        rate,
                        ss,
                        lc,
                        ct,
                        bonus,
                    )
                    &&& out.time_in_each_tier.bronze_seconds as int == spec_bronze_seconds(
                        ss,
                        lc,
                        ct,
                    )
                    &&& out.time_in_each_tier.silver_seconds as int == spec_silver_seconds(
                        ss,
                        lc,
                        ct,
                    )
                    &&& out.time_in_each_tier.gold_seconds as int == spec_gold_seconds(ss, lc, ct)
                    &&& out.time_in_each_tier.diamond_seconds as int == spec_diamond_seconds(
                        ss,
                        lc,
                        ct,
                    )
                    &&& out.rewards_per_tier.bronze_rewards as int == spec_tier_payout(
                        stake,
                        rate,
                        spec_bronze_seconds(ss, lc, ct),
                        MULTIPLIER_BRONZE as int,
                        bonus,
                    )
                    &&& out.rewards_per_tier.silver_rewards as int == spec_tier_payout(
                        stake,
                        rate,
                        spec_silver_seconds(ss, lc, ct),
                        MULTIPLIER_SILVER as int,
                        bonus,
                    )
                    &&& out.rewards_per_tier.gold_rewards as int == spec_tier_payout(
                        stake,
                        rate,
                        spec_gold_seconds(ss, lc, ct),
                        MULTIPLIER_GOLD as int,
                        bonus,
                    )
                    &&& out.rewards_per_tier.diamond_rewards as int == spec_tier_payout(
                        stake,
                        rate,
                        spec_diamond_seconds(ss, lc, ct),
                        MULTIPLIER_DIAMOND as int,
                        bonus,
                    )
                    &&& out.effective_multiplier as int == spec_combined_multiplier(
                        spec_multiplier_for_days((ct - ss) / (SECONDS_PER_DAY as int)),
                        bonus,
                    )
                },
                Err(e) => !ok && e == RewardError::Overflow,
            }
        },
{
    // Validate inputs.
    if !(input.current_time >= input.last_claim_time) {
        return Err(RewardError::InvalidTimeRange);
    }
    if !(input.stake_start_time <= input.last_claim_time) {
        return Err(RewardError::InvalidTimeRange);
    }

    if input.user_stake_amount == 0 {
        return Ok(
            RewardCalculationOutput {
                total_pending_rewards: 0,
                rewards_per_tier: TierRewards {
                    bronze_rewards: 0,
                    silver_rewards: 0,
                    gold_rewards: 0,
                    diamond_rewards: 0,
                },
                effective_multiplier: MULTIPLIER_BRONZE,
                time_in_each_tier: TierDurations {
                    bronze_seconds: 0,
                    silver_seconds: 0,
                    gold_seconds: 0,
                    diamond_seconds: 0,
                },
            },
        );
    }

    // Split the interval into per-tier durations.
    let tier_durations = calculate_tier_durations(
        input.stake_start_time,
        input.last_claim_time,
        input.current_time,
    );

    // Reward for each tier.
    let tier_rewards = match calculate_tier_rewards(
        input.user_stake_amount,
        input.global_reward_rate,
        &tier_durations,
        input.early_holder_bonus,
    ) {
        Ok(tr) => tr,
        Err(e) => {
            return Err(e);
        },
    };

    // Sum the tier rewards.
    let sum1 = match tier_rewards.bronze_rewards.checked_add(tier_rewards.silver_rewards) {
        Some(v) => v,
        None => {
            return Err(RewardError::Overflow);
        },
    };
    let sum2 = match sum1.checked_add(tier_rewards.gold_rewards) {
        Some(v) => v,
        None => {
            return Err(RewardError::Overflow);
        },
    };
    let total = match sum2.checked_add(tier_rewards.diamond_rewards) {
        Some(v) => v,
        None => {
            return Err(RewardError::Overflow);
        },
    };

    // Current effective multiplier.
    let days_staked = (input.current_time - input.stake_start_time) / SECONDS_PER_DAY;
    let time_multiplier = get_multiplier_for_days(days_staked);
    let effective_multiplier = if time_multiplier >= input.early_holder_bonus {
        time_multiplier
    } else {
        input.early_holder_bonus
    };

    Ok(
        RewardCalculationOutput {
            total_pending_rewards: total,
            rewards_per_tier: tier_rewards,
            effective_multiplier,
            time_in_each_tier: tier_durations,
        },
    )
}

/// A zero stake earns zero in every tier, and the calculation can never
/// overflow.
pub proof fn lemma_total_rewards_zero_stake(rate: int, ss: int, lc: int, ct: int, bonus: int)
    requires
        0 <= rate,
    ensures
        spec_total_rewards(0, rate, ss, lc, ct, bonus) == 0,
        spec_total_rewards_ok(0, rate, ss, lc, ct, bonus),
{
    assert forall|seconds: int, m: int| spec_tier_payout(0, rate, seconds, m, bonus) == 0
        && spec_tier_payout_ok(0, rate, seconds, m, bonus) by {
        vstd::arithmetic::mul::lemma_mul_by_zero_is_zero(rate);
        let cm = spec_combined_multiplier(m, bonus);
        vstd::arithmetic::mul::lemma_mul_by_zero_is_zero(seconds);
        vstd::arithmetic::mul::lemma_mul_by_zero_is_zero(cm);
        assert(0 * rate == 0);
        assert(0 * rate * seconds == 0);
        assert(0 * rate * seconds * cm == 0);
        vstd::arithmetic::div_mod::lemma_div_of0(100_000_000_000);
    }
}

/// A tier reward is monotone in its multiplier.
proof fn lemma_tier_reward_mult_monotonic(stake: int, rate: int, seconds: int, m1: int, m2: int)
    requires
        0 <= stake,
        0 <= rate,
        0 <= seconds,
        0 <= m1 <= m2,
    ensures
        spec_tier_reward(stake, rate, seconds, m1) <= spec_tier_reward(stake, rate, seconds, m2),
{
    let p = stake * rate * seconds;
    vstd::arithmetic::mul::lemma_mul_nonnegative(stake, rate);
    vstd::arithmetic::mul::lemma_mul_nonnegative(stake * rate, seconds);
    if p > 0 {
        lemma_mul_left_inequality(p, m1, m2);
    } else {
        vstd::arithmetic::mul::lemma_mul_by_zero_is_zero(m1);
        vstd::arithmetic::mul::lemma_mul_by_zero_is_zero(m2);
    }
    lemma_div_is_ordered(p * m1, p * m2, 100_000_000_000);
}

/// Early-holder bonus monotonicity: with the same stake, rate and
/// settlement interval, rewards computed with a higher bonus are at least
/// the rewards computed with a lower one.
pub proof fn lemma_bonus_monotonic(
    stake: int,
    rate: int,
    ss: int,
    lc: int,
    ct: int,
    b1: int,
    b2: int,
)
    requires
        0 <= stake,
        0 <= rate,
        0 <= b1 <= b2,
    ensures
        spec_total_rewards(stake, rate, ss, lc, ct, b1) <= spec_total_rewards(
            stake,
            rate,
            ss,
            lc,
            ct,
            b2,
        ),
{
    assert forall|seconds: int, m: int|
        0 <= m implies spec_tier_payout(stake, rate, seconds, m, b1) <= spec_tier_payout(
        stake,
        rate,
        seconds,
        m,
        b2,
    ) by {
        if seconds > 0 {
            lemma_tier_reward_mult_monotonic(
                stake,
                rate,
                seconds,
                spec_combined_multiplier(m, b1),
                spec_combined_multiplier(m, b2),
            );
        }
    }
}

/// Rewards owed for a partial unstake: the fraction of the pending rewards
/// and the remaining stake after removing the given percentage.
pub fn calculate_partial_unstake_rewards(
    input: &RewardCalculationInput,
    unstake_percentage: u64,
) -> (r: Result<(u64, u64), RewardError>)
    requires
        spec_input_fits(*input),
    ensures
        unstake_percentage > 100 ==> r == Err::<(u64, u64), RewardError>(
            RewardError::InvalidPercentage,
        ),
        unstake_percentage <= 100 ==> {
            let stake = input.user_stake_amount as int;
            let rate = input.global_reward_rate as int;
            let ss = input.stake_start_time as int;
            let lc = input.last_claim_time as int;
            let ct = input.current_time as int;
            let bonus = input.early_holder_bonus as int;
            let pct = unstake_percentage as int;
            match r {
                Ok(pair) => {
                    &&& spec_input_valid(*input)
                    &&& spec_total_rewards_ok(stake, rate, ss, lc, ct, bonus)
                    &&& pair.0 as int == (spec_total_rewards(stake, rate, ss, lc, ct, bonus) * pct)
                        / 100
                    &&& pair.1 as int == stake - (stake * pct) / 100
                },
                Err(e) => {
                    ||| !spec_input_valid(*input) && e == RewardError::InvalidTimeRange
                    ||| spec_input_valid(*input) && !spec_total_rewards_ok(
                        stake,
                        rate,
                        ss,
                        lc,
                        ct,
                        bonus,
                    ) && e == RewardError::Overflow
                },
            }
        },
{
    if unstake_percentage > 100 {
        return Err(RewardError::InvalidPercentage);
    }

    // Total pending rewards over the whole interval.
    let full_rewards = match calculate_rewards(input) {
        Ok(out) => out,
        Err(e) => {
            return Err(e);
        },
    };
    let total = full_rewards.total_pending_rewards;

    proof {
        if input.user_stake_amount == 0 {
            lemma_total_rewards_zero_stake(
                input.global_reward_rate as int,
                input.stake_start_time as int,
                input.last_claim_time as int,
                input.current_time as int,
                input.early_holder_bonus as int,
            );
        }
        // A percentage of a 64-bit value still fits in 64 bits.
        vstd::arithmetic::mul::lemma_mul_is_commutative(total as int, unstake_percentage as int);
        lemma_mul_inequality(unstake_percentage as int, 100, total as int);
        lemma_div_is_ordered(
            (total as int) * (unstake_percentage as int),
            100 * (total as int),
            100,
        );
        vstd::arithmetic::div_mod::lemma_div_multiples_vanish(total as int, 100);
        let amt = input.user_stake_amount as int;
        vstd::arithmetic::mul::lemma_mul_is_commutative(amt, unstake_percentage as int);
        lemma_mul_inequality(unstake_percentage as int, 100, amt);
        lemma_div_is_ordered(amt * (unstake_percentage as int), 100 * amt, 100);
        vstd::arithmetic::div_mod::lemma_div_multiples_vanish(amt, 100);
    }

    // Proportional share of the rewards.
    let rewards_to_claim = (total as u128 * unstake_percentage as u128 / 100) as u64;

    // Remaining stake after the partial withdrawal.
    let unstake_amount = (input.user_stake_amount as u128 * unstake_percentage as u128 / 100)
        as u64;
    let remaining_stake = input.user_stake_amount - unstake_amount;

    Ok((rewards_to_claim, remaining_stake))
}

/// Pending rewards at this instant, computed at the old rate: taken just
/// before a reward-rate change so that time already accrued keeps the old
/// rate.
pub fn snapshot_rewards_before_rate_change(input: &RewardCalculationInput) -> (r: Result<
    u64,
    RewardError,
>)
    requires
        spec_input_fits(*input),
    ensures
        !spec_input_valid(*input) ==> r == Err::<u64, RewardError>(RewardError::InvalidTimeRange),
        spec_input_valid(*input) ==> {
            let stake = input.user_stake_amount as int;
            let rate = input.global_reward_rate as int;
            let ss = input.stake_start_time as int;
            let lc = input.last_claim_time as int;
            let ct = input.current_time as int;
            let bonus = input.early_holder_bonus as int;
            match r {
                Ok(v) => spec_total_rewards_ok(stake, rate, ss, lc, ct, bonus) && v as int
                    == spec_total_rewards(stake, rate, ss, lc, ct, bonus),
                Err(e) => !spec_total_rewards_ok(stake, rate, ss, lc, ct, bonus) && e
                    == RewardError::Overflow,
            }
        },
{
    proof {
        if input.user_stake_amount == 0 {
            lemma_total_rewards_zero_stake(
                input.global_reward_rate as int,
                input.stake_start_time as int,
                input.last_claim_time as int,
                input.current_time as int,
                input.early_holder_bonus as int,
            );
        }
    }
    match calculate_rewards(input) {
        Ok(out) => Ok(out.total_pending_rewards),
        Err(e) => Err(e),
    }
}

/// Accrued rewards across a mid-period rate change: the interval before
/// the change earns at the old rate, the interval after it at the new
/// rate, and the new rate is never applied retroactively.
pub fn calculate_with_rate_change(
    stake_amount: u64,
    stake_start_time: i64,
    last_claim_time: i64,
    rate_change_time: i64,
    old_rate: u64,
    new_rate: u64,
    current_time: i64,
    early_bonus: u64,
) -> (r: Result<u64, RewardError>)
    requires
        stake_start_time <= last_claim_time && last_claim_time <= rate_change_time ==> {
            &&& spec_gold_end(stake_start_time as int) <= i64::MAX
            &&& rate_change_time - stake_start_time <= i64::MAX
        },
        stake_start_time <= rate_change_time && rate_change_time <= current_time ==> {
            &&& spec_gold_end(stake_start_time as int) <= i64::MAX
            &&& current_time - stake_start_time <= i64::MAX
        },
    ensures
        ({
            let stake = stake_amount as int;
            let ss = stake_start_time as int;
            let lc = last_claim_time as int;
            let rc = rate_change_time as int;
            let ct = current_time as int;
            let bonus = early_bonus as int;
            let valid1 = ss <= lc && lc <= rc;
            let valid2 = ss <= rc && rc <= ct;
            let ok1 = spec_total_rewards_ok(stake, old_rate as int, ss, lc, rc, bonus);
            let ok2 = spec_total_rewards_ok(stake, new_rate as int, ss, rc, ct, bonus);
            let t1 = spec_total_rewards(stake, old_rate as int, ss, lc, rc, bonus);
            let t2 = spec_total_rewards(stake, new_rate as int, ss, rc, ct, bonus);
            &&& !valid1 ==> r == Err::<u64, RewardError>(RewardError::InvalidTimeRange)
            &&& valid1 && !ok1 ==> r == Err::<u64, RewardError>(RewardError::Overflow)
            &&& valid1 && ok1 && !valid2 ==> r == Err::<u64, RewardError>(
                RewardError::InvalidTimeRange,
            )
            &&& valid1 && ok1 && valid2 && !ok2 ==> r == Err::<u64, RewardError>(
                RewardError::Overflow,
            )
            &&& valid1 && ok1 && valid2 && ok2 ==> if t1 + t2 > u64::MAX as int {
                r == Err::<u64, RewardError>(RewardError::Overflow)
            } else {
                r matches Ok(v) && v as int == t1 + t2
            }
        }),
{
    proof {
        if stake_amount == 0 {
            lemma_total_rewards_zero_stake(
                old_rate as int,
                stake_start_time as int,
                last_claim_time as int,
                rate_change_time as int,
                early_bonus as int,
            );
            lemma_total_rewards_zero_stake(
                new_rate as int,
                stake_start_time as int,
                rate_change_time as int,
                current_time as int,
                early_bonus as int,
            );
        }
    }

    // Period 1: `last_claim_time` to `rate_change_time` at the old rate.
    let period1_input = RewardCalculationInput {
        user_stake_amount: stake_amount,
        stake_start_time,
        last_claim_time,
        current_time: rate_change_time,
        global_reward_rate: old_rate,
        early_holder_bonus: early_bonus,
    };
    let period1_rewards = match calculate_rewards(&period1_input) {
        Ok(out) => out.total_pending_rewards,
        Err(e) => {
            return Err(e);
        },
    };

    // Period 2: `rate_change_time` to `current_time` at the new rate.
    let period2_input = RewardCalculationInput {
        user_stake_amount: stake_amount,
        stake_start_time,
        last_claim_time: rate_change_time,
        current_time,
        global_reward_rate: new_rate,
        early_holder_bonus: early_bonus,
    };
    let period2_rewards = match calculate_rewards(&period2_input) {
        Ok(out) => out.total_pending_rewards,
        Err(e) => {
            return Err(e);
        },
    };

    match period1_rewards.checked_add(period2_rewards) {
        Some(total) => Ok(total),
        None => Err(RewardError::Overflow),
    }
}

/// Annual percentage yield in basis points, estimated from the reward
/// rate and the token and SOL prices (both in cents), saturated at
/// `u64::MAX`.
pub open spec fn spec_apy(rate: int, total_staked: int, token_price: int, sol_price: int) -> int {
    if total_staked == 0 || token_price == 0 {
        0
    } else {
        let annual_rewards_per_token = (rate * 31_536_000) / (PRECISION as int);
        let annual_usd_value = (annual_rewards_per_token * sol_price) / 1_000_000_000;
        let apy_bps = (annual_usd_value * 10_000) / token_price;
        if apy_bps > u64::MAX as int {
            u64::MAX as int
        } else {
            apy_bps
        }
    }
}

/// Calculate the current APY in basis points from the reward rate and the
/// total value staked.
pub fn calculate_apy(
    reward_rate: u64,
    total_staked: u64,
    token_price_usd: u64,
    sol_price_usd: u64,
) -> (r: u64)
    ensures
        r as int == spec_apy(
            reward_rate as int,
            total_staked as int,
            token_price_usd as int,
            sol_price_usd as int,
        ),
{
    if total_staked == 0 || token_price_usd == 0 {
        return 0;
    }

    // Annual rewards per token, undoing the rate's fixed-point scale.
    let seconds_per_year: u128 = 365 * 24 * 60 * 60;
    let annual_rewards_per_token = (reward_rate as u128 * seconds_per_year) / PRECISION;

    proof {
        lemma_div_is_ordered(
            (reward_rate as int) * 31_536_000,
            (u64::MAX as int) * 31_536_000,
            PRECISION as int,
        );
        vstd::arithmetic::mul::lemma_mul_upper_bound(
            annual_rewards_per_token as int,
            ((u64::MAX as int) * 31_536_000) / (PRECISION as int),
            sol_price_usd as int,
            u64::MAX as int,
        );
    }

    // Convert to USD value (lamports to whole SOL).
    let annual_usd_value = (annual_rewards_per_token * sol_price_usd as u128) / 1_000_000_000;

    proof {
        lemma_div_is_ordered(
            (annual_rewards_per_token as int) * (sol_price_usd as int),
            (((u64::MAX as int) * 31_536_000) / (PRECISION as int)) * (u64::MAX as int),
            1_000_000_000,
        );
    }

    // APY in basis points.
    let apy_bps = (annual_usd_value * 10_000) / token_price_usd as u128;

    if apy_bps > u64::MAX as u128 {
        u64::MAX
    } else {
        apy_bps as u64
    }
}

} // verus!
