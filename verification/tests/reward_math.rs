use staking::reward_math::calculate_apy;
use staking::reward_math::calculate_partial_unstake_rewards;
use staking::reward_math::calculate_rewards;
use staking::reward_math::calculate_with_rate_change;
use staking::reward_math::get_multiplier_for_days;
use staking::reward_math::snapshot_rewards_before_rate_change;
use staking::reward_math::RewardCalculationInput;
use staking::reward_math::RewardError;
use staking::reward_math::MULTIPLIER_BRONZE;
use staking::reward_math::MULTIPLIER_DIAMOND;
use staking::reward_math::MULTIPLIER_GOLD;
use staking::reward_math::MULTIPLIER_SILVER;
use staking::reward_math::PRECISION;

#[test]
fn test_basic_reward_calculation() {
    let input = RewardCalculationInput {
        user_stake_amount: 1_000_000_000, // 1 token with 9 decimals
        stake_start_time: 0,
        last_claim_time: 0,
        current_time: 86400, // 1 day
        global_reward_rate: 1_000_000,
        early_holder_bonus: 100, // No bonus
    };

    let result = calculate_rewards(&input).unwrap();
    assert!(result.total_pending_rewards > 0);
    assert!(result.time_in_each_tier.bronze_seconds == 86400);
}

#[test]
fn test_tier_transitions() {
    // One day past the gold boundary, so every tier up to gold has a
    // nonzero span; at exactly 30 days the gold span would still be zero.
    let input = RewardCalculationInput {
        user_stake_amount: 1_000_000_000,
        stake_start_time: 0,
        last_claim_time: 0,
        current_time: 31 * 86400, // 31 days
        global_reward_rate: 1_000_000,
        early_holder_bonus: 100,
    };

    let result = calculate_rewards(&input).unwrap();
    assert!(result.time_in_each_tier.bronze_seconds > 0);
    assert!(result.time_in_each_tier.silver_seconds > 0);
    assert!(result.time_in_each_tier.gold_seconds > 0);
}

#[test]
fn test_early_holder_bonus() {
    let input_no_bonus = RewardCalculationInput {
        user_stake_amount: 1_000_000_000,
        stake_start_time: 0,
        last_claim_time: 0,
        current_time: 86400,
        global_reward_rate: 1_000_000,
        early_holder_bonus: 100, // 1.0x
    };

    let input_with_bonus = RewardCalculationInput {
        early_holder_bonus: 300, // 3.0x Diamond bonus
        ..input_no_bonus.clone()
    };

    let result_no_bonus = calculate_rewards(&input_no_bonus).unwrap();
    let result_with_bonus = calculate_rewards(&input_with_bonus).unwrap();

    assert!(result_with_bonus.total_pending_rewards > result_no_bonus.total_pending_rewards);
}

#[test]
fn test_multiplier_for_days() {
    assert_eq!(get_multiplier_for_days(0), MULTIPLIER_BRONZE);
    assert_eq!(get_multiplier_for_days(6), MULTIPLIER_BRONZE);
    assert_eq!(get_multiplier_for_days(7), MULTIPLIER_SILVER);
    assert_eq!(get_multiplier_for_days(29), MULTIPLIER_SILVER);
    assert_eq!(get_multiplier_for_days(30), MULTIPLIER_GOLD);
    assert_eq!(get_multiplier_for_days(89), MULTIPLIER_GOLD);
    assert_eq!(get_multiplier_for_days(90), MULTIPLIER_DIAMOND);
    assert_eq!(get_multiplier_for_days(365), MULTIPLIER_DIAMOND);
}

#[test]
fn test_one_day_matches_closed_form() {
    // One day inside the bronze tier at multiplier 1.00: the total equals
    // amount * rate * seconds * 100 / (PRECISION * 100).
    let amount: u64 = 1_000_000_000;
    let rate: u64 = 1_000_000;
    let seconds: u64 = 86_400;
    let input = RewardCalculationInput {
        user_stake_amount: amount,
        stake_start_time: 0,
        last_claim_time: 0,
        current_time: seconds as i64,
        global_reward_rate: rate,
        early_holder_bonus: 100,
    };

    let result = calculate_rewards(&input).unwrap();
    assert_eq!(result.time_in_each_tier.bronze_seconds, 86_400);
    assert_eq!(result.time_in_each_tier.silver_seconds, 0);
    assert_eq!(result.time_in_each_tier.gold_seconds, 0);
    assert_eq!(result.time_in_each_tier.diamond_seconds, 0);

    let closed_form =
        (amount as u128 * rate as u128 * seconds as u128 * 100 / (PRECISION * 100)) as u64;
    assert!(result.total_pending_rewards > 0);
    assert_eq!(result.total_pending_rewards, closed_form);
    assert_eq!(result.total_pending_rewards, 86_400_000_000);
    assert_eq!(result.effective_multiplier, 100);
}

#[test]
fn test_thirty_day_segments_sum_exactly() {
    // A claim at exactly 30 days ends precisely on the gold boundary:
    // 7 bronze days, 23 silver days, and a gold span of zero, summing
    // exactly to the elapsed time.
    let input = RewardCalculationInput {
        user_stake_amount: 1_000_000_000,
        stake_start_time: 0,
        last_claim_time: 0,
        current_time: 30 * 86400,
        global_reward_rate: 1_000_000,
        early_holder_bonus: 100,
    };

    let result = calculate_rewards(&input).unwrap();
    let t = &result.time_in_each_tier;
    assert_eq!(t.bronze_seconds, 7 * 86400);
    assert_eq!(t.silver_seconds, 23 * 86400);
    assert_eq!(t.gold_seconds, 0);
    assert_eq!(t.diamond_seconds, 0);
    assert_eq!(
        t.bronze_seconds + t.silver_seconds + t.gold_seconds + t.diamond_seconds,
        30 * 86400
    );

    // One day later the gold tier has opened.
    let later = RewardCalculationInput {
        current_time: 31 * 86400,
        ..input.clone()
    };
    let result = calculate_rewards(&later).unwrap();
    let t = &result.time_in_each_tier;
    assert_eq!(t.gold_seconds, 86400);
    assert_eq!(
        t.bronze_seconds + t.silver_seconds + t.gold_seconds + t.diamond_seconds,
        31 * 86400
    );
}

#[test]
fn test_segments_sum_from_midway_claim() {
    // A claim some way into the stake still partitions exactly.
    let input = RewardCalculationInput {
        user_stake_amount: 42,
        stake_start_time: 1_000,
        last_claim_time: 1_000 + 20 * 86400,
        current_time: 1_000 + 95 * 86400,
        global_reward_rate: 7,
        early_holder_bonus: 0,
    };

    let result = calculate_rewards(&input).unwrap();
    let t = &result.time_in_each_tier;
    assert_eq!(
        t.bronze_seconds + t.silver_seconds + t.gold_seconds + t.diamond_seconds,
        75 * 86400
    );
    assert_eq!(t.bronze_seconds, 0);
    assert!(t.silver_seconds > 0);
    assert!(t.gold_seconds > 0);
    assert!(t.diamond_seconds > 0);
}

#[test]
fn test_invalid_time_range() {
    let backwards = RewardCalculationInput {
        user_stake_amount: 1,
        stake_start_time: 0,
        last_claim_time: 100,
        current_time: 50,
        global_reward_rate: 1,
        early_holder_bonus: 100,
    };
    assert_eq!(
        calculate_rewards(&backwards).unwrap_err(),
        RewardError::InvalidTimeRange
    );

    let late_start = RewardCalculationInput {
        user_stake_amount: 1,
        stake_start_time: 200,
        last_claim_time: 100,
        current_time: 300,
        global_reward_rate: 1,
        early_holder_bonus: 100,
    };
    assert_eq!(
        calculate_rewards(&late_start).unwrap_err(),
        RewardError::InvalidTimeRange
    );
}

#[test]
fn test_zero_stake_earns_zero() {
    let input = RewardCalculationInput {
        user_stake_amount: 0,
        stake_start_time: 0,
        last_claim_time: 0,
        current_time: 86400,
        global_reward_rate: 1_000_000,
        early_holder_bonus: 100,
    };
    let result = calculate_rewards(&input).unwrap();
    assert_eq!(result.total_pending_rewards, 0);
    assert_eq!(result.effective_multiplier, MULTIPLIER_BRONZE);
}

#[test]
fn test_overflow_aborts() {
    let input = RewardCalculationInput {
        user_stake_amount: u64::MAX,
        stake_start_time: 0,
        last_claim_time: 0,
        current_time: 86400,
        global_reward_rate: u64::MAX,
        early_holder_bonus: 100,
    };
    assert_eq!(calculate_rewards(&input).unwrap_err(), RewardError::Overflow);
}

#[test]
fn test_result_beyond_64_bits_aborts() {
    // The 128-bit intermediates all fit, but the divided result exceeds
    // u64::MAX: the calculation aborts instead of truncating.
    let input = RewardCalculationInput {
        user_stake_amount: u64::MAX,
        stake_start_time: 0,
        last_claim_time: 0,
        current_time: 86400,
        global_reward_rate: 1_000_000_000,
        early_holder_bonus: 100,
    };
    assert_eq!(calculate_rewards(&input).unwrap_err(), RewardError::Overflow);
}

#[test]
fn test_partial_unstake_rewards() {
    let input = RewardCalculationInput {
        user_stake_amount: 1_000_000_000,
        stake_start_time: 0,
        last_claim_time: 0,
        current_time: 86400,
        global_reward_rate: 1_000_000,
        early_holder_bonus: 100,
    };

    let (claim_half, remaining_half) = calculate_partial_unstake_rewards(&input, 50).unwrap();
    assert_eq!(claim_half, 43_200_000_000);
    assert_eq!(remaining_half, 500_000_000);

    let (claim_all, remaining_all) = calculate_partial_unstake_rewards(&input, 100).unwrap();
    assert_eq!(claim_all, 86_400_000_000);
    assert_eq!(remaining_all, 0);

    assert_eq!(
        calculate_partial_unstake_rewards(&input, 101).unwrap_err(),
        RewardError::InvalidPercentage
    );
}

#[test]
fn test_snapshot_before_rate_change() {
    let input = RewardCalculationInput {
        user_stake_amount: 1_000_000_000,
        stake_start_time: 0,
        last_claim_time: 0,
        current_time: 86400,
        global_reward_rate: 1_000_000,
        early_holder_bonus: 100,
    };
    let snapshot = snapshot_rewards_before_rate_change(&input).unwrap();
    assert_eq!(snapshot, 86_400_000_000);
}

#[test]
fn test_rate_change_not_retroactive() {
    // Half a day at the old rate, half a day at double the rate.
    let total = calculate_with_rate_change(
        1_000_000_000,
        0,
        0,
        43_200,
        1_000_000,
        2_000_000,
        86_400,
        100,
    )
    .unwrap();
    assert_eq!(total, 43_200_000_000 + 86_400_000_000);

    // The whole day at the old rate for comparison: the change must not
    // have rewritten the first half.
    let unchanged =
        calculate_with_rate_change(1_000_000_000, 0, 0, 43_200, 1_000_000, 1_000_000, 86_400, 100)
            .unwrap();
    assert_eq!(unchanged, 86_400_000_000);
}

#[test]
fn test_bonus_never_lowers_rewards() {
    // Across a multi-tier interval, a higher early-holder bonus pays at
    // least as much.
    let base = RewardCalculationInput {
        user_stake_amount: 1_000_000_000,
        stake_start_time: 0,
        last_claim_time: 0,
        current_time: 100 * 86400,
        global_reward_rate: 1_000_000,
        early_holder_bonus: 100,
    };
    let mut previous = 0u64;
    for bonus in [0u64, 100, 150, 200, 300] {
        let input = RewardCalculationInput {
            early_holder_bonus: bonus,
            ..base.clone()
        };
        let total = calculate_rewards(&input).unwrap().total_pending_rewards;
        assert!(total >= previous);
        previous = total;
    }
}

#[test]
fn test_calculate_apy() {
    // rate 1e9 (one unit per second per token), 1000 tokens staked,
    // token at $1.00, SOL at $100.00.
    let apy = calculate_apy(1_000_000_000, 1_000, 100, 10_000);
    // annual per token: 31_536_000; usd value: 315; bps: 31_500.
    assert_eq!(apy, 31_500);

    assert_eq!(calculate_apy(1_000_000_000, 0, 100, 10_000), 0);
    assert_eq!(calculate_apy(1_000_000_000, 1_000, 0, 10_000), 0);
}
