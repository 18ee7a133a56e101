use staking::state::calculate_rent_exempt;
use staking::state::integer_sqrt;
use staking::state::AccountId;
use staking::state::AdminAuthority;
use staking::state::FeeVault;
use staking::state::GovernanceWrapper;
use staking::state::RewardConfig;
use staking::state::UserStake;
use staking::state::VestingSchedule;

const PRIMARY: AccountId = AccountId { value: 1 };
const SECONDARY: AccountId = AccountId { value: 2 };
const EMERGENCY: AccountId = AccountId { value: 3 };
const ALICE: AccountId = AccountId { value: 10 };

fn stake_with_tier(tier: u8) -> UserStake {
    UserStake {
        owner: ALICE,
        amount: 1_000,
        weight: 1_000,
        stake_start_time: 0,
        reward_debt: 0,
        pending_rewards: 0,
        total_claimed: 0,
        cooldown_amount: 0,
        cooldown_end: 0,
        early_holder_tier: tier,
    }
}

#[test]
fn test_admin_capability_tiers() {
    let admin = AdminAuthority {
        primary_admin: PRIMARY,
        secondary_admin: SECONDARY,
        emergency_admin: EMERGENCY,
        required_signatures: 2,
        multisig_enabled: true,
        last_action_time: 0,
    };

    assert!(admin.is_admin(&PRIMARY));
    assert!(admin.is_admin(&SECONDARY));
    assert!(admin.is_admin(&EMERGENCY));
    assert!(!admin.is_admin(&ALICE));

    assert!(admin.can_emergency(&EMERGENCY));
    assert!(!admin.can_emergency(&ALICE));

    assert!(admin.can_critical(&PRIMARY));
    assert!(!admin.can_critical(&SECONDARY));
    assert!(!admin.can_critical(&EMERGENCY));
}

#[test]
fn test_time_multiplier_tiers() {
    let user = stake_with_tier(0);
    assert_eq!(user.get_multiplier(0), 100);
    assert_eq!(user.get_multiplier(6 * 86_400), 100);
    assert_eq!(user.get_multiplier(7 * 86_400), 150);
    assert_eq!(user.get_multiplier(30 * 86_400), 200);
    assert_eq!(user.get_multiplier(90 * 86_400), 250);
}

#[test]
fn test_early_holder_bonus_raises_floor() {
    // A gold early holder (2.0x) floors the multiplier until the time tier
    // overtakes it.
    let user = stake_with_tier(2);
    assert_eq!(user.get_multiplier(0), 200);
    assert_eq!(user.get_multiplier(7 * 86_400), 200);
    assert_eq!(user.get_multiplier(30 * 86_400), 200);
    assert_eq!(user.get_multiplier(90 * 86_400), 250);

    // A diamond early holder (3.0x) always wins over the time tiers.
    let diamond = stake_with_tier(3);
    assert_eq!(diamond.get_multiplier(90 * 86_400), 300);
}

#[test]
fn test_integer_sqrt() {
    assert_eq!(integer_sqrt(0), 0);
    assert_eq!(integer_sqrt(1), 1);
    assert_eq!(integer_sqrt(3), 1);
    assert_eq!(integer_sqrt(4), 2);
    assert_eq!(integer_sqrt(99), 9);
    assert_eq!(integer_sqrt(100), 10);
    assert_eq!(integer_sqrt(1_000_000), 1_000);
    assert_eq!(integer_sqrt(u32::MAX as u64 * u32::MAX as u64), u32::MAX as u64);
    assert_eq!(integer_sqrt(u64::MAX - 1), 4_294_967_295);
}

#[test]
fn test_dynamic_apy() {
    let config = RewardConfig {
        base_reward_rate: 0,
        min_apy_bps: 500,
        max_apy_bps: 10_000,
        target_tvl: 1_000_000,
        last_distribution_time: 0,
        reward_pool_balance: 0,
        staker_share_bps: 6_000,
        treasury_share_bps: 2_000,
        operations_share_bps: 2_000,
    };

    // At target: ratio 1e6, sqrt 1000, APY 5000 bps.
    assert_eq!(config.calculate_dynamic_apy(1_000_000), 5_000);
    // Far above target: clamped to the floor.
    assert_eq!(config.calculate_dynamic_apy(1_000_000_000_000), 500);
    // Far below target: clamped to the ceiling.
    assert_eq!(config.calculate_dynamic_apy(1_000), 10_000);
    // No measure at all: the ceiling.
    assert_eq!(config.calculate_dynamic_apy(0), 10_000);
}

#[test]
fn test_vesting_schedule() {
    let vesting = VestingSchedule {
        beneficiary: ALICE,
        total_amount: 10_000,
        claimed_amount: 1_000,
        start_time: 1_000,
        cliff_duration: 100,
        total_duration: 1_000,
        revoked: false,
        is_active: true,
    };

    // Before the cliff nothing is vested.
    assert_eq!(vesting.vested_amount(1_050), 0);
    assert_eq!(vesting.claimable_amount(1_050), 0);

    // Halfway through: linear share.
    assert_eq!(vesting.vested_amount(1_500), 5_000);
    assert_eq!(vesting.claimable_amount(1_500), 4_000);

    // After the full duration everything is vested.
    assert_eq!(vesting.vested_amount(2_000), 10_000);
    assert_eq!(vesting.claimable_amount(2_000), 9_000);

    let revoked = VestingSchedule { revoked: true, ..vesting };
    assert_eq!(revoked.vested_amount(2_000), 0);
}

#[test]
fn test_fee_vault_threshold() {
    let vault = FeeVault {
        authority: PRIMARY,
        total_collected: 0,
        total_distributed: 0,
        pending_distribution: 99,
        distribution_threshold: 100,
        last_distribution_time: 0,
    };
    assert!(!vault.should_distribute());

    let ready = FeeVault { pending_distribution: 100, ..vault };
    assert!(ready.should_distribute());
}

#[test]
fn test_governance_voting_power() {
    let wrapper = GovernanceWrapper {
        owner: ALICE,
        voting_power: 12_345,
        last_update: 0,
        delegated_to: ALICE,
    };
    assert_eq!(wrapper.effective_voting_power(), 12_345);
}

#[test]
fn test_rent_exempt_minimum() {
    // (space + 128 header bytes) * 19 lamports per byte-year * 2 years.
    assert_eq!(calculate_rent_exempt(100), (100 + 128) * 19 * 2);
    assert_eq!(calculate_rent_exempt(0), 128 * 19 * 2);
}
