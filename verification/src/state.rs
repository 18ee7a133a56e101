//! Persistent records of the staking system and the small pure helpers
//! that read them: admin capability checks, vesting math, the dynamic-APY
//! estimate, and the integer square root it rests on.

use vstd::prelude::*;

verus! {

/// Identity of an account: the owner of a stake, an admin, a custody
/// location.  The hosting environment proves that a request really comes
/// from the identity it claims; the engine only compares identities.
#[derive(Clone, Copy, PartialEq, Eq, Structural, Debug)]
pub struct AccountId {
    pub value: u64,
}

/// The set of admin identities and the multisig configuration.
#[derive(Clone, Copy, PartialEq, Eq, Structural, Debug)]
pub struct AdminAuthority {
    /// Primary admin (full control).
    pub primary_admin: AccountId,
    /// Secondary admin (operational control).
    pub secondary_admin: AccountId,
    /// Emergency admin (can only pause / enable emergency mode).
    pub emergency_admin: AccountId,
    /// Number of approvals required for critical multisig actions.
    pub required_signatures: u8,
    /// Whether multisig is enabled.
    pub multisig_enabled: bool,
    /// Last admin action timestamp.
    pub last_action_time: u64,
}

impl AdminAuthority {
    /// Whether `key` is one of the three admins.
    pub open spec fn spec_is_admin(&self, key: AccountId) -> bool {
        key == self.primary_admin || key == self.secondary_admin || key == self.emergency_admin
    }

    /// Check whether an identity is an admin.
    pub fn is_admin(&self, key: &AccountId) -> (r: bool)
        ensures
            r == self.spec_is_admin(*key),
    {
        *key == self.primary_admin || *key == self.secondary_admin || *key == self.emergency_admin
    }

    /// Check whether an identity may perform emergency actions
    /// (any admin may).
    pub fn can_emergency(&self, key: &AccountId) -> (r: bool)
        ensures
            r == self.spec_is_admin(*key),
    {
        self.is_admin(key)
    }

    /// Check whether an identity may perform critical actions
    /// (only the primary admin may).
    pub fn can_critical(&self, key: &AccountId) -> (r: bool)
        ensures
            r == (*key == self.primary_admin),
    {
        *key == self.primary_admin
    }
}

/// Global state of the one staking pool.
#[derive(Clone, Copy, PartialEq, Eq, Structural, Debug)]
pub struct GlobalPool {
    /// Admin authority that can modify pool settings.
    pub authority: AccountId,
    /// Reward units per second, scaled by `PRECISION`.
    pub reward_rate: u64,
    /// Total tokens currently staked: the sum of all users' `amount`.
    pub total_staked: u64,
    /// Sum of all users' weighted stakes.
    pub total_weight: u64,
    /// Number of users with a live stake.
    pub total_stakers: u64,
    /// Monotonic reward-per-weight accumulator, scaled by
    /// `ACCUMULATOR_SCALE`.
    pub reward_per_weight: u128,
    /// Last time the accumulator was settled.
    pub last_update_time: u64,
    /// Funds available in the reward custody location.
    pub reward_vault_balance: u64,
    /// Total rewards paid out over the pool's life.
    pub total_rewards_distributed: u64,
    /// Whether new stakes are paused.
    pub is_paused: bool,
    /// Emergency mode: instant unstake, rewards forfeited.
    pub emergency_mode: bool,
    /// Pool creation timestamp.
    pub created_at: u64,
}

/// Per-user stake record.
#[derive(Clone, Copy, PartialEq, Eq, Structural, Debug)]
pub struct UserStake {
    /// Owner of this stake.
    pub owner: AccountId,
    /// Principal currently staked.
    pub amount: u64,
    /// `amount` scaled by the multiplier in force when it was last fixed.
    pub weight: u64,
    /// When the user first staked (zeroed when the principal returns to 0).
    pub stake_start_time: u64,
    /// The pool accumulator value at the user's last settlement.
    pub reward_debt: u128,
    /// Settled but unclaimed rewards.
    pub pending_rewards: u64,
    /// Total rewards claimed over the stake's life.
    pub total_claimed: u64,
    /// Principal waiting out the unstake cooldown (0 when none).
    pub cooldown_amount: u64,
    /// When the cooldown ends (0 when none).
    pub cooldown_end: u64,
    /// Early-holder tier: 0 none, 1 silver, 2 gold, 3 diamond.
    pub early_holder_tier: u8,
}

impl UserStake {
    /// Structural invariant of a stake record: no more principal can sit in
    /// cooldown than is staked.
    pub open spec fn wf(&self) -> bool {
        self.cooldown_amount <= self.amount
    }

    /// The early-holder bonus multiplier (scale 100) of a tier.
    pub open spec fn spec_early_holder_bonus(tier: int) -> int {
        if tier == 3 {
            300
        } else if tier == 2 {
            200
        } else if tier == 1 {
            150
        } else {
            100
        }
    }

    /// The user's effective multiplier now: the time-tier multiplier,
    /// raised to the early-holder bonus where that is higher.
    pub fn get_multiplier(&self, current_time: u64) -> (r: u64)
        ensures
            r as int == crate::reward_math::spec_combined_multiplier(
                crate::reward_math::spec_multiplier_for_days(
                    (if current_time >= self.stake_start_time {
                        current_time - self.stake_start_time
                    } else {
                        0
                    }) / 86400,
                ),
                Self::spec_early_holder_bonus(self.early_holder_tier as int),
            ),
    {
        let days_staked = current_time.saturating_sub(self.stake_start_time) / 86400;

        let base_multiplier = crate::reward_math::calculate_multiplier(days_staked);

        let early_bonus: u64 = if self.early_holder_tier == 3 {
            300
        } else if self.early_holder_tier == 2 {
            200
        } else if self.early_holder_tier == 1 {
            150
        } else {
            100
        };

        if base_multiplier >= early_bonus {
            base_multiplier
        } else {
            early_bonus
        }
    }
}

/// Revenue vault and its distribution bookkeeping.
#[derive(Clone, Copy, PartialEq, Eq, Structural, Debug)]
pub struct FeeVault {
    /// Authority that can withdraw.
    pub authority: AccountId,
    /// Total fees collected.
    pub total_collected: u64,
    /// Total distributed to stakers.
    pub total_distributed: u64,
    /// Amount waiting to be distributed.
    pub pending_distribution: u64,
    /// Minimum pending balance that triggers a distribution.
    pub distribution_threshold: u64,
    /// Last distribution timestamp.
    pub last_distribution_time: u64,
}

impl FeeVault {
    /// Check whether the distribution threshold is met.
    pub fn should_distribute(&self) -> (r: bool)
        ensures
            r == (self.pending_distribution >= self.distribution_threshold),
    {
        self.pending_distribution >= self.distribution_threshold
    }
}

/// A linear vesting schedule with a cliff.
#[derive(Clone, Copy, PartialEq, Eq, Structural, Debug)]
pub struct VestingSchedule {
    /// Beneficiary of the vesting.
    pub beneficiary: AccountId,
    /// Total tokens to vest.
    pub total_amount: u64,
    /// Tokens already claimed.
    pub claimed_amount: u64,
    /// Vesting start time.
    pub start_time: i64,
    /// Cliff duration in seconds.
    pub cliff_duration: i64,
    /// Total vesting duration in seconds.
    pub total_duration: i64,
    /// Whether vesting has been revoked.
    pub revoked: bool,
    /// Whether vesting is active.
    pub is_active: bool,
}

impl VestingSchedule {
    /// Structural invariant: the cliff cannot be negative.
    pub open spec fn wf(&self) -> bool {
        0 <= self.cliff_duration
    }

    /// Tokens vested by `current_time`: nothing before the cliff,
    /// everything after the full duration, linear in between.
    pub open spec fn spec_vested_amount(&self, current_time: int) -> int {
        let elapsed = current_time - self.start_time;
        if !self.is_active || self.revoked {
            0
        } else if elapsed < self.cliff_duration {
            0
        } else if elapsed >= self.total_duration {
            self.total_amount as int
        } else {
            ((self.total_amount as int) * elapsed) / (self.total_duration as int)
        }
    }

    /// Calculate the currently vested amount.
    pub fn vested_amount(&self, current_time: i64) -> (r: u64)
        requires
            self.wf(),
            i64::MIN <= current_time - self.start_time <= i64::MAX,
        ensures
            r as int == self.spec_vested_amount(current_time as int),
    {
        if !self.is_active || self.revoked {
            return 0;
        }

        let elapsed = current_time - self.start_time;

        // Before the cliff, nothing is vested.
        if elapsed < self.cliff_duration {
            return 0;
        }

        // After the full duration, everything is vested.
        if elapsed >= self.total_duration {
            return self.total_amount;
        }

        // Linear vesting after the cliff.
        proof {
            let t = self.total_amount as int;
            let e = elapsed as int;
            let d = self.total_duration as int;
            vstd::arithmetic::mul::lemma_mul_upper_bound(t, u64::MAX as int, e, i64::MAX as int);
            if t > 0 {
                vstd::arithmetic::mul::lemma_mul_left_inequality(t, e, d);
            } else {
                vstd::arithmetic::mul::lemma_mul_by_zero_is_zero(e);
                vstd::arithmetic::mul::lemma_mul_by_zero_is_zero(d);
            }
            vstd::arithmetic::div_mod::lemma_div_is_ordered(t * e, t * d, d);
            vstd::arithmetic::mul::lemma_mul_is_commutative(t, d);
            vstd::arithmetic::div_mod::lemma_div_multiples_vanish(t, d);
        }
        ((self.total_amount as u128 * elapsed as u128) / self.total_duration as u128) as u64
    }

    /// Calculate the vested amount not yet claimed.
    pub fn claimable_amount(&self, current_time: i64) -> (r: u64)
        requires
            self.wf(),
            i64::MIN <= current_time - self.start_time <= i64::MAX,
        ensures
            r as int == if self.spec_vested_amount(current_time as int) >= self.claimed_amount as int {
                self.spec_vested_amount(current_time as int) - self.claimed_amount as int
            } else {
                0
            },
    {
        self.vested_amount(current_time).saturating_sub(self.claimed_amount)
    }
}

/// Governance voting-power record derived from a stake.
#[derive(Clone, Copy, PartialEq, Eq, Structural, Debug)]
pub struct GovernanceWrapper {
    /// Owner of the governance tokens.
    pub owner: AccountId,
    /// Voting power (equals the staked amount).
    pub voting_power: u64,
    /// Last time the voting power was updated.
    pub last_update: u64,
    /// Address the voting power is delegated to.
    pub delegated_to: AccountId,
}

impl GovernanceWrapper {
    /// Get the effective voting power.
    pub fn effective_voting_power(&self) -> (r: u64)
        ensures
            r == self.voting_power,
    {
        self.voting_power
    }
}

/// Approximate per-byte-year storage cost in lamports.
pub const LAMPORTS_PER_BYTE_YEAR: u64 = 19;

/// Rent-exempt minimum for a record of the given size: two years of rent
/// on the record plus its fixed header.
pub fn calculate_rent_exempt(space: usize) -> (r: u64)
    requires
        (space as int + 128) * (LAMPORTS_PER_BYTE_YEAR as int) * 2 <= u64::MAX,
    ensures
        r as int == (space as int + 128) * (LAMPORTS_PER_BYTE_YEAR as int) * 2,
{
    (space as u64 + 128) * LAMPORTS_PER_BYTE_YEAR * 2
}

/// `r` is the integer square root of `n`.
pub open spec fn spec_is_sqrt(n: int, r: int) -> bool {
    &&& 0 <= r
    &&& r * r <= n
    &&& n < (r + 1) * (r + 1)
}

/// Integer square root by Newton's method.
pub fn integer_sqrt(n: u64) -> (r: u64)
    requires
        n < u64::MAX,
    ensures
        spec_is_sqrt(n as int, r as int),
{
    if n == 0 {
        proof {
            vstd::arithmetic::mul::lemma_mul_basics(0);
            vstd::arithmetic::mul::lemma_mul_basics(1);
        }
        return 0;
    }

    let mut x: u64 = n;
    let mut y: u64 = (x + 1) / 2;

    proof {
        vstd::arithmetic::div_mod::lemma_div_by_self(n as int);
        assert(n < (n + 1) * (n + 1)) by (nonlinear_arith)
            requires
                n >= 1,
        ;
    }

    while y < x
        invariant
            1 <= n < u64::MAX,
            1 <= x <= n,
            x == n || 2 * x <= n + 1,
            n < (x + 1) * (x + 1),
            y == ((x + n / x) / 2) as u64,
        decreases x,
    {
        proof {
            // The next iterate stays at least the integer square root:
            // with d = n / x and m the remainder, ((x + d) / 2 + 1)^2 > n.
            let xi = x as int;
            let d = n as int / xi;
            let m = n as int % xi;
            let yi = (xi + d) / 2;
            vstd::arithmetic::div_mod::lemma_fundamental_div_mod(n as int, xi);
            vstd::arithmetic::div_mod::lemma_fundamental_div_mod(xi + d, 2);
            vstd::arithmetic::div_mod::lemma_div_pos_is_pos(n as int, xi);
            assert(n < (yi + 1) * (yi + 1)) by (nonlinear_arith)
                requires
                    1 <= xi,
                    0 <= d,
                    n as int == xi * d + m,
                    0 <= m < xi,
                    xi + d == 2 * yi + (xi + d) % 2,
                    0 <= (xi + d) % 2 < 2,
            ;
            // y >= 1, because x <= n makes n / x at least 1.
            vstd::arithmetic::div_mod::lemma_div_is_ordered(xi, n as int, xi);
            vstd::arithmetic::div_mod::lemma_div_by_self(xi);
        }
        x = y;
        proof {
            // n / x is at most x + 2, since n < (x + 1)^2.
            let xi = x as int;
            assert((xi + 1) * (xi + 1) == xi * xi + 2 * xi + 1) by (nonlinear_arith);
            vstd::arithmetic::mul::lemma_mul_is_distributive_add(xi, xi, 2);
            vstd::arithmetic::div_mod::lemma_div_is_ordered(n as int, xi * (xi + 2), xi);
            vstd::arithmetic::mul::lemma_mul_is_commutative(xi, xi + 2);
            vstd::arithmetic::div_mod::lemma_div_multiples_vanish(xi + 2, xi);
            // And when x is large, n / x is small: the sum fits in 64 bits.
            if x >= 0x1_0000_0000 {
                vstd::arithmetic::div_mod::lemma_div_is_ordered_by_denominator(
                    n as int,
                    0x1_0000_0000,
                    xi,
                );
            }
        }
        let q = n / x;
        y = (x + q) / 2;
    }

    proof {
        // At exit y >= x, and 2y is at most x + n/x, so x <= n/x and
        // therefore x * x <= n.
        let xi = x as int;
        let d = n as int / xi;
        vstd::arithmetic::div_mod::lemma_fundamental_div_mod(n as int, xi);
        vstd::arithmetic::div_mod::lemma_fundamental_div_mod(xi + d, 2);
        assert(xi <= d);
        vstd::arithmetic::mul::lemma_mul_left_inequality(xi, xi, d);
        vstd::arithmetic::mul::lemma_mul_nonnegative(xi, d);
        assert(xi * d <= n as int);
    }

    x
}

/// Reward distribution configuration.
#[derive(Clone, Copy, PartialEq, Eq, Structural, Debug)]
pub struct RewardConfig {
    /// Base reward rate (reward units per second per staked token).
    pub base_reward_rate: u64,
    /// Minimum APY floor, in basis points.
    pub min_apy_bps: u64,
    /// Maximum APY ceiling, in basis points.
    pub max_apy_bps: u64,
    /// Target total value staked for the dynamic APY calculation.
    pub target_tvl: u64,
    /// Last reward distribution timestamp.
    pub last_distribution_time: u64,
    /// Total funds in the reward pool.
    pub reward_pool_balance: u64,
    /// Staker share of revenue, in basis points.
    pub staker_share_bps: u64,
    /// Treasury share of revenue, in basis points.
    pub treasury_share_bps: u64,
    /// Operations share of revenue, in basis points.
    pub operations_share_bps: u64,
}

/// Clamp `v` into `[lo, hi]`, with `hi` winning when the bounds cross.
pub open spec fn spec_clamp(v: int, lo: int, hi: int) -> int {
    let raised = if v >= lo {
        v
    } else {
        lo
    };
    if raised <= hi {
        raised
    } else {
        hi
    }
}

impl RewardConfig {
    /// Dynamic APY in basis points:
    /// `5000 * sqrt(target_tvl * 1e6 / current_tvl) / 1000`, clamped into
    /// `[min_apy_bps, max_apy_bps]`; the ceiling alone when either side of
    /// the ratio is zero.
    pub fn calculate_dynamic_apy(&self, current_tvl: u64) -> (r: u64)
        requires
            current_tvl > 0 ==> (self.target_tvl as int) * 1_000_000 / (current_tvl as int)
                < u64::MAX,
        ensures
            current_tvl == 0 || self.target_tvl == 0 ==> r == self.max_apy_bps,
            current_tvl > 0 && self.target_tvl > 0 ==> exists|s: int|
                {
                    &&& #[trigger] spec_is_sqrt(
                        (self.target_tvl as int) * 1_000_000 / (current_tvl as int),
                        s,
                    )
                    &&& r as int == spec_clamp(
                        5000 * s / 1000,
                        self.min_apy_bps as int,
                        self.max_apy_bps as int,
                    )
                },
    {
        if current_tvl == 0 || self.target_tvl == 0 {
            return self.max_apy_bps;
        }

        // Ratio of target to current TVL, in fixed-point (scale 1e6).
        let ratio = (self.target_tvl as u128 * 1_000_000) / current_tvl as u128;
        let sqrt_ratio = integer_sqrt(ratio as u64);

        proof {
            // The square root of a 64-bit value fits well below 2^32.
            let s = sqrt_ratio as int;
            assert(s < 0x1_0000_0000) by (nonlinear_arith)
                requires
                    0 <= s,
                    s * s <= ratio as int,
                    (ratio as int) < u64::MAX,
            ;
        }

        let base_apy: u64 = 5000;
        let dynamic_apy = (base_apy as u128 * sqrt_ratio as u128 / 1000) as u64;

        // Clamp to the configured floor and ceiling.
        let raised = if dynamic_apy >= self.min_apy_bps {
            dynamic_apy
        } else {
            self.min_apy_bps
        };
        if raised <= self.max_apy_bps {
            raised
        } else {
            self.max_apy_bps
        }
    }
}

} // verus!
