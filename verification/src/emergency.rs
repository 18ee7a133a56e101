//! Emergency controls: graded pause levels, instant-unstake emergency
//! mode, admin fund recovery, a gradual wind-down, and a multisig
//! proposal/approval workflow for critical actions.

use vstd::prelude::*;
use crate::state::AccountId;
use crate::state::AdminAuthority;
use crate::state::FeeVault;
use crate::state::GlobalPool;
use crate::state::UserStake;

verus! {

/// Emergency severity levels.
#[derive(Clone, Copy, PartialEq, Eq, Structural, Debug)]
pub enum EmergencyLevel {
    /// Normal operation.
    Normal,
    /// Pause new stakes only; existing stakes keep earning.
    PauseNewStakes,
    /// Pause all operations except emergency unstake.
    PauseAll,
    /// Emergency mode: instant unstake, rewards forfeited.
    EmergencyUnstake,
    /// Full shutdown: admin-controlled fund recovery.
    FullShutdown,
}

impl Default for EmergencyLevel {
    fn default() -> (r: Self)
        ensures
            r == EmergencyLevel::Normal,
    {
        EmergencyLevel::Normal
    }
}

/// The kinds of emergency action.
#[derive(Clone, Copy, PartialEq, Eq, Structural, Debug)]
pub enum EmergencyAction {
    PauseNewStakes,
    PauseAll,
    Resume,
    EnableEmergencyMode,
    EmergencyUnstake,
    AdminWithdraw,
    GradualShutdown,
    Propose,
    Approve,
    Execute,
}

/// Notification of an emergency action, for external observers.
#[derive(Clone, Copy, PartialEq, Eq, Structural, Debug)]
pub struct EmergencyEvent {
    pub action: EmergencyAction,
    pub admin: AccountId,
    pub timestamp: u64,
}

/// Errors of the emergency workflow.
#[derive(Clone, Copy, PartialEq, Eq, Structural, Debug)]
pub enum EmergencyError {
    /// The caller may not perform this emergency action.
    Unauthorized,
    /// Staking is currently paused.
    StakingPaused,
    /// The system is in emergency mode.
    InEmergencyMode,
    /// The system is not in emergency mode.
    NotInEmergencyMode,
    /// The action was already executed.
    AlreadyExecuted,
    /// The proposal has expired.
    ActionExpired,
    /// This identity already approved the action.
    AlreadyApproved,
    /// Not enough approvals to execute.
    InsufficientApprovals,
}

/// Pause new stakes; existing stakes keep earning (any admin).
pub fn pause_new_stakes(
    global_pool: &mut GlobalPool,
    admin: &AdminAuthority,
    signer: AccountId,
    now: u64,
) -> (r: Result<EmergencyEvent, EmergencyError>)
    ensures
        !admin.spec_is_admin(signer) ==> r == Err::<EmergencyEvent, EmergencyError>(
            EmergencyError::Unauthorized,
        ) && *final(global_pool) == *old(global_pool),
        admin.spec_is_admin(signer) ==> {
            &&& *final(global_pool) == (GlobalPool { is_paused: true, ..*old(global_pool) })
            &&& r == Ok::<EmergencyEvent, EmergencyError>(
                EmergencyEvent {
                    action: EmergencyAction::PauseNewStakes,
                    admin: signer,
                    timestamp: now,
                },
            )
        },
{
    match validate_emergency_authority(admin, signer) {
        Ok(()) => (),
        Err(e) => {
            return Err(e);
        },
    }

    global_pool.is_paused = true;

    Ok(EmergencyEvent { action: EmergencyAction::PauseNewStakes, admin: signer, timestamp: now })
}

/// Resume normal operations (primary admin only).
pub fn unpause(
    global_pool: &mut GlobalPool,
    admin: &AdminAuthority,
    signer: AccountId,
    now: u64,
) -> (r: Result<EmergencyEvent, EmergencyError>)
    ensures
        signer != admin.primary_admin ==> r == Err::<EmergencyEvent, EmergencyError>(
            EmergencyError::Unauthorized,
        ) && *final(global_pool) == *old(global_pool),
        signer == admin.primary_admin ==> {
            &&& *final(global_pool) == (GlobalPool {
                is_paused: false,
                emergency_mode: false,
                ..*old(global_pool)
            })
            &&& r == Ok::<EmergencyEvent, EmergencyError>(
                EmergencyEvent { action: EmergencyAction::Resume, admin: signer, timestamp: now },
            )
        },
{
    match validate_critical_authority(admin, signer) {
        Ok(()) => (),
        Err(e) => {
            return Err(e);
        },
    }

    global_pool.is_paused = false;
    global_pool.emergency_mode = false;

    Ok(EmergencyEvent { action: EmergencyAction::Resume, admin: signer, timestamp: now })
}

/// Enable emergency mode: instant unstake without cooldown, rewards
/// forfeited (any admin).
pub fn enable_emergency_mode(
    global_pool: &mut GlobalPool,
    admin: &AdminAuthority,
    signer: AccountId,
    now: u64,
) -> (r: Result<EmergencyEvent, EmergencyError>)
    ensures
        !admin.spec_is_admin(signer) ==> r == Err::<EmergencyEvent, EmergencyError>(
            EmergencyError::Unauthorized,
        ) && *final(global_pool) == *old(global_pool),
        admin.spec_is_admin(signer) ==> {
            &&& *final(global_pool) == (GlobalPool {
                is_paused: true,
                emergency_mode: true,
                ..*old(global_pool)
            })
            &&& r == Ok::<EmergencyEvent, EmergencyError>(
                EmergencyEvent {
                    action: EmergencyAction::EnableEmergencyMode,
                    admin: signer,
                    timestamp: now,
                },
            )
        },
{
    match validate_emergency_authority(admin, signer) {
        Ok(()) => (),
        Err(e) => {
            return Err(e);
        },
    }

    global_pool.is_paused = true;
    global_pool.emergency_mode = true;

    Ok(
        EmergencyEvent {
            action: EmergencyAction::EnableEmergencyMode,
            admin: signer,
            timestamp: now,
        },
    )
}

/// Withdraw a user's whole principal instantly, forfeiting all pending
/// rewards.  Only valid in emergency mode; no settlement is performed.
///
/// Returns the principal to hand back to the user.  The host transfers it
/// only after this returns `Ok`.
pub fn emergency_unstake(
    global_pool: &mut GlobalPool,
    user_stake: &mut UserStake,
    user: AccountId,
) -> (r: Result<u64, EmergencyError>)
    ensures
        r is Err ==> *final(global_pool) == *old(global_pool) && *final(user_stake) == *old(
            user_stake,
        ),
        !old(global_pool).emergency_mode ==> r == Err::<u64, EmergencyError>(
            EmergencyError::NotInEmergencyMode,
        ),
        old(global_pool).emergency_mode && old(user_stake).owner != user ==> r == Err::<
            u64,
            EmergencyError,
        >(EmergencyError::Unauthorized),
        old(global_pool).emergency_mode && old(user_stake).owner == user ==> {
            &&& r == Ok::<u64, EmergencyError>(old(user_stake).amount)
            &&& *final(user_stake) == (UserStake {
                amount: 0,
                weight: 0,
                pending_rewards: 0,
                cooldown_amount: 0,
                cooldown_end: 0,
                ..*old(user_stake)
            })
            &&& *final(global_pool) == (GlobalPool {
                total_staked: if old(global_pool).total_staked >= old(user_stake).amount {
                    (old(global_pool).total_staked - old(user_stake).amount) as u64
                } else {
                    0
                },
                total_weight: if old(global_pool).total_weight >= old(user_stake).weight {
                    (old(global_pool).total_weight - old(user_stake).weight) as u64
                } else {
                    0
                },
                total_stakers: if old(global_pool).total_stakers > 0 {
                    (old(global_pool).total_stakers - 1) as u64
                } else {
                    0
                },
                ..*old(global_pool)
            })
            &&& final(user_stake).wf()
        },
{
    if !global_pool.emergency_mode {
        return Err(EmergencyError::NotInEmergencyMode);
    }
    if user_stake.owner != user {
        return Err(EmergencyError::Unauthorized);
    }

    let amount = user_stake.amount;
    let weight = user_stake.weight;

    // Reset the stake; pending rewards are forfeited in an emergency.
    user_stake.amount = 0;
    user_stake.weight = 0;
    user_stake.pending_rewards = 0;
    user_stake.cooldown_amount = 0;
    user_stake.cooldown_end = 0;

    global_pool.total_staked = global_pool.total_staked.saturating_sub(amount);
    global_pool.total_weight = global_pool.total_weight.saturating_sub(weight);
    global_pool.total_stakers = global_pool.total_stakers.saturating_sub(1);

    Ok(amount)
}

/// Zero the pool totals and the vault's pending distribution and hand both
/// aggregate amounts to the caller for an external transfer (primary
/// admin, and only under a full shutdown: emergency mode plus pause).
pub fn admin_emergency_withdraw(
    global_pool: &mut GlobalPool,
    fee_vault: &mut FeeVault,
    admin: &AdminAuthority,
    signer: AccountId,
) -> (r: Result<(u64, u64), EmergencyError>)
    ensures
        r is Err ==> *final(global_pool) == *old(global_pool) && *final(fee_vault) == *old(
            fee_vault,
        ),
        signer != admin.primary_admin ==> r == Err::<(u64, u64), EmergencyError>(
            EmergencyError::Unauthorized,
        ),
        signer == admin.primary_admin && !(old(global_pool).emergency_mode && old(
            global_pool,
        ).is_paused) ==> r == Err::<(u64, u64), EmergencyError>(EmergencyError::NotInEmergencyMode),
        signer == admin.primary_admin && old(global_pool).emergency_mode && old(
            global_pool,
        ).is_paused ==> {
            &&& r == Ok::<(u64, u64), EmergencyError>(
                (old(global_pool).total_staked, old(fee_vault).pending_distribution),
            )
            &&& *final(global_pool) == (GlobalPool {
                total_staked: 0,
                total_weight: 0,
                total_stakers: 0,
                ..*old(global_pool)
            })
            &&& *final(fee_vault) == (FeeVault { pending_distribution: 0, ..*old(fee_vault) })
        },
{
    match validate_critical_authority(admin, signer) {
        Ok(()) => (),
        Err(e) => {
            return Err(e);
        },
    }

    if !(global_pool.emergency_mode && global_pool.is_paused) {
        return Err(EmergencyError::NotInEmergencyMode);
    }

    let staked_amount = global_pool.total_staked;
    let vault_balance = fee_vault.pending_distribution;

    global_pool.total_staked = 0;
    global_pool.total_weight = 0;
    global_pool.total_stakers = 0;
    fee_vault.pending_distribution = 0;

    Ok((staked_amount, vault_balance))
}

/// Gradual wind-down state.
#[derive(Debug)]
pub struct GradualShutdown {
    pub initiated_at: u64,
    /// When the full shutdown happens.
    pub shutdown_at: u64,
    pub allow_new_stakes: bool,
    pub allow_unstakes: bool,
    pub allow_claims: bool,
    pub reason: String,
}

/// Length of the gradual wind-down (7 days).
pub const GRADUAL_SHUTDOWN_DURATION: u64 = 7 * 24 * 60 * 60;

/// Start the gradual wind-down (primary admin only): new stakes stop at
/// once, unstakes and claims stay open for seven days, after which the
/// admin may reclaim remaining funds.
pub fn initiate_gradual_shutdown(
    global_pool: &mut GlobalPool,
    shutdown: &mut GradualShutdown,
    admin: &AdminAuthority,
    signer: AccountId,
    reason: String,
    now: u64,
) -> (r: Result<(), EmergencyError>)
    requires
        now + GRADUAL_SHUTDOWN_DURATION <= u64::MAX,
    ensures
        r is Err ==> *final(global_pool) == *old(global_pool),
        signer != admin.primary_admin ==> r == Err::<(), EmergencyError>(
            EmergencyError::Unauthorized,
        ) && *final(shutdown) == *old(shutdown),
        signer == admin.primary_admin ==> {
            &&& r == Ok::<(), EmergencyError>(())
            &&& *final(global_pool) == (GlobalPool { is_paused: true, ..*old(global_pool) })
            &&& final(shutdown).initiated_at == now
            &&& final(shutdown).shutdown_at == now + GRADUAL_SHUTDOWN_DURATION
            &&& !final(shutdown).allow_new_stakes
            &&& final(shutdown).allow_unstakes
            &&& final(shutdown).allow_claims
            &&& final(shutdown).reason@ == reason@
        },
{
    match validate_critical_authority(admin, signer) {
        Ok(()) => (),
        Err(e) => {
            return Err(e);
        },
    }

    shutdown.initiated_at = now;
    shutdown.shutdown_at = now + GRADUAL_SHUTDOWN_DURATION;
    shutdown.allow_new_stakes = false;
    shutdown.allow_unstakes = true;
    shutdown.allow_claims = true;
    shutdown.reason = reason;

    global_pool.is_paused = true;

    Ok(())
}

/// Check whether staking is allowed right now.
pub fn require_staking_allowed(global_pool: &GlobalPool) -> (r: Result<(), EmergencyError>)
    ensures
        global_pool.is_paused ==> r == Err::<(), EmergencyError>(EmergencyError::StakingPaused),
        !global_pool.is_paused && global_pool.emergency_mode ==> r == Err::<(), EmergencyError>(
            EmergencyError::InEmergencyMode,
        ),
        !global_pool.is_paused && !global_pool.emergency_mode ==> r == Ok::<(), EmergencyError>(()),
{
    if global_pool.is_paused {
        return Err(EmergencyError::StakingPaused);
    }
    if global_pool.emergency_mode {
        return Err(EmergencyError::InEmergencyMode);
    }
    Ok(())
}

/// Check whether unstaking is allowed: it always is, though the rules
/// differ in emergency mode.
pub fn require_unstaking_allowed(global_pool: &GlobalPool) -> (r: Result<(), EmergencyError>)
    ensures
        r == Ok::<(), EmergencyError>(()),
{
    Ok(())
}

/// Check whether claiming is allowed right now.
pub fn require_claiming_allowed(global_pool: &GlobalPool) -> (r: Result<(), EmergencyError>)
    ensures
        global_pool.emergency_mode ==> r == Err::<(), EmergencyError>(
            EmergencyError::InEmergencyMode,
        ),
        !global_pool.emergency_mode ==> r == Ok::<(), EmergencyError>(()),
{
    if global_pool.emergency_mode {
        return Err(EmergencyError::InEmergencyMode);
    }
    Ok(())
}

/// Any admin may take emergency actions.
fn validate_emergency_authority(admin: &AdminAuthority, signer: AccountId) -> (r: Result<
    (),
    EmergencyError,
>)
    ensures
        admin.spec_is_admin(signer) <==> r == Ok::<(), EmergencyError>(()),
        !admin.spec_is_admin(signer) <==> r == Err::<(), EmergencyError>(
            EmergencyError::Unauthorized,
        ),
{
    if admin.can_emergency(&signer) {
        Ok(())
    } else {
        Err(EmergencyError::Unauthorized)
    }
}

/// Only the primary admin may take critical actions.
fn validate_critical_authority(admin: &AdminAuthority, signer: AccountId) -> (r: Result<
    (),
    EmergencyError,
>)
    ensures
        (signer == admin.primary_admin) <==> r == Ok::<(), EmergencyError>(()),
        (signer != admin.primary_admin) <==> r == Err::<(), EmergencyError>(
            EmergencyError::Unauthorized,
        ),
{
    if admin.can_critical(&signer) {
        Ok(())
    } else {
        Err(EmergencyError::Unauthorized)
    }
}

/// A critical action waiting for multisig approval.
#[derive(Debug)]
pub struct PendingEmergencyAction {
    pub action: EmergencyAction,
    pub proposer: AccountId,
    pub proposed_at: u64,
    pub expires_at: u64,
    /// Identities that approved, each at most once.
    pub approvals: Vec<AccountId>,
    pub required_approvals: u8,
    pub executed: bool,
}

/// Lifetime of a proposal before it expires (48 hours).
pub const PROPOSAL_LIFETIME: u64 = 48 * 60 * 60;

impl PendingEmergencyAction {
    /// Structural invariant: approvers are unique, and an executed action
    /// really had enough of them.
    pub open spec fn wf(&self) -> bool {
        &&& (forall|i: int, j: int|
            0 <= i < j < self.approvals@.len() ==> self.approvals@[i] != self.approvals@[j])
        &&& (self.executed ==> self.approvals@.len() >= self.required_approvals as int)
    }

    /// Whether the approval threshold is met.
    pub fn is_approved(&self) -> (r: bool)
        ensures
            r == (self.approvals@.len() >= self.required_approvals as int),
    {
        self.approvals.len() >= self.required_approvals as usize
    }

    /// Whether `key` already approved this action.
    pub fn has_approved(&self, key: &AccountId) -> (r: bool)
        ensures
            r == self.approvals@.contains(*key),
    {
        let mut i: usize = 0;
        while i < self.approvals.len()
            invariant
                0 <= i <= self.approvals@.len(),
                forall|j: int| 0 <= j < i ==> self.approvals@[j] != *key,
            decreases self.approvals@.len() - i,
        {
            if self.approvals[i] == *key {
                assert(self.approvals@.contains(*key)) by {
                    assert(self.approvals@[i as int] == *key);
                }
                return true;
            }
            i += 1;
        }
        false
    }
}

/// Propose an emergency action: the proposer approves automatically, and
/// the proposal expires 48 hours out.  Any admin may propose.
pub fn propose_emergency_action(
    pending: &mut PendingEmergencyAction,
    admin: &AdminAuthority,
    signer: AccountId,
    action: EmergencyAction,
    now: u64,
) -> (r: Result<(), EmergencyError>)
    requires
        now + PROPOSAL_LIFETIME <= u64::MAX,
    ensures
        !admin.spec_is_admin(signer) ==> r == Err::<(), EmergencyError>(
            EmergencyError::Unauthorized,
        ) && *final(pending) == *old(pending),
        admin.spec_is_admin(signer) ==> {
            &&& r == Ok::<(), EmergencyError>(())
            &&& final(pending).action == action
            &&& final(pending).proposer == signer
            &&& final(pending).proposed_at == now
            &&& final(pending).expires_at == now + PROPOSAL_LIFETIME
            &&& final(pending).approvals@ == seq![signer]
            &&& final(pending).required_approvals == admin.required_signatures
            &&& !final(pending).executed
            &&& final(pending).wf()
        },
{
    if !admin.is_admin(&signer) {
        return Err(EmergencyError::Unauthorized);
    }

    pending.action = action;
    pending.proposer = signer;
    pending.proposed_at = now;
    pending.expires_at = now + PROPOSAL_LIFETIME;
    pending.approvals = vec![signer];  // The proposer auto-approves.
    pending.required_approvals = admin.required_signatures;
    pending.executed = false;

    proof {
        assert(pending.approvals@ =~= seq![signer]);
    }

    Ok(())
}

/// Approve a pending emergency action and report whether the threshold is
/// now met.
///
/// An approval is rejected when the caller is no admin, when the action
/// was already executed or has expired, and when the caller has already
/// approved: the same identity can never count twice.
pub fn approve_emergency_action(
    pending: &mut PendingEmergencyAction,
    admin: &AdminAuthority,
    signer: AccountId,
    now: u64,
) -> (r: Result<bool, EmergencyError>)
    requires
        old(pending).wf(),
    ensures
        r is Err ==> *final(pending) == *old(pending),
        !admin.spec_is_admin(signer) ==> r == Err::<bool, EmergencyError>(
            EmergencyError::Unauthorized,
        ),
        admin.spec_is_admin(signer) && old(pending).executed ==> r == Err::<bool, EmergencyError>(
            EmergencyError::AlreadyExecuted,
        ),
        admin.spec_is_admin(signer) && !old(pending).executed && now >= old(pending).expires_at
            ==> r == Err::<bool, EmergencyError>(EmergencyError::ActionExpired),
        admin.spec_is_admin(signer) && !old(pending).executed && now < old(pending).expires_at
            && old(pending).approvals@.contains(signer) ==> r == Err::<bool, EmergencyError>(
            EmergencyError::AlreadyApproved,
        ),
        r is Ok <==> {
            &&& admin.spec_is_admin(signer)
            &&& !old(pending).executed
            &&& now < old(pending).expires_at
            &&& !old(pending).approvals@.contains(signer)
        },
        r matches Ok(met) ==> {
            &&& admin.spec_is_admin(signer)
            &&& !old(pending).executed
            &&& now < old(pending).expires_at
            &&& !old(pending).approvals@.contains(signer)
            &&& final(pending).approvals@ == old(pending).approvals@.push(signer)
            &&& met == (old(pending).approvals@.len() + 1 >= old(pending).required_approvals as int)
            &&& final(pending).action == old(pending).action
            &&& final(pending).proposer == old(pending).proposer
            &&& final(pending).proposed_at == old(pending).proposed_at
            &&& final(pending).expires_at == old(pending).expires_at
            &&& final(pending).required_approvals == old(pending).required_approvals
            &&& final(pending).executed == old(pending).executed
            &&& final(pending).wf()
        },
{
    if !admin.is_admin(&signer) {
        return Err(EmergencyError::Unauthorized);
    }
    if pending.executed {
        return Err(EmergencyError::AlreadyExecuted);
    }
    if now >= pending.expires_at {
        return Err(EmergencyError::ActionExpired);
    }
    if pending.has_approved(&signer) {
        return Err(EmergencyError::AlreadyApproved);
    }

    pending.approvals.push(signer);

    Ok(pending.is_approved())
}

/// Execute an approved emergency action: marks it executed, exactly once.
///
/// Fails with `InsufficientApprovals` while the approval count is below
/// the required threshold; at the threshold it succeeds.
pub fn execute_emergency_action(
    pending: &mut PendingEmergencyAction,
    admin: &AdminAuthority,
    signer: AccountId,
    now: u64,
) -> (r: Result<(), EmergencyError>)
    requires
        old(pending).wf(),
    ensures
        r is Err ==> *final(pending) == *old(pending),
        !admin.spec_is_admin(signer) ==> r == Err::<(), EmergencyError>(
            EmergencyError::Unauthorized,
        ),
        admin.spec_is_admin(signer) && old(pending).executed ==> r == Err::<(), EmergencyError>(
            EmergencyError::AlreadyExecuted,
        ),
        admin.spec_is_admin(signer) && !old(pending).executed && now >= old(pending).expires_at
            ==> r == Err::<(), EmergencyError>(EmergencyError::ActionExpired),
        admin.spec_is_admin(signer) && !old(pending).executed && now < old(pending).expires_at
            && old(pending).approvals@.len() < old(pending).required_approvals as int ==> r
            == Err::<(), EmergencyError>(EmergencyError::InsufficientApprovals),
        r is Ok <==> {
            &&& admin.spec_is_admin(signer)
            &&& !old(pending).executed
            &&& now < old(pending).expires_at
            &&& old(pending).approvals@.len() >= old(pending).required_approvals as int
        },
        r is Ok ==> {
            &&& final(pending).executed
            &&& final(pending).approvals@ == old(pending).approvals@
            &&& final(pending).action == old(pending).action
            &&& final(pending).proposer == old(pending).proposer
            &&& final(pending).proposed_at == old(pending).proposed_at
            &&& final(pending).expires_at == old(pending).expires_at
            &&& final(pending).required_approvals == old(pending).required_approvals
            &&& final(pending).wf()
        },
{
    if !admin.is_admin(&signer) {
        return Err(EmergencyError::Unauthorized);
    }
    if pending.executed {
        return Err(EmergencyError::AlreadyExecuted);
    }
    if now >= pending.expires_at {
        return Err(EmergencyError::ActionExpired);
    }
    if !pending.is_approved() {
        return Err(EmergencyError::InsufficientApprovals);
    }

    pending.executed = true;

    Ok(())
}

} // verus!
