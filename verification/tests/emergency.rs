use staking::emergency::admin_emergency_withdraw;
use staking::emergency::approve_emergency_action;
use staking::emergency::emergency_unstake;
use staking::emergency::enable_emergency_mode;
use staking::emergency::execute_emergency_action;
use staking::emergency::initiate_gradual_shutdown;
use staking::emergency::pause_new_stakes;
use staking::emergency::propose_emergency_action;
use staking::emergency::require_claiming_allowed;
use staking::emergency::require_staking_allowed;
use staking::emergency::require_unstaking_allowed;
use staking::emergency::unpause;
use staking::emergency::EmergencyAction;
use staking::emergency::EmergencyError;
use staking::emergency::EmergencyLevel;
use staking::emergency::GradualShutdown;
use staking::emergency::PendingEmergencyAction;
use staking::emergency::GRADUAL_SHUTDOWN_DURATION;
use staking::emergency::PROPOSAL_LIFETIME;
use staking::lifecycle::initialize_pool;
use staking::lifecycle::new_user_stake;
use staking::lifecycle::stake;
use staking::state::AccountId;
use staking::state::AdminAuthority;
use staking::state::FeeVault;

const PRIMARY: AccountId = AccountId { value: 1 };
const SECONDARY: AccountId = AccountId { value: 2 };
const EMERGENCY: AccountId = AccountId { value: 3 };
const ALICE: AccountId = AccountId { value: 10 };
const MALLORY: AccountId = AccountId { value: 666 };

fn admins() -> AdminAuthority {
    AdminAuthority {
        primary_admin: PRIMARY,
        secondary_admin: SECONDARY,
        emergency_admin: EMERGENCY,
        required_signatures: 2,
        multisig_enabled: true,
        last_action_time: 0,
    }
}

fn fresh_pending() -> PendingEmergencyAction {
    PendingEmergencyAction {
        action: EmergencyAction::PauseAll,
        proposer: PRIMARY,
        proposed_at: 0,
        expires_at: 0,
        approvals: Vec::new(),
        required_approvals: 0,
        executed: false,
    }
}

#[test]
fn test_emergency_level_default() {
    assert_eq!(EmergencyLevel::default(), EmergencyLevel::Normal);
}

#[test]
fn test_pause_and_unpause_authority() {
    let admin = admins();
    let mut pool = initialize_pool(PRIMARY, 0, 0);

    assert_eq!(
        pause_new_stakes(&mut pool, &admin, MALLORY, 5).unwrap_err(),
        EmergencyError::Unauthorized
    );
    assert!(!pool.is_paused);

    // The emergency admin may pause...
    let event = pause_new_stakes(&mut pool, &admin, EMERGENCY, 5).unwrap();
    assert_eq!(event.action, EmergencyAction::PauseNewStakes);
    assert!(pool.is_paused);

    // ...but only the primary admin may resume.
    assert_eq!(
        unpause(&mut pool, &admin, EMERGENCY, 6).unwrap_err(),
        EmergencyError::Unauthorized
    );
    unpause(&mut pool, &admin, PRIMARY, 6).unwrap();
    assert!(!pool.is_paused);
    assert!(!pool.emergency_mode);
}

#[test]
fn test_emergency_unstake_gating() {
    let admin = admins();
    let mut pool = initialize_pool(PRIMARY, 0, 0);
    let mut user = new_user_stake(ALICE);
    stake(&mut pool, &mut user, ALICE, 1_000, 0).unwrap();
    user.pending_rewards = 77;

    // Outside emergency mode the instant exit is rejected.
    assert_eq!(
        emergency_unstake(&mut pool, &mut user, ALICE).unwrap_err(),
        EmergencyError::NotInEmergencyMode
    );
    assert_eq!(user.amount, 1_000);

    enable_emergency_mode(&mut pool, &admin, EMERGENCY, 1).unwrap();
    assert!(pool.emergency_mode);
    assert!(pool.is_paused);

    // Only the owner may pull the stake.
    assert_eq!(
        emergency_unstake(&mut pool, &mut user, MALLORY).unwrap_err(),
        EmergencyError::Unauthorized
    );

    // Inside emergency mode: principal returned, rewards forfeited,
    // pool totals reduced.
    let returned = emergency_unstake(&mut pool, &mut user, ALICE).unwrap();
    assert_eq!(returned, 1_000);
    assert_eq!(user.amount, 0);
    assert_eq!(user.weight, 0);
    assert_eq!(user.pending_rewards, 0);
    assert_eq!(pool.total_staked, 0);
    assert_eq!(pool.total_weight, 0);
    assert_eq!(pool.total_stakers, 0);
}

#[test]
fn test_admin_emergency_withdraw() {
    let admin = admins();
    let mut pool = initialize_pool(PRIMARY, 0, 0);
    let mut user = new_user_stake(ALICE);
    stake(&mut pool, &mut user, ALICE, 5_000, 0).unwrap();
    let mut vault = FeeVault {
        authority: PRIMARY,
        total_collected: 900,
        total_distributed: 100,
        pending_distribution: 800,
        distribution_threshold: 10,
        last_distribution_time: 0,
    };

    assert_eq!(
        admin_emergency_withdraw(&mut pool, &mut vault, &admin, SECONDARY).unwrap_err(),
        EmergencyError::Unauthorized
    );

    // Requires the full-shutdown posture: emergency mode plus pause.
    assert_eq!(
        admin_emergency_withdraw(&mut pool, &mut vault, &admin, PRIMARY).unwrap_err(),
        EmergencyError::NotInEmergencyMode
    );

    enable_emergency_mode(&mut pool, &admin, PRIMARY, 1).unwrap();
    let (staked, pending) = admin_emergency_withdraw(&mut pool, &mut vault, &admin, PRIMARY).unwrap();
    assert_eq!(staked, 5_000);
    assert_eq!(pending, 800);
    assert_eq!(pool.total_staked, 0);
    assert_eq!(pool.total_weight, 0);
    assert_eq!(vault.pending_distribution, 0);
}

#[test]
fn test_multisig_threshold() {
    let admin = admins();
    let mut pending = fresh_pending();

    assert_eq!(
        propose_emergency_action(&mut pending, &admin, MALLORY, EmergencyAction::Resume, 100)
            .unwrap_err(),
        EmergencyError::Unauthorized
    );

    // The proposer auto-approves: one of two required approvals.
    propose_emergency_action(&mut pending, &admin, PRIMARY, EmergencyAction::Resume, 100).unwrap();
    assert_eq!(pending.proposer, PRIMARY);
    assert_eq!(pending.expires_at, 100 + PROPOSAL_LIFETIME);
    assert_eq!(pending.approvals.len(), 1);
    assert!(!pending.is_approved());
    assert!(pending.has_approved(&PRIMARY));
    assert!(!pending.has_approved(&SECONDARY));

    // Below the threshold, execution is rejected.
    assert_eq!(
        execute_emergency_action(&mut pending, &admin, PRIMARY, 200).unwrap_err(),
        EmergencyError::InsufficientApprovals
    );
    assert!(!pending.executed);

    // The same identity can never approve twice.
    assert_eq!(
        approve_emergency_action(&mut pending, &admin, PRIMARY, 200).unwrap_err(),
        EmergencyError::AlreadyApproved
    );
    assert_eq!(pending.approvals.len(), 1);

    // A second admin reaches the threshold exactly.
    let met = approve_emergency_action(&mut pending, &admin, SECONDARY, 200).unwrap();
    assert!(met);
    assert!(pending.is_approved());

    // At the threshold execution succeeds, once.
    execute_emergency_action(&mut pending, &admin, PRIMARY, 300).unwrap();
    assert!(pending.executed);
    assert_eq!(
        execute_emergency_action(&mut pending, &admin, PRIMARY, 300).unwrap_err(),
        EmergencyError::AlreadyExecuted
    );
    assert_eq!(
        approve_emergency_action(&mut pending, &admin, EMERGENCY, 300).unwrap_err(),
        EmergencyError::AlreadyExecuted
    );
}

#[test]
fn test_multisig_expiry() {
    let admin = admins();
    let mut pending = fresh_pending();
    propose_emergency_action(&mut pending, &admin, PRIMARY, EmergencyAction::AdminWithdraw, 0)
        .unwrap();

    // At the expiry instant the proposal is dead for approvals and
    // execution alike.
    assert_eq!(
        approve_emergency_action(&mut pending, &admin, SECONDARY, PROPOSAL_LIFETIME).unwrap_err(),
        EmergencyError::ActionExpired
    );
    assert_eq!(
        execute_emergency_action(&mut pending, &admin, PRIMARY, PROPOSAL_LIFETIME).unwrap_err(),
        EmergencyError::ActionExpired
    );

    // Just before expiry it is still alive.
    let met =
        approve_emergency_action(&mut pending, &admin, SECONDARY, PROPOSAL_LIFETIME - 1).unwrap();
    assert!(met);
}

#[test]
fn test_gradual_shutdown() {
    let admin = admins();
    let mut pool = initialize_pool(PRIMARY, 0, 0);
    let mut shutdown = GradualShutdown {
        initiated_at: 0,
        shutdown_at: 0,
        allow_new_stakes: true,
        allow_unstakes: false,
        allow_claims: false,
        reason: String::new(),
    };

    assert_eq!(
        initiate_gradual_shutdown(
            &mut pool,
            &mut shutdown,
            &admin,
            EMERGENCY,
            String::from("drill"),
            1_000
        )
        .unwrap_err(),
        EmergencyError::Unauthorized
    );

    initiate_gradual_shutdown(
        &mut pool,
        &mut shutdown,
        &admin,
        PRIMARY,
        String::from("migration"),
        1_000,
    )
    .unwrap();
    assert_eq!(shutdown.initiated_at, 1_000);
    assert_eq!(shutdown.shutdown_at, 1_000 + GRADUAL_SHUTDOWN_DURATION);
    assert!(!shutdown.allow_new_stakes);
    assert!(shutdown.allow_unstakes);
    assert!(shutdown.allow_claims);
    assert_eq!(shutdown.reason, "migration");
    assert!(pool.is_paused);
}

#[test]
fn test_operation_guards() {
    let mut pool = initialize_pool(PRIMARY, 0, 0);

    assert!(require_staking_allowed(&pool).is_ok());
    assert!(require_claiming_allowed(&pool).is_ok());
    assert!(require_unstaking_allowed(&pool).is_ok());

    pool.is_paused = true;
    assert_eq!(
        require_staking_allowed(&pool).unwrap_err(),
        EmergencyError::StakingPaused
    );
    assert!(require_claiming_allowed(&pool).is_ok());

    pool.is_paused = false;
    pool.emergency_mode = true;
    assert_eq!(
        require_staking_allowed(&pool).unwrap_err(),
        EmergencyError::InEmergencyMode
    );
    assert_eq!(
        require_claiming_allowed(&pool).unwrap_err(),
        EmergencyError::InEmergencyMode
    );
    // Unstaking is never gated.
    assert!(require_unstaking_allowed(&pool).is_ok());
}
