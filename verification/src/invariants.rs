//! The pool-consistency invariant: at every observation point the pool's
//! `total_staked` equals the sum of all users' `amount`, and its
//! `total_weight` the sum of all users' `weight`.
//!
//! Each lifecycle operation touches one user record and moves the pool
//! totals by exactly that record's change; the lemmas here show that this
//! keeps the invariant across any sequence of operations, whichever user
//! each one belongs to.

use vstd::prelude::*;
use crate::state::GlobalPool;
use crate::state::UserStake;

verus! {

/// Sum of the staked amounts over a set of user records.
pub open spec fn sum_amounts(users: Seq<UserStake>) -> int
    decreases users.len(),
{
    if users.len() == 0 {
        0
    } else {
        sum_amounts(users.drop_last()) + users.last().amount
    }
}

/// Sum of the stake weights over a set of user records.
pub open spec fn sum_weights(users: Seq<UserStake>) -> int
    decreases users.len(),
{
    if users.len() == 0 {
        0
    } else {
        sum_weights(users.drop_last()) + users.last().weight
    }
}

/// The pool's totals agree with the user records.
pub open spec fn pool_consistent(pool: GlobalPool, users: Seq<UserStake>) -> bool {
    &&& pool.total_staked as int == sum_amounts(users)
    &&& pool.total_weight as int == sum_weights(users)
}

/// Replacing one record moves each sum by exactly that record's change.
pub proof fn lemma_sum_update(users: Seq<UserStake>, i: int, u2: UserStake)
    requires
        0 <= i < users.len(),
    ensures
        sum_amounts(users.update(i, u2)) == sum_amounts(users) - users[i].amount + u2.amount,
        sum_weights(users.update(i, u2)) == sum_weights(users) - users[i].weight + u2.weight,
    decreases users.len(),
{
    let updated = users.update(i, u2);
    if i == users.len() - 1 {
        assert(updated.drop_last() =~= users.drop_last());
    } else {
        lemma_sum_update(users.drop_last(), i, u2);
        assert(updated.drop_last() =~= users.drop_last().update(i, u2));
        assert(updated.last() == users.last());
    }
}

/// The sums over user records are never negative.
pub proof fn lemma_sum_nonneg(users: Seq<UserStake>)
    ensures
        sum_amounts(users) >= 0,
        sum_weights(users) >= 0,
    decreases users.len(),
{
    if users.len() > 0 {
        lemma_sum_nonneg(users.drop_last());
    }
}

/// No single record exceeds the sums it contributes to.
pub proof fn lemma_member_le_sum(users: Seq<UserStake>, i: int)
    requires
        0 <= i < users.len(),
    ensures
        users[i].amount <= sum_amounts(users),
        users[i].weight <= sum_weights(users),
    decreases users.len(),
{
    if i == users.len() - 1 {
        lemma_sum_nonneg(users.drop_last());
    } else {
        lemma_member_le_sum(users.drop_last(), i);
    }
}

/// The pool-consistency law: an operation that rewrites one user's record
/// and moves the pool totals by exactly that record's change keeps
/// `total_staked == Σ amount` and `total_weight == Σ weight` over all
/// users.  Staking, completing an unstake and an emergency unstake all
/// change the totals in exactly this shape.
pub proof fn lemma_pool_totals_preserved(
    p1: GlobalPool,
    p2: GlobalPool,
    users: Seq<UserStake>,
    i: int,
    u2: UserStake,
)
    requires
        pool_consistent(p1, users),
        0 <= i < users.len(),
        p2.total_staked as int == p1.total_staked + u2.amount - users[i].amount,
        p2.total_weight as int == p1.total_weight + u2.weight - users[i].weight,
    ensures
        pool_consistent(p2, users.update(i, u2)),
{
    lemma_sum_update(users, i, u2);
}

/// Under the invariant a single user's stake never exceeds the pool's
/// totals, so the operations' saturating subtractions of one user's
/// amount and weight are exact.
pub proof fn lemma_user_within_totals(pool: GlobalPool, users: Seq<UserStake>, i: int)
    requires
        pool_consistent(pool, users),
        0 <= i < users.len(),
    ensures
        users[i].amount <= pool.total_staked,
        users[i].weight <= pool.total_weight,
{
    lemma_member_le_sum(users, i);
}

} // verus!
