//! Reputation ledger: one bounded score per actor, plus submission and
//! validation counters. Every change to a score goes through the clamped
//! apply, so a score never leaves `[MIN_REPUTATION, MAX_REPUTATION]`.

use vstd::prelude::*;

use crate::ActorId;
use crate::ErrorCode;

verus! {

pub const MIN_REPUTATION: i64 = -1000;

pub const MAX_REPUTATION: i64 = 1000;

pub const INITIAL_REPUTATION: i64 = 0;

/// The reputation record of one actor. Created once, never deleted.
#[derive(Clone, Copy, PartialEq, Eq, Structural, Debug)]
pub struct UserReputation {
    pub user: ActorId,
    pub reputation_score: i64,
    pub reports_submitted: u64,
    pub reports_validated: u64,
    pub last_updated: i64,
}

impl UserReputation {
    /// Record invariant: the score stays within the ledger's bounds.
    pub open spec fn wf(self) -> bool {
        MIN_REPUTATION <= self.reputation_score <= MAX_REPUTATION
    }
}

/// What a clamped apply yields: the mathematical sum, saturated into
/// `[MIN_REPUTATION, MAX_REPUTATION]`.
pub open spec fn clamped_add(score: int, delta: int) -> int {
    if score + delta < MIN_REPUTATION as int {
        MIN_REPUTATION as int
    } else if score + delta > MAX_REPUTATION as int {
        MAX_REPUTATION as int
    } else {
        score + delta
    }
}

/// Saturation law: a clamped apply lands within the reputation bounds,
/// whatever the starting score and whatever the magnitude of the delta.
pub proof fn lemma_clamped_add_bounded(score: int, delta: int)
    ensures
        MIN_REPUTATION as int <= clamped_add(score, delta) <= MAX_REPUTATION as int,
{
}

/// Event describing one reputation change.
#[derive(Clone, Copy, PartialEq, Eq, Structural, Debug)]
pub struct ReputationUpdated {
    pub user: ActorId,
    pub old_score: i64,
    pub new_score: i64,
    pub change: i64,
}

/// Applies one reputation delta: the score becomes
/// `clamp(score + delta, MIN_REPUTATION, MAX_REPUTATION)` and the record is
/// stamped with the supplied time. The counters and the owner never change.
pub fn apply_reputation_delta(rep: &mut UserReputation, delta: i64, now: i64)
    requires
        old(rep).wf(),
    ensures
        final(rep).reputation_score as int == clamped_add(
            old(rep).reputation_score as int,
            delta as int,
        ),
        final(rep).wf(),
        final(rep).last_updated == now,
        final(rep).user == old(rep).user,
        final(rep).reports_submitted == old(rep).reports_submitted,
        final(rep).reports_validated == old(rep).reports_validated,
{
    let score = rep.reputation_score;
    let new_score: i64 = if delta >= 0 {
        if delta > MAX_REPUTATION - score {
            MAX_REPUTATION
        } else {
            score + delta
        }
    } else {
        if delta < MIN_REPUTATION - score {
            MIN_REPUTATION
        } else {
            score + delta
        }
    };
    rep.reputation_score = new_score;
    rep.last_updated = now;
}

/// The privileged reputation update. Only the recognized program authority
/// may apply it, and only to the record of the named actor; the change itself
/// is the clamped apply. Returns the event carrying old score, new score and
/// delta.
pub fn update_reputation(
    rep: &mut UserReputation,
    user: ActorId,
    change: i64,
    requesting_actor: ActorId,
    authority: ActorId,
    now: i64,
) -> (r: Result<ReputationUpdated, ErrorCode>)
    requires
        old(rep).wf(),
    ensures
        requesting_actor != authority ==> r == Err::<ReputationUpdated, ErrorCode>(
            ErrorCode::Unauthorized,
        ) && *final(rep) == *old(rep),
        requesting_actor == authority && old(rep).user != user ==> r == Err::<
            ReputationUpdated,
            ErrorCode,
        >(ErrorCode::UserMismatch) && *final(rep) == *old(rep),
        requesting_actor == authority && old(rep).user == user ==> {
            &&& final(rep).reputation_score as int == clamped_add(
                old(rep).reputation_score as int,
                change as int,
            )
            &&& final(rep).wf()
            &&& final(rep).last_updated == now
            &&& final(rep).user == old(rep).user
            &&& final(rep).reports_submitted == old(rep).reports_submitted
            &&& final(rep).reports_validated == old(rep).reports_validated
            &&& r == Ok::<ReputationUpdated, ErrorCode>(
                (ReputationUpdated {
                    user,
                    old_score: old(rep).reputation_score,
                    new_score: final(rep).reputation_score,
                    change,
                }),
            )
        },
{
    if requesting_actor != authority {
        return Err(ErrorCode::Unauthorized);
    }
    if rep.user != user {
        return Err(ErrorCode::UserMismatch);
    }
    let old_score = rep.reputation_score;
    apply_reputation_delta(rep, change, now);
    Ok(ReputationUpdated { user, old_score, new_score: rep.reputation_score, change })
}

/// Side-effect-free read of an actor's score.
pub fn get_user_reputation(rep: &UserReputation) -> (score: i64)
    ensures
        score == rep.reputation_score,
{
    rep.reputation_score
}

/// Creates the reputation record of a new actor at score zero with zero
/// counters. The storage layer supplies what it found under the actor's key:
/// when a record already exists the call fails and creates nothing.
pub fn initialize_user_reputation(
    user: ActorId,
    existing: Option<&UserReputation>,
    now: i64,
) -> (r: Result<UserReputation, ErrorCode>)
    ensures
        existing is Some ==> r == Err::<UserReputation, ErrorCode>(ErrorCode::AlreadyExists),
        existing is None ==> r == Ok::<UserReputation, ErrorCode>(
            (UserReputation {
                user,
                reputation_score: INITIAL_REPUTATION,
                reports_submitted: 0,
                reports_validated: 0,
                last_updated: now,
            }),
        ),
        r is Ok ==> r.unwrap().wf(),
{
    match existing {
        Some(_) => Err(ErrorCode::AlreadyExists),
        None => Ok(
            UserReputation {
                user,
                reputation_score: INITIAL_REPUTATION,
                reports_submitted: 0,
                reports_validated: 0,
                last_updated: now,
            },
        ),
    }
}

} // verus!
