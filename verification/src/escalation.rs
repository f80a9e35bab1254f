//! Escalation workflow: a sufficiently reputable actor forces a report into
//! `UnderReview`; the recognized program authority later resolves it.

use vstd::prelude::*;

use crate::ActorId;
use crate::ErrorCode;
use crate::reputation::UserReputation;
use crate::submission::Report;
use crate::submission::ReportStatus;

verus! {

pub const MINIMUM_REPUTATION_FOR_ESCALATION: i64 = 100;

#[derive(Clone, Copy, PartialEq, Eq, Structural, Debug)]
pub enum EscalationReason {
    Urgent,
    HighImpact,
    PublicSafety,
    RecurringIssue,
    Other,
}

/// The escalation attached to a report. At most one lives on a report at a
/// time; re-escalation overwrites it (last writer wins). `resolved` only ever
/// moves false to true, and `resolution_details` is set only alongside that
/// move.
#[derive(Clone, PartialEq, Eq, Debug)]
pub struct EscalationDetails {
    pub reason: EscalationReason,
    pub description: String,
    pub escalated_at: i64,
    pub escalated_by: ActorId,
    pub resolved: bool,
    pub resolution_details: Option<String>,
}

/// Event describing one escalation.
#[derive(Clone, Copy, PartialEq, Eq, Structural, Debug)]
pub struct ReportEscalated {
    pub report_id: u64,
    pub escalated_by: ActorId,
    pub reason: EscalationReason,
}

/// Event describing one resolved escalation.
#[derive(Clone, Copy, PartialEq, Eq, Structural, Debug)]
pub struct EscalationResolved {
    pub report_id: u64,
    pub resolved_by: ActorId,
}

/// The statuses from which a report can be escalated. `Resolved` is terminal
/// for escalation, as are `Approved` and `Rejected`.
pub open spec fn can_escalate_status(status: ReportStatus) -> bool {
    status == ReportStatus::Submitted || status == ReportStatus::UnderReview
}

/// The report as a successful escalation leaves it: forced into
/// `UnderReview`, carrying exactly the supplied details, all else untouched.
pub open spec fn with_escalation(report: Report, details: EscalationDetails) -> Report {
    Report { status: ReportStatus::UnderReview, escalation: Some(details), ..report }
}

/// Escalation is idempotent: escalating an already escalated report succeeds
/// again (its status still admits escalation) and leaves exactly one set of
/// escalation details attached, the latest one.
pub proof fn lemma_escalate_idempotent(
    report: Report,
    first: EscalationDetails,
    second: EscalationDetails,
)
    ensures
        with_escalation(with_escalation(report, first), second) == with_escalation(report, second),
        can_escalate_status(with_escalation(report, first).status),
        with_escalation(report, first).escalation == Some(first),
{
}

/// Escalates a report. Fails with `ReportNotFound` on an id mismatch, with
/// `InvalidStatusTransition` unless the report is `Submitted` or
/// `UnderReview`, and with `InsufficientReputation` unless the caller's score
/// reaches the escalation floor. On success the report is `UnderReview` with
/// the fresh, unresolved details attached (overwriting any earlier ones).
pub fn escalate_report(
    report: &mut Report,
    report_id: u64,
    user: ActorId,
    user_reputation: &UserReputation,
    reason: EscalationReason,
    description: String,
    now: i64,
) -> (r: Result<ReportEscalated, ErrorCode>)
    requires
        user_reputation.user == user,
    ensures
        old(report).report_id != report_id ==> r == Err::<ReportEscalated, ErrorCode>(
            ErrorCode::ReportNotFound,
        ) && *final(report) == *old(report),
        old(report).report_id == report_id && !can_escalate_status(old(report).status) ==> r
            == Err::<ReportEscalated, ErrorCode>(ErrorCode::InvalidStatusTransition)
            && *final(report) == *old(report),
        old(report).report_id == report_id && can_escalate_status(old(report).status)
            && user_reputation.reputation_score < MINIMUM_REPUTATION_FOR_ESCALATION ==> r == Err::<
            ReportEscalated,
            ErrorCode,
        >(ErrorCode::InsufficientReputation) && *final(report) == *old(report),
        old(report).report_id == report_id && can_escalate_status(old(report).status)
            && user_reputation.reputation_score >= MINIMUM_REPUTATION_FOR_ESCALATION ==> {
            &&& *final(report) == with_escalation(
                *old(report),
                (EscalationDetails {
                    reason,
                    description,
                    escalated_at: now,
                    escalated_by: user,
                    resolved: false,
                    resolution_details: None,
                }),
            )
            &&& r == Ok::<ReportEscalated, ErrorCode>(
                (ReportEscalated { report_id, escalated_by: user, reason }),
            )
        },
{
    if report.report_id != report_id {
        return Err(ErrorCode::ReportNotFound);
    }
    if !(report.status == ReportStatus::Submitted || report.status == ReportStatus::UnderReview) {
        return Err(ErrorCode::InvalidStatusTransition);
    }
    if user_reputation.reputation_score < MINIMUM_REPUTATION_FOR_ESCALATION {
        return Err(ErrorCode::InsufficientReputation);
    }
    report.status = ReportStatus::UnderReview;
    report.escalation = Some(
        EscalationDetails {
            reason,
            description,
            escalated_at: now,
            escalated_by: user,
            resolved: false,
            resolution_details: None,
        },
    );
    Ok(ReportEscalated { report_id, escalated_by: user, reason })
}

/// The details as a successful resolution leaves them: marked resolved, the
/// resolution text attached, all else untouched.
pub open spec fn resolved_escalation(
    details: EscalationDetails,
    resolution_details: String,
) -> EscalationDetails {
    EscalationDetails { resolved: true, resolution_details: Some(resolution_details), ..details }
}

/// Resolves an escalation. Fails with `ReportNotFound` on an id mismatch,
/// with `Unauthorized` unless the caller is the recognized program authority,
/// with `NoEscalationFound` when the report carries no escalation, and with
/// `InvalidStatusTransition` unless the report is `UnderReview`. On success
/// the escalation is marked resolved with the supplied text and the report
/// becomes `Resolved`, which is terminal for escalation.
pub fn resolve_escalation(
    report: &mut Report,
    report_id: u64,
    resolver: ActorId,
    authority: ActorId,
    resolution_details: String,
    now: i64,
) -> (r: Result<EscalationResolved, ErrorCode>)
    ensures
        old(report).report_id != report_id ==> r == Err::<EscalationResolved, ErrorCode>(
            ErrorCode::ReportNotFound,
        ) && *final(report) == *old(report),
        old(report).report_id == report_id && resolver != authority ==> r == Err::<
            EscalationResolved,
            ErrorCode,
        >(ErrorCode::Unauthorized) && *final(report) == *old(report),
        old(report).report_id == report_id && resolver == authority && old(report).escalation
            is None ==> r == Err::<EscalationResolved, ErrorCode>(ErrorCode::NoEscalationFound)
            && *final(report) == *old(report),
        old(report).report_id == report_id && resolver == authority && old(report).escalation
            is Some && old(report).status != ReportStatus::UnderReview ==> r == Err::<
            EscalationResolved,
            ErrorCode,
        >(ErrorCode::InvalidStatusTransition) && *final(report) == *old(report),
        old(report).report_id == report_id && resolver == authority && old(report).escalation
            is Some && old(report).status == ReportStatus::UnderReview ==> {
            &&& final(report).status == ReportStatus::Resolved
            &&& final(report).escalation == Some(
                resolved_escalation(old(report).escalation->Some_0, resolution_details),
            )
            &&& old(report).same_identity(*final(report))
            &&& final(report).votes == old(report).votes
            &&& final(report).reward_distributed == old(report).reward_distributed
            &&& r == Ok::<EscalationResolved, ErrorCode>(
                (EscalationResolved { report_id, resolved_by: resolver }),
            )
        },
{
    if report.report_id != report_id {
        return Err(ErrorCode::ReportNotFound);
    }
    if resolver != authority {
        return Err(ErrorCode::Unauthorized);
    }
    if report.escalation.is_none() {
        return Err(ErrorCode::NoEscalationFound);
    }
    if report.status != ReportStatus::UnderReview {
        return Err(ErrorCode::InvalidStatusTransition);
    }
    match &mut report.escalation {
        Some(details) => {
            details.resolved = true;
            details.resolution_details = Some(resolution_details);
        },
        None => {
            return Err(ErrorCode::NoEscalationFound);
        },
    }
    report.status = ReportStatus::Resolved;
    Ok(EscalationResolved { report_id, resolved_by: resolver })
}

} // verus!
