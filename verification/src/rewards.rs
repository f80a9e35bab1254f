//! Reward distributor: pays the fixed token reward exactly once per approved
//! report. The token transfer itself is an external capability: the caller
//! first asks for the amount with `check_reward_eligibility`, then attempts
//! the transfer, and finally hands its outcome to `distribute_rewards`, which
//! marks the report rewarded only when the transfer succeeded — so a failed
//! transfer leaves no partial state and the operation is safe to retry.

use vstd::prelude::*;

use crate::ActorId;
use crate::ErrorCode;
use crate::submission::Report;
use crate::submission::ReportStatus;

verus! {

pub const FIXED_REWARD_AMOUNT: u64 = 100;

/// Event describing one paid-out reward.
#[derive(Clone, Copy, PartialEq, Eq, Structural, Debug)]
pub struct RewardDistributed {
    pub report_id: u64,
    pub submitter: ActorId,
    pub amount: u64,
}

/// The reward amount of a report. The baseline policy pays a fixed amount.
pub fn calculate_reward_amount(report: &Report) -> (amount: u64)
    ensures
        amount == FIXED_REWARD_AMOUNT,
{
    FIXED_REWARD_AMOUNT
}

/// Which failure, if any, a reward request runs into, in the order the
/// checks are made: the id must match the report, the named submitter must
/// be the report's submitter, the reward must not have been paid yet, and
/// the report must be `Approved`.
pub open spec fn reward_error(report: Report, report_id: u64, submitter: ActorId) -> Option<
    ErrorCode,
> {
    if report.report_id != report_id {
        Some(ErrorCode::ReportNotFound)
    } else if report.submitter != submitter {
        Some(ErrorCode::InvalidSubmitter)
    } else if report.reward_distributed {
        Some(ErrorCode::AlreadyRewarded)
    } else if report.status != ReportStatus::Approved {
        Some(ErrorCode::InvalidReportStatus)
    } else {
        None
    }
}

/// Checks whether a reward is owed and returns the amount to transfer. Reads
/// only; the report is untouched whatever the answer.
pub fn check_reward_eligibility(report: &Report, report_id: u64, submitter: ActorId) -> (r: Result<
    u64,
    ErrorCode,
>)
    ensures
        reward_error(*report, report_id, submitter) matches Some(code) ==> r == Err::<
            u64,
            ErrorCode,
        >(code),
        reward_error(*report, report_id, submitter) is None ==> r == Ok::<u64, ErrorCode>(
            FIXED_REWARD_AMOUNT,
        ),
{
    if report.report_id != report_id {
        return Err(ErrorCode::ReportNotFound);
    }
    if report.submitter != submitter {
        return Err(ErrorCode::InvalidSubmitter);
    }
    if report.reward_distributed {
        return Err(ErrorCode::AlreadyRewarded);
    }
    if report.status != ReportStatus::Approved {
        return Err(ErrorCode::InvalidReportStatus);
    }
    Ok(calculate_reward_amount(report))
}

/// Commits one reward distribution after the external transfer was
/// attempted. The reward flag moves false to true only here, and only when
/// every precondition holds and the transfer succeeded: an already rewarded
/// report fails with `AlreadyRewarded`, and a failed transfer fails with
/// `InsufficientFunds` and leaves the flag false, so the request can be
/// retried.
pub fn distribute_rewards(
    report: &mut Report,
    report_id: u64,
    submitter: ActorId,
    transfer_succeeded: bool,
) -> (r: Result<RewardDistributed, ErrorCode>)
    ensures
        reward_error(*old(report), report_id, submitter) matches Some(code) ==> r == Err::<
            RewardDistributed,
            ErrorCode,
        >(code) && *final(report) == *old(report),
        reward_error(*old(report), report_id, submitter) is None && !transfer_succeeded ==> r
            == Err::<RewardDistributed, ErrorCode>(ErrorCode::InsufficientFunds)
            && *final(report) == *old(report),
        reward_error(*old(report), report_id, submitter) is None && transfer_succeeded ==> {
            &&& final(report).reward_distributed == true
            &&& final(report).status == old(report).status
            &&& final(report).votes == old(report).votes
            &&& final(report).escalation == old(report).escalation
            &&& old(report).same_identity(*final(report))
            &&& r == Ok::<RewardDistributed, ErrorCode>(
                (RewardDistributed { report_id, submitter, amount: FIXED_REWARD_AMOUNT }),
            )
        },
{
    if report.report_id != report_id {
        return Err(ErrorCode::ReportNotFound);
    }
    if report.submitter != submitter {
        return Err(ErrorCode::InvalidSubmitter);
    }
    if report.reward_distributed {
        return Err(ErrorCode::AlreadyRewarded);
    }
    if report.status != ReportStatus::Approved {
        return Err(ErrorCode::InvalidReportStatus);
    }
    if !transfer_succeeded {
        return Err(ErrorCode::InsufficientFunds);
    }
    report.reward_distributed = true;
    Ok(RewardDistributed { report_id, submitter, amount: FIXED_REWARD_AMOUNT })
}

} // verus!
