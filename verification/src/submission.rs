//! Report store: the report record, its category and status, report
//! creation, and the privileged status override.

use vstd::prelude::*;
use vstd::string::StrSliceExecFns;

use crate::ActorId;
use crate::ErrorCode;
use crate::escalation::EscalationDetails;
use crate::reputation::UserReputation;

verus! {

pub const MAX_DESCRIPTION_LEN: usize = 256;

pub const MAX_LOCATION_LEN: usize = 64;

pub const MAX_MEDIA_HASH_LEN: usize = 256;

pub const MINIMUM_REPUTATION_FOR_SUBMISSION: i64 = -500;

#[derive(Clone, Copy, PartialEq, Eq, Structural, Debug)]
pub enum ReportCategory {
    RoadIssue,
    StreetLight,
    PublicFacility,
    EnvironmentalConcern,
    Other,
}

#[derive(Clone, Copy, PartialEq, Eq, Structural, Debug)]
pub enum ReportStatus {
    Submitted,
    UnderReview,
    Approved,
    Resolved,
    Rejected,
}

/// One civic-issue report. Created in status `Submitted` with a zero tally;
/// mutated only by voting, escalation, resolution, reward distribution and
/// the privileged status override; never deleted.
#[derive(Clone, PartialEq, Eq, Debug)]
pub struct Report {
    pub report_id: u64,
    pub submitter: ActorId,
    pub description: String,
    pub location: String,
    pub media_hash: String,
    pub timestamp: i64,
    pub votes: i64,
    pub category: ReportCategory,
    pub status: ReportStatus,
    pub escalation: Option<EscalationDetails>,
    pub reward_distributed: bool,
}

impl Report {
    /// The fields the store never mutates after creation.
    pub open spec fn same_identity(self, other: Report) -> bool {
        &&& self.report_id == other.report_id
        &&& self.submitter == other.submitter
        &&& self.description == other.description
        &&& self.location == other.location
        &&& self.media_hash == other.media_hash
        &&& self.timestamp == other.timestamp
        &&& self.category == other.category
    }
}

/// Whether one of the three text fields exceeds its bound (in characters).
pub open spec fn input_too_long(
    description: Seq<char>,
    location: Seq<char>,
    media_hash: Seq<char>,
) -> bool {
    ||| description.len() > MAX_DESCRIPTION_LEN
    ||| location.len() > MAX_LOCATION_LEN
    ||| media_hash.len() > MAX_MEDIA_HASH_LEN
}

/// Event describing one accepted submission.
#[derive(Clone, Copy, PartialEq, Eq, Structural, Debug)]
pub struct ReportSubmitted {
    pub report_id: u64,
    pub submitter: ActorId,
    pub category: ReportCategory,
}

/// Creates a report. Fails with `InputTooLong` when a text field exceeds its
/// bound, and with `InsufficientReputation` when the submitter's score is
/// below the submission floor; otherwise returns the fresh report (status
/// `Submitted`, zero tally, no escalation, reward still unpaid) together with
/// the submission event, and counts the submission on the submitter's record.
pub fn submit_report(
    report_id: u64,
    submitter: ActorId,
    description: String,
    location: String,
    media_hash: String,
    category: ReportCategory,
    submitter_reputation: &mut UserReputation,
    now: i64,
) -> (r: Result<(Report, ReportSubmitted), ErrorCode>)
    requires
        old(submitter_reputation).user == submitter,
        old(submitter_reputation).reports_submitted < u64::MAX,
    ensures
        input_too_long(description@, location@, media_hash@) ==> r == Err::<
            (Report, ReportSubmitted),
            ErrorCode,
        >(ErrorCode::InputTooLong) && *final(submitter_reputation) == *old(submitter_reputation),
        !input_too_long(description@, location@, media_hash@) && old(
            submitter_reputation,
        ).reputation_score < MINIMUM_REPUTATION_FOR_SUBMISSION ==> r == Err::<
            (Report, ReportSubmitted),
            ErrorCode,
        >(ErrorCode::InsufficientReputation) && *final(submitter_reputation) == *old(
            submitter_reputation,
        ),
        !input_too_long(description@, location@, media_hash@) && old(
            submitter_reputation,
        ).reputation_score >= MINIMUM_REPUTATION_FOR_SUBMISSION ==> {
            &&& r == Ok::<(Report, ReportSubmitted), ErrorCode>(
                (
                    (Report {
                        report_id,
                        submitter,
                        description,
                        location,
                        media_hash,
                        timestamp: now,
                        votes: 0,
                        category,
                        status: ReportStatus::Submitted,
                        escalation: None,
                        reward_distributed: false,
                    }),
                    (ReportSubmitted { report_id, submitter, category }),
                ),
            )
            &&& final(submitter_reputation).reports_submitted == old(
                submitter_reputation,
            ).reports_submitted + 1
            &&& final(submitter_reputation).user == old(submitter_reputation).user
            &&& final(submitter_reputation).reputation_score == old(
                submitter_reputation,
            ).reputation_score
            &&& final(submitter_reputation).reports_validated == old(
                submitter_reputation,
            ).reports_validated
            &&& final(submitter_reputation).last_updated == old(submitter_reputation).last_updated
        },
{
    if description.as_str().unicode_len() > MAX_DESCRIPTION_LEN || location.as_str().unicode_len()
        > MAX_LOCATION_LEN || media_hash.as_str().unicode_len() > MAX_MEDIA_HASH_LEN {
        return Err(ErrorCode::InputTooLong);
    }
    if submitter_reputation.reputation_score < MINIMUM_REPUTATION_FOR_SUBMISSION {
        return Err(ErrorCode::InsufficientReputation);
    }
    submitter_reputation.reports_submitted = submitter_reputation.reports_submitted + 1;
    let report = Report {
        report_id,
        submitter,
        description,
        location,
        media_hash,
        timestamp: now,
        votes: 0,
        category,
        status: ReportStatus::Submitted,
        escalation: None,
        reward_distributed: false,
    };
    let event = ReportSubmitted { report_id, submitter, category };
    Ok((report, event))
}

/// Event describing one privileged status override.
#[derive(Clone, Copy, PartialEq, Eq, Structural, Debug)]
pub struct ReportStatusUpdated {
    pub report_id: u64,
    pub old_status: ReportStatus,
    pub new_status: ReportStatus,
}

/// The privileged status override: the recognized program authority may move
/// a report into any status. Everything but the status is left untouched, and
/// the event carries the old and the new status.
pub fn update_report_status(
    report: &mut Report,
    report_id: u64,
    new_status: ReportStatus,
    requesting_actor: ActorId,
    authority: ActorId,
) -> (r: Result<ReportStatusUpdated, ErrorCode>)
    ensures
        requesting_actor != authority ==> r == Err::<ReportStatusUpdated, ErrorCode>(
            ErrorCode::Unauthorized,
        ) && *final(report) == *old(report),
        requesting_actor == authority ==> {
            &&& final(report).status == new_status
            &&& old(report).same_identity(*final(report))
            &&& final(report).votes == old(report).votes
            &&& final(report).escalation == old(report).escalation
            &&& final(report).reward_distributed == old(report).reward_distributed
            &&& r == Ok::<ReportStatusUpdated, ErrorCode>(
                (ReportStatusUpdated {
                    report_id,
                    old_status: old(report).status,
                    new_status,
                }),
            )
        },
{
    if requesting_actor != authority {
        return Err(ErrorCode::Unauthorized);
    }
    let old_status = report.status;
    report.status = new_status;
    Ok(ReportStatusUpdated { report_id, old_status, new_status })
}

} // verus!
