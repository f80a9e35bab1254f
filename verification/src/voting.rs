//! Voting engine: applies one vote to one report, updates the voter's and the
//! submitter's reputation through the clamped apply, records the vote so the
//! same voter can never vote twice on the same report, and re-evaluates the
//! report's status against the approval and rejection thresholds.

use vstd::prelude::*;

use crate::ActorId;
use crate::ErrorCode;
use crate::reputation::clamped_add;
use crate::reputation::apply_reputation_delta;
use crate::reputation::UserReputation;
use crate::submission::Report;
use crate::submission::ReportStatus;

verus! {

pub const VOTE_REPUTATION_CHANGE: i64 = 1;

pub const UPVOTE_REPUTATION_CHANGE: i64 = 5;

pub const DOWNVOTE_REPUTATION_CHANGE: i64 = 2;

pub const APPROVAL_THRESHOLD: i64 = 5;

pub const REJECTION_THRESHOLD: i64 = -3;

pub const REPORT_APPROVED_REPUTATION_CHANGE: i64 = 20;

pub const REPORT_REJECTED_REPUTATION_CHANGE: i64 = 10;

#[derive(Clone, Copy, PartialEq, Eq, Structural, Debug)]
pub enum VoteType {
    Upvote,
    Downvote,
}

/// One accepted vote of one voter on one report. Created at the moment the
/// vote is accepted; never mutated or deleted.
#[derive(Clone, Copy, PartialEq, Eq, Structural, Debug)]
pub struct Vote {
    pub voter: ActorId,
    pub report: u64,
    pub vote_type: VoteType,
    pub timestamp: i64,
}

/// What one vote contributes to a report's net tally.
pub open spec fn vote_type_weight(vote_type: VoteType) -> int {
    match vote_type {
        VoteType::Upvote => 1,
        VoteType::Downvote => -1,
    }
}

/// The net tally of a sequence of votes.
pub open spec fn tally(votes: Seq<Vote>) -> int
    decreases votes.len(),
{
    if votes.len() == 0 {
        0
    } else {
        tally(votes.drop_last()) + vote_type_weight(votes.last().vote_type)
    }
}

pub proof fn lemma_tally_bounded(votes: Seq<Vote>)
    ensures
        -(votes.len() as int) <= tally(votes) <= votes.len() as int,
    decreases votes.len(),
{
    if votes.len() > 0 {
        lemma_tally_bounded(votes.drop_last());
    }
}

pub proof fn lemma_tally_push(votes: Seq<Vote>, vote: Vote)
    ensures
        tally(votes.push(vote)) == tally(votes) + vote_type_weight(vote.vote_type),
{
    assert(votes.push(vote).drop_last() =~= votes);
}

/// The vote records of one report, the durable guard against double voting.
pub struct VoteLedger {
    pub report: u64,
    pub records: Vec<Vote>,
}

impl VoteLedger {
    /// Ledger invariant: every record belongs to this ledger's report, and no
    /// two records share a voter — at most one vote record per (voter,
    /// report) pair over the report's lifetime.
    pub open spec fn wf(self) -> bool {
        &&& forall|i: int|
            0 <= i < self.records@.len() ==> (#[trigger] self.records@[i]).report == self.report
        &&& forall|i: int, j: int|
            #![trigger self.records@[i], self.records@[j]]
            0 <= i < j < self.records@.len() ==> self.records@[i].voter != self.records@[j].voter
    }

    /// Whether this voter already has a record here.
    pub open spec fn has_vote_of(self, voter: ActorId) -> bool {
        exists|i: int| 0 <= i < self.records@.len() && (#[trigger] self.records@[i]).voter == voter
    }

    /// The empty ledger of a fresh report.
    pub fn new(report: u64) -> (ledger: VoteLedger)
        ensures
            ledger.report == report,
            ledger.records@ == Seq::<Vote>::empty(),
            ledger.wf(),
            tally(ledger.records@) == 0,
    {
        VoteLedger { report, records: Vec::new() }
    }
}

/// A well-formed ledger holds at most one record per voter: two records with
/// the same voter are the same record.
pub proof fn lemma_vote_record_unique(ledger: VoteLedger, i: int, j: int)
    requires
        ledger.wf(),
        0 <= i < ledger.records@.len(),
        0 <= j < ledger.records@.len(),
        ledger.records@[i].voter == ledger.records@[j].voter,
    ensures
        i == j,
{
}

/// Whether `voter` already voted on the report of this ledger.
pub fn has_voted(ledger: &VoteLedger, voter: ActorId) -> (voted: bool)
    ensures
        voted == ledger.has_vote_of(voter),
{
    let mut i: usize = 0;
    while i < ledger.records.len()
        invariant
            i <= ledger.records@.len(),
            forall|k: int| 0 <= k < i ==> (#[trigger] ledger.records@[k]).voter != voter,
        decreases ledger.records@.len() - i,
    {
        if ledger.records[i].voter == voter {
            return true;
        }
        i = i + 1;
    }
    false
}

/// Appends the record of a freshly accepted vote. The caller has already
/// ruled out a second vote by the same voter, so the ledger stays
/// well-formed.
pub fn record_vote(ledger: &mut VoteLedger, voter: ActorId, vote_type: VoteType, now: i64)
    requires
        old(ledger).wf(),
        !old(ledger).has_vote_of(voter),
    ensures
        final(ledger).report == old(ledger).report,
        final(ledger).records@ == old(ledger).records@.push(
            (Vote { voter, report: old(ledger).report, vote_type, timestamp: now }),
        ),
        final(ledger).wf(),
        final(ledger).has_vote_of(voter),
{
    let record = Vote { voter, report: ledger.report, vote_type, timestamp: now };
    ledger.records.push(record);
    proof {
        let records = ledger.records@;
        assert(records[records.len() - 1] == record);
        assert forall|i: int, j: int|
            #![trigger records[i], records[j]]
            0 <= i < j < records.len() implies records[i].voter != records[j].voter by {
            if j < records.len() - 1 {
                assert(old(ledger).records@[i].voter != old(ledger).records@[j].voter);
            } else {
                assert(records[i] == old(ledger).records@[i]);
            }
        }
    }
}

/// The reputation deltas of one accepted vote: the voter always gains the
/// participation reward; the submitter gains on an upvote and loses on a
/// downvote. Both go through the clamped apply.
pub open spec fn submitter_vote_delta(vote_type: VoteType) -> int {
    match vote_type {
        VoteType::Upvote => UPVOTE_REPUTATION_CHANGE as int,
        VoteType::Downvote => -(DOWNVOTE_REPUTATION_CHANGE as int),
    }
}

pub fn update_reputations(
    voter_reputation: &mut UserReputation,
    submitter_reputation: &mut UserReputation,
    vote_type: &VoteType,
    now: i64,
)
    requires
        old(voter_reputation).wf(),
        old(submitter_reputation).wf(),
    ensures
        final(voter_reputation).reputation_score as int == clamped_add(
            old(voter_reputation).reputation_score as int,
            VOTE_REPUTATION_CHANGE as int,
        ),
        final(voter_reputation).wf(),
        final(voter_reputation).last_updated == now,
        final(voter_reputation).user == old(voter_reputation).user,
        final(voter_reputation).reports_submitted == old(voter_reputation).reports_submitted,
        final(voter_reputation).reports_validated == old(voter_reputation).reports_validated,
        final(submitter_reputation).reputation_score as int == clamped_add(
            old(submitter_reputation).reputation_score as int,
            submitter_vote_delta(*vote_type),
        ),
        final(submitter_reputation).wf(),
        final(submitter_reputation).last_updated == now,
        final(submitter_reputation).user == old(submitter_reputation).user,
        final(submitter_reputation).reports_submitted == old(
            submitter_reputation,
        ).reports_submitted,
        final(submitter_reputation).reports_validated == old(
            submitter_reputation,
        ).reports_validated,
{
    apply_reputation_delta(voter_reputation, VOTE_REPUTATION_CHANGE, now);
    match vote_type {
        VoteType::Upvote => {
            apply_reputation_delta(submitter_reputation, UPVOTE_REPUTATION_CHANGE, now);
        },
        VoteType::Downvote => {
            apply_reputation_delta(submitter_reputation, -DOWNVOTE_REPUTATION_CHANGE, now);
        },
    }
}

/// Where the state machine sends a report once its tally is re-evaluated:
/// crossing the approval threshold approves it, crossing the rejection
/// threshold rejects it, and otherwise the status is left as it is.
pub open spec fn status_after_tally(votes: int, current: ReportStatus) -> ReportStatus {
    if votes >= APPROVAL_THRESHOLD as int {
        ReportStatus::Approved
    } else if votes <= REJECTION_THRESHOLD as int {
        ReportStatus::Rejected
    } else {
        current
    }
}

/// What the threshold crossing adds to the submitter's reputation: the
/// approval bonus, the rejection penalty, or nothing.
pub open spec fn threshold_delta(votes: int) -> int {
    if votes >= APPROVAL_THRESHOLD as int {
        REPORT_APPROVED_REPUTATION_CHANGE as int
    } else if votes <= REJECTION_THRESHOLD as int {
        -(REPORT_REJECTED_REPUTATION_CHANGE as int)
    } else {
        0
    }
}

/// The approval and rejection thresholds lie on opposite sides of zero, so no
/// tally can cross both at once.
pub proof fn lemma_thresholds_exclusive(votes: int)
    ensures
        !(votes >= APPROVAL_THRESHOLD as int && votes <= REJECTION_THRESHOLD as int),
{
}

/// Once a tally has crossed a threshold the re-evaluated status is Approved
/// or Rejected, never `Submitted` — and a report that is no longer
/// `Submitted` accepts no further vote.
pub proof fn lemma_threshold_crossing_terminal(votes: int, current: ReportStatus)
    requires
        votes >= APPROVAL_THRESHOLD as int || votes <= REJECTION_THRESHOLD as int,
    ensures
        status_after_tally(votes, current) != ReportStatus::Submitted,
{
}

/// Status monotonicity under voting: re-evaluating a tally never returns a
/// report to `Submitted` — only the privileged override can do that. Together
/// with the status gate of `vote_on_report` (a report that is not `Submitted`
/// accepts no vote), a report that has left `Submitted` by crossing a
/// threshold never accepts another vote.
pub proof fn lemma_no_return_to_submitted(votes: int, current: ReportStatus)
    ensures
        status_after_tally(votes, current) == ReportStatus::Submitted ==> current
            == ReportStatus::Submitted,
{
}

/// Re-evaluates a report against the thresholds after its tally changed, and
/// applies the approval bonus or rejection penalty to the submitter.
pub fn check_report_status(
    report: &mut Report,
    submitter_reputation: &mut UserReputation,
    now: i64,
)
    requires
        old(submitter_reputation).wf(),
    ensures
        final(report).status == status_after_tally(old(report).votes as int, old(report).status),
        old(report).same_identity(*final(report)),
        final(report).votes == old(report).votes,
        final(report).escalation == old(report).escalation,
        final(report).reward_distributed == old(report).reward_distributed,
        final(submitter_reputation).reputation_score as int == clamped_add(
            old(submitter_reputation).reputation_score as int,
            threshold_delta(old(report).votes as int),
        ),
        final(submitter_reputation).wf(),
        final(submitter_reputation).user == old(submitter_reputation).user,
        final(submitter_reputation).reports_submitted == old(
            submitter_reputation,
        ).reports_submitted,
        final(submitter_reputation).reports_validated == old(
            submitter_reputation,
        ).reports_validated,
        threshold_delta(old(report).votes as int) != 0 ==> final(submitter_reputation).last_updated == now,
        threshold_delta(old(report).votes as int) == 0 ==> *final(submitter_reputation)
            == *old(submitter_reputation),
{
    if report.votes >= APPROVAL_THRESHOLD {
        report.status = ReportStatus::Approved;
        apply_reputation_delta(submitter_reputation, REPORT_APPROVED_REPUTATION_CHANGE, now);
    } else if report.votes <= REJECTION_THRESHOLD {
        report.status = ReportStatus::Rejected;
        apply_reputation_delta(submitter_reputation, -REPORT_REJECTED_REPUTATION_CHANGE, now);
    }
}

/// The coupled invariant of a report and its vote ledger: the ledger belongs
/// to the report and the report's net tally is exactly the tally of the
/// recorded votes.
pub open spec fn vote_consistent(report: Report, ledger: VoteLedger) -> bool {
    &&& ledger.report == report.report_id
    &&& report.votes as int == tally(ledger.records@)
}

/// Which failure, if any, a vote request runs into, in the order the checks
/// are made: the id must match the report, the report must still be
/// `Submitted`, and the voter must not have voted on it before.
pub open spec fn vote_error(
    report: Report,
    ledger: VoteLedger,
    report_id: u64,
    voter: ActorId,
) -> Option<ErrorCode> {
    if report.report_id != report_id {
        Some(ErrorCode::ReportNotFound)
    } else if report.status != ReportStatus::Submitted {
        Some(ErrorCode::InvalidReportStatus)
    } else if ledger.has_vote_of(voter) {
        Some(ErrorCode::AlreadyVoted)
    } else {
        None
    }
}

/// The submitter's score after one accepted vote: first the vote delta, then
/// the threshold bonus or penalty, each through the clamped apply.
pub open spec fn submitter_score_after(old_score: int, vote_type: VoteType, new_votes: int) -> int {
    clamped_add(clamped_add(old_score, submitter_vote_delta(vote_type)), threshold_delta(new_votes))
}

/// Event describing one accepted vote.
#[derive(Clone, Copy, PartialEq, Eq, Structural, Debug)]
pub struct VoteCast {
    pub report_id: u64,
    pub voter: ActorId,
    pub vote_type: VoteType,
}

/// Applies one vote to one report, as one atomic unit: the tally moves by
/// exactly one, the vote record is created, both reputations are updated
/// through the clamped apply, and the status is re-evaluated against the
/// thresholds. On any failure nothing changes, so a retry of the same request
/// is safe; a repeated vote by the same voter fails with `AlreadyVoted`, and
/// no vote is accepted once the report has left `Submitted`.
pub fn vote_on_report(
    report: &mut Report,
    ledger: &mut VoteLedger,
    voter: ActorId,
    voter_reputation: &mut UserReputation,
    submitter_reputation: &mut UserReputation,
    report_id: u64,
    vote_type: VoteType,
    now: i64,
) -> (r: Result<VoteCast, ErrorCode>)
    requires
        old(voter_reputation).wf(),
        old(submitter_reputation).wf(),
        old(voter_reputation).user == voter,
        old(submitter_reputation).user == old(report).submitter,
        old(ledger).wf(),
        vote_consistent(*old(report), *old(ledger)),
        old(ledger).records@.len() < i64::MAX,
    ensures
        vote_error(*old(report), *old(ledger), report_id, voter) matches Some(code) ==> {
            &&& r == Err::<VoteCast, ErrorCode>(code)
            &&& *final(report) == *old(report)
            &&& *final(ledger) == *old(ledger)
            &&& *final(voter_reputation) == *old(voter_reputation)
            &&& *final(submitter_reputation) == *old(submitter_reputation)
        },
        vote_error(*old(report), *old(ledger), report_id, voter) is None ==> {
            &&& r == Ok::<VoteCast, ErrorCode>((VoteCast { report_id, voter, vote_type }))
            &&& final(report).votes as int == old(report).votes as int + vote_type_weight(
                vote_type,
            )
            &&& final(report).status == status_after_tally(
                final(report).votes as int,
                ReportStatus::Submitted,
            )
            &&& old(report).same_identity(*final(report))
            &&& final(report).escalation == old(report).escalation
            &&& final(report).reward_distributed == old(report).reward_distributed
            &&& final(ledger).report == old(ledger).report
            &&& final(ledger).records@ == old(ledger).records@.push(
                (Vote { voter, report: report_id, vote_type, timestamp: now }),
            )
            &&& final(ledger).wf()
            &&& vote_consistent(*final(report), *final(ledger))
            &&& final(voter_reputation).reputation_score as int == clamped_add(
                old(voter_reputation).reputation_score as int,
                VOTE_REPUTATION_CHANGE as int,
            )
            &&& final(voter_reputation).wf()
            &&& final(voter_reputation).last_updated == now
            &&& final(voter_reputation).user == old(voter_reputation).user
            &&& final(voter_reputation).reports_submitted == old(
                voter_reputation,
            ).reports_submitted
            &&& final(voter_reputation).reports_validated == old(
                voter_reputation,
            ).reports_validated
            &&& final(submitter_reputation).reputation_score as int == submitter_score_after(
                old(submitter_reputation).reputation_score as int,
                vote_type,
                final(report).votes as int,
            )
            &&& final(submitter_reputation).wf()
            &&& final(submitter_reputation).last_updated == now
            &&& final(submitter_reputation).user == old(submitter_reputation).user
            &&& final(submitter_reputation).reports_submitted == old(
                submitter_reputation,
            ).reports_submitted
            &&& final(submitter_reputation).reports_validated == old(
                submitter_reputation,
            ).reports_validated
        },
{
    if report.report_id != report_id {
        return Err(ErrorCode::ReportNotFound);
    }
    if report.status != ReportStatus::Submitted {
        return Err(ErrorCode::InvalidReportStatus);
    }
    if has_voted(ledger, voter) {
        return Err(ErrorCode::AlreadyVoted);
    }
    proof {
        lemma_tally_bounded(ledger.records@);
    }
    match vote_type {
        VoteType::Upvote => {
            report.votes = report.votes + 1;
        },
        VoteType::Downvote => {
            report.votes = report.votes - 1;
        },
    }
    update_reputations(voter_reputation, submitter_reputation, &vote_type, now);
    record_vote(ledger, voter, vote_type, now);
    proof {
        lemma_tally_push(
            old(ledger).records@,
            Vote { voter, report: report_id, vote_type, timestamp: now },
        );
    }
    check_report_status(report, submitter_reputation, now);
    Ok(VoteCast { report_id, voter, vote_type })
}

} // verus!
