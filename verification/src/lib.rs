//! Governance core for a civic-issue reporting DAO.
//!
//! Citizens submit reports, a reputation-weighted community votes on them,
//! reports move through an approval/rejection state machine, reputable actors
//! can escalate a report to a trusted authority, and an approved report earns
//! its submitter a one-time token reward.
//!
//! The crate holds only the governance logic itself. Every operation is a
//! plain function over the records it touches: the caller (the runtime that
//! loads and stores records, verifies signatures, reads the clock and moves
//! tokens) hands in the records, the authenticated actor identifiers and the
//! current timestamp, and stores back what the operation returns.

use vstd::prelude::*;

pub mod escalation;
pub mod reputation;
pub mod rewards;
pub mod submission;
pub mod voting;

verus! {

/// Opaque identifier of an external actor (submitter, voter or authority).
/// Identity verification happens before the core is called: an `ActorId`
/// is always an already-authenticated identity.
#[derive(Clone, Copy, PartialEq, Eq, Structural, Debug)]
pub struct ActorId {
    pub id: u64,
}

/// The typed failures of the governance operations. Every failure leaves all
/// records exactly as they were: a failed operation commits nothing.
#[derive(Clone, Copy, PartialEq, Eq, Structural, Debug)]
pub enum ErrorCode {
    /// A status or escalation precondition was violated.
    InvalidStatusTransition,
    /// The supplied report id does not match the supplied report.
    ReportNotFound,
    /// The external token transfer did not complete.
    InsufficientFunds,
    /// The caller is not the recognized program authority.
    Unauthorized,
    /// A text field exceeds its length bound.
    InputTooLong,
    /// The caller's reputation is below the required threshold.
    InsufficientReputation,
    /// The report is not in a status that accepts this operation.
    InvalidReportStatus,
    /// A vote record for this (voter, report) pair already exists.
    AlreadyVoted,
    /// The report carries no escalation to resolve.
    NoEscalationFound,
    /// The supplied submitter is not the report's submitter.
    InvalidSubmitter,
    /// The report's reward was already paid out.
    AlreadyRewarded,
    /// A record for this actor already exists.
    AlreadyExists,
    /// The supplied reputation record belongs to another actor.
    UserMismatch,
}

/// The process-wide aggregate: the recognized authority and the global
/// counters. Created once by `initialize`.
#[derive(Clone, Copy, PartialEq, Eq, Structural, Debug)]
pub struct ProgramState {
    pub authority: ActorId,
    pub bump: u8,
    pub report_count: u64,
    pub total_rewards_distributed: u64,
}

/// Creates the program state: records the recognized authority and starts
/// both global counters at zero.
pub fn initialize(authority: ActorId, bump: u8) -> (state: ProgramState)
    ensures
        state.authority == authority,
        state.bump == bump,
        state.report_count == 0,
        state.total_rewards_distributed == 0,
{
    ProgramState { authority, bump, report_count: 0, total_rewards_distributed: 0 }
}

} // verus!
