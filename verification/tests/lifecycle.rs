use civicaid_dao::ActorId;
use civicaid_dao::ErrorCode;
use civicaid_dao::escalation::{
    escalate_report, resolve_escalation, EscalationReason, MINIMUM_REPUTATION_FOR_ESCALATION,
};
use civicaid_dao::reputation::UserReputation;
use civicaid_dao::rewards::{
    calculate_reward_amount, check_reward_eligibility, distribute_rewards, FIXED_REWARD_AMOUNT,
};
use civicaid_dao::submission::{submit_report, update_report_status, Report, ReportCategory, ReportStatus};

fn rep(id: u64, score: i64) -> UserReputation {
    UserReputation {
        user: ActorId { id },
        reputation_score: score,
        reports_submitted: 0,
        reports_validated: 0,
        last_updated: 0,
    }
}

fn fresh_report(report_id: u64, submitter_rep: &mut UserReputation) -> Report {
    let (report, _) = submit_report(
        report_id,
        submitter_rep.user,
        String::from("fallen tree blocks the path"),
        String::from("river park"),
        String::from("cafe0123"),
        ReportCategory::EnvironmentalConcern,
        submitter_rep,
        1000,
    )
    .unwrap();
    report
}

fn approved_report(report_id: u64, submitter_rep: &mut UserReputation) -> Report {
    let authority = ActorId { id: 9 };
    let mut report = fresh_report(report_id, submitter_rep);
    update_report_status(&mut report, report_id, ReportStatus::Approved, authority, authority)
        .unwrap();
    report
}

#[test]
fn escalate_below_threshold_rejected() {
    let mut srep = rep(1, 0);
    let mut report = fresh_report(20, &mut srep);
    let user = ActorId { id: 50 };
    let urep = rep(50, 50);
    let res = escalate_report(
        &mut report,
        20,
        user,
        &urep,
        EscalationReason::Urgent,
        String::from("school route"),
        3000,
    );
    assert_eq!(res, Err(ErrorCode::InsufficientReputation));
    assert_eq!(report.status, ReportStatus::Submitted);
    assert!(report.escalation.is_none());
}

#[test]
fn escalate_at_threshold_moves_to_under_review() {
    let mut srep = rep(1, 0);
    let mut report = fresh_report(21, &mut srep);
    let user = ActorId { id: 51 };
    let urep = rep(51, 150);
    assert!(urep.reputation_score >= MINIMUM_REPUTATION_FOR_ESCALATION);
    let event = escalate_report(
        &mut report,
        21,
        user,
        &urep,
        EscalationReason::PublicSafety,
        String::from("open manhole"),
        3000,
    )
    .unwrap();
    assert_eq!(report.status, ReportStatus::UnderReview);
    let details = report.escalation.as_ref().unwrap();
    assert_eq!(details.reason, EscalationReason::PublicSafety);
    assert_eq!(details.description, "open manhole");
    assert_eq!(details.escalated_at, 3000);
    assert_eq!(details.escalated_by, user);
    assert!(!details.resolved);
    assert!(details.resolution_details.is_none());
    assert_eq!(event.report_id, 21);
    assert_eq!(event.escalated_by, user);
    assert_eq!(event.reason, EscalationReason::PublicSafety);
}

#[test]
fn escalate_twice_keeps_latest_details() {
    let mut srep = rep(1, 0);
    let mut report = fresh_report(22, &mut srep);
    let first = ActorId { id: 52 };
    let first_rep = rep(52, 200);
    escalate_report(
        &mut report,
        22,
        first,
        &first_rep,
        EscalationReason::Urgent,
        String::from("first reason"),
        3000,
    )
    .unwrap();
    assert_eq!(report.status, ReportStatus::UnderReview);
    let second = ActorId { id: 53 };
    let second_rep = rep(53, 300);
    let res = escalate_report(
        &mut report,
        22,
        second,
        &second_rep,
        EscalationReason::RecurringIssue,
        String::from("second reason"),
        4000,
    );
    assert!(res.is_ok());
    assert_eq!(report.status, ReportStatus::UnderReview);
    let details = report.escalation.as_ref().unwrap();
    assert_eq!(details.reason, EscalationReason::RecurringIssue);
    assert_eq!(details.description, "second reason");
    assert_eq!(details.escalated_at, 4000);
    assert_eq!(details.escalated_by, second);
}

#[test]
fn escalate_terminal_status_rejected() {
    let mut srep = rep(1, 0);
    let mut report = approved_report(23, &mut srep);
    let urep = rep(54, 500);
    let res = escalate_report(
        &mut report,
        23,
        ActorId { id: 54 },
        &urep,
        EscalationReason::Other,
        String::from("too late"),
        3000,
    );
    assert_eq!(res, Err(ErrorCode::InvalidStatusTransition));
    assert_eq!(report.status, ReportStatus::Approved);
}

#[test]
fn escalate_wrong_id_rejected() {
    let mut srep = rep(1, 0);
    let mut report = fresh_report(24, &mut srep);
    let urep = rep(55, 500);
    let res = escalate_report(
        &mut report,
        99,
        ActorId { id: 55 },
        &urep,
        EscalationReason::Other,
        String::from("misdirected"),
        3000,
    );
    assert_eq!(res, Err(ErrorCode::ReportNotFound));
}

#[test]
fn resolve_without_escalation_rejected() {
    let authority = ActorId { id: 9 };
    let mut srep = rep(1, 0);
    let mut report = fresh_report(25, &mut srep);
    let res = resolve_escalation(
        &mut report,
        25,
        authority,
        authority,
        String::from("nothing to resolve"),
        5000,
    );
    assert_eq!(res, Err(ErrorCode::NoEscalationFound));
    assert_eq!(report.status, ReportStatus::Submitted);
}

#[test]
fn resolve_marks_escalation_resolved() {
    let authority = ActorId { id: 9 };
    let mut srep = rep(1, 0);
    let mut report = fresh_report(26, &mut srep);
    let urep = rep(56, 150);
    escalate_report(
        &mut report,
        26,
        ActorId { id: 56 },
        &urep,
        EscalationReason::HighImpact,
        String::from("bridge damage"),
        3000,
    )
    .unwrap();
    let event = resolve_escalation(
        &mut report,
        26,
        authority,
        authority,
        String::from("repair crew dispatched"),
        5000,
    )
    .unwrap();
    assert_eq!(report.status, ReportStatus::Resolved);
    let details = report.escalation.as_ref().unwrap();
    assert!(details.resolved);
    assert_eq!(
        details.resolution_details.as_deref(),
        Some("repair crew dispatched")
    );
    assert_eq!(details.reason, EscalationReason::HighImpact);
    assert_eq!(details.description, "bridge damage");
    assert_eq!(event.report_id, 26);
    assert_eq!(event.resolved_by, authority);
}

#[test]
fn resolve_requires_authority() {
    let mut srep = rep(1, 0);
    let mut report = fresh_report(27, &mut srep);
    let urep = rep(57, 150);
    escalate_report(
        &mut report,
        27,
        ActorId { id: 57 },
        &urep,
        EscalationReason::Urgent,
        String::from("live wire"),
        3000,
    )
    .unwrap();
    let res = resolve_escalation(
        &mut report,
        27,
        ActorId { id: 57 },
        ActorId { id: 9 },
        String::from("not yours to resolve"),
        5000,
    );
    assert_eq!(res, Err(ErrorCode::Unauthorized));
    assert_eq!(report.status, ReportStatus::UnderReview);
    assert!(!report.escalation.as_ref().unwrap().resolved);
}

#[test]
fn resolve_is_terminal_for_escalation() {
    let authority = ActorId { id: 9 };
    let mut srep = rep(1, 0);
    let mut report = fresh_report(28, &mut srep);
    let urep = rep(58, 150);
    escalate_report(
        &mut report,
        28,
        ActorId { id: 58 },
        &urep,
        EscalationReason::Urgent,
        String::from("gas smell"),
        3000,
    )
    .unwrap();
    resolve_escalation(&mut report, 28, authority, authority, String::from("fixed"), 5000)
        .unwrap();
    let re_escalate = escalate_report(
        &mut report,
        28,
        ActorId { id: 58 },
        &urep,
        EscalationReason::Urgent,
        String::from("again"),
        6000,
    );
    assert_eq!(re_escalate, Err(ErrorCode::InvalidStatusTransition));
    let re_resolve = resolve_escalation(
        &mut report,
        28,
        authority,
        authority,
        String::from("again"),
        6000,
    );
    assert_eq!(re_resolve, Err(ErrorCode::InvalidStatusTransition));
    assert_eq!(report.status, ReportStatus::Resolved);
}

#[test]
fn reward_amount_is_fixed() {
    let mut srep = rep(1, 0);
    let report = approved_report(30, &mut srep);
    assert_eq!(calculate_reward_amount(&report), FIXED_REWARD_AMOUNT);
    assert_eq!(
        check_reward_eligibility(&report, 30, ActorId { id: 1 }),
        Ok(FIXED_REWARD_AMOUNT)
    );
}

#[test]
fn distribute_twice_second_fails() {
    let mut srep = rep(1, 0);
    let mut report = approved_report(31, &mut srep);
    let event = distribute_rewards(&mut report, 31, ActorId { id: 1 }, true).unwrap();
    assert!(report.reward_distributed);
    assert_eq!(event.report_id, 31);
    assert_eq!(event.submitter, ActorId { id: 1 });
    assert_eq!(event.amount, FIXED_REWARD_AMOUNT);
    let second = distribute_rewards(&mut report, 31, ActorId { id: 1 }, true);
    assert_eq!(second, Err(ErrorCode::AlreadyRewarded));
    assert!(report.reward_distributed);
}

#[test]
fn failed_transfer_leaves_reward_retryable() {
    let mut srep = rep(1, 0);
    let mut report = approved_report(32, &mut srep);
    let res = distribute_rewards(&mut report, 32, ActorId { id: 1 }, false);
    assert_eq!(res, Err(ErrorCode::InsufficientFunds));
    assert!(!report.reward_distributed);
    let retry = distribute_rewards(&mut report, 32, ActorId { id: 1 }, true);
    assert!(retry.is_ok());
    assert!(report.reward_distributed);
}

#[test]
fn distribute_wrong_submitter_rejected() {
    let mut srep = rep(1, 0);
    let mut report = approved_report(33, &mut srep);
    let res = distribute_rewards(&mut report, 33, ActorId { id: 2 }, true);
    assert_eq!(res, Err(ErrorCode::InvalidSubmitter));
    assert!(!report.reward_distributed);
}

#[test]
fn distribute_wrong_id_rejected() {
    let mut srep = rep(1, 0);
    let mut report = approved_report(34, &mut srep);
    let res = distribute_rewards(&mut report, 99, ActorId { id: 1 }, true);
    assert_eq!(res, Err(ErrorCode::ReportNotFound));
}

#[test]
fn distribute_unapproved_report_rejected() {
    let mut srep = rep(1, 0);
    let mut report = fresh_report(35, &mut srep);
    let res = distribute_rewards(&mut report, 35, ActorId { id: 1 }, true);
    assert_eq!(res, Err(ErrorCode::InvalidReportStatus));
    assert!(!report.reward_distributed);
}
