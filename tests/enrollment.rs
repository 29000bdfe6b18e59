use enroll::enroll::{stage_count, EnrollEvent, EnrollStatus, EnrollmentAttempt};
use enroll::error::AppError;
use enroll::session::{BusCall, Next, Scope};
use enroll::signal::SignalKind;

fn running(total: Option<u32>) -> EnrollmentAttempt {
    let mut a = EnrollmentAttempt::new("alice".to_string(), "right-index-finger".to_string(), total);
    assert_eq!(a.begin(), BusCall::Claim);
    let s = a.on_claim(Ok(()));
    assert_eq!(s.calls, vec![BusCall::EnrollStart("right-index-finger".to_string())]);
    assert_eq!(s.event, None);
    let s = a.on_start(Ok(()));
    assert_eq!(s.event, Some(EnrollEvent::Start(total)));
    assert_eq!(a.status(), EnrollStatus::InProgress);
    a
}

fn run_scope(scope: &mut Scope, replies: Vec<Result<Vec<String>, AppError>>) -> Vec<Next> {
    let mut out = vec![Next::Call(scope.start())];
    for r in replies {
        out.push(scope.on_reply(r));
    }
    out
}

#[test]
fn scenario_full_enrollment_then_relist() {
    let mut a = running(Some(5));
    let mut stages = Vec::new();
    for _ in 0..5 {
        let s = a.on_signal("enroll-stage-passed", false);
        match s.event {
            Some(EnrollEvent::Progress(SignalKind::StagePassed, n)) => stages.push(n),
            other => panic!("unexpected {other:?}"),
        }
        assert!(s.calls.is_empty());
    }
    assert_eq!(stages, vec![1, 2, 3, 4, 5]);
    let s = a.on_signal("enroll-completed", true);
    assert_eq!(
        s.event,
        Some(EnrollEvent::Done(EnrollStatus::Completed, "enroll-completed".to_string()))
    );
    assert_eq!(s.calls, vec![BusCall::EnrollStop, BusCall::Release]);
    assert!(s.relist);
    assert!(!a.is_claimed());

    let mut list = Scope::list("alice".to_string());
    let out = run_scope(
        &mut list,
        vec![Ok(vec![]), Ok(vec!["right-index-finger".to_string()]), Ok(vec![])],
    );
    assert_eq!(
        out,
        vec![
            Next::Call(BusCall::Claim),
            Next::Call(BusCall::ListFingers("alice".to_string())),
            Next::Call(BusCall::Release),
            Next::Finished(Ok(vec!["right-index-finger".to_string()])),
        ]
    );
}

#[test]
fn scenario_stop_mid_enrollment() {
    let mut a = running(Some(5));
    a.on_signal("enroll-stage-passed", false);
    a.on_signal("enroll-stage-passed", false);
    assert_eq!(a.current_stage(), 2);
    let s = a.stop();
    assert_eq!(
        s.event,
        Some(EnrollEvent::Done(EnrollStatus::Cancelled, "enroll-cancelled".to_string()))
    );
    assert_eq!(s.calls, vec![BusCall::EnrollStop, BusCall::Release]);
    assert!(!s.relist);
    assert_eq!(a.status(), EnrollStatus::Cancelled);
    assert!(!a.is_claimed());
    assert_eq!(a.current_stage(), 2);
}

#[test]
fn scenario_clear_stops_at_first_failure() {
    let users = vec!["alice".to_string(), "bob".to_string()];
    let mut scope = Scope::clear_all_users(&users);
    let out = run_scope(
        &mut scope,
        vec![Ok(vec![]), Ok(vec![]), Err(AppError::PermissionDenied), Ok(vec![])],
    );
    assert_eq!(
        out,
        vec![
            Next::Call(BusCall::Claim),
            Next::Call(BusCall::DeleteFingers("alice".to_string())),
            Next::Call(BusCall::DeleteFingers("bob".to_string())),
            Next::Call(BusCall::Release),
            Next::Finished(Err(AppError::PermissionDenied)),
        ]
    );
}

#[test]
fn clear_of_users_without_prints_succeeds() {
    let users = vec!["alice".to_string(), "bob".to_string()];
    let mut scope = Scope::clear_all_users(&users);
    let absent = enroll::registry::deletion_reply(
        Some("net.reactivated.Fprint.Error.NoEnrolledPrints"),
        "no prints",
    );
    let out = run_scope(&mut scope, vec![Ok(vec![]), absent.clone(), absent, Err(AppError::Timeout)]);
    assert_eq!(out.last(), Some(&Next::Finished(Ok(vec![]))));
}

#[test]
fn release_follows_every_successful_claim() {
    // failed claim: nothing to release
    let mut s = Scope::delete_all("alice".to_string());
    let out = run_scope(&mut s, vec![Err(AppError::AlreadyInUse)]);
    assert_eq!(out[1], Next::Finished(Err(AppError::AlreadyInUse)));
    // failed body: released, then the error
    let mut s = Scope::delete_one("alice".to_string(), "left-thumb".to_string());
    let out = run_scope(&mut s, vec![Ok(vec![]), Err(AppError::Timeout), Err(AppError::Timeout)]);
    assert_eq!(
        out,
        vec![
            Next::Call(BusCall::Claim),
            Next::Call(BusCall::DeleteFinger("alice".to_string(), "left-thumb".to_string())),
            Next::Call(BusCall::Release),
            Next::Finished(Err(AppError::Timeout)),
        ]
    );
    // empty body: claim, release, done
    let mut s = Scope::new(Vec::new());
    let out = run_scope(&mut s, vec![Ok(vec![]), Ok(vec![])]);
    assert_eq!(out[1], Next::Call(BusCall::Release));
    assert_eq!(out[2], Next::Finished(Ok(vec![])));
}

#[test]
fn stage_count_stays_within_total() {
    let mut a = running(Some(2));
    for _ in 0..4 {
        a.on_signal("enroll-stage-passed", false);
    }
    assert_eq!(a.current_stage(), 2);
    let s = a.on_signal("enroll-swipe-too-short", false);
    assert_eq!(s.event, Some(EnrollEvent::Progress(SignalKind::SwipeTooShort, 2)));
    assert_eq!(a.current_stage(), 2);
}

#[test]
fn stage_count_without_total() {
    let mut a = running(None);
    for _ in 0..7 {
        a.on_signal("enroll-stage-passed", false);
    }
    assert_eq!(a.current_stage(), 7);
    assert_eq!(a.total_stages(), None);
}

#[test]
fn unrecognized_status_passes_through() {
    let mut a = running(Some(5));
    let s = a.on_signal("enroll-sparkles", false);
    assert_eq!(s.event, Some(EnrollEvent::Notice("enroll-sparkles".to_string())));
    assert_eq!(a.status(), EnrollStatus::InProgress);
    assert_eq!(a.current_stage(), 0);
}

#[test]
fn nothing_follows_the_end() {
    let mut a = running(Some(5));
    let s = a.on_signal("enroll-duplicate", false);
    assert_eq!(
        s.event,
        Some(EnrollEvent::Done(EnrollStatus::Failed, "enroll-duplicate".to_string()))
    );
    assert!(!s.relist);
    let s = a.on_signal("enroll-stage-passed", false);
    assert_eq!(s.event, None);
    assert!(s.calls.is_empty());
    let s = a.stop();
    assert_eq!(s.event, None);
    assert!(s.calls.is_empty());
    assert_eq!(a.status(), EnrollStatus::Failed);
}

#[test]
fn done_flag_ends_enrollment() {
    let mut a = running(Some(5));
    let s = a.on_signal("enroll-unknown-error", true);
    assert_eq!(
        s.event,
        Some(EnrollEvent::Done(EnrollStatus::Failed, "enroll-unknown-error".to_string()))
    );
    assert_eq!(s.calls, vec![BusCall::EnrollStop, BusCall::Release]);
}

#[test]
fn refused_claim_and_failed_start() {
    let mut a = EnrollmentAttempt::new("bob".to_string(), "left-thumb".to_string(), None);
    a.begin();
    let s = a.on_claim(Err(AppError::AlreadyInUse));
    assert_eq!(s.event, Some(EnrollEvent::Error(AppError::AlreadyInUse)));
    assert!(s.calls.is_empty());
    assert_eq!(a.status(), EnrollStatus::Failed);

    let mut a = EnrollmentAttempt::new("bob".to_string(), "left-thumb".to_string(), None);
    a.begin();
    a.on_claim(Ok(()));
    let s = a.on_start(Err(AppError::Timeout));
    assert_eq!(s.event, Some(EnrollEvent::Error(AppError::Timeout)));
    assert_eq!(s.calls, vec![BusCall::Release]);
    assert!(!a.is_claimed());
}

#[test]
fn stop_before_claim_is_answered_releases_late_claim() {
    let mut a = EnrollmentAttempt::new("bob".to_string(), "left-thumb".to_string(), None);
    a.begin();
    let s = a.stop();
    assert!(s.calls.is_empty());
    assert_eq!(
        s.event,
        Some(EnrollEvent::Done(EnrollStatus::Cancelled, "enroll-cancelled".to_string()))
    );
    let s = a.on_claim(Ok(()));
    assert_eq!(s.calls, vec![BusCall::Release]);
    assert_eq!(s.event, None);
}

#[test]
fn signal_vocabulary() {
    assert_eq!(SignalKind::parse("enroll-stage-passed"), Some(SignalKind::StagePassed));
    assert_eq!(SignalKind::parse("enroll-retry-scan"), Some(SignalKind::RetryScan));
    assert_eq!(SignalKind::parse("enroll-data-full"), Some(SignalKind::DataFull));
    assert_eq!(SignalKind::parse("enroll-cancelled"), Some(SignalKind::Cancelled));
    assert_eq!(SignalKind::parse("enroll"), None);
    assert!(SignalKind::TooFast.terminal());
    assert!(!SignalKind::RemoveAndRetry.terminal());
}

#[test]
fn done_before_start_reply_ends_enrollment() {
    let mut a = EnrollmentAttempt::new("bob".to_string(), "left-thumb".to_string(), None);
    a.begin();
    a.on_claim(Ok(()));
    let s = a.on_signal("enroll-disconnected", true);
    assert_eq!(
        s.event,
        Some(EnrollEvent::Done(EnrollStatus::Failed, "enroll-disconnected".to_string()))
    );
    assert_eq!(s.calls, vec![BusCall::EnrollStop, BusCall::Release]);
    assert!(!a.is_claimed());
    let s = a.on_start(Ok(()));
    assert_eq!(s.event, None);
    assert!(s.calls.is_empty());
    // a status that does not end it is ignored before the start reply
    let mut b = EnrollmentAttempt::new("bob".to_string(), "left-thumb".to_string(), None);
    b.begin();
    b.on_claim(Ok(()));
    let s = b.on_signal("enroll-stage-passed", false);
    assert_eq!(s.event, None);
    assert_eq!(b.current_stage(), 0);
}

#[test]
fn reported_stage_counts() {
    assert_eq!(stage_count(5), Some(5));
    assert_eq!(stage_count(0), None);
    assert_eq!(stage_count(-1), None);
}
