use ahut_dorm_sign::domain::error::{DomainError, ErrorKind, ErrorSource};
use ahut_dorm_sign::domain::school::policy::{
    AuthDecision, BusinessDecision, SchoolAuthDecider, SchoolAuthPolicyConfig, SchoolBusinessDecider,
    SchoolBusinessPolicyConfig,
};
use ahut_dorm_sign::domain::school::task_run::{DelayPolicy, RunEvent, RunState, SchoolSignRun};
use ahut_dorm_sign::time::{Date, TimeSpan, UtcTime};

fn at(secs: i64) -> UtcTime {
    UtcTime::from_parts(secs, 0).unwrap()
}

fn run() -> SchoolSignRun {
    SchoolSignRun::schedule(1, 2, "s".to_string(), Date::from_days_from_ce(739038).unwrap(), at(0)).unwrap()
}

#[test]
fn a_run_goes_through_its_states() {
    let mut r = run();
    assert_eq!(r.state(), RunState::Pending);
    assert_eq!(r.apply(RunEvent::Start, at(1)), Err(DomainError::InvalidStateTransition));
    assert_eq!(r.state(), RunState::Pending);
    r.apply(RunEvent::Enqueue, at(1)).unwrap();
    r.apply(RunEvent::Start, at(2)).unwrap();
    assert_eq!(r.attempt_no(), 1);
    assert_eq!(r.started_at().unwrap().secs(), 2);
    r.apply(RunEvent::Succeed, at(3)).unwrap();
    assert_eq!(r.state(), RunState::Finished);
    assert_eq!(r.finished_at().unwrap().secs(), 3);
    assert_eq!(r.apply(RunEvent::Cancel, at(4)), Err(DomainError::InvalidStateTransition));
    assert_eq!(r.state(), RunState::Finished);
}

#[test]
fn a_blank_student_cannot_be_scheduled() {
    assert_eq!(
        SchoolSignRun::schedule(1, 2, " ".to_string(), Date::from_days_from_ce(1).unwrap(), at(0)).unwrap_err(),
        DomainError::BlankSchoolUserId
    );
}

#[test]
fn a_retryable_failure_is_retried_with_back_off_then_stopped() {
    let decider = SchoolBusinessDecider::new(SchoolBusinessPolicyConfig::new(1).unwrap());
    let delay = DelayPolicy { base_delay_seconds: 10 };
    let mut r = run();
    r.apply(RunEvent::Enqueue, at(0)).unwrap();
    r.apply(RunEvent::Start, at(100)).unwrap();
    let timeout = DomainError::RemoteTimeout { origin: ErrorSource::School };
    r.apply_failure_after_error(at(100), &timeout, &decider, &delay).unwrap();
    assert_eq!(r.state(), RunState::Waiting);
    assert_eq!(r.next_retry_at().unwrap().secs(), 110);
    r.apply(RunEvent::Start, at(110)).unwrap();
    assert_eq!(r.attempt_no(), 2);
    r.apply_failure_after_error(at(110), &timeout, &decider, &delay).unwrap();
    assert_eq!(r.state(), RunState::Failed);
    assert!(r.next_retry_at().is_none());
}

#[test]
fn an_already_signed_failure_counts_as_success() {
    let decider = SchoolBusinessDecider::new(SchoolBusinessPolicyConfig::new(3).unwrap());
    let delay = DelayPolicy { base_delay_seconds: 10 };
    let mut r = run();
    r.apply(RunEvent::Enqueue, at(0)).unwrap();
    r.apply(RunEvent::Start, at(1)).unwrap();
    r.apply_failure_after_error(at(2), &DomainError::AlreadySigned { origin: ErrorSource::School }, &decider, &delay)
        .unwrap();
    assert_eq!(r.state(), RunState::Finished);
}

#[test]
fn back_off_doubles_per_attempt() {
    let d = DelayPolicy { base_delay_seconds: 5 };
    assert_eq!(d.next_retry_at(1, at(0)).secs(), 5);
    assert_eq!(d.next_retry_at(2, at(0)).secs(), 10);
    assert_eq!(d.next_retry_at(4, at(0)).secs(), 40);
    assert_eq!(d.next_retry_at(0, at(0)).secs(), 5);
}

#[test]
fn errors_are_classified_for_handling() {
    assert_eq!(DomainError::BlankTitle.kind(), ErrorKind::Terminal);
    assert_eq!(DomainError::Unauthorized { origin: ErrorSource::School }.kind(), ErrorKind::ReauthRequired);
    assert_eq!(DomainError::RemoteUnavailable { origin: ErrorSource::School }.kind(), ErrorKind::Retryable);
    let rejected = |c| DomainError::UpstreamRejected { origin: ErrorSource::School, code: Some(c), message: String::new() };
    assert_eq!(rejected(403).kind(), ErrorKind::ReauthRequired);
    assert_eq!(rejected(503).kind(), ErrorKind::Retryable);
    assert_eq!(rejected(400).kind(), ErrorKind::Terminal);
    assert_eq!(rejected(400).source(), ErrorSource::School);
    assert_eq!(DomainError::BlankTitle.source(), ErrorSource::Local);
}

#[test]
fn policies_decide_from_the_error() {
    let auth = SchoolAuthDecider::new(SchoolAuthPolicyConfig::new(TimeSpan::try_seconds(60).unwrap(), 1).unwrap());
    assert_eq!(auth.decide_after_error(&DomainError::TokenExpired { origin: ErrorSource::School }), AuthDecision::ReAuthenticate);
    assert_eq!(auth.decide_after_error(&DomainError::RemoteTimeout { origin: ErrorSource::School }), AuthDecision::RefreshToken);
    assert_eq!(auth.decide_after_error(&DomainError::BlankTitle), AuthDecision::UseCurrentToken);
    let biz = SchoolBusinessDecider::new(SchoolBusinessPolicyConfig::new(2).unwrap());
    let t = DomainError::RemoteTimeout { origin: ErrorSource::School };
    assert_eq!(biz.decide_after_error(&t, 1), BusinessDecision::Retry);
    assert_eq!(biz.decide_after_error(&t, 2), BusinessDecision::Stop);
    assert_eq!(SchoolBusinessPolicyConfig::new(0).unwrap_err(), DomainError::InvalidRetryTimes(0));
    assert_eq!(
        SchoolAuthPolicyConfig::new(TimeSpan::try_seconds(-5).unwrap(), 1).unwrap_err(),
        DomainError::InvalidTokenRefreshSkewSeconds(-5)
    );
}
