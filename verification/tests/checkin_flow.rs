use ahut_dorm_sign::domain::error::{DomainError, ErrorSource};
use ahut_dorm_sign::domain::school::checkin_flow::{
    CheckinAction, CheckinEvent, CheckinFailure, CheckinFlow, CheckinRequest, MissingRecord,
};
use ahut_dorm_sign::domain::school::policy::{SchoolAuthDecider, SchoolAuthPolicyConfig};
use ahut_dorm_sign::domain::school::session::SchoolSession;
use ahut_dorm_sign::domain::school::task::SchoolSignTask;
use ahut_dorm_sign::domain::school::token::SchoolToken;
use ahut_dorm_sign::infrastructure::school::repository::task_from_stored;
use ahut_dorm_sign::time::{Date, TimeOfDay, TimeSpan, UtcTime};

// 2024-06-03T12:00:00Z is Monday 20:00 in Shanghai.
const NOW: i64 = 1_717_416_000;

fn at(secs: i64) -> UtcTime {
    UtcTime::from_parts(secs, 0).unwrap()
}

fn decider() -> SchoolAuthDecider {
    SchoolAuthDecider::new(SchoolAuthPolicyConfig::new(TimeSpan::try_seconds(300).unwrap(), 2).unwrap())
}

fn request(student: &str, task: &str) -> CheckinRequest {
    CheckinRequest {
        owner_user_id: 0x0123456789abcdef0fedcba987654321,
        student_id: student.to_string(),
        school_task_id: task.to_string(),
        utc_now: at(NOW),
    }
}

fn session(expires_at: i64) -> SchoolSession {
    let token = SchoolToken::new("a".to_string(), "r".to_string(), at(expires_at)).unwrap();
    SchoolSession::new(1, "2023001".to_string(), token).unwrap()
}

fn task(days: &str) -> SchoolSignTask {
    task_from_stored(
        9,
        "2023001".to_string(),
        "T1".to_string(),
        "晚寝签到".to_string(),
        Date::from_days_from_ce(739038).unwrap(),
        Date::from_days_from_ce(739067).unwrap(),
        TimeOfDay::from_parts(19 * 3600, 0).unwrap(),
        TimeOfDay::from_parts(23 * 3600, 0).unwrap(),
        days,
        "Asia/Shanghai".to_string(),
    )
    .unwrap()
}

fn start(req: CheckinRequest) -> (CheckinFlow, CheckinAction) {
    CheckinFlow::new(req, decider()).step(CheckinEvent::Started)
}

#[test]
fn a_current_session_leads_straight_to_the_check_in() {
    let (f, a) = start(request("2023001", "T1"));
    assert!(matches!(a, CheckinAction::LoadUser));
    let (f, a) = f.step(CheckinEvent::UserLoaded(Ok(true)));
    assert!(matches!(a, CheckinAction::LoadSession));
    let (f, a) = f.step(CheckinEvent::SessionLoaded(Ok(Some(session(NOW + 3600)))));
    assert!(matches!(a, CheckinAction::LoadSession));
    let (f, a) = f.step(CheckinEvent::SessionLoaded(Ok(Some(session(NOW + 3600)))));
    assert!(matches!(a, CheckinAction::LoadTask));
    let (f, a) = f.step(CheckinEvent::TaskLoaded(Ok(Some(task("星期一")))));
    assert!(matches!(a, CheckinAction::PrepareContext(_)));
    let (f, a) = f.step(CheckinEvent::ContextPrepared(Ok(())));
    match &a {
        CheckinAction::Submit(s) => assert_eq!(s.access_token(), "a"),
        other => panic!("unexpected {other:?}"),
    }
    let (f, a) = f.step(CheckinEvent::Submitted(Ok(())));
    match a {
        CheckinAction::Succeed(r) => {
            assert_eq!(r.school_task_id, "T1");
            assert_eq!(r.task_title, "晚寝签到");
            assert_eq!(r.occurred_at_utc.secs(), NOW);
        }
        other => panic!("unexpected {other:?}"),
    }
    assert!(f.is_finished());
}

#[test]
fn without_a_session_the_user_authenticates_and_the_session_is_stored() {
    let (f, _) = start(request("2023001", "T1"));
    let (f, _) = f.step(CheckinEvent::UserLoaded(Ok(true)));
    let (f, a) = f.step(CheckinEvent::SessionLoaded(Ok(None)));
    assert!(matches!(a, CheckinAction::Authenticate));
    let token = SchoolToken::new("na".to_string(), "nr".to_string(), at(NOW + 7200)).unwrap();
    let (f, a) = f.step(CheckinEvent::Authenticated(Ok(token)));
    match &a {
        CheckinAction::SaveSession(s) => {
            assert_eq!(s.student_id(), "2023001");
            assert_eq!(s.access_token(), "na");
        }
        other => panic!("unexpected {other:?}"),
    }
    let (f, a) = f.step(CheckinEvent::SessionSaved(Ok(())));
    assert!(matches!(a, CheckinAction::LoadSession));
    let (f, a) = f.step(CheckinEvent::SessionLoaded(Ok(None)));
    let req = f.request();
    match a {
        CheckinAction::Fail(failure) => {
            assert!(matches!(failure, CheckinFailure::Missing(MissingRecord::SessionAfterAuthentication)));
            assert_eq!(
                req.failure_error(failure),
                DomainError::PersistenceCorrupted { message: "会话已持久化但未找到".to_string() }
            );
        }
        other => panic!("unexpected {other:?}"),
    }
}

#[test]
fn a_session_near_expiry_is_refreshed_and_stored() {
    let (f, _) = start(request("2023001", "T1"));
    let (f, _) = f.step(CheckinEvent::UserLoaded(Ok(true)));
    let (f, a) = f.step(CheckinEvent::SessionLoaded(Ok(Some(session(NOW + 100)))));
    assert!(matches!(a, CheckinAction::LoadSession));
    let (f, a) = f.step(CheckinEvent::SessionLoaded(Ok(Some(session(NOW + 100)))));
    assert!(matches!(a, CheckinAction::Refresh(_)));
    let token = SchoolToken::new("fresh".to_string(), "fr".to_string(), at(NOW + 7200)).unwrap();
    let (f, a) = f.step(CheckinEvent::Refreshed(Ok(token)));
    match &a {
        CheckinAction::SaveSession(s) => {
            assert_eq!(s.access_token(), "fresh");
            assert_eq!(s.owner_user_id(), 1);
        }
        other => panic!("unexpected {other:?}"),
    }
    let (_, a) = f.step(CheckinEvent::SessionSaved(Ok(())));
    assert!(matches!(a, CheckinAction::LoadSession));
}

#[test]
fn blank_inputs_fail_before_any_step() {
    let (f, a) = start(request(" ", "T1"));
    assert!(matches!(a, CheckinAction::Fail(CheckinFailure::Error(DomainError::BlankSchoolUserId))));
    assert!(f.is_finished());
    let (_, a) = start(request("2023001", ""));
    assert!(matches!(a, CheckinAction::Fail(CheckinFailure::Error(DomainError::BlankSchoolTaskId))));
}

#[test]
fn errors_of_steps_end_the_check_in_with_that_error() {
    let (f, _) = start(request("2023001", "T1"));
    let (f, a) = f.step(CheckinEvent::UserLoaded(Err(DomainError::RemoteTimeout { origin: ErrorSource::Local })));
    match a {
        CheckinAction::Fail(CheckinFailure::Error(e)) => {
            assert_eq!(e, DomainError::RemoteTimeout { origin: ErrorSource::Local })
        }
        other => panic!("unexpected {other:?}"),
    }
    let (_, a) = f.step(CheckinEvent::Started);
    assert!(matches!(
        a,
        CheckinAction::Fail(CheckinFailure::Error(DomainError::InvalidStateTransition))
    ));
}

#[test]
fn a_missing_user_is_reported_with_its_owner_and_student() {
    let (f, _) = start(request("2023001", "T1"));
    let (f, a) = f.step(CheckinEvent::UserLoaded(Ok(false)));
    match a {
        CheckinAction::Fail(failure) => assert_eq!(
            f.request().failure_error(failure),
            DomainError::PersistenceCorrupted {
                message: "缺少校园用户记录：owner_user_id=01234567-89ab-cdef-0fed-cba987654321, student_id=2023001"
                    .to_string()
            }
        ),
        other => panic!("unexpected {other:?}"),
    }
}

#[test]
fn a_missing_or_idle_task_is_not_submitted() {
    let to_task = || {
        let (f, _) = start(request("2023001", "T1"));
        let (f, _) = f.step(CheckinEvent::UserLoaded(Ok(true)));
        let (f, _) = f.step(CheckinEvent::SessionLoaded(Ok(Some(session(NOW + 3600)))));
        let (f, _) = f.step(CheckinEvent::SessionLoaded(Ok(Some(session(NOW + 3600)))));
        f
    };
    let (_, a) = to_task().step(CheckinEvent::TaskLoaded(Ok(None)));
    assert!(matches!(
        a,
        CheckinAction::Fail(CheckinFailure::Error(DomainError::TaskNotFound { ref task_id })) if task_id == "T1"
    ));
    let (_, a) = to_task().step(CheckinEvent::TaskLoaded(Ok(Some(task("星期二")))));
    assert!(matches!(a, CheckinAction::Fail(CheckinFailure::Error(DomainError::NotRunnableNow))));
}
