use ahut_dorm_sign::domain::error::DomainError;
use ahut_dorm_sign::infrastructure::repository::{map_store_failure, StoreFailure};
use ahut_dorm_sign::infrastructure::school::repository::{
    first_runnable, session_from_stored, task_from_stored, user_from_stored,
};
use ahut_dorm_sign::time::{Date, TimeOfDay, UtcTime};

fn task(id: u128, days: &str, zone: &str) -> ahut_dorm_sign::domain::school::task::SchoolSignTask {
    task_from_stored(
        id,
        "s".to_string(),
        "T".to_string(),
        "title".to_string(),
        Date::from_days_from_ce(739038).unwrap(),
        Date::from_days_from_ce(739067).unwrap(),
        TimeOfDay::from_parts(19 * 3600, 0).unwrap(),
        TimeOfDay::from_parts(23 * 3600, 0).unwrap(),
        days,
        zone.to_string(),
    )
    .unwrap()
}

#[test]
fn store_failures_become_domain_errors() {
    assert_eq!(
        map_store_failure(StoreFailure::Unavailable { text: "pool timed out".to_string() }),
        DomainError::PersistenceUnavailable { message: "PostgreSQL 不可用: pool timed out".to_string() }
    );
    assert_eq!(
        map_store_failure(StoreFailure::RowNotFound),
        DomainError::PersistenceCorrupted { message: "在非预期上下文中未找到记录".to_string() }
    );
    assert_eq!(
        map_store_failure(StoreFailure::Database { code: Some("40P01".to_string()), message: "deadlock".to_string() }),
        DomainError::PersistenceConflict { message: "PostgreSQL 并发冲突(40P01): deadlock".to_string() }
    );
    assert_eq!(
        map_store_failure(StoreFailure::Database { code: Some("23505".to_string()), message: "dup".to_string() }),
        DomainError::PersistenceConflict { message: "PostgreSQL 约束冲突(23505): dup".to_string() }
    );
    assert_eq!(
        map_store_failure(StoreFailure::Database { code: Some("42P01".to_string()), message: "no table".to_string() }),
        DomainError::PersistenceCorrupted { message: "PostgreSQL 数据库错误(42P01): no table".to_string() }
    );
    assert_eq!(
        map_store_failure(StoreFailure::Database { code: None, message: "m".to_string() }),
        DomainError::PersistenceCorrupted { message: "PostgreSQL 数据库错误: m".to_string() }
    );
    assert_eq!(
        map_store_failure(StoreFailure::Other { text: "x".to_string() }),
        DomainError::PersistenceCorrupted { message: "PostgreSQL 未预期错误: x".to_string() }
    );
}

#[test]
fn stored_tasks_fall_back_to_the_school_zone() {
    assert_eq!(task(1, "星期一", "Europe/Berlin").time_zone().name(), "Europe/Berlin");
    assert_eq!(task(1, "星期一", "Mars/Base").time_zone().name(), "Asia/Shanghai");
    let bad = task_from_stored(
        1,
        "s".to_string(),
        "T".to_string(),
        "t".to_string(),
        Date::from_days_from_ce(739067).unwrap(),
        Date::from_days_from_ce(739038).unwrap(),
        TimeOfDay::from_parts(0, 0).unwrap(),
        TimeOfDay::from_parts(1, 0).unwrap(),
        "星期一",
        "Asia/Shanghai".to_string(),
    );
    assert_eq!(bad.unwrap_err(), DomainError::InvalidDateRange);
}

#[test]
fn the_first_runnable_task_is_chosen() {
    // Monday 20:00 in Shanghai.
    let now = UtcTime::from_parts(1_717_416_000, 0).unwrap();
    let tasks = vec![task(1, "星期二", "Asia/Shanghai"), task(2, "星期一", "Asia/Shanghai"), task(3, "星期一", "Asia/Shanghai")];
    assert_eq!(first_runnable(tasks, &now).unwrap().id(), 2);
    assert!(first_runnable(vec![task(1, "星期日", "Asia/Shanghai")], &now).is_none());
}

#[test]
fn stored_sessions_and_users_are_checked() {
    let t = UtcTime::from_parts(10, 0).unwrap();
    assert_eq!(
        session_from_stored(1, "s".to_string(), " ".to_string(), "r".to_string(), t).unwrap_err(),
        DomainError::BlankToken
    );
    assert_eq!(
        session_from_stored(1, "".to_string(), "a".to_string(), "r".to_string(), t).unwrap_err(),
        DomainError::BlankSchoolUserId
    );
    assert_eq!(session_from_stored(1, "s".to_string(), "a".to_string(), "r".to_string(), t).unwrap().refresh_token(), "r");
    assert_eq!(
        user_from_stored("s".to_string(), 1, "n".to_string(), "garbage").unwrap_err(),
        DomainError::InvalidCredentialEnvelope
    );
    let u = user_from_stored("s".to_string(), 1, "n".to_string(), "1:AES-256-GCM:cA==:cw==:bg==:Yw==").unwrap();
    assert_eq!(u.credential_storage(), "1:AES-256-GCM:cA==:cw==:bg==:Yw==");
    assert_eq!(
        user_from_stored("s".to_string(), 1, " ".to_string(), "1:AES-256-GCM:cA==:cw==:bg==:Yw==").unwrap_err(),
        DomainError::BlankUserName
    );
}
