use ahut_dorm_sign::domain::error::{DomainError, ErrorSource};
use ahut_dorm_sign::infrastructure::school::gateway::{
    api_log_outcome, api_url, auth_query, checkin_time_fields, refresh_query, submit_outcome,
    task_from_item, task_from_parsed, task_list_from_resp, task_list_referer, tasks_from_records,
    token_from_auth_resp, token_from_refresh_resp, wechat_config_path, TOKEN_PATH,
};
use ahut_dorm_sign::infrastructure::school::gateway_support::{
    build_wechat_headers, ensure_api_success, map_transport_err, map_upstream_rejected,
    school_time_zone, token_expired_at, ApiResp, TaskItem, TaskListData, TokenResp,
};
use ahut_dorm_sign::domain::school::session::SchoolSession;
use ahut_dorm_sign::domain::school::token::SchoolToken;
use ahut_dorm_sign::time::{UtcTime, Weekday};

fn at(secs: i64) -> UtcTime {
    UtcTime::from_parts(secs, 0).unwrap()
}

fn item() -> TaskItem {
    TaskItem {
        task_id: "T1".to_string(),
        task_name: "晚寝签到".to_string(),
        task_start_date: "2024-06-01".to_string(),
        task_end_date: "2024-06-30".to_string(),
        sign_start_time: "19:00".to_string(),
        sign_end_time: "23:00".to_string(),
        sign_week: "星期一,星期三".to_string(),
    }
}

#[test]
fn endpoint_addresses_join_below_the_base() {
    assert_eq!(
        api_url("https://xskq.ahut.edu.cn/api/", TOKEN_PATH).unwrap(),
        "https://xskq.ahut.edu.cn/api/flySource-auth/oauth/token"
    );
    match api_url("not a url", "x") {
        Err(DomainError::UpstreamRejected { origin, code, message }) => {
            assert_eq!(origin, ErrorSource::School);
            assert_eq!(code, None);
            assert_eq!(message, "url 拼接失败: x");
        }
        other => panic!("unexpected {other:?}"),
    }
}

#[test]
fn login_and_refresh_queries_carry_the_fixed_parameters() {
    let q = auth_query("2023001", "secret");
    assert_eq!(q[0], ("tenantId".to_string(), "000000".to_string()));
    assert_eq!(q[1], ("username".to_string(), "2023001".to_string()));
    assert_eq!(q[2], ("password".to_string(), "secret".to_string()));
    assert_eq!(q[5], ("scope".to_string(), "all".to_string()));
    let r = refresh_query("rt");
    assert_eq!(r[1], ("grant_type".to_string(), "refresh_token".to_string()));
    assert_eq!(r[3], ("refresh_token".to_string(), "rt".to_string()));
}

#[test]
fn a_login_reply_gives_a_token_that_lives_an_hour_by_default() {
    let now = at(1_700_000_000);
    let body = TokenResp {
        access_token: Some("a".to_string()),
        refresh_token: None,
        expires_in: None,
        error_description: None,
    };
    let t = token_from_auth_resp(body, &now).unwrap();
    assert_eq!(t.access_token(), "a");
    assert_eq!(t.refresh_token(), "a");
    assert_eq!(t.expired_at().secs(), 1_700_003_600);
    let body = TokenResp {
        access_token: Some("a".to_string()),
        refresh_token: Some("r".to_string()),
        expires_in: Some(60),
        error_description: None,
    };
    let t = token_from_auth_resp(body, &now).unwrap();
    assert_eq!(t.refresh_token(), "r");
    assert_eq!(t.expired_at().secs(), 1_700_000_060);
}

#[test]
fn a_failed_login_is_unauthorized_or_rejected() {
    let now = at(1_700_000_000);
    let bad = TokenResp {
        access_token: None,
        refresh_token: None,
        expires_in: None,
        error_description: Some("Bad credentials".to_string()),
    };
    assert_eq!(
        token_from_auth_resp(bad, &now).unwrap_err(),
        DomainError::Unauthorized { origin: ErrorSource::School }
    );
    let other = TokenResp {
        access_token: None,
        refresh_token: None,
        expires_in: None,
        error_description: None,
    };
    assert_eq!(
        token_from_auth_resp(other, &now).unwrap_err(),
        DomainError::UpstreamRejected {
            origin: ErrorSource::School,
            code: None,
            message: "认证失败：未返回 access_token".to_string()
        }
    );
    let blank = TokenResp {
        access_token: Some(" ".to_string()),
        refresh_token: None,
        expires_in: None,
        error_description: None,
    };
    assert_eq!(token_from_auth_resp(blank, &now).unwrap_err(), DomainError::BlankToken);
}

#[test]
fn a_refresh_reply_lives_two_hours_by_default_and_expires_without_a_token() {
    let now = at(1_000);
    let body = TokenResp {
        access_token: Some("a".to_string()),
        refresh_token: Some("r".to_string()),
        expires_in: None,
        error_description: None,
    };
    assert_eq!(token_from_refresh_resp(body, &now).unwrap().expired_at().secs(), 8_200);
    let none = TokenResp {
        access_token: None,
        refresh_token: None,
        expires_in: None,
        error_description: Some("Bad credentials".to_string()),
    };
    assert_eq!(
        token_from_refresh_resp(none, &now).unwrap_err(),
        DomainError::TokenExpired { origin: ErrorSource::School }
    );
}

#[test]
fn a_listed_item_becomes_a_task_in_the_school_zone() {
    let task = task_from_item(item(), "2023001", 7).unwrap();
    assert_eq!(task.id(), 7);
    assert_eq!(task.student_id(), "2023001");
    assert_eq!(task.school_task_id(), "T1");
    assert_eq!(task.title(), "晚寝签到");
    assert_eq!(task.time_zone().name(), "Asia/Shanghai");
    assert!(task.days_of_week().contains(Weekday::Mon));
    assert!(task.days_of_week().contains(Weekday::Wed));
    assert!(!task.days_of_week().contains(Weekday::Tue));
    assert_eq!(task.daily_time_window().start().secs(), 19 * 3600);
    assert_eq!(task.daily_time_window().end().secs(), 23 * 3600);
    assert_eq!(task.date_range().start().days_from_ce(), 739038);
    assert_eq!(task.date_range().end().days_from_ce(), 739067);
}

#[test]
fn a_listed_item_with_bad_parts_is_refused_in_order() {
    let mut i = item();
    i.task_start_date = "2024/06/01".to_string();
    i.sign_start_time = "7pm".to_string();
    assert_eq!(task_from_item(i, "s", 1).unwrap_err(), DomainError::InvalidDateRange);
    let mut i = item();
    i.sign_end_time = "25:00".to_string();
    assert_eq!(task_from_item(i, "s", 1).unwrap_err(), DomainError::InvalidTimeWindow);
    let mut i = item();
    i.task_end_date = "2024-05-31".to_string();
    assert_eq!(task_from_item(i, "s", 1).unwrap_err(), DomainError::InvalidDateRange);
    let mut i = item();
    i.sign_week = "周一".to_string();
    assert_eq!(task_from_item(i, "s", 1).unwrap_err(), DomainError::BlankDaysOfWeek);
    let mut i = item();
    i.task_name = " ".to_string();
    assert_eq!(task_from_item(i, "s", 1).unwrap_err(), DomainError::BlankTitle);
    assert_eq!(
        task_from_parsed(item(), "s", 1, Some(10), Some(20), Some((100, 0)), Some((100, 0)))
            .unwrap_err(),
        DomainError::InvalidTimeWindow
    );
}

#[test]
fn records_become_tasks_or_the_first_error() {
    let tasks = tasks_from_records(vec![item(), item()], "s").unwrap();
    assert_eq!(tasks.len(), 2);
    assert_ne!(tasks[0].id(), tasks[1].id());
    let mut bad = item();
    bad.task_id = "".to_string();
    let mut worse = item();
    worse.task_start_date = "x".to_string();
    assert_eq!(
        tasks_from_records(vec![item(), bad, worse], "s").unwrap_err(),
        DomainError::BlankSchoolTaskId
    );
}

#[test]
fn a_task_list_reply_is_checked_then_read() {
    let ok = ApiResp { code: 200, msg: "ok".to_string(), data: Some(TaskListData { records: vec![item()] }) };
    assert_eq!(task_list_from_resp(ok, "s").unwrap().len(), 1);
    let empty: ApiResp<TaskListData> = ApiResp { code: 200, msg: "ok".to_string(), data: None };
    assert!(task_list_from_resp(empty, "s").unwrap().is_empty());
    let refused: ApiResp<TaskListData> = ApiResp { code: 401, msg: "no".to_string(), data: None };
    assert_eq!(
        task_list_from_resp(refused, "s").unwrap_err(),
        map_upstream_rejected(401, "no".to_string())
    );
}

#[test]
fn replies_are_judged_by_code_and_message() {
    assert!(ensure_api_success(ApiResp { code: 200, msg: String::new(), data: Some(1) }).is_ok());
    assert_eq!(
        ensure_api_success(ApiResp::<()> { code: 500, msg: "e".to_string(), data: None }).unwrap_err(),
        DomainError::UpstreamRejected { origin: ErrorSource::School, code: Some(500), message: "e".to_string() }
    );
    assert!(submit_outcome(200, "x".to_string()).is_ok());
    assert!(submit_outcome(400, "您今天已完成签到".to_string()).is_ok());
    assert_eq!(
        submit_outcome(400, "不在范围".to_string()).unwrap_err(),
        map_upstream_rejected(400, "不在范围".to_string())
    );
    assert!(api_log_outcome(204).is_ok());
    assert_eq!(api_log_outcome(502).unwrap_err(), map_upstream_rejected(502, "apiLog 请求失败".to_string()));
    assert_eq!(map_transport_err(), DomainError::RemoteUnavailable { origin: ErrorSource::School });
}

#[test]
fn check_in_fields_are_read_in_shanghai() {
    // 2024-06-04T16:05:07Z is 2024-06-05 00:05:07 in Shanghai, a Wednesday.
    let f = checkin_time_fields(&at(1_717_517_107));
    assert_eq!(f.sign_date, "2024-06-05");
    assert_eq!(f.sign_time, "00:05:07");
    assert_eq!(f.sign_week, "星期三");
    assert_eq!(school_time_zone().name(), "Asia/Shanghai");
}

#[test]
fn page_addresses_name_the_task_and_student() {
    assert_eq!(
        wechat_config_path("T1", "2023001"),
        "flySource-base/wechat/getWechatMpConfig?configUrl=https://xskq.ahut.edu.cn/wise/pages/ssgl/dormsign?taskId=T1&autoSign=1&scanSign=0&userId=2023001"
    );
    assert_eq!(
        task_list_referer("2023001"),
        "https://xskq.ahut.edu.cn/wise/pages/ssgl/dormsign?&userId=2023001"
    );
}

#[test]
fn wechat_headers_skip_values_that_cannot_be_sent() {
    let token = SchoolToken::new("a".to_string(), "r".to_string(), at(10)).unwrap();
    let session = SchoolSession::new(1, "s".to_string(), token).unwrap();
    let h = build_wechat_headers(
        &session,
        "Basic x",
        "ua",
        "bearer r".to_string(),
        "sig".to_string(),
        Some("https://ref".to_string()),
    );
    let names: Vec<&str> = h.iter().map(|(k, _)| k.as_str()).collect();
    assert_eq!(
        names,
        vec![
            "authorization", "user-agent", "content-type", "x-requested-with", "origin", "referer",
            "flysource-auth", "flysource-sign"
        ]
    );
    let h = build_wechat_headers(&session, "bad\u{1}", "u\na", "a".to_string(), "b\r".to_string(), None);
    assert_eq!(h[0], ("authorization".to_string(), String::new()));
    let names: Vec<&str> = h.iter().map(|(k, _)| k.as_str()).collect();
    assert_eq!(
        names,
        vec!["authorization", "content-type", "x-requested-with", "origin", "flysource-auth"]
    );
}

#[test]
fn token_expiry_adds_the_lifetime() {
    assert_eq!(token_expired_at(&at(100), -50).secs(), 50);
}

#[test]
fn check_in_dates_follow_the_gregorian_calendar() {
    // 2000-02-29T12:00:00Z, a leap day, is 20:00 the same day in Shanghai.
    let f = checkin_time_fields(&at(951_825_600));
    assert_eq!(f.sign_date, "2000-02-29");
    assert_eq!(f.sign_time, "20:00:00");
    assert_eq!(f.sign_week, "星期二");
    // 1900-03-01T00:00:00Z: 1900 has no leap day.
    let g = checkin_time_fields(&at(-2_203_891_200));
    assert_eq!(g.sign_date, "1900-03-01");
}
