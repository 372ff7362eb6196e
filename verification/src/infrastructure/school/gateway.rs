//! What the gateway to the attendance system computes and decides around its
//! requests: the addresses and query parameters it sends, the tokens and
//! tasks it reads from the replies, the fields of a check-in, and how each
//! reply is judged.

use vstd::prelude::*;

use crate::domain::error::{DomainError, ErrorSource};
use chrono::{Datelike, Timelike};

use crate::domain::school::task::{DateRange, SchoolSignTask, SignTaskView, TimeWindow};
use crate::domain::school::token::SchoolToken;
use crate::infrastructure::school::gateway_support::{
    ApiResp, TaskItem, TaskListData, TokenResp, ensure_api_success, is_upstream_rejection,
    school_time_zone, token_expired_at,
};
use crate::infrastructure::school::week_mapper::{
    parse_school_week, school_week_name, school_week_set_has, to_school_week,
};
use crate::text::{
    decimal, is_blank, occurs_in, push_decimal, push_zero_padded, str_contains, zero_pad,
};
use crate::time::{TimeZone, civil_day_number, is_civil_date, local_clock};
use crate::time::{
    Date, MAX_DAYS_FROM_CE, MIN_DAYS_FROM_CE, TimeOfDay, UtcTime, Weekday, valid_time_of_day,
};

verus! {

/// The text of `Url::parse(base)` joined with `path` (`Url::join`, the
/// `url` crate's resolution of a relative reference), or `None` where either
/// step fails.
pub uninterp spec fn url_join_text(base: Seq<char>, path: Seq<char>) -> Option<Seq<char>>;

/// `Url::parse(base)?.join(path)?.to_string()`; the result is named, not
/// stated.
#[verifier::external_body]
fn url_join(base: &str, path: &str) -> (r: Option<String>)
    ensures
        match r {
            Some(u) => url_join_text(base@, path@) == Some(u@),
            None => url_join_text(base@, path@) is None,
        },
{
    match reqwest::Url::parse(base) {
        Ok(b) => match b.join(path) {
            Ok(u) => Some(u.to_string()),
            Err(_) => None,
        },
        Err(_) => None,
    }
}

/// The error of an address that cannot be formed from `path`.
pub open spec fn is_url_join_failure(e: DomainError, path: Seq<char>) -> bool {
    e matches DomainError::UpstreamRejected { origin, code, message } && origin
        == ErrorSource::School && code is None && message@ == "url 拼接失败: "@ + path
}

/// The address of an endpoint below the API base.
pub fn api_url(base_url: &str, path: &str) -> (r: Result<String, DomainError>)
    ensures
        match url_join_text(base_url@, path@) {
            Some(u) => r is Ok && r->Ok_0@ == u,
            None => r is Err && is_url_join_failure(r->Err_0, path@),
        },
{
    match url_join(base_url, path) {
        Some(u) => Ok(u),
        None => {
            let mut message = "url 拼接失败: ".to_string();
            message.append(path);
            Err(DomainError::UpstreamRejected { origin: ErrorSource::School, code: None, message })
        },
    }
}

/// The token endpoint, below the API base.
pub const TOKEN_PATH: &'static str = "flySource-auth/oauth/token";

/// The first page of the student's sign-in tasks.
pub const TASK_LIST_PATH: &'static str =
    "flySource-yxgl/dormSignTask/getStudentTaskPage?userDataType=student&current=1&size=15";

/// The page-visit log of the evening dormitory sign-in menu.
pub const API_LOG_PATH: &'static str =
    "flySource-base/apiLog/save?menuTitle=%E6%99%9A%E5%AF%9D%E7%AD%BE%E5%88%B0";

/// Where a check-in record is added.
pub const SUBMIT_PATH: &'static str = "flySource-yxgl/dormSignRecord/add";

/// The views of query pairs.
pub open spec fn pair_views(q: Seq<(String, String)>) -> Seq<(Seq<char>, Seq<char>)> {
    q.map_values(|p: (String, String)| (p.0@, p.1@))
}

/// The query of a password login.
pub open spec fn auth_query_spec(student_id: Seq<char>, secret: Seq<char>) -> Seq<
    (Seq<char>, Seq<char>),
> {
    seq![
        ("tenantId"@, "000000"@),
        ("username"@, student_id),
        ("password"@, secret),
        ("type"@, "account"@),
        ("grant_type"@, "password"@),
        ("scope"@, "all"@),
    ]
}

/// The query parameters of a password login with the decrypted secret.
pub fn auth_query(student_id: &str, secret: &str) -> (r: Vec<(String, String)>)
    ensures
        pair_views(r@) == auth_query_spec(student_id@, secret@),
{
    let r = vec![
        ("tenantId".to_string(), "000000".to_string()),
        ("username".to_string(), student_id.to_string()),
        ("password".to_string(), secret.to_string()),
        ("type".to_string(), "account".to_string()),
        ("grant_type".to_string(), "password".to_string()),
        ("scope".to_string(), "all".to_string()),
    ];
    proof {
        assert(pair_views(r@) =~= auth_query_spec(student_id@, secret@));
    }
    r
}

/// The query of a token refresh.
pub open spec fn refresh_query_spec(refresh_token: Seq<char>) -> Seq<(Seq<char>, Seq<char>)> {
    seq![
        ("tenantId"@, "000000"@),
        ("grant_type"@, "refresh_token"@),
        ("scope"@, "all"@),
        ("refresh_token"@, refresh_token),
    ]
}

/// The query parameters of a token refresh.
pub fn refresh_query(refresh_token: &str) -> (r: Vec<(String, String)>)
    ensures
        pair_views(r@) == refresh_query_spec(refresh_token@),
{
    let r = vec![
        ("tenantId".to_string(), "000000".to_string()),
        ("grant_type".to_string(), "refresh_token".to_string()),
        ("scope".to_string(), "all".to_string()),
        ("refresh_token".to_string(), refresh_token.to_string()),
    ];
    proof {
        assert(pair_views(r@) =~= refresh_query_spec(refresh_token@));
    }
    r
}

/// The view of an optional text.
pub open spec fn opt_view(v: Option<String>) -> Option<Seq<char>> {
    match v {
        Some(s) => Some(s@),
        None => None,
    }
}

/// The lifetime a reply gives, or the default.
pub open spec fn lifetime_or(v: Option<i64>, default: i64) -> i64 {
    match v {
        Some(e) => e,
        None => default,
    }
}

/// Whether `r` is the token a reply with these texts gives at `now`: the
/// refresh token falls back to the access token, the lifetime to `default`
/// seconds, and blank tokens are refused.
pub open spec fn issued_token(
    r: Result<SchoolToken, DomainError>,
    access: Seq<char>,
    refresh: Option<Seq<char>>,
    expires_in: Option<i64>,
    default: i64,
    now: UtcTime,
) -> bool {
    let rt = match refresh {
        Some(x) => x,
        None => access,
    };
    let secs = lifetime_or(expires_in, default);
    if is_blank(access) || is_blank(rt) {
        r == Err::<SchoolToken, DomainError>(DomainError::BlankToken)
    } else {
        r matches Ok(t) && t.access_spec() == access && t.refresh_spec() == rt
            && t.expired_at_spec().secs_spec() == now.secs_spec() + secs
            && t.expired_at_spec().nanos_spec() == now.nanos_spec()
    }
}

/// The token of a reply, issued at `now_utc`.
fn issue_token(
    access_token: String,
    refresh_token: Option<String>,
    expires_in: Option<i64>,
    default_secs: i64,
    now_utc: &UtcTime,
) -> (r: Result<SchoolToken, DomainError>)
    requires
        now_utc.can_add_seconds(lifetime_or(expires_in, default_secs)),
    ensures
        issued_token(r, access_token@, opt_view(refresh_token), expires_in, default_secs, *now_utc),
{
    let refresh = match refresh_token {
        Some(t) => t,
        None => access_token.clone(),
    };
    let secs = match expires_in {
        Some(e) => e,
        None => default_secs,
    };
    let expired_at = token_expired_at(now_utc, secs);
    SchoolToken::new(access_token, refresh, expired_at)
}

/// Whether the login reply's description tells of bad credentials.
pub open spec fn bad_credentials(desc: Option<Seq<char>>) -> bool {
    match desc {
        Some(d) => occurs_in(d, "Bad credentials"@),
        None => false,
    }
}

/// The token of a password login's reply. Without an access token the
/// login failed: as unauthorized where the description tells of bad
/// credentials, else as the school's rejection with the description (or a
/// fixed text). A reply without a lifetime lives an hour.
pub fn token_from_auth_resp(body: TokenResp, now_utc: &UtcTime) -> (r: Result<SchoolToken, DomainError>)
    requires
        body.access_token is Some ==> now_utc.can_add_seconds(lifetime_or(body.expires_in, 3600)),
    ensures
        match body.access_token {
            Some(a) => issued_token(r, a@, opt_view(body.refresh_token), body.expires_in, 3600, *now_utc),
            None => if bad_credentials(opt_view(body.error_description)) {
                r == Err::<SchoolToken, DomainError>(DomainError::Unauthorized { origin: ErrorSource::School })
            } else {
                r matches Err(DomainError::UpstreamRejected { origin, code, message }) && origin
                    == ErrorSource::School && code is None && message@ == match opt_view(
                    body.error_description,
                ) {
                    Some(d) => d,
                    None => "认证失败：未返回 access_token"@,
                }
            },
        },
{
    match body.access_token {
        Some(access) => issue_token(access, body.refresh_token, body.expires_in, 3600, now_utc),
        None => {
            let bad = match &body.error_description {
                Some(d) => str_contains(d.as_str(), "Bad credentials"),
                None => false,
            };
            if bad {
                Err(DomainError::Unauthorized { origin: ErrorSource::School })
            } else {
                let message = match body.error_description {
                    Some(d) => d,
                    None => "认证失败：未返回 access_token".to_string(),
                };
                Err(DomainError::UpstreamRejected { origin: ErrorSource::School, code: None, message })
            }
        },
    }
}

/// The token of a refresh's reply; without an access token the session has
/// expired. A reply without a lifetime lives two hours.
pub fn token_from_refresh_resp(body: TokenResp, now_utc: &UtcTime) -> (r: Result<
    SchoolToken,
    DomainError,
>)
    requires
        body.access_token is Some ==> now_utc.can_add_seconds(lifetime_or(body.expires_in, 7200)),
    ensures
        match body.access_token {
            Some(a) => issued_token(r, a@, opt_view(body.refresh_token), body.expires_in, 7200, *now_utc),
            None => r == Err::<SchoolToken, DomainError>(
                DomainError::TokenExpired { origin: ErrorSource::School },
            ),
        },
{
    match body.access_token {
        Some(access) => issue_token(access, body.refresh_token, body.expires_in, 7200, now_utc),
        None => Err(DomainError::TokenExpired { origin: ErrorSource::School }),
    }
}

/// The day number from the common era of
/// `NaiveDate::parse_from_str(text, fmt)`, or `None` where it fails.
pub uninterp spec fn chrono_date_days(text: Seq<char>, fmt: Seq<char>) -> Option<i32>;

/// The seconds from midnight and nanoseconds of
/// `NaiveTime::parse_from_str(text, fmt)`, or `None` where it fails.
pub uninterp spec fn chrono_time_parts(text: Seq<char>, fmt: Seq<char>) -> Option<(u32, u32)>;

/// The format of a task's dates.
pub open spec fn task_date_format() -> Seq<char> {
    "%Y-%m-%d"@
}

/// The format of a task's sign-in times.
pub open spec fn task_time_format() -> Seq<char> {
    "%H:%M"@
}

/// `NaiveDate::parse_from_str(text, fmt)` as a day number; the parse is
/// named, not stated. A date that `chrono` holds lies in its range.
#[verifier::external_body]
fn parse_date_days(text: &str, fmt: &str) -> (r: Option<i32>)
    ensures
        r == chrono_date_days(text@, fmt@),
        r matches Some(d) ==> MIN_DAYS_FROM_CE <= d <= MAX_DAYS_FROM_CE,
{
    match chrono::NaiveDate::parse_from_str(text, fmt) {
        Ok(d) => Some(d.num_days_from_ce()),
        Err(_) => None,
    }
}

/// `NaiveTime::parse_from_str(text, fmt)` as seconds from midnight and
/// nanoseconds; the parse is named, not stated. A time that `chrono` holds is
/// a valid time of day.
#[verifier::external_body]
fn parse_time_parts(text: &str, fmt: &str) -> (r: Option<(u32, u32)>)
    ensures
        r == chrono_time_parts(text@, fmt@),
        r matches Some(t) ==> valid_time_of_day(t.0, t.1),
{
    match chrono::NaiveTime::parse_from_str(text, fmt) {
        Ok(t) => Some((t.num_seconds_from_midnight(), t.nanosecond())),
        Err(_) => None,
    }
}

/// `Uuid::new_v4().as_u128()`: a random identifier; nothing is stated of it.
#[verifier::external_body]
fn new_task_id() -> (r: u128) {
    uuid::Uuid::new_v4().as_u128()
}

/// The order key of a time of day given as seconds and nanoseconds.
pub open spec fn time_key(t: (u32, u32)) -> int {
    t.0 * 2_000_000_000 + t.1
}

/// Why a listed task cannot be taken, given its parsed dates and times, in
/// the order the checks are made: unparsed dates, unparsed times, a range
/// that ends before it starts, a window that does not end after it starts, a
/// blank task ID or name, no day of the week.
pub open spec fn task_item_error(
    item: TaskItem,
    start: Option<i32>,
    end: Option<i32>,
    start_time: Option<(u32, u32)>,
    end_time: Option<(u32, u32)>,
) -> Option<DomainError> {
    if start is None || end is None {
        Some(DomainError::InvalidDateRange)
    } else if start_time is None || end_time is None {
        Some(DomainError::InvalidTimeWindow)
    } else if end->0 < start->0 {
        Some(DomainError::InvalidDateRange)
    } else if time_key(end_time->0) <= time_key(start_time->0) {
        Some(DomainError::InvalidTimeWindow)
    } else if is_blank(item.task_id@) {
        Some(DomainError::BlankSchoolTaskId)
    } else if is_blank(item.task_name@) {
        Some(DomainError::BlankTitle)
    } else if forall|d: Weekday| !school_week_set_has(item.sign_week@, d) {
        Some(DomainError::BlankDaysOfWeek)
    } else {
        None
    }
}

/// Whether `t` is the task of a listed item for a student: its ID, the
/// item's task ID and name, the parsed dates and times, the listed week days,
/// and the school's time zone.
pub open spec fn task_of_item(
    t: SignTaskView,
    item: TaskItem,
    student_id: Seq<char>,
    id: u128,
    start: i32,
    end: i32,
    start_time: (u32, u32),
    end_time: (u32, u32),
) -> bool {
    &&& t.id == id
    &&& t.student_id == student_id
    &&& t.school_task_id == item.task_id@
    &&& t.title == item.task_name@
    &&& t.date_range.start_spec().days_spec() == start
    &&& t.date_range.end_spec().days_spec() == end
    &&& t.daily_time_window.start_spec().secs_spec() == start_time.0
    &&& t.daily_time_window.start_spec().nanos_spec() == start_time.1
    &&& t.daily_time_window.end_spec().secs_spec() == end_time.0
    &&& t.daily_time_window.end_spec().nanos_spec() == end_time.1
    &&& forall|d: Weekday| #[trigger] t.days_of_week.has(d) == school_week_set_has(item.sign_week@, d)
    &&& t.time_zone == "Asia/Shanghai"@
}

/// What a listed item gives with these parsed parts: the first error of
/// `task_item_error`, or the task of the item.
pub open spec fn task_from_parsed_spec(
    r: Result<SchoolSignTask, DomainError>,
    item: TaskItem,
    student_id: Seq<char>,
    id: u128,
    start: Option<i32>,
    end: Option<i32>,
    start_time: Option<(u32, u32)>,
    end_time: Option<(u32, u32)>,
) -> bool {
    match task_item_error(item, start, end, start_time, end_time) {
        Some(e) => r == Err::<SchoolSignTask, DomainError>(e),
        None => r matches Ok(t) && task_of_item(
            t@,
            item,
            student_id,
            id,
            start->0,
            end->0,
            start_time->0,
            end_time->0,
        ),
    }
}

/// The task of a listed item, from its parsed dates and times.
pub fn task_from_parsed(
    item: TaskItem,
    student_id: &str,
    id: u128,
    start: Option<i32>,
    end: Option<i32>,
    start_time: Option<(u32, u32)>,
    end_time: Option<(u32, u32)>,
) -> (r: Result<SchoolSignTask, DomainError>)
    requires
        start matches Some(d) ==> MIN_DAYS_FROM_CE <= d <= MAX_DAYS_FROM_CE,
        end matches Some(d) ==> MIN_DAYS_FROM_CE <= d <= MAX_DAYS_FROM_CE,
        start_time matches Some(t) ==> valid_time_of_day(t.0, t.1),
        end_time matches Some(t) ==> valid_time_of_day(t.0, t.1),
    ensures
        task_from_parsed_spec(r, item, student_id@, id, start, end, start_time, end_time),
{
    let start_days = match start {
        Some(d) => d,
        None => return Err(DomainError::InvalidDateRange),
    };
    let end_days = match end {
        Some(d) => d,
        None => return Err(DomainError::InvalidDateRange),
    };
    let st = match start_time {
        Some(t) => t,
        None => return Err(DomainError::InvalidTimeWindow),
    };
    let et = match end_time {
        Some(t) => t,
        None => return Err(DomainError::InvalidTimeWindow),
    };
    let start_date = match Date::from_days_from_ce(start_days) {
        Some(d) => d,
        None => return Err(DomainError::InvalidDateRange),
    };
    let end_date = match Date::from_days_from_ce(end_days) {
        Some(d) => d,
        None => return Err(DomainError::InvalidDateRange),
    };
    let start_tod = match TimeOfDay::from_parts(st.0, st.1) {
        Some(t) => t,
        None => return Err(DomainError::InvalidTimeWindow),
    };
    let end_tod = match TimeOfDay::from_parts(et.0, et.1) {
        Some(t) => t,
        None => return Err(DomainError::InvalidTimeWindow),
    };
    let range = DateRange::new(start_date, end_date)?;
    let window = TimeWindow::new(start_tod, end_tod)?;
    let days = parse_school_week(item.sign_week.as_str());
    let zone = school_time_zone();
    proof {
        if exists|d: Weekday| school_week_set_has(item.sign_week@, d) {
            let d = choose|d: Weekday| school_week_set_has(item.sign_week@, d);
            assert(days.has(d));
        } else {
            assert forall|d: Weekday| !days.has(d) by {
                assert(days.has(d) == school_week_set_has(item.sign_week@, d));
            }
        }
    }
    SchoolSignTask::new(
        id,
        student_id.to_string(),
        item.task_id,
        item.task_name,
        range,
        window,
        days,
        zone,
    )
}

/// Whether `r` is what a listed item gives for the student with the given
/// task ID, through the named parses of its dates and times.
pub open spec fn task_from_item_spec(
    r: Result<SchoolSignTask, DomainError>,
    item: TaskItem,
    student_id: Seq<char>,
    id: u128,
) -> bool {
    task_from_parsed_spec(
        r,
        item,
        student_id,
        id,
        chrono_date_days(item.task_start_date@, task_date_format()),
        chrono_date_days(item.task_end_date@, task_date_format()),
        chrono_time_parts(item.sign_start_time@, task_time_format()),
        chrono_time_parts(item.sign_end_time@, task_time_format()),
    )
}

/// The task of a listed item: its dates read as `YYYY-MM-DD`, its times as
/// `HH:MM`, its week days as Chinese day names, in the school's time zone.
pub fn task_from_item(item: TaskItem, student_id: &str, id: u128) -> (r: Result<
    SchoolSignTask,
    DomainError,
>)
    ensures
        task_from_item_spec(r, item, student_id@, id),
{
    let start = parse_date_days(item.task_start_date.as_str(), "%Y-%m-%d");
    let end = parse_date_days(item.task_end_date.as_str(), "%Y-%m-%d");
    let start_time = parse_time_parts(item.sign_start_time.as_str(), "%H:%M");
    let end_time = parse_time_parts(item.sign_end_time.as_str(), "%H:%M");
    task_from_parsed(item, student_id, id, start, end, start_time, end_time)
}

/// Why a listed item cannot be taken, through the named parses of its dates
/// and times.
pub open spec fn item_error(item: TaskItem) -> Option<DomainError> {
    task_item_error(
        item,
        chrono_date_days(item.task_start_date@, task_date_format()),
        chrono_date_days(item.task_end_date@, task_date_format()),
        chrono_time_parts(item.sign_start_time@, task_time_format()),
        chrono_time_parts(item.sign_end_time@, task_time_format()),
    )
}

/// Whether `t` is the task of a listed item for the student, whatever its ID.
pub open spec fn is_task_of_item(t: SignTaskView, item: TaskItem, student_id: Seq<char>) -> bool {
    task_of_item(
        t,
        item,
        student_id,
        t.id,
        chrono_date_days(item.task_start_date@, task_date_format())->0,
        chrono_date_days(item.task_end_date@, task_date_format())->0,
        chrono_time_parts(item.sign_start_time@, task_time_format())->0,
        chrono_time_parts(item.sign_end_time@, task_time_format())->0,
    )
}

/// The error of the first listed item that cannot be taken.
pub open spec fn first_item_error(items: Seq<TaskItem>) -> Option<DomainError>
    decreases items.len(),
{
    if items.len() == 0 {
        None
    } else if item_error(items[0]) is Some {
        item_error(items[0])
    } else {
        first_item_error(items.drop_first())
    }
}

/// Whether `r` is what a list of items gives: the first item's error, or
/// one task per item, in order, each with an ID of its own.
pub open spec fn tasks_of_records(
    r: Result<Vec<SchoolSignTask>, DomainError>,
    records: Seq<TaskItem>,
    student_id: Seq<char>,
) -> bool {
    match first_item_error(records) {
        Some(e) => r == Err::<Vec<SchoolSignTask>, DomainError>(e),
        None => r matches Ok(ts) && ts@.len() == records.len() && forall|i: int|
            0 <= i < records.len() ==> is_task_of_item(#[trigger] ts@[i]@, records[i], student_id),
    }
}

proof fn lemma_first_item_error_prefix(s: Seq<TaskItem>, i: int)
    requires
        0 <= i <= s.len(),
        forall|j: int| 0 <= j < i ==> item_error(#[trigger] s[j]) is None,
    ensures
        first_item_error(s) == first_item_error(s.skip(i)),
    decreases i,
{
    if i == 0 {
        assert(s.skip(0) =~= s);
    } else {
        let t = s.drop_first();
        assert(item_error(s[0]) is None);
        assert forall|j: int| 0 <= j < i - 1 implies item_error(#[trigger] t[j]) is None by {
            assert(t[j] == s[j + 1]);
        }
        lemma_first_item_error_prefix(t, i - 1);
        assert(t.skip(i - 1) =~= s.skip(i));
    }
}

/// The tasks of the listed items, each given a fresh random ID.
pub fn tasks_from_records(records: Vec<TaskItem>, student_id: &str) -> (r: Result<
    Vec<SchoolSignTask>,
    DomainError,
>)
    ensures
        tasks_of_records(r, records@, student_id@),
{
    let ghost orig = records@;
    let mut rest = records;
    let mut out: Vec<SchoolSignTask> = Vec::new();
    let mut k: usize = 0;
    let n = rest.len();
    while rest.len() > 0
        invariant
            n == orig.len(),
            orig == records@,
            rest@ == orig.skip(k as int),
            k <= orig.len(),
            out@.len() == k,
            forall|j: int| 0 <= j < k ==> item_error(#[trigger] orig[j]) is None,
            forall|j: int| 0 <= j < k ==> is_task_of_item(#[trigger] out@[j]@, orig[j], student_id@),
        decreases rest@.len(),
    {
        let item = rest.remove(0);
        let ghost item_v = item;
        proof {
            assert(item_v == orig[k as int]);
            lemma_first_item_error_prefix(orig, k as int);
        }
        let id = new_task_id();
        match task_from_item(item, student_id, id) {
            Ok(t) => {
                proof {
                    assert(item_error(item_v) is None);
                }
                out.push(t);
                proof {
                    assert(out@[k as int] == t);
                }
            },
            Err(e) => {
                proof {
                    assert(item_error(item_v) == Some(e));
                    let tail = orig.skip(k as int);
                    assert(tail[0] == orig[k as int]);
                    assert(first_item_error(tail) == item_error(tail[0]));
                }
                return Err(e);
            },
        }
        k = k + 1;
        proof {
            assert(rest@ =~= orig.skip(k as int));
        }
    }
    proof {
        assert(k == orig.len());
        lemma_first_item_error_prefix(orig, k as int);
        assert(orig.skip(k as int) =~= Seq::<TaskItem>::empty());
    }
    Ok(out)
}

/// The active tasks of a task-list reply: a reply whose code is not 200 is
/// the school's rejection; one without data lists no task.
pub fn task_list_from_resp(resp: ApiResp<TaskListData>, student_id: &str) -> (r: Result<
    Vec<SchoolSignTask>,
    DomainError,
>)
    ensures
        resp.code != 200 ==> r is Err && is_upstream_rejection(r->Err_0, resp.code, resp.msg@),
        resp.code == 200 ==> match resp.data {
            Some(d) => tasks_of_records(r, d.records@, student_id@),
            None => r is Ok && r->Ok_0@.len() == 0,
        },
{
    let body = ensure_api_success(resp)?;
    match body.data {
        Some(d) => tasks_from_records(d.records, student_id),
        None => Ok(Vec::new()),
    }
}

/// The path of the WeChat JS-SDK configuration request that opens the
/// check-in page of a task for a student.
pub open spec fn wechat_config_path_spec(task_id: Seq<char>, student_id: Seq<char>) -> Seq<char> {
    "flySource-base/wechat/getWechatMpConfig?configUrl=https://xskq.ahut.edu.cn/wise/pages/ssgl/dormsign?taskId="@
        + task_id + "&autoSign=1&scanSign=0&userId="@ + student_id
}

/// The WeChat configuration path of a task's check-in page.
pub fn wechat_config_path(task_id: &str, student_id: &str) -> (r: String)
    ensures
        r@ == wechat_config_path_spec(task_id@, student_id@),
{
    let mut out =
        "flySource-base/wechat/getWechatMpConfig?configUrl=https://xskq.ahut.edu.cn/wise/pages/ssgl/dormsign?taskId=".to_string();
    out.append(task_id);
    out.append("&autoSign=1&scanSign=0&userId=");
    out.append(student_id);
    out
}

/// The referer of the task-list request: the student's check-in page.
pub open spec fn task_list_referer_spec(student_id: Seq<char>) -> Seq<char> {
    "https://xskq.ahut.edu.cn/wise/pages/ssgl/dormsign?&userId="@ + student_id
}

/// The referer of the task-list request.
pub fn task_list_referer(student_id: &str) -> (r: String)
    ensures
        r@ == task_list_referer_spec(student_id@),
{
    let mut out = "https://xskq.ahut.edu.cn/wise/pages/ssgl/dormsign?&userId=".to_string();
    out.append(student_id);
    out
}

/// The page-visit log succeeded when its HTTP status is a success (2xx);
/// otherwise the status is the school's rejection code.
pub fn api_log_outcome(status: u16) -> (r: Result<(), DomainError>)
    ensures
        200 <= status <= 299 ==> r is Ok,
        !(200 <= status <= 299) ==> r is Err && is_upstream_rejection(
            r->Err_0,
            status as i64,
            "apiLog 请求失败"@,
        ),
{
    if 200 <= status && status <= 299 {
        Ok(())
    } else {
        Err(
            DomainError::UpstreamRejected {
                origin: ErrorSource::School,
                code: Some(status as i64),
                message: "apiLog 请求失败".to_string(),
            },
        )
    }
}

/// A check-in reply succeeds with code 200, or when its message says the
/// student has already checked in; any other is the school's rejection.
pub fn submit_outcome(code: i64, msg: String) -> (r: Result<(), DomainError>)
    ensures
        (code == 200 || occurs_in(msg@, "已完成签到"@)) ==> r is Ok,
        !(code == 200 || occurs_in(msg@, "已完成签到"@)) ==> r is Err && is_upstream_rejection(
            r->Err_0,
            code,
            msg@,
        ),
{
    if code == 200 || str_contains(msg.as_str(), "已完成签到") {
        Ok(())
    } else {
        Err(DomainError::UpstreamRejected { origin: ErrorSource::School, code: Some(code), message: msg })
    }
}

/// `NaiveDate::from_num_days_from_ce_opt(days)` read as year, month and
/// day: as chrono documents it, the date of the proleptic Gregorian calendar
/// whose day number, 1 January of year 1 being day 1, is `days`.
#[verifier::external_body]
fn civil_date_of(days: i32) -> (r: (i32, u32, u32))
    requires
        MIN_DAYS_FROM_CE <= days <= MAX_DAYS_FROM_CE,
    ensures
        is_civil_date(r.0 as int, r.1 as int, r.2 as int),
        civil_day_number(r.0 as int, r.1 as int, r.2 as int) == days,
{
    let d = chrono::NaiveDate::from_num_days_from_ce_opt(days).unwrap();
    (d.year(), d.month(), d.day())
}

/// A year as `chrono` prints `%Y`: four digits at least, zero-padded, with a
/// sign outside 0 to 9999.
pub open spec fn year_text(y: int) -> Seq<char> {
    if y < 0 {
        seq!['-'] + zero_pad(decimal((-y) as nat), 4)
    } else if y <= 9999 {
        zero_pad(decimal(y as nat), 4)
    } else {
        seq!['+'] + decimal(y as nat)
    }
}

/// A number as `chrono` prints it in two zero-padded digits.
pub open spec fn two_digits(n: nat) -> Seq<char> {
    zero_pad(decimal(n), 2)
}

/// `%Y-%m-%d`.
pub open spec fn date_text(y: int, m: nat, d: nat) -> Seq<char> {
    year_text(y) + seq!['-'] + two_digits(m) + seq!['-'] + two_digits(d)
}

/// `%H:%M:%S` of a time of day given as seconds from midnight and
/// nanoseconds (a leap second reads as second 60).
pub open spec fn time_text(secs: nat, nanos: nat) -> Seq<char> {
    two_digits(secs / 3600) + seq![':'] + two_digits((secs % 3600) / 60) + seq![':'] + two_digits(
        secs % 60 + nanos / 1_000_000_000,
    )
}

fn push_year(out: &mut String, y: i32)
    ensures
        final(out)@ == old(out)@ + year_text(y as int),
{
    proof {
        reveal_strlit("-");
        reveal_strlit("+");
    }
    if y < 0 {
        let ghost start = out@;
        out.append("-");
        let m: u64 = (-(y as i64)) as u64;
        push_zero_padded(out, m, 4);
        proof {
            assert(out@ =~= start + year_text(y as int));
        }
    } else if y <= 9999 {
        push_zero_padded(out, y as u64, 4);
    } else {
        let ghost start = out@;
        out.append("+");
        push_decimal(out, y as u64);
        proof {
            assert(out@ =~= start + year_text(y as int));
        }
    }
}

/// The date, time and weekday of a check-in as the school's form takes
/// them: `%Y-%m-%d`, `%H:%M:%S` and the Chinese day name, read in the
/// school's time zone.
#[derive(Debug)]
pub struct CheckinTimeFields {
    pub sign_date: String,
    pub sign_time: String,
    pub sign_week: String,
}

/// The form fields of a check-in at `occurred_at_utc`.
pub fn checkin_time_fields(occurred_at_utc: &UtcTime) -> (r: CheckinTimeFields)
    requires
        TimeZone::can_read(*occurred_at_utc),
    ensures
        ({
            let c = local_clock(
                "Asia/Shanghai"@,
                occurred_at_utc.secs_spec(),
                occurred_at_utc.nanos_spec(),
            );
            &&& exists|y: int, m: nat, d: nat|
                is_civil_date(y, m as int, d as int) && civil_day_number(y, m as int, d as int)
                    == c.0 && r.sign_date@ == date_text(y, m, d)
            &&& r.sign_time@ == time_text(c.1 as nat, c.2 as nat)
            &&& exists|d: Weekday| d.index() == c.3 && r.sign_week@ == school_week_name(d)
        }),
{
    let zone = school_time_zone();
    let reading = zone.local_reading(occurred_at_utc);
    let date = reading.0;
    let time = reading.1;
    let weekday = reading.2;
    proof {
        use_type_invariant(&date);
        use_type_invariant(&time);
        reveal_strlit("-");
        reveal_strlit(":");
    }
    let ymd = civil_date_of(date.days_from_ce());
    let mut sign_date = String::new();
    push_year(&mut sign_date, ymd.0);
    sign_date.append("-");
    push_zero_padded(&mut sign_date, ymd.1 as u64, 2);
    sign_date.append("-");
    push_zero_padded(&mut sign_date, ymd.2 as u64, 2);
    proof {
        assert(sign_date@ =~= date_text(ymd.0 as int, ymd.1 as nat, ymd.2 as nat));
        assert(is_civil_date(ymd.0 as int, ymd.1 as nat as int, ymd.2 as nat as int));
    }
    let secs = time.secs();
    let nanos = time.nanos();
    let mut sign_time = String::new();
    push_zero_padded(&mut sign_time, (secs / 3600) as u64, 2);
    sign_time.append(":");
    push_zero_padded(&mut sign_time, ((secs % 3600) / 60) as u64, 2);
    sign_time.append(":");
    push_zero_padded(&mut sign_time, (secs % 60 + nanos / 1_000_000_000) as u64, 2);
    proof {
        assert(sign_time@ =~= time_text(secs as nat, nanos as nat));
    }
    let sign_week = to_school_week(weekday).to_string();
    CheckinTimeFields { sign_date, sign_time, sign_week }
}

} // verus!
