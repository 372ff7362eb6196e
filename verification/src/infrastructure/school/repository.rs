//! The stored forms of school users, tasks and sessions, read back into
//! domain values, and the choice of the task to run.

use vstd::prelude::*;

use crate::domain::error::DomainError;
use crate::domain::school::credential::{SchoolCredential, envelope_error, storage_fields};
use crate::domain::school::checkin_flow::task_runnable;
use crate::domain::school::session::SchoolSession;
use crate::domain::school::task::{DateRange, SchoolSignTask, TimeWindow};
use crate::domain::school::token::SchoolToken;
use crate::domain::school::user::SchoolUser;
use crate::infrastructure::school::week_mapper::{parse_school_week, school_week_set_has};
use crate::text::is_blank;
use crate::time::{Date, TimeOfDay, TimeZone, UtcTime, Weekday, tz_name_parses};

verus! {

/// A stored school user: its credential storage text is read first, then the
/// user is built as `SchoolUser::new` builds it.
pub fn user_from_stored(
    student_id: String,
    owner_user_id: u128,
    user_name: String,
    credential_storage: &str,
) -> (r: Result<SchoolUser, DomainError>)
    ensures
        match storage_fields(credential_storage@) {
            None => r == Err::<SchoolUser, DomainError>(DomainError::InvalidCredentialEnvelope),
            Some(f) => match envelope_error(f) {
                Some(e) => r == Err::<SchoolUser, DomainError>(e),
                None => if is_blank(student_id@) {
                    r == Err::<SchoolUser, DomainError>(DomainError::BlankSchoolUserId)
                } else if is_blank(user_name@) {
                    r == Err::<SchoolUser, DomainError>(DomainError::BlankUserName)
                } else {
                    r matches Ok(u) && u.student_spec() == student_id@ && u.owner_spec()
                        == owner_user_id && u.user_name_spec() == user_name@
                        && u.credential_spec()@ == f
                },
            },
        },
{
    let credential = SchoolCredential::from_storage(credential_storage)?;
    SchoolUser::new(student_id, owner_user_id, user_name, credential)
}

/// A stored session: its token, then the session, as `SchoolToken::new` and
/// `SchoolSession::new` build them.
pub fn session_from_stored(
    owner_user_id: u128,
    student_id: String,
    access_token: String,
    refresh_token: String,
    expired_at: UtcTime,
) -> (r: Result<SchoolSession, DomainError>)
    ensures
        is_blank(access_token@) || is_blank(refresh_token@) ==> r == Err::<SchoolSession, DomainError>(
            DomainError::BlankToken,
        ),
        !(is_blank(access_token@) || is_blank(refresh_token@)) && is_blank(student_id@) ==> r == Err::<
            SchoolSession,
            DomainError,
        >(DomainError::BlankSchoolUserId),
        !(is_blank(access_token@) || is_blank(refresh_token@)) && !is_blank(student_id@) ==> (r matches Ok(s)
            && s.owner_spec() == owner_user_id && s.student_spec() == student_id@
            && s.token_spec().access_spec() == access_token@ && s.token_spec().refresh_spec()
            == refresh_token@ && s.token_spec().expired_at_spec() == expired_at),
{
    let token = SchoolToken::new(access_token, refresh_token, expired_at)?;
    SchoolSession::new(owner_user_id, student_id, token)
}

/// The zone a stored task names, or the school's zone where the name is not
/// one `chrono_tz` knows.
pub open spec fn stored_zone(name: Seq<char>) -> Seq<char> {
    if tz_name_parses(name) {
        name
    } else {
        "Asia/Shanghai"@
    }
}

/// A stored task: the date range, the daily window, then the task, as their
/// constructors check them; the week days are read from their storage text.
pub fn task_from_stored(
    id: u128,
    student_id: String,
    school_task_id: String,
    title: String,
    date_start: Date,
    date_end: Date,
    time_start: TimeOfDay,
    time_end: TimeOfDay,
    days_of_week: &str,
    time_zone: String,
) -> (r: Result<SchoolSignTask, DomainError>)
    ensures
        date_end.days_spec() < date_start.days_spec() ==> r == Err::<SchoolSignTask, DomainError>(
            DomainError::InvalidDateRange,
        ),
        date_end.days_spec() >= date_start.days_spec() && time_end.key() <= time_start.key() ==> r
            == Err::<SchoolSignTask, DomainError>(DomainError::InvalidTimeWindow),
        date_end.days_spec() >= date_start.days_spec() && time_end.key() > time_start.key() ==> {
            if is_blank(school_task_id@) {
                r == Err::<SchoolSignTask, DomainError>(DomainError::BlankSchoolTaskId)
            } else if is_blank(title@) {
                r == Err::<SchoolSignTask, DomainError>(DomainError::BlankTitle)
            } else if forall|d: Weekday| !school_week_set_has(days_of_week@, d) {
                r == Err::<SchoolSignTask, DomainError>(DomainError::BlankDaysOfWeek)
            } else {
                r matches Ok(t) && t@.id == id && t@.student_id == student_id@
                    && t@.school_task_id == school_task_id@ && t@.title == title@
                    && t@.date_range.start_spec() == date_start && t@.date_range.end_spec()
                    == date_end && t@.daily_time_window.start_spec() == time_start
                    && t@.daily_time_window.end_spec() == time_end && (forall|d: Weekday|
                    #[trigger] t@.days_of_week.has(d) == school_week_set_has(days_of_week@, d))
                    && t@.time_zone == stored_zone(time_zone@)
            }
        },
{
    let days = parse_school_week(days_of_week);
    let date_range = DateRange::new(date_start, date_end)?;
    let time_window = TimeWindow::new(time_start, time_end)?;
    let zone = match TimeZone::from_name(time_zone) {
        Some(z) => z,
        None => TimeZone::shanghai(),
    };
    proof {
        if exists|d: Weekday| school_week_set_has(days_of_week@, d) {
            let d = choose|d: Weekday| school_week_set_has(days_of_week@, d);
            assert(days.has(d));
        } else {
            assert forall|d: Weekday| !days.has(d) by {
                assert(days.has(d) == school_week_set_has(days_of_week@, d));
            }
        }
    }
    SchoolSignTask::new(
        id,
        student_id,
        school_task_id,
        title,
        date_range,
        time_window,
        days,
        zone,
    )
}

/// The first of the tasks that may run at `utc_now`, in their order.
pub fn first_runnable(tasks: Vec<SchoolSignTask>, utc_now: &UtcTime) -> (r: Option<SchoolSignTask>)
    requires
        TimeZone::can_read(*utc_now),
    ensures
        match r {
            Some(t) => exists|i: int|
                0 <= i < tasks@.len() && tasks@[i] == t && task_runnable(t, *utc_now) && forall|j: int|
                    0 <= j < i ==> !task_runnable(#[trigger] tasks@[j], *utc_now),
            None => forall|j: int| 0 <= j < tasks@.len() ==> !task_runnable(#[trigger] tasks@[j], *utc_now),
        },
{
    let ghost orig = tasks@;
    let mut rest = tasks;
    let mut k: usize = 0;
    let n = rest.len();
    while rest.len() > 0
        invariant
            n == orig.len(),
            orig == tasks@,
            rest@ == orig.skip(k as int),
            k <= n,
            TimeZone::can_read(*utc_now),
            forall|j: int| 0 <= j < k ==> !task_runnable(#[trigger] orig[j], *utc_now),
        decreases rest@.len(),
    {
        let task = rest.remove(0);
        proof {
            assert(task == orig[k as int]);
        }
        if task.is_runnable_at(utc_now) {
            return Some(task);
        }
        k = k + 1;
        proof {
            assert(rest@ =~= orig.skip(k as int));
        }
    }
    None
}

} // verus!
