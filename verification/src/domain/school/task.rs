//! Check-in tasks of the school system and the windows in which they run.

use vstd::prelude::*;

use crate::domain::error::DomainError;
use crate::text::{is_blank, str_is_blank};
use crate::time::{Date, TimeOfDay, TimeZone, UtcTime, Weekday, WeekdaySet, local_clock};

verus! {

/// A daily window of time, both ends included.
#[derive(Debug, Clone, Copy, PartialEq, Eq, Structural)]
pub struct TimeWindow {
    start: TimeOfDay,
    end: TimeOfDay,
}

impl TimeWindow {
    pub closed spec fn start_spec(&self) -> TimeOfDay {
        self.start
    }

    pub closed spec fn end_spec(&self) -> TimeOfDay {
        self.end
    }

    /// A window; the end must come after the start.
    pub fn new(start: TimeOfDay, end: TimeOfDay) -> (r: Result<Self, DomainError>)
        ensures
            end.key() <= start.key() ==> r == Err::<Self, DomainError>(DomainError::InvalidTimeWindow),
            end.key() > start.key() ==> (r matches Ok(w) && w.start_spec() == start && w.end_spec()
                == end),
    {
        if end.not_after(&start) {
            return Err(DomainError::InvalidTimeWindow);
        }
        Ok(TimeWindow { start, end })
    }

    pub open spec fn contains_spec(&self, t: TimeOfDay) -> bool {
        self.start_spec().key() <= t.key() <= self.end_spec().key()
    }

    /// Whether `time_now` lies within the window.
    pub fn is_within_range(&self, time_now: TimeOfDay) -> (r: bool)
        ensures
            r == self.contains_spec(time_now),
    {
        self.start.not_after(&time_now) && time_now.not_after(&self.end)
    }

    pub fn start(&self) -> (r: TimeOfDay)
        ensures
            r == self.start_spec(),
    {
        self.start
    }

    pub fn end(&self) -> (r: TimeOfDay)
        ensures
            r == self.end_spec(),
    {
        self.end
    }
}

/// A range of dates, both ends included.
#[derive(Debug, Clone, Copy, PartialEq, Eq, Structural)]
pub struct DateRange {
    start: Date,
    end: Date,
}

impl DateRange {
    pub closed spec fn start_spec(&self) -> Date {
        self.start
    }

    pub closed spec fn end_spec(&self) -> Date {
        self.end
    }

    /// A range; the end must not come before the start.
    pub fn new(start: Date, end: Date) -> (r: Result<Self, DomainError>)
        ensures
            end.days_spec() < start.days_spec() ==> r == Err::<Self, DomainError>(
                DomainError::InvalidDateRange,
            ),
            end.days_spec() >= start.days_spec() ==> (r matches Ok(d) && d.start_spec() == start
                && d.end_spec() == end),
    {
        if end.days_from_ce() < start.days_from_ce() {
            return Err(DomainError::InvalidDateRange);
        }
        Ok(DateRange { start, end })
    }

    pub open spec fn contains_spec(&self, d: Date) -> bool {
        self.start_spec().days_spec() <= d.days_spec() <= self.end_spec().days_spec()
    }

    /// Whether `date_now` lies within the range.
    pub fn is_within_range(&self, date_now: Date) -> (r: bool)
        ensures
            r == self.contains_spec(date_now),
    {
        date_now.days_from_ce() >= self.start.days_from_ce() && date_now.days_from_ce()
            <= self.end.days_from_ce()
    }

    pub fn start(&self) -> (r: Date)
        ensures
            r == self.start_spec(),
    {
        self.start
    }

    pub fn end(&self) -> (r: Date)
        ensures
            r == self.end_spec(),
    {
        self.end
    }
}

/// A check-in task: when, on which days and in which time zone a student
/// may check in.
#[derive(Debug)]
pub struct SchoolSignTask {
    id: u128,
    student_id: String,
    school_task_id: String,
    title: String,
    date_range: DateRange,
    daily_time_window: TimeWindow,
    days_of_week: WeekdaySet,
    time_zone: TimeZone,
}

/// The fields of a task.
pub struct SignTaskView {
    pub id: u128,
    pub student_id: Seq<char>,
    pub school_task_id: Seq<char>,
    pub title: Seq<char>,
    pub date_range: DateRange,
    pub daily_time_window: TimeWindow,
    pub days_of_week: WeekdaySet,
    pub time_zone: Seq<char>,
}

impl View for SchoolSignTask {
    type V = SignTaskView;

    closed spec fn view(&self) -> SignTaskView {
        SignTaskView {
            id: self.id,
            student_id: self.student_id@,
            school_task_id: self.school_task_id@,
            title: self.title@,
            date_range: self.date_range,
            daily_time_window: self.daily_time_window,
            days_of_week: self.days_of_week,
            time_zone: self.time_zone.name_spec(),
        }
    }
}

/// Whether a task with these fields may run at the local reading `c`
/// (day number, seconds, nanoseconds, weekday) of the instant.
pub open spec fn runnable_at_reading(v: SignTaskView, c: (i32, u32, u32, u8)) -> bool {
    &&& v.daily_time_window.start_spec().key() <= c.1 * 2_000_000_000 + c.2
        <= v.daily_time_window.end_spec().key()
    &&& v.date_range.start_spec().days_spec() <= c.0 <= v.date_range.end_spec().days_spec()
    &&& exists|d: Weekday| d.index() == c.3 && v.days_of_week.has(d)
}

impl SchoolSignTask {
    /// A task; the school task ID and title must not be blank, and the task
    /// must run on some day of the week.
    pub fn new(
        id: u128,
        student_id: String,
        school_task_id: String,
        title: String,
        date_range: DateRange,
        daily_time_window: TimeWindow,
        days_of_week: WeekdaySet,
        time_zone: TimeZone,
    ) -> (r: Result<Self, DomainError>)
        ensures
            is_blank(school_task_id@) ==> r == Err::<Self, DomainError>(
                DomainError::BlankSchoolTaskId,
            ),
            !is_blank(school_task_id@) && is_blank(title@) ==> r == Err::<Self, DomainError>(
                DomainError::BlankTitle,
            ),
            !is_blank(school_task_id@) && !is_blank(title@) && (forall|d: Weekday|
                !days_of_week.has(d)) ==> r == Err::<Self, DomainError>(
                DomainError::BlankDaysOfWeek,
            ),
            !is_blank(school_task_id@) && !is_blank(title@) && (exists|d: Weekday|
                days_of_week.has(d)) ==> (r matches Ok(t) && t@ == (SignTaskView {
                id,
                student_id: student_id@,
                school_task_id: school_task_id@,
                title: title@,
                date_range,
                daily_time_window,
                days_of_week,
                time_zone: time_zone.name_spec(),
            })),
    {
        if str_is_blank(school_task_id.as_str()) {
            return Err(DomainError::BlankSchoolTaskId);
        }
        if str_is_blank(title.as_str()) {
            return Err(DomainError::BlankTitle);
        }
        if days_of_week.is_empty() {
            return Err(DomainError::BlankDaysOfWeek);
        }
        Ok(
            SchoolSignTask {
                id,
                student_id,
                school_task_id,
                title,
                date_range,
                daily_time_window,
                days_of_week,
                time_zone,
            },
        )
    }

    /// Whether the task may run at `utc_now`: in the task's time zone, the
    /// time of day lies in the daily window, the date in the date range, and
    /// the weekday among the task's days.
    pub fn is_runnable_at(&self, utc_now: &UtcTime) -> (r: bool)
        requires
            TimeZone::can_read(*utc_now),
        ensures
            r == runnable_at_reading(
                self@,
                local_clock(self@.time_zone, utc_now.secs_spec(), utc_now.nanos_spec()),
            ),
    {
        let (date, time, weekday) = self.time_zone.local_reading(utc_now);
        let ghost c = local_clock(self@.time_zone, utc_now.secs_spec(), utc_now.nanos_spec());
        if !self.daily_time_window.is_within_range(time) {
            return false;
        }
        if !self.date_range.is_within_range(date) {
            return false;
        }
        if !self.days_of_week.contains(weekday) {
            proof {
                assert forall|d: Weekday| d.index() == c.3 implies !self@.days_of_week.has(d) by {
                    assert(d == weekday);
                }
            }
            return false;
        }
        true
    }

    pub fn school_task_id(&self) -> (r: &str)
        ensures
            r@ == self@.school_task_id,
    {
        self.school_task_id.as_str()
    }

    /// The title itself.
    pub closed spec fn title_string(&self) -> String {
        self.title
    }

    /// The title string reads as the task's title.
    pub proof fn lemma_title_string(&self)
        ensures
            self.title_string()@ == self@.title,
    {
    }

    /// A copy of the title.
    pub fn title_owned(&self) -> (r: String)
        ensures
            r == self.title_string(),
            r@ == self@.title,
    {
        self.title.clone()
    }

    pub fn title(&self) -> (r: &str)
        ensures
            r@ == self@.title,
    {
        self.title.as_str()
    }

    pub fn student_id(&self) -> (r: &str)
        ensures
            r@ == self@.student_id,
    {
        self.student_id.as_str()
    }

    pub fn id(&self) -> (r: u128)
        ensures
            r == self@.id,
    {
        self.id
    }

    pub fn date_range(&self) -> (r: DateRange)
        ensures
            r == self@.date_range,
    {
        self.date_range
    }

    pub fn daily_time_window(&self) -> (r: TimeWindow)
        ensures
            r == self@.daily_time_window,
    {
        self.daily_time_window
    }

    pub fn days_of_week(&self) -> (r: WeekdaySet)
        ensures
            r == self@.days_of_week,
    {
        self.days_of_week
    }

    pub fn time_zone(&self) -> (r: &TimeZone)
        ensures
            r.name_spec() == self@.time_zone,
    {
        &self.time_zone
    }
}

/// The moment at which a task was asked to run.
#[derive(Debug, Clone, Copy)]
pub struct CheckinRuntime {
    pub utc_now: UtcTime,
}

impl CheckinRuntime {
    pub fn new(utc_now: UtcTime) -> (r: Self)
        ensures
            r.utc_now == utc_now,
    {
        CheckinRuntime { utc_now }
    }
}

/// A task runs at a local reading exactly when all three hold: the time of
/// day lies in the daily window (both ends included), the date lies in the
/// date range (both ends included), and the weekday is one of the task's days.
/// In particular a reading outside the date range is never runnable.
pub proof fn lemma_runnable_needs_window_range_and_day(v: SignTaskView, c: (i32, u32, u32, u8))
    ensures
        runnable_at_reading(v, c) ==> v.date_range.start_spec().days_spec() <= c.0,
        runnable_at_reading(v, c) ==> c.0 <= v.date_range.end_spec().days_spec(),
        runnable_at_reading(v, c) ==> v.daily_time_window.start_spec().key() <= c.1 * 2_000_000_000
            + c.2 <= v.daily_time_window.end_spec().key(),
        runnable_at_reading(v, c) ==> exists|d: Weekday| d.index() == c.3 && v.days_of_week.has(d),
        (v.date_range.start_spec().days_spec() <= c.0 <= v.date_range.end_spec().days_spec()
            && v.daily_time_window.start_spec().key() <= c.1 * 2_000_000_000 + c.2
            <= v.daily_time_window.end_spec().key() && exists|d: Weekday|
            d.index() == c.3 && v.days_of_week.has(d)) ==> runnable_at_reading(v, c),
{
}

} // verus!
