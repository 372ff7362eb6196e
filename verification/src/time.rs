//! Points in time, spans, dates, times of day, weekdays and time zones as
//! plain values (the values `chrono` and `chrono_tz` compute with), and the
//! time-zone conversion, which `chrono_tz` performs.

use chrono::{Datelike, Timelike};
use vstd::prelude::*;

verus! {

/// The first second that `chrono` can represent (-262143-01-01T00:00:00Z).
pub const MIN_TIMESTAMP: i64 = -8334601228800i64;

/// The last second that `chrono` can represent (+262142-12-31T23:59:59Z).
pub const MAX_TIMESTAMP: i64 = 8210266876799i64;

pub const NANOS_PER_SEC: u32 = 1_000_000_000u32;

/// The largest whole number of seconds that a `chrono::TimeDelta` can hold.
pub const MAX_DELTA_SECS: i64 = 9223372036854775i64;

/// A UTC instant (`DateTime<Utc>` outside leap seconds): seconds since the
/// Unix epoch and nanoseconds within that second.
#[derive(Debug, Clone, Copy, PartialEq, Eq, Structural)]
pub struct UtcTime {
    secs: i64,
    nanos: u32,
}

impl UtcTime {
    pub closed spec fn secs_spec(self) -> i64 {
        self.secs
    }

    /// Within `chrono`'s range, outside a leap second.
    #[verifier::type_invariant]
    pub open spec fn valid(self) -> bool {
        MIN_TIMESTAMP <= self.secs_spec() <= MAX_TIMESTAMP && self.nanos_spec() < NANOS_PER_SEC
    }

    pub closed spec fn nanos_spec(self) -> u32 {
        self.nanos
    }

    /// The instant in nanoseconds since the Unix epoch.
    pub open spec fn ns(self) -> int {
        self.secs_spec() * 1_000_000_000 + self.nanos_spec()
    }

    /// The instant `secs` seconds and `nanos` nanoseconds after the epoch,
    /// when `chrono` can represent it outside a leap second.
    pub fn from_parts(secs: i64, nanos: u32) -> (r: Option<UtcTime>)
        ensures
            r is Some <==> (MIN_TIMESTAMP <= secs <= MAX_TIMESTAMP && nanos < NANOS_PER_SEC),
            r matches Some(t) ==> t.secs_spec() == secs && t.nanos_spec() == nanos,
    {
        if MIN_TIMESTAMP <= secs && secs <= MAX_TIMESTAMP && nanos < NANOS_PER_SEC {
            Some(UtcTime { secs, nanos })
        } else {
            None
        }
    }

    pub fn secs(&self) -> (r: i64)
        ensures
            r == self.secs_spec(),
    {
        self.secs
    }

    pub fn nanos(&self) -> (r: u32)
        ensures
            r == self.nanos_spec(),
    {
        self.nanos
    }

    /// `self >= other`.
    pub fn not_before(&self, other: &UtcTime) -> (r: bool)
        ensures
            r == (self.ns() >= other.ns()),
    {
        proof {
            use_type_invariant(self);
            use_type_invariant(other);
        }
        self.secs > other.secs || (self.secs == other.secs && self.nanos >= other.nanos)
    }

    /// `DateTime::timestamp_millis`.
    pub open spec fn millis(self) -> int {
        self.secs_spec() * 1000 + self.nanos_spec() / 1_000_000
    }

    /// `DateTime::timestamp_millis`.
    pub fn timestamp_millis(&self) -> (r: i64)
        ensures
            r == self.millis(),
    {
        proof {
            use_type_invariant(self);
        }
        self.secs * 1000 + (self.nanos / 1_000_000) as i64
    }

    /// Whether `self + d` lies within the range `chrono` can represent, where
    /// `d` is a whole number of seconds that a `TimeDelta` can hold.
    pub open spec fn can_add_seconds(self, d: i64) -> bool {
        -MAX_DELTA_SECS <= d <= MAX_DELTA_SECS && MIN_TIMESTAMP <= self.secs_spec() + d
            <= MAX_TIMESTAMP
    }

    /// Whether `d` seconds can be added (see `can_add_seconds`).
    pub fn can_add(&self, d: i64) -> (r: bool)
        ensures
            r == self.can_add_seconds(d),
    {
        -MAX_DELTA_SECS <= d && d <= MAX_DELTA_SECS && MIN_TIMESTAMP - d <= self.secs && self.secs
            <= MAX_TIMESTAMP - d
    }

    /// `self + TimeDelta::seconds(d)`.
    pub fn add_seconds(&self, d: i64) -> (r: UtcTime)
        requires
            self.can_add_seconds(d),
        ensures
            r.secs_spec() == self.secs_spec() + d,
            r.nanos_spec() == self.nanos_spec(),
            r.ns() == self.ns() + d * 1_000_000_000,
    {
        proof {
            use_type_invariant(self);
        }
        UtcTime { secs: self.secs + d, nanos: self.nanos }
    }
}

/// A signed span of time (a `chrono::TimeDelta`): whole seconds, rounded
/// towards negative infinity, and nanoseconds.
#[derive(Debug, Clone, Copy, PartialEq, Eq, Structural)]
pub struct TimeSpan {
    secs: i64,
    nanos: u32,
}

impl TimeSpan {
    pub closed spec fn secs_spec(self) -> i64 {
        self.secs
    }

    /// Within the range of a `chrono::TimeDelta`.
    #[verifier::type_invariant]
    pub open spec fn valid(self) -> bool {
        &&& self.nanos_spec() < NANOS_PER_SEC
        &&& -MAX_DELTA_SECS - 1 <= self.secs_spec() <= MAX_DELTA_SECS
        &&& (self.secs_spec() == MAX_DELTA_SECS ==> self.nanos_spec() <= 807_000_000)
        &&& (self.secs_spec() == -MAX_DELTA_SECS - 1 ==> self.nanos_spec() >= 193_000_000)
    }

    pub closed spec fn nanos_spec(self) -> u32 {
        self.nanos
    }

    /// The span in nanoseconds.
    pub open spec fn ns(self) -> int {
        self.secs_spec() * 1_000_000_000 + self.nanos_spec()
    }

    /// `TimeDelta::try_seconds(secs)`: a whole number of seconds, if a
    /// `TimeDelta` can hold it.
    pub fn try_seconds(secs: i64) -> (r: Option<TimeSpan>)
        ensures
            r is Some <==> -MAX_DELTA_SECS <= secs <= MAX_DELTA_SECS,
            r matches Some(t) ==> t.secs_spec() == secs && t.nanos_spec() == 0,
    {
        if -MAX_DELTA_SECS <= secs && secs <= MAX_DELTA_SECS {
            Some(TimeSpan { secs, nanos: 0 })
        } else {
            None
        }
    }

    /// `TimeDelta::new(secs, nanos)`.
    pub fn from_parts(secs: i64, nanos: u32) -> (r: Option<TimeSpan>)
        ensures
            r is Some <==> (nanos < NANOS_PER_SEC && -MAX_DELTA_SECS - 1 <= secs <= MAX_DELTA_SECS
                && (secs == MAX_DELTA_SECS ==> nanos <= 807_000_000) && (secs == -MAX_DELTA_SECS
                - 1 ==> nanos >= 193_000_000)),
            r matches Some(t) ==> t.secs_spec() == secs && t.nanos_spec() == nanos,
    {
        if nanos < NANOS_PER_SEC && -MAX_DELTA_SECS - 1 <= secs && secs <= MAX_DELTA_SECS && (secs
            != MAX_DELTA_SECS || nanos <= 807_000_000) && (secs != -MAX_DELTA_SECS - 1 || nanos
            >= 193_000_000) {
            Some(TimeSpan { secs, nanos })
        } else {
            None
        }
    }

    pub fn secs(&self) -> (r: i64)
        ensures
            r == self.secs_spec(),
    {
        self.secs
    }

    pub fn nanos(&self) -> (r: u32)
        ensures
            r == self.nanos_spec(),
    {
        self.nanos
    }

    /// `self < TimeDelta::zero()`.
    pub fn is_negative(&self) -> (r: bool)
        ensures
            r == (self.ns() < 0),
    {
        proof {
            use_type_invariant(self);
        }
        self.secs < 0
    }

    /// `TimeDelta::num_seconds`: the whole seconds, rounded towards zero.
    pub fn num_seconds(&self) -> (r: i64)
        ensures
            r == (if self.secs_spec() < 0 && self.nanos_spec() > 0 {
                self.secs_spec() + 1
            } else {
                self.secs_spec() as int
            }),
    {
        proof {
            use_type_invariant(self);
        }
        if self.secs < 0 && self.nanos > 0 {
            self.secs + 1
        } else {
            self.secs
        }
    }
}

/// Whether `now + skew >= at`, computed without any range limit.
pub fn reached_within(now: &UtcTime, skew: &TimeSpan, at: &UtcTime) -> (r: bool)
    ensures
        r == (now.ns() + skew.ns() >= at.ns()),
{
    proof {
        use_type_invariant(now);
        use_type_invariant(skew);
        use_type_invariant(at);
    }
    let lhs: i128 = now.secs() as i128 * 1_000_000_000i128 + now.nanos() as i128 + skew.secs() as i128
        * 1_000_000_000i128 + skew.nanos() as i128;
    let rhs: i128 = at.secs() as i128 * 1_000_000_000i128 + at.nanos() as i128;
    lhs >= rhs
}

/// A calendar date (`chrono::NaiveDate`) as its day number counted from
/// 0001-01-01, which is day 1 (`num_days_from_ce`).
#[derive(Debug, Clone, Copy, PartialEq, Eq, Structural)]
pub struct Date {
    days_from_ce: i32,
}

/// The first and last day numbers that `chrono` can represent: those of
/// -262143-01-01 and 262142-12-31.
pub const MIN_DAYS_FROM_CE: i32 = -95746129i32;

pub const MAX_DAYS_FROM_CE: i32 = 95745399i32;

impl Date {
    pub closed spec fn days_spec(self) -> i32 {
        self.days_from_ce
    }

    #[verifier::type_invariant]
    pub open spec fn valid(self) -> bool {
        MIN_DAYS_FROM_CE <= self.days_spec() <= MAX_DAYS_FROM_CE
    }

    /// `NaiveDate::from_num_days_from_ce_opt`.
    pub fn from_days_from_ce(days: i32) -> (r: Option<Date>)
        ensures
            r is Some <==> MIN_DAYS_FROM_CE <= days <= MAX_DAYS_FROM_CE,
            r matches Some(d) ==> d.days_spec() == days,
    {
        if MIN_DAYS_FROM_CE <= days && days <= MAX_DAYS_FROM_CE {
            Some(Date { days_from_ce: days })
        } else {
            None
        }
    }

    pub fn days_from_ce(&self) -> (r: i32)
        ensures
            r == self.days_spec(),
    {
        self.days_from_ce
    }
}

/// Whether `y` is a leap year of the proleptic Gregorian calendar (year 0
/// and the years before it included).
pub open spec fn is_leap_year(y: int) -> bool {
    y % 4 == 0 && (y % 100 != 0 || y % 400 == 0)
}

/// The number of days in month `m` (1 to 12) of year `y`.
pub open spec fn month_length(y: int, m: int) -> int {
    if m == 2 {
        if is_leap_year(y) { 29 } else { 28 }
    } else if m == 4 || m == 6 || m == 9 || m == 11 {
        30
    } else {
        31
    }
}

/// The days of year `y` before the first of month `m`.
pub open spec fn days_before_month(y: int, m: int) -> int
    decreases m,
{
    if m <= 1 { 0 } else { days_before_month(y, m - 1) + month_length(y, m - 1) }
}

/// Whether year `y`, month `m` and day `d` name a day of the calendar.
pub open spec fn is_civil_date(y: int, m: int, d: int) -> bool {
    1 <= m <= 12 && 1 <= d <= month_length(y, m)
}

/// The day number of a calendar date, 0001-01-01 being day 1 (the days of
/// the years before `y`, of the months before `m`, and `d`).
pub open spec fn civil_day_number(y: int, m: int, d: int) -> int {
    let p = y - 1;
    365 * p + p / 4 - p / 100 + p / 400 + days_before_month(y, m) + d
}

/// A time of day (`chrono::NaiveTime`): seconds from midnight and the
/// fraction in nanoseconds, which reaches into a second second only for a leap
/// second.
#[derive(Debug, Clone, Copy, PartialEq, Eq, Structural)]
pub struct TimeOfDay {
    secs: u32,
    nanos: u32,
}

/// Whether `chrono` accepts these as a time of day.
pub open spec fn valid_time_of_day(secs: u32, nanos: u32) -> bool {
    secs < 86_400 && nanos < 2_000_000_000 && (nanos >= 1_000_000_000 ==> secs % 60 == 59)
}

impl TimeOfDay {
    pub closed spec fn secs_spec(self) -> u32 {
        self.secs
    }

    #[verifier::type_invariant]
    pub open spec fn valid(self) -> bool {
        valid_time_of_day(self.secs_spec(), self.nanos_spec())
    }

    pub closed spec fn nanos_spec(self) -> u32 {
        self.nanos
    }

    /// The order of times of day: by second, then by fraction.
    pub open spec fn key(self) -> int {
        self.secs_spec() * 2_000_000_000 + self.nanos_spec()
    }

    /// `NaiveTime::from_num_seconds_from_midnight_opt`.
    pub fn from_parts(secs: u32, nanos: u32) -> (r: Option<TimeOfDay>)
        ensures
            r is Some <==> valid_time_of_day(secs, nanos),
            r matches Some(t) ==> t.secs_spec() == secs && t.nanos_spec() == nanos,
    {
        if secs < 86_400 && nanos < 2_000_000_000 && (nanos < 1_000_000_000 || secs % 60 == 59) {
            Some(TimeOfDay { secs, nanos })
        } else {
            None
        }
    }

    pub fn secs(&self) -> (r: u32)
        ensures
            r == self.secs_spec(),
    {
        self.secs
    }

    pub fn nanos(&self) -> (r: u32)
        ensures
            r == self.nanos_spec(),
    {
        self.nanos
    }

    /// `self <= other`.
    pub fn not_after(&self, other: &TimeOfDay) -> (r: bool)
        ensures
            r == (self.key() <= other.key()),
    {
        proof {
            use_type_invariant(self);
            use_type_invariant(other);
        }
        self.secs < other.secs || (self.secs == other.secs && self.nanos <= other.nanos)
    }
}

/// A day of the week.
#[derive(Debug, Clone, Copy, PartialEq, Eq, Structural)]
pub enum Weekday {
    Mon,
    Tue,
    Wed,
    Thu,
    Fri,
    Sat,
    Sun,
}

impl Weekday {
    /// `Weekday::num_days_from_monday`.
    pub open spec fn index(self) -> nat {
        match self {
            Weekday::Mon => 0,
            Weekday::Tue => 1,
            Weekday::Wed => 2,
            Weekday::Thu => 3,
            Weekday::Fri => 4,
            Weekday::Sat => 5,
            Weekday::Sun => 6,
        }
    }

    /// The weekday `index` days after Monday.
    pub fn from_index(index: u8) -> (r: Weekday)
        requires
            index < 7,
        ensures
            r.index() == index,
    {
        match index {
            0 => Weekday::Mon,
            1 => Weekday::Tue,
            2 => Weekday::Wed,
            3 => Weekday::Thu,
            4 => Weekday::Fri,
            5 => Weekday::Sat,
            _ => Weekday::Sun,
        }
    }
}

/// A set of weekdays (`chrono::WeekdaySet`).
#[derive(Debug, Clone, Copy, PartialEq, Eq, Structural)]
pub struct WeekdaySet {
    mon: bool,
    tue: bool,
    wed: bool,
    thu: bool,
    fri: bool,
    sat: bool,
    sun: bool,
}

impl WeekdaySet {
    pub closed spec fn has(self, day: Weekday) -> bool {
        match day {
            Weekday::Mon => self.mon,
            Weekday::Tue => self.tue,
            Weekday::Wed => self.wed,
            Weekday::Thu => self.thu,
            Weekday::Fri => self.fri,
            Weekday::Sat => self.sat,
            Weekday::Sun => self.sun,
        }
    }

    /// The empty set (`WeekdaySet::default`).
    pub fn empty() -> (r: WeekdaySet)
        ensures
            forall|d: Weekday| !r.has(d),
    {
        WeekdaySet { mon: false, tue: false, wed: false, thu: false, fri: false, sat: false, sun: false }
    }

    /// Adds `day`.
    pub fn insert(&mut self, day: Weekday)
        ensures
            forall|d: Weekday| final(self).has(d) == (d == day || old(self).has(d)),
    {
        match day {
            Weekday::Mon => self.mon = true,
            Weekday::Tue => self.tue = true,
            Weekday::Wed => self.wed = true,
            Weekday::Thu => self.thu = true,
            Weekday::Fri => self.fri = true,
            Weekday::Sat => self.sat = true,
            Weekday::Sun => self.sun = true,
        }
    }

    pub fn contains(&self, day: Weekday) -> (r: bool)
        ensures
            r == self.has(day),
    {
        match day {
            Weekday::Mon => self.mon,
            Weekday::Tue => self.tue,
            Weekday::Wed => self.wed,
            Weekday::Thu => self.thu,
            Weekday::Fri => self.fri,
            Weekday::Sat => self.sat,
            Weekday::Sun => self.sun,
        }
    }

    pub fn is_empty(&self) -> (r: bool)
        ensures
            r == forall|d: Weekday| !self.has(d),
    {
        let r = !(self.mon || self.tue || self.wed || self.thu || self.fri || self.sat || self.sun);
        proof {
            if r {
                assert forall|d: Weekday| !self.has(d) by {
                    match d {
                        Weekday::Mon => {},
                        Weekday::Tue => {},
                        Weekday::Wed => {},
                        Weekday::Thu => {},
                        Weekday::Fri => {},
                        Weekday::Sat => {},
                        Weekday::Sun => {},
                    }
                }
            } else {
                assert(self.has(Weekday::Mon) || self.has(Weekday::Tue) || self.has(Weekday::Wed)
                    || self.has(Weekday::Thu) || self.has(Weekday::Fri) || self.has(Weekday::Sat)
                    || self.has(Weekday::Sun));
            }
        }
        r
    }
}

/// Whether `chrono_tz` knows a time zone by this IANA name.
pub uninterp spec fn tz_name_parses(name: Seq<char>) -> bool;

/// The local clock reading of a UTC instant in a named zone: the day number
/// from the common era, the seconds from midnight, the nanoseconds, and the
/// weekday counted from Monday.
pub uninterp spec fn local_clock(zone: Seq<char>, secs: i64, nanos: u32) -> (i32, u32, u32, u8);

/// `name.parse::<chrono_tz::Tz>().is_ok()`; the answer is named, not stated.
#[verifier::external_body]
fn zone_name_parses(name: &str) -> (r: bool)
    ensures
        r == tz_name_parses(name@),
{
    name.parse::<chrono_tz::Tz>().is_ok()
}

/// `DateTime::from_timestamp(secs, nanos).with_timezone(&zone)`, read as a
/// date, a time of day and a weekday.
///
/// The reading is named, not stated. The contract claims only what the types
/// of `chrono` guarantee of it: a date within `chrono`'s range, a valid time
/// of day, and a weekday index below 7.
#[verifier::external_body]
fn local_clock_of(zone: &str, secs: i64, nanos: u32) -> (r: (i32, u32, u32, u8))
    requires
        tz_name_parses(zone@),
        MIN_TIMESTAMP + 86_400 <= secs <= MAX_TIMESTAMP - 86_400,
        nanos < NANOS_PER_SEC,
    ensures
        r == local_clock(zone@, secs, nanos),
        MIN_DAYS_FROM_CE <= r.0 <= MAX_DAYS_FROM_CE,
        valid_time_of_day(r.1, r.2),
        r.3 < 7,
{
    let tz: chrono_tz::Tz = zone.parse().unwrap();
    let local = chrono::DateTime::from_timestamp(secs, nanos).unwrap().with_timezone(&tz);
    (
        local.date_naive().num_days_from_ce(),
        local.time().num_seconds_from_midnight(),
        local.time().nanosecond(),
        local.weekday().num_days_from_monday() as u8,
    )
}

/// `chrono_tz::Asia::Shanghai.name()`, which the source spells
/// `"Asia/Shanghai"` and which `chrono_tz` parses back to the same zone.
#[verifier::external_body]
fn shanghai_zone_name() -> (r: String)
    ensures
        r@ == "Asia/Shanghai"@,
        tz_name_parses(r@),
{
    chrono_tz::Asia::Shanghai.name().to_string()
}

/// An IANA time zone that `chrono_tz` knows, held by its name.
#[derive(Debug, PartialEq, Eq)]
pub struct TimeZone {
    name: String,
}

impl TimeZone {
    pub closed spec fn name_spec(self) -> Seq<char> {
        self.name@
    }

    #[verifier::type_invariant]
    pub open spec fn valid(self) -> bool {
        tz_name_parses(self.name_spec())
    }

    /// The zone named `name`, if `chrono_tz` knows it.
    pub fn from_name(name: String) -> (r: Option<TimeZone>)
        ensures
            r is Some <==> tz_name_parses(name@),
            r matches Some(z) ==> z.name_spec() == name@,
    {
        if zone_name_parses(name.as_str()) {
            Some(TimeZone { name })
        } else {
            None
        }
    }

    pub fn name(&self) -> (r: &str)
        ensures
            r@ == self.name_spec(),
    {
        self.name.as_str()
    }

    /// `chrono_tz::Asia::Shanghai`.
    pub fn shanghai() -> (r: TimeZone)
        ensures
            r.name_spec() == "Asia/Shanghai"@,
    {
        TimeZone { name: shanghai_zone_name() }
    }


    /// Whether the local reading of `t` is away from both ends of `chrono`'s
    /// range (by a day, more than any zone offset).
    pub open spec fn can_read(t: UtcTime) -> bool {
        MIN_TIMESTAMP + 86_400 <= t.secs_spec() <= MAX_TIMESTAMP - 86_400
    }

    /// Whether `t` can be read in a zone (see `can_read`).
    pub fn can_read_instant(t: &UtcTime) -> (r: bool)
        ensures
            r == Self::can_read(*t),
    {
        MIN_TIMESTAMP + 86_400 <= t.secs() && t.secs() <= MAX_TIMESTAMP - 86_400
    }

    /// The local date, time of day and weekday of `t` in this zone.
    pub fn local_reading(&self, t: &UtcTime) -> (r: (Date, TimeOfDay, Weekday))
        requires
            Self::can_read(*t),
        ensures
            ({
                let c = local_clock(self.name_spec(), t.secs_spec(), t.nanos_spec());
                &&& r.0.days_spec() == c.0
                &&& r.1.secs_spec() == c.1
                &&& r.1.nanos_spec() == c.2
                &&& r.2.index() == c.3
            }),
    {
        proof {
            use_type_invariant(self);
            use_type_invariant(t);
        }
        let c = local_clock_of(self.name.as_str(), t.secs(), t.nanos());
        let date = match Date::from_days_from_ce(c.0) {
            Some(d) => d,
            None => {
                proof {
                    assert(false);
                }
                Date { days_from_ce: 1 }
            },
        };
        let time = match TimeOfDay::from_parts(c.1, c.2) {
            Some(x) => x,
            None => {
                proof {
                    assert(false);
                }
                TimeOfDay { secs: 0, nanos: 0 }
            },
        };
        (date, time, Weekday::from_index(c.3))
    }
}

impl Clone for TimeZone {
    fn clone(&self) -> (r: Self)
        ensures
            r == *self,
    {
        proof {
            use_type_invariant(self);
        }
        TimeZone { name: self.name.clone() }
    }
}

} // verus!
