use ahut_dorm_sign::time::{Date, UtcTime, MAX_DAYS_FROM_CE, MAX_TIMESTAMP, MIN_DAYS_FROM_CE, MIN_TIMESTAMP};
use chrono::NaiveDate;

#[test]
fn date_range_is_that_of_chrono() {
    assert!(NaiveDate::from_num_days_from_ce_opt(MIN_DAYS_FROM_CE).is_some());
    assert!(NaiveDate::from_num_days_from_ce_opt(MIN_DAYS_FROM_CE - 1).is_none());
    assert!(NaiveDate::from_num_days_from_ce_opt(MAX_DAYS_FROM_CE).is_some());
    assert!(NaiveDate::from_num_days_from_ce_opt(MAX_DAYS_FROM_CE + 1).is_none());
    assert!(Date::from_days_from_ce(MIN_DAYS_FROM_CE).is_some());
    assert!(Date::from_days_from_ce(MIN_DAYS_FROM_CE - 1).is_none());
    assert!(Date::from_days_from_ce(MAX_DAYS_FROM_CE + 1).is_none());
}

#[test]
fn instant_range_is_that_of_chrono() {
    assert!(chrono::DateTime::from_timestamp(MIN_TIMESTAMP, 0).is_some());
    assert!(chrono::DateTime::from_timestamp(MIN_TIMESTAMP - 1, 0).is_none());
    assert!(chrono::DateTime::from_timestamp(MAX_TIMESTAMP, 999_999_999).is_some());
    assert!(chrono::DateTime::from_timestamp(MAX_TIMESTAMP + 1, 0).is_none());
    assert!(UtcTime::from_parts(MIN_TIMESTAMP, 0).is_some());
    assert!(UtcTime::from_parts(MIN_TIMESTAMP - 1, 0).is_none());
    assert!(UtcTime::from_parts(MAX_TIMESTAMP + 1, 0).is_none());
}
