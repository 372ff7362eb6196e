use ahut_dorm_sign::infrastructure::school::week_mapper::{parse_school_week, to_school_week, weekdays_to_storage};
use ahut_dorm_sign::time::{Weekday, WeekdaySet};

#[test]
fn week_days_read_and_write_as_chinese_names() {
    let s = parse_school_week(" 星期一 ,星期五,周三,星期日");
    assert!(s.contains(Weekday::Mon) && s.contains(Weekday::Fri) && s.contains(Weekday::Sun));
    assert!(!s.contains(Weekday::Wed));
    assert_eq!(weekdays_to_storage(&s), "星期一,星期五,星期日");
    let back = parse_school_week(&weekdays_to_storage(&s));
    for d in [Weekday::Mon, Weekday::Tue, Weekday::Wed, Weekday::Thu, Weekday::Fri, Weekday::Sat, Weekday::Sun] {
        assert_eq!(back.contains(d), s.contains(d));
    }
    assert_eq!(weekdays_to_storage(&WeekdaySet::empty()), "");
    assert_eq!(to_school_week(Weekday::Thu), "星期四");
    assert!(parse_school_week("").is_empty());
}
