//! The school system's Chinese weekday names (`星期一` … `星期日`), and
//! comma-separated lists of them.

use vstd::prelude::*;

use crate::text::{
    is_white_space, lemma_split_concat, lemma_split_no_sep, lemma_trim_start_stops,
    lemma_trim_end_stops, split, split_char, str_equal, trim, trim_str, views_of,
};
use crate::time::{Weekday, WeekdaySet};

verus! {

/// The school system's name of a weekday.
pub open spec fn school_week_name(d: Weekday) -> Seq<char> {
    match d {
        Weekday::Mon => "星期一"@,
        Weekday::Tue => "星期二"@,
        Weekday::Wed => "星期三"@,
        Weekday::Thu => "星期四"@,
        Weekday::Fri => "星期五"@,
        Weekday::Sat => "星期六"@,
        Weekday::Sun => "星期日"@,
    }
}

/// The weekday names read from a comma-separated list: a weekday is in the
/// set when some item, trimmed, is its name; other items are ignored.
pub open spec fn school_week_set_has(s: Seq<char>, d: Weekday) -> bool {
    exists|i: int| 0 <= i < split(s, ',').len() && trim(#[trigger] split(s, ',')[i]) == school_week_name(d)
}

proof fn lemma_names() 
    ensures
        forall|d: Weekday| #[trigger] school_week_name(d).len() == 3,
        forall|d: Weekday, e: Weekday| d != e ==> #[trigger] school_week_name(d) != #[trigger] school_week_name(e),
        forall|d: Weekday| !(#[trigger] school_week_name(d)).contains(','),
        forall|d: Weekday| trim(#[trigger] school_week_name(d)) == school_week_name(d),
{
    reveal_strlit("星期一");
    reveal_strlit("星期二");
    reveal_strlit("星期三");
    reveal_strlit("星期四");
    reveal_strlit("星期五");
    reveal_strlit("星期六");
    reveal_strlit("星期日");
    assert forall|d: Weekday, e: Weekday| d != e implies school_week_name(d) != school_week_name(e) by {
        assert(school_week_name(d)[2] != school_week_name(e)[2]);
    }
    assert forall|d: Weekday| !(#[trigger] school_week_name(d)).contains(',') by {
        let n = school_week_name(d);
        assert(n[0] != ',' && n[1] != ',' && n[2] != ',');
    }
    assert forall|d: Weekday| trim(#[trigger] school_week_name(d)) == school_week_name(d) by {
        let n = school_week_name(d);
        assert(!is_white_space(n[0]));
        assert(!is_white_space(n.last()));
        lemma_trim_start_stops(n);
        lemma_trim_end_stops(n);
    }
}

/// The school system's name of `day`.
pub fn to_school_week(day: Weekday) -> (r: &'static str)
    ensures
        r@ == school_week_name(day),
{
    match day {
        Weekday::Mon => "星期一",
        Weekday::Tue => "星期二",
        Weekday::Wed => "星期三",
        Weekday::Thu => "星期四",
        Weekday::Fri => "星期五",
        Weekday::Sat => "星期六",
        Weekday::Sun => "星期日",
    }
}

fn weekday_of_name(name: &str) -> (r: Option<Weekday>)
    ensures
        r matches Some(d) ==> school_week_name(d) == name@,
        r is None ==> forall|d: Weekday| school_week_name(d) != name@,
{
    if str_equal(name, "星期一") {
        Some(Weekday::Mon)
    } else if str_equal(name, "星期二") {
        Some(Weekday::Tue)
    } else if str_equal(name, "星期三") {
        Some(Weekday::Wed)
    } else if str_equal(name, "星期四") {
        Some(Weekday::Thu)
    } else if str_equal(name, "星期五") {
        Some(Weekday::Fri)
    } else if str_equal(name, "星期六") {
        Some(Weekday::Sat)
    } else if str_equal(name, "星期日") {
        Some(Weekday::Sun)
    } else {
        proof {
            assert forall|d: Weekday| school_week_name(d) != name@ by {
                match d {
                    Weekday::Mon => {},
                    Weekday::Tue => {},
                    Weekday::Wed => {},
                    Weekday::Thu => {},
                    Weekday::Fri => {},
                    Weekday::Sat => {},
                    Weekday::Sun => {},
                }
            }
        }
        None
    }
}

/// Reads a comma-separated list of school weekday names into a set.
pub fn parse_school_week(week_str: &str) -> (r: WeekdaySet)
    ensures
        forall|d: Weekday| #[trigger] r.has(d) == school_week_set_has(week_str@, d),
{
    let parts = split_char(week_str, ',');
    let ghost pv = views_of(parts@);
    let mut set = WeekdaySet::empty();
    let mut i: usize = 0;
    proof {
        lemma_names();
    }
    while i < parts.len()
        invariant
            i <= parts@.len(),
            pv == views_of(parts@),
            pv == split(week_str@, ','),
            forall|d: Weekday, e: Weekday| d != e ==> #[trigger] school_week_name(d) != #[trigger] school_week_name(e),
            forall|d: Weekday| #[trigger] set.has(d) == exists|k: int| 0 <= k < i && trim(#[trigger] pv[k]) == school_week_name(d),
        decreases parts@.len() - i,
    {
        let item = trim_str(parts[i]);
        let ghost before = set;
        proof {
            assert(pv[i as int] == parts@[i as int]@);
        }
        match weekday_of_name(item) {
            Some(day) => {
                set.insert(day);
                proof {
                    assert forall|d: Weekday| #[trigger] set.has(d) == exists|k: int| 0 <= k < i + 1 && trim(#[trigger] pv[k]) == school_week_name(d) by {
                        if d == day {
                            assert(trim(pv[i as int]) == school_week_name(d));
                        } else {
                            if exists|k: int| 0 <= k < i + 1 && trim(#[trigger] pv[k]) == school_week_name(d) {
                                let k = choose|k: int| 0 <= k < i + 1 && trim(#[trigger] pv[k]) == school_week_name(d);
                                if k == i {
                                    assert(school_week_name(day) == school_week_name(d));
                                }
                            }
                        }
                    }
                }
            },
            None => {
                proof {
                    assert forall|d: Weekday| #[trigger] set.has(d) == exists|k: int| 0 <= k < i + 1 && trim(#[trigger] pv[k]) == school_week_name(d) by {
                        if exists|k: int| 0 <= k < i + 1 && trim(#[trigger] pv[k]) == school_week_name(d) {
                            let k = choose|k: int| 0 <= k < i + 1 && trim(#[trigger] pv[k]) == school_week_name(d);
                            assert(k != i);
                        }
                    }
                }
            },
        }
        i = i + 1;
    }
    set
}

/// The weekdays from Monday to Sunday.
pub open spec fn all_days() -> Seq<Weekday> {
    seq![
        Weekday::Mon,
        Weekday::Tue,
        Weekday::Wed,
        Weekday::Thu,
        Weekday::Fri,
        Weekday::Sat,
        Weekday::Sun,
    ]
}

/// Texts joined by `,` (what `[String]::join(",")` returns).
pub open spec fn join_commas(items: Seq<Seq<char>>) -> Seq<char>
    decreases items.len(),
{
    if items.len() == 0 {
        Seq::empty()
    } else if items.len() == 1 {
        items[0]
    } else {
        join_commas(items.drop_last()).push(',') + items.last()
    }
}

/// The names of the first `k` weekdays (Monday first) that `set` holds.
pub open spec fn held_names(set: WeekdaySet, k: int) -> Seq<Seq<char>>
    decreases k,
{
    if k <= 0 {
        Seq::empty()
    } else if set.has(all_days()[k - 1]) {
        held_names(set, k - 1).push(school_week_name(all_days()[k - 1]))
    } else {
        held_names(set, k - 1)
    }
}

/// The storage text of a weekday set: the names of its days, Monday first,
/// joined by `,`.
pub open spec fn week_storage(set: WeekdaySet) -> Seq<char> {
    join_commas(held_names(set, 7))
}

/// The storage text of a weekday set.
pub fn weekdays_to_storage(weekdays: &WeekdaySet) -> (r: String)
    ensures
        r@ == week_storage(*weekdays),
{
    let days = [
        Weekday::Mon,
        Weekday::Tue,
        Weekday::Wed,
        Weekday::Thu,
        Weekday::Fri,
        Weekday::Sat,
        Weekday::Sun,
    ];
    let mut out = String::new();
    let mut count: usize = 0;
    let mut k: usize = 0;
    proof {
        assert(out@ =~= join_commas(held_names(*weekdays, 0)));
    }
    while k < 7
        invariant
            k <= 7,
            days@ == all_days(),
            count <= k,
            count == held_names(*weekdays, k as int).len(),
            out@ == join_commas(held_names(*weekdays, k as int)),
        decreases 7 - k,
    {
        let day = days[k];
        if weekdays.contains(day) {
            let ghost prev = held_names(*weekdays, k as int);
            if count > 0 {
                proof {
                    reveal_strlit(",");
                }
                out.append(",");
            }
            out.append(to_school_week(day));
            count = count + 1;
            proof {
                let next = held_names(*weekdays, k + 1);
                assert(next == prev.push(school_week_name(day)));
                assert(next.drop_last() =~= prev);
                if prev.len() == 0 {
                    assert(out@ =~= school_week_name(day));
                } else {
                    assert(out@ =~= join_commas(prev).push(',') + school_week_name(day));
                }
            }
        }
        k = k + 1;
    }
    out
}

proof fn lemma_split_join(items: Seq<Seq<char>>)
    requires
        items.len() > 0,
        forall|i: int| 0 <= i < items.len() ==> !(#[trigger] items[i]).contains(','),
    ensures
        split(join_commas(items), ',') == items,
    decreases items.len(),
{
    if items.len() == 1 {
        lemma_split_no_sep(items[0], ',');
        assert(seq![items[0]] =~= items);
    } else {
        let init = items.drop_last();
        lemma_split_join(init);
        lemma_split_no_sep(items.last(), ',');
        lemma_split_concat(join_commas(init), items.last(), ',');
        assert(init + seq![items.last()] =~= items);
    }
}

proof fn lemma_held_names(set: WeekdaySet, k: int)
    requires
        0 <= k <= 7,
    ensures
        forall|i: int| 0 <= i < held_names(set, k).len() ==> !(#[trigger] held_names(set, k)[i]).contains(','),
        forall|i: int| 0 <= i < held_names(set, k).len() ==> trim(#[trigger] held_names(set, k)[i]) == held_names(set, k)[i],
        forall|d: Weekday| (exists|i: int| 0 <= i < held_names(set, k).len() && #[trigger] held_names(set, k)[i] == school_week_name(d))
            <==> (set.has(d) && d.index() < k),
    decreases k,
{
    lemma_names();
    if k > 0 {
        lemma_held_names(set, k - 1);
        let prev = held_names(set, k - 1);
        let cur = held_names(set, k);
        let day = all_days()[k - 1];
        assert(day.index() == k - 1);
        if set.has(day) {
            assert(cur == prev.push(school_week_name(day)));
        } else {
            assert(cur == prev);
        }
        assert forall|d: Weekday| (exists|i: int| 0 <= i < cur.len() && #[trigger] cur[i] == school_week_name(d))
            <==> (set.has(d) && d.index() < k) by {
            if set.has(day) {
                if exists|i: int| 0 <= i < cur.len() && #[trigger] cur[i] == school_week_name(d) {
                    let i = choose|i: int| 0 <= i < cur.len() && #[trigger] cur[i] == school_week_name(d);
                    if i < prev.len() {
                        assert(prev[i] == school_week_name(d));
                    } else {
                        assert(school_week_name(day) == school_week_name(d));
                    }
                }
                if set.has(d) && d.index() < k {
                    if d == day {
                        assert(cur[prev.len() as int] == school_week_name(d));
                    } else {
                        assert(d.index() < k - 1);
                        let i = choose|i: int| 0 <= i < prev.len() && #[trigger] prev[i] == school_week_name(d);
                        assert(cur[i] == school_week_name(d));
                    }
                }
            } else {
                if set.has(d) && d.index() < k {
                    assert(d != day);
                    assert(d.index() != k - 1);
                }
            }
        }
    }
}

/// Reading back the storage text of a weekday set gives the same set.
pub proof fn lemma_week_storage_roundtrip(set: WeekdaySet)
    ensures
        forall|d: Weekday| school_week_set_has(week_storage(set), d) == set.has(d),
{
    lemma_names();
    lemma_held_names(set, 7);
    let names = held_names(set, 7);
    assert forall|d: Weekday| school_week_set_has(week_storage(set), d) == set.has(d) by {
        assert(d.index() < 7);
        if names.len() > 0 {
            lemma_split_join(names);
            let p = split(week_storage(set), ',');
            if set.has(d) {
                let i = choose|i: int| 0 <= i < names.len() && #[trigger] names[i] == school_week_name(d);
                assert(trim(p[i]) == school_week_name(d));
            }
            if school_week_set_has(week_storage(set), d) {
                let i = choose|i: int| 0 <= i < p.len() && trim(#[trigger] p[i]) == school_week_name(d);
                assert(names[i] == school_week_name(d));
            }
        } else {
            let p = split(week_storage(set), ',');
            assert(week_storage(set) =~= Seq::<char>::empty());
            assert(p =~= seq![Seq::<char>::empty()]);
            if school_week_set_has(week_storage(set), d) {
                lemma_trim_start_stops(Seq::<char>::empty());
                lemma_trim_end_stops(Seq::<char>::empty());
                assert(trim(p[0]) =~= Seq::<char>::empty());
            }
        }
    }
}

/// A weekday's name reads back as that weekday alone.
pub proof fn lemma_week_name_roundtrip(day: Weekday)
    ensures
        forall|d: Weekday| school_week_set_has(school_week_name(day), d) == (d == day),
{
    lemma_names();
    lemma_split_no_sep(school_week_name(day), ',');
    assert forall|d: Weekday| school_week_set_has(school_week_name(day), d) == (d == day) by {
        let p = split(school_week_name(day), ',');
        if d == day {
            assert(trim(p[0]) == school_week_name(d));
        }
    }
}

} // verus!
