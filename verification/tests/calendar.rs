use timesheet_gen::aggregate::{
    author_argument, build_calendar, build_months_from_git_log, day_entries, day_pattern_for,
    extract_dates, month_days, month_pattern_for, trim_all, year_months, HierarchyLevel,
};
use timesheet_gen::calendar::{assign_effort, CalendarEntry, TimesheetCalendar, DAILY_EFFORT};
use timesheet_gen::keyed::KeyedList;

fn commit(date: &str) -> String {
    format!("commit 0123456789abcdef\nAuthor: Tom Jones <sex_bomb@gmail.com>\nDate:   {}\n\n    work\n\n", date)
}

fn leaf_count(calendar: &TimesheetCalendar) -> usize {
    let mut n = 0;
    for y in calendar.years() {
        for m in calendar.months(&y).unwrap() {
            n += calendar.days(&y, &m).unwrap().len();
        }
    }
    n
}

#[test]
fn two_days_of_january_with_a_repeat() {
    let log = commit("Mon Jan 5 10:00:00 2024 +0000")
        + &commit("Tue Jan 6 11:00:00 2024 +0000")
        + &commit("Mon Jan 5 15:00:00 2024 +0000");
    let calendar = build_calendar(&log).unwrap();
    assert_eq!(calendar.years(), vec!["2024".to_string()]);
    assert_eq!(calendar.months("2024"), Some(vec!["Jan".to_string()]));
    assert_eq!(calendar.days("2024", "Jan"), Some(vec!["5".to_string(), "6".to_string()]));
    assert_eq!(calendar.entry("2024", "Jan", "5"), Some(CalendarEntry { effort: 8 }));
    assert_eq!(calendar.entry("2024", "Jan", "6"), Some(CalendarEntry { effort: 8 }));
    assert_eq!(calendar.entry("2024", "Jan", "7"), None);
    assert_eq!(leaf_count(&calendar), 2);
}

#[test]
fn ten_commits_on_three_days_give_three_leaves() {
    let mut log = String::new();
    for hour in 10..14 {
        log += &commit(&format!("Mon Mar 4 {}:00:00 2024 +0100", hour));
    }
    for hour in 10..13 {
        log += &commit(&format!("Tue Mar 5 {}:30:00 2024 +0100", hour));
    }
    for hour in 10..13 {
        log += &commit(&format!("Fri Apr 12 {}:15:00 2024 +0200", hour));
    }
    let calendar = build_calendar(&log).unwrap();
    assert_eq!(leaf_count(&calendar), 3);
    for y in calendar.years() {
        for m in calendar.months(&y).unwrap() {
            for d in calendar.days(&y, &m).unwrap() {
                assert_eq!(calendar.entry(&y, &m, &d).unwrap().effort, DAILY_EFFORT);
            }
        }
    }
    assert_eq!(calendar.months("2024"), Some(vec!["Mar".to_string(), "Apr".to_string()]));
    assert_eq!(calendar.days("2024", "Mar"), Some(vec!["4".to_string(), "5".to_string()]));
    assert_eq!(calendar.days("2024", "Apr"), Some(vec!["12".to_string()]));
}

#[test]
fn empty_text_gives_the_empty_calendar() {
    let calendar = build_calendar("").unwrap();
    assert!(calendar.is_empty());
    assert_eq!(calendar.years(), Vec::<String>::new());
    assert_eq!(leaf_count(&calendar), 0);
    let summary = build_months_from_git_log("").unwrap();
    assert!(summary.dates.is_empty());
    assert!(summary.calendar.is_empty());
}

#[test]
fn text_without_dates_or_years_gives_the_empty_calendar() {
    let calendar = build_calendar("no commits here, only words and 12345 digits").unwrap();
    assert!(calendar.is_empty());
    assert_eq!(extract_dates("no commits here").unwrap(), Vec::<String>::new());
}

#[test]
fn a_stray_year_is_a_year_without_months() {
    let text = "released in 1999 and never touched again";
    assert_eq!(extract_dates(text).unwrap(), Vec::<String>::new());
    let calendar = build_calendar(text).unwrap();
    assert!(!calendar.is_empty());
    assert_eq!(calendar.years(), vec!["1999".to_string()]);
    assert_eq!(calendar.months("1999"), Some(Vec::<String>::new()));
    assert_eq!(calendar.days("1999", "Jan"), None);
    assert_eq!(leaf_count(&calendar), 0);
}

#[test]
fn every_year_of_the_calendar_is_found_by_the_year_pattern() {
    let log = commit("Mon Jan 5 10:00:00 2024 +0000")
        + &commit("Wed Dec 31 23:59:59 2019 -0500")
        + "fixed the bug of 2031 in passing\n";
    let calendar = build_calendar(&log).unwrap();
    let year_pattern = regex::Regex::new(timesheet_gen::aggregate::YEAR_PATTERN).unwrap();
    let found: Vec<String> = year_pattern.find_iter(&log).map(|m| m.as_str().trim().to_string()).collect();
    for y in calendar.years() {
        assert!(found.contains(&y));
    }
    for y in &found {
        assert!(calendar.months(y).is_some());
    }
    assert_eq!(
        calendar.years(),
        vec!["2024".to_string(), "2019".to_string(), "2031".to_string()]
    );
    assert_eq!(calendar.months("2019"), Some(vec!["Dec".to_string()]));
    assert_eq!(calendar.days("2019", "Dec"), Some(vec!["31".to_string()]));
    assert_eq!(calendar.months("2031"), Some(Vec::<String>::new()));
}

#[test]
fn aggregating_twice_gives_the_same_calendar() {
    let log = commit("Mon Jan 5 10:00:00 2024 +0000")
        + &commit("Sat Feb 1 09:00:00 2020 +0000")
        + &commit("Tue Jan 6 11:00:00 2024 +0000");
    let first = build_calendar(&log).unwrap();
    let second = build_calendar(&log).unwrap();
    assert_eq!(first, second);
    assert_eq!(first.years(), second.years());
}

#[test]
fn the_same_day_in_two_months_and_years_is_kept_apart() {
    let log = commit("Mon Jan 5 10:00:00 2024 +0000")
        + &commit("Mon Feb 5 10:00:00 2024 +0000")
        + &commit("Sun Jan 5 10:00:00 2020 +0000");
    let calendar = build_calendar(&log).unwrap();
    assert_eq!(calendar.days("2024", "Jan"), Some(vec!["5".to_string()]));
    assert_eq!(calendar.days("2024", "Feb"), Some(vec!["5".to_string()]));
    assert_eq!(calendar.days("2020", "Jan"), Some(vec!["5".to_string()]));
    assert_eq!(calendar.days("2020", "Feb"), None);
    assert_eq!(leaf_count(&calendar), 3);
}

#[test]
fn distinct_dates_are_listed_once_in_order() {
    let log = commit("Mon Jan 5 10:00:00 2024 +0000")
        + &commit("Tue Jan 6 11:00:00 2024 +0000")
        + &commit("Mon Jan 5 10:00:00 2024 +0000");
    assert_eq!(
        extract_dates(&log).unwrap(),
        vec![
            "Mon Jan 5 10:00:00 2024 +0000".to_string(),
            "Tue Jan 6 11:00:00 2024 +0000".to_string()
        ]
    );
}

#[test]
fn a_date_without_offset_is_a_date() {
    assert_eq!(
        extract_dates("Date: Mon Jan 5 10:00:00 2024\n").unwrap(),
        vec!["Mon Jan 5 10:00:00 2024".to_string()]
    );
    assert_eq!(
        extract_dates("Date: Mon Jan 5 10:00:00 2024 -0730\n").unwrap(),
        vec!["Mon Jan 5 10:00:00 2024 -0730".to_string()]
    );
}

#[test]
fn the_log_summary_holds_dates_and_calendar() {
    let log = commit("Mon Jan 5 10:00:00 2024 +0000");
    let summary = build_months_from_git_log(&log).unwrap();
    assert_eq!(summary.dates, vec!["Mon Jan 5 10:00:00 2024 +0000".to_string()]);
    assert_eq!(summary.calendar.entry("2024", "Jan", "5"), Some(CalendarEntry { effort: 8 }));
}

#[test]
fn patterns_are_built_around_year_and_month() {
    assert_eq!(
        month_pattern_for("2024"),
        r"([a-zA-Z]{3})\s(?P<month>[a-zA-Z]{3})\s(\d{1,2})\s(\d+:?){3}\s2024"
    );
    assert_eq!(
        day_pattern_for("2024", "Jan"),
        r"([a-zA-Z]{3})\sJan\s(?P<day>\d{1,2})\s(\d+:?){3}\s2024"
    );
    assert_eq!(author_argument("Tom Jones"), "--author=Tom Jones");
}

#[test]
fn a_month_that_breaks_the_pattern_is_reported() {
    let e = month_days("Mon Jan 5 10:00:00 2024", "2024", "(").unwrap_err();
    assert_eq!(e.level, HierarchyLevel::Day);
    assert_eq!(e.pattern, day_pattern_for("2024", "("));
    assert_eq!(
        e.message(),
        format!("the day pattern does not compile: {}", day_pattern_for("2024", "("))
    );
}

#[test]
fn a_year_that_breaks_the_pattern_is_reported() {
    let e = year_months("Mon Jan 5 10:00:00 2024", "(").unwrap_err();
    assert_eq!(e.level, HierarchyLevel::Month);
    assert_eq!(e.pattern, month_pattern_for("("));
}

#[test]
fn months_and_days_of_one_year() {
    let log = commit("Mon Jan 5 10:00:00 2024 +0000") + &commit("Thu Feb 8 10:00:00 2024 +0000");
    let months = year_months(&log, "2024").unwrap();
    assert_eq!(months.key_list(), vec!["Jan".to_string(), "Feb".to_string()]);
    assert_eq!(months.get("Feb").unwrap().key_list(), vec!["8".to_string()]);
    let days = month_days(&log, "2024", "Jan").unwrap();
    assert_eq!(days.key_list(), vec!["5".to_string()]);
    assert_eq!(days.get("5"), Some(&CalendarEntry { effort: 8 }));
    assert!(month_days(&log, "2023", "Jan").unwrap().key_list().is_empty());
}

#[test]
fn every_day_gets_the_fixed_effort() {
    assert_eq!(assign_effort("5"), CalendarEntry { effort: 8 });
    assert_eq!(assign_effort("31"), CalendarEntry { effort: 8 });
    assert_eq!(DAILY_EFFORT, 8);
    let days = day_entries(&vec!["1".to_string(), "2".to_string(), "1".to_string()]);
    assert_eq!(days.len(), 2);
    assert_eq!(days.get("1"), Some(&CalendarEntry { effort: 8 }));
    assert_eq!(days.get("3"), None);
}

#[test]
fn trimming_all_items() {
    assert_eq!(
        trim_all(&vec![" 2024 ".to_string(), "\n1999\t".to_string(), "x".to_string()]),
        vec!["2024".to_string(), "1999".to_string(), "x".to_string()]
    );
}

#[test]
fn a_keyed_list_keeps_one_value_per_key() {
    let mut list: KeyedList<CalendarEntry> = KeyedList::new();
    assert_eq!(list.len(), 0);
    list.insert("a".to_string(), CalendarEntry { effort: 1 });
    list.insert("b".to_string(), CalendarEntry { effort: 2 });
    list.insert("a".to_string(), CalendarEntry { effort: 3 });
    assert_eq!(list.len(), 2);
    assert_eq!(list.key_list(), vec!["a".to_string(), "b".to_string()]);
    assert_eq!(list.get("a"), Some(&CalendarEntry { effort: 3 }));
    assert_eq!(list.position("b"), Some(1));
    assert_eq!(list.position("c"), None);
    assert!(list.contains_key("b"));
    assert!(!list.contains_key("c"));
    assert_eq!(list.key_at(1), "b");
    assert_eq!(list.value_at(0), &CalendarEntry { effort: 3 });
}

#[test]
fn a_calendar_built_by_hand() {
    let mut days: KeyedList<CalendarEntry> = KeyedList::new();
    days.insert("5".to_string(), assign_effort("5"));
    let mut months = KeyedList::new();
    months.insert("Jan".to_string(), days);
    let mut calendar = TimesheetCalendar::new();
    assert!(calendar.is_empty());
    calendar.insert_year("2024".to_string(), months);
    assert!(!calendar.is_empty());
    assert_eq!(calendar.entry("2024", "Jan", "5"), Some(CalendarEntry { effort: 8 }));
    let mut years = KeyedList::new();
    years.insert("2020".to_string(), KeyedList::new());
    let other = TimesheetCalendar::from_years(years);
    assert_eq!(other.years(), vec!["2020".to_string()]);
    assert_eq!(other.months("2020"), Some(Vec::<String>::new()));
}
