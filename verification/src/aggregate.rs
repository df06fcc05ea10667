//! From commit-log text to the calendar: the distinct commit dates, and the
//! three-level scan (years, then the months of each year, then the days of
//! each month) that files every observed day under its month and year.

use crate::calendar::{
    assign_effort, fixed_entry, CalendarEntry, CalendarView, DayList, MonthList, TimesheetCalendar,
};
use crate::keyed::KeyedList;
use crate::pattern::{capture_all, find_all, pattern_captures, pattern_is_valid, pattern_matches};
use crate::text::{distinct, distinct_strings, lemma_distinct, present, present_strings, trim, trimmed};
use vstd::prelude::*;
use vstd::string::*;

verus! {

/// A full commit date: weekday, month, day of month, time of day, year and,
/// if it is there, the offset from UTC.
pub const DATE_PATTERN: &'static str =
    r"([\w]{3}\s){2}[\d]{1,2}\s(\d+:?){3}\s\d{4}(\s[+|-]?\d{4})?";

/// A year of the twentieth or twenty-first century between whitespace.
pub const YEAR_PATTERN: &'static str = r"(\s(20|19){1}[0-9]{2}\s)";

/// What precedes the year in the pattern for the months of that year.
pub const MONTH_PATTERN_HEAD: &'static str =
    r"([a-zA-Z]{3})\s(?P<month>[a-zA-Z]{3})\s(\d{1,2})\s(\d+:?){3}\s";

/// What precedes the month in the pattern for the days of that month.
pub const DAY_PATTERN_HEAD: &'static str = r"([a-zA-Z]{3})\s";

/// What stands between month and year in the pattern for the days.
pub const DAY_PATTERN_TAIL: &'static str = r"\s(?P<day>\d{1,2})\s(\d+:?){3}\s";

/// The capture group that holds the month.
pub const MONTH_GROUP: &'static str = "month";

/// The capture group that holds the day.
pub const DAY_GROUP: &'static str = "day";

/// The pattern for the dates of `year`, capturing the month.
pub open spec fn month_pattern(year: Seq<char>) -> Seq<char> {
    MONTH_PATTERN_HEAD@ + year
}

/// The pattern for the dates of `month` in `year`, capturing the day.
pub open spec fn day_pattern(year: Seq<char>, month: Seq<char>) -> Seq<char> {
    DAY_PATTERN_HEAD@ + month + DAY_PATTERN_TAIL@ + year
}

/// Each item without its surrounding whitespace.
pub open spec fn trim_each(items: Seq<Seq<char>>) -> Seq<Seq<char>> {
    Seq::new(items.len(), |i: int| trimmed(items[i]))
}

/// The years the year-level pattern finds in `text`, one per match.
pub open spec fn observed_years(text: Seq<char>) -> Seq<Seq<char>> {
    trim_each(pattern_matches(YEAR_PATTERN@, text))
}

/// The months found in `text` next to `year`, one per match.
pub open spec fn observed_months(text: Seq<char>, year: Seq<char>) -> Seq<Seq<char>> {
    present(pattern_captures(month_pattern(year), MONTH_GROUP@, text))
}

/// The days found in `text` next to `month` and `year`, one per match.
pub open spec fn observed_days(text: Seq<char>, year: Seq<char>, month: Seq<char>) -> Seq<
    Seq<char>,
> {
    present(pattern_captures(day_pattern(year, month), DAY_GROUP@, text))
}

/// The fixed entry under each of `days`.
pub open spec fn entries_for(days: Seq<Seq<char>>) -> Map<Seq<char>, CalendarEntry> {
    Map::new(|d: Seq<char>| days.contains(d), |d: Seq<char>| fixed_entry())
}

/// The days of `month` in `year`, as `text` shows them.
pub open spec fn day_map_of(text: Seq<char>, year: Seq<char>, month: Seq<char>) -> Map<
    Seq<char>,
    CalendarEntry,
> {
    entries_for(observed_days(text, year, month))
}

/// The months of `year`, as `text` shows them.
pub open spec fn month_map_of(text: Seq<char>, year: Seq<char>) -> Map<
    Seq<char>,
    Map<Seq<char>, CalendarEntry>,
> {
    Map::new(
        |m: Seq<char>| observed_months(text, year).contains(m),
        |m: Seq<char>| day_map_of(text, year, m),
    )
}

/// The calendar that `text` describes: a year for every match of the
/// year-level pattern, under it a month for every date of that year, and
/// under the month a day for every date of that month and year.
pub open spec fn calendar_of(text: Seq<char>) -> CalendarView {
    Map::new(
        |y: Seq<char>| observed_years(text).contains(y),
        |y: Seq<char>| month_map_of(text, y),
    )
}

/// Whether the patterns below `year` compile: the one for its months, and
/// the one for the days of each month found.
pub open spec fn year_patterns_valid(text: Seq<char>, year: Seq<char>) -> bool {
    &&& pattern_is_valid(month_pattern(year))
    &&& forall|m: Seq<char>| #[trigger]
        observed_months(text, year).contains(m) ==> pattern_is_valid(day_pattern(year, m))
}

/// Whether every pattern of the three-level scan of `text` compiles.
pub open spec fn hierarchy_valid(text: Seq<char>) -> bool {
    &&& pattern_is_valid(YEAR_PATTERN@)
    &&& forall|y: Seq<char>| #[trigger]
        observed_years(text).contains(y) ==> year_patterns_valid(text, y)
}

/// The level of the scan at which a pattern is used.
#[derive(Clone, Copy, Debug, PartialEq, Eq, Structural)]
pub enum HierarchyLevel {
    Date,
    Year,
    Month,
    Day,
}

/// A pattern of the scan that does not compile. The scan stops at the first.
#[derive(Debug)]
pub struct AggregationError {
    pub level: HierarchyLevel,
    pub pattern: String,
}

/// Whether `e` names a pattern below `year` that does not compile.
pub open spec fn malformed_below_year(e: AggregationError, text: Seq<char>, year: Seq<char>) -> bool {
    &&& !pattern_is_valid(e.pattern@)
    &&& match e.level {
        HierarchyLevel::Month => e.pattern@ == month_pattern(year),
        HierarchyLevel::Day => exists|m: Seq<char>| #[trigger]
            observed_months(text, year).contains(m) && e.pattern@ == day_pattern(year, m),
        _ => false,
    }
}

/// Whether `e` names a pattern of the three-level scan of `text` that does
/// not compile.
pub open spec fn malformed_in_hierarchy(e: AggregationError, text: Seq<char>) -> bool {
    &&& !pattern_is_valid(e.pattern@)
    &&& match e.level {
        HierarchyLevel::Date => false,
        HierarchyLevel::Year => e.pattern@ == YEAR_PATTERN@,
        _ => exists|y: Seq<char>| #[trigger]
            observed_years(text).contains(y) && malformed_below_year(e, text, y),
    }
}

impl AggregationError {
    /// A sentence that names the level and the pattern.
    pub fn message(&self) -> (res: String)
        ensures
            res@ == level_sentence(self.level) + self.pattern@,
    {
        let head = match self.level {
            HierarchyLevel::Date => "the date pattern does not compile: ",
            HierarchyLevel::Year => "the year pattern does not compile: ",
            HierarchyLevel::Month => "the month pattern does not compile: ",
            HierarchyLevel::Day => "the day pattern does not compile: ",
        };
        String::from_str(head).concat(self.pattern.as_str())
    }
}

/// How the message for a pattern of `level` begins.
pub open spec fn level_sentence(level: HierarchyLevel) -> Seq<char> {
    match level {
        HierarchyLevel::Date => "the date pattern does not compile: "@,
        HierarchyLevel::Year => "the year pattern does not compile: "@,
        HierarchyLevel::Month => "the month pattern does not compile: "@,
        HierarchyLevel::Day => "the day pattern does not compile: "@,
    }
}

/// A longer prefix holds what the shorter held, and the item after it.
proof fn lemma_prefix_contains(items: Seq<Seq<char>>, i: int, x: Seq<char>)
    requires
        0 <= i < items.len(),
    ensures
        items.subrange(0, i + 1).contains(x) <==> (items.subrange(0, i).contains(x) || x
            == items[i]),
{
    let shorter = items.subrange(0, i);
    let longer = items.subrange(0, i + 1);
    if longer.contains(x) {
        let k = choose|k: int| 0 <= k < longer.len() && longer[k] == x;
        if k < i {
            assert(shorter[k] == x);
        }
    }
    if shorter.contains(x) {
        let k = choose|k: int| 0 <= k < shorter.len() && shorter[k] == x;
        assert(longer[k] == x);
    }
    if x == items[i] {
        assert(longer[i] == x);
    }
}

/// The pattern for the dates of `year`.
pub fn month_pattern_for(year: &str) -> (res: String)
    ensures
        res@ == month_pattern(year@),
{
    String::from_str(MONTH_PATTERN_HEAD).concat(year)
}

/// The pattern for the dates of `month` in `year`.
pub fn day_pattern_for(year: &str, month: &str) -> (res: String)
    ensures
        res@ == day_pattern(year@, month@),
{
    String::from_str(DAY_PATTERN_HEAD).concat(month).concat(DAY_PATTERN_TAIL).concat(year)
}

/// Trims every item.
pub fn trim_all(items: &Vec<String>) -> (res: Vec<String>)
    ensures
        res.deep_view() == trim_each(items.deep_view()),
{
    let mut out: Vec<String> = Vec::new();
    let mut i: usize = 0;
    while i < items.len()
        invariant
            i <= items.len(),
            out.deep_view() == trim_each(items.deep_view()).subrange(0, i as int),
        decreases items.len() - i,
    {
        let ghost before = out.deep_view();
        out.push(trim(items[i].as_str()));
        assert(out.deep_view() =~= before.push(trimmed(items[i as int]@)));
        i += 1;
    }
    assert(trim_each(items.deep_view()).subrange(0, i as int) =~= trim_each(items.deep_view()));
    out
}

/// The distinct commit dates of `text`, each once, in the order in which
/// they first occur. No match gives the empty list.
pub fn extract_dates(text: &str) -> (res: Result<Vec<String>, AggregationError>)
    ensures
        res is Ok <==> pattern_is_valid(DATE_PATTERN@),
        res matches Ok(dates) ==> {
            &&& dates.deep_view() == distinct(pattern_matches(DATE_PATTERN@, text@))
            &&& dates.deep_view().no_duplicates()
            &&& dates.deep_view().to_set() == pattern_matches(DATE_PATTERN@, text@).to_set()
        },
        res matches Err(e) ==> e.level == HierarchyLevel::Date && e.pattern@ == DATE_PATTERN@,
{
    match find_all(DATE_PATTERN, text) {
        Ok(found) => {
            proof {
                lemma_distinct(found.deep_view());
            }
            Ok(distinct_strings(&found))
        },
        Err(_) => Err(
            AggregationError { level: HierarchyLevel::Date, pattern: String::from_str(DATE_PATTERN) },
        ),
    }
}

/// Files the fixed entry under each of `days`.
pub fn day_entries(days: &Vec<String>) -> (res: DayList)
    ensures
        res.deep_view() == entries_for(days.deep_view()),
{
    let mut list: DayList = KeyedList::new();
    let mut i: usize = 0;
    assert(list.deep_view() =~= entries_for(days.deep_view().subrange(0, 0)));
    while i < days.len()
        invariant
            i <= days.len(),
            list.deep_view() == entries_for(days.deep_view().subrange(0, i as int)),
        decreases days.len() - i,
    {
        let entry = assign_effort(days[i].as_str());
        list.insert(days[i].clone(), entry);
        proof {
            let ghost goal = entries_for(days.deep_view().subrange(0, i + 1));
            let ghost prev = entries_for(days.deep_view().subrange(0, i as int));
            assert(list.deep_view() == prev.insert(days[i as int]@, fixed_entry()));
            assert forall|d: Seq<char>| list.deep_view().dom().contains(d) <==> goal.dom().contains(
                d,
            ) by {
                lemma_prefix_contains(days.deep_view(), i as int, d);
            }
            assert(list.deep_view().dom() =~= goal.dom());
            assert(list.deep_view() =~= goal);
        }
        i += 1;
    }
    assert(days.deep_view().subrange(0, i as int) =~= days.deep_view());
    list
}

/// The days of `month` in `year`, as `text` shows them.
pub fn month_days(text: &str, year: &str, month: &str) -> (res: Result<DayList, AggregationError>)
    ensures
        res is Ok <==> pattern_is_valid(day_pattern(year@, month@)),
        res matches Ok(days) ==> days.deep_view() == day_map_of(text@, year@, month@),
        res matches Err(e) ==> e.level == HierarchyLevel::Day && e.pattern@ == day_pattern(
            year@,
            month@,
        ),
{
    let pattern = day_pattern_for(year, month);
    match capture_all(pattern.as_str(), DAY_GROUP, text) {
        Ok(found) => {
            let days = distinct_strings(&present_strings(found));
            let list = day_entries(&days);
            proof {
                lemma_distinct(observed_days(text@, year@, month@));
                assert forall|d: Seq<char>|
                    days.deep_view().contains(d) <==> observed_days(text@, year@, month@).contains(
                        d,
                    ) by {
                    assert(days.deep_view().to_set().contains(d) <==> observed_days(
                        text@,
                        year@,
                        month@,
                    ).to_set().contains(d));
                }
                assert(list.deep_view() =~= day_map_of(text@, year@, month@));
            }
            Ok(list)
        },
        Err(_) => Err(AggregationError { level: HierarchyLevel::Day, pattern }),
    }
}

/// The months of `year` with their days, as `text` shows them.
pub fn year_months(text: &str, year: &str) -> (res: Result<MonthList, AggregationError>)
    ensures
        res is Ok <==> year_patterns_valid(text@, year@),
        res matches Ok(months) ==> months.deep_view() == month_map_of(text@, year@),
        res matches Err(e) ==> malformed_below_year(e, text@, year@),
{
    let pattern = month_pattern_for(year);
    let found = match capture_all(pattern.as_str(), MONTH_GROUP, text) {
        Ok(found) => found,
        Err(_) => {
            return Err(AggregationError { level: HierarchyLevel::Month, pattern });
        },
    };
    let months = distinct_strings(&present_strings(found));
    let ghost observed = observed_months(text@, year@);
    proof {
        lemma_distinct(observed);
        assert forall|m: Seq<char>| months.deep_view().contains(m) <==> observed.contains(m) by {
            assert(months.deep_view().to_set().contains(m) <==> observed.to_set().contains(m));
        }
    }
    let mut list: MonthList = KeyedList::new();
    let mut i: usize = 0;
    while i < months.len()
        invariant
            i <= months.len(),
            observed == observed_months(text@, year@),
            pattern_is_valid(month_pattern(year@)),
            forall|m: Seq<char>| months.deep_view().contains(m) <==> observed.contains(m),
            forall|m: Seq<char>|
                months.deep_view().subrange(0, i as int).contains(m) ==> pattern_is_valid(
                    day_pattern(year@, m),
                ),
            list.deep_view() == Map::new(
                |m: Seq<char>| months.deep_view().subrange(0, i as int).contains(m),
                |m: Seq<char>| day_map_of(text@, year@, m),
            ),
        decreases months.len() - i,
    {
        let ghost month = months[i as int]@;
        assert(months.deep_view()[i as int] == month);
        assert(observed.contains(month));
        let days = match month_days(text, year, months[i].as_str()) {
            Ok(days) => days,
            Err(e) => {
                return Err(e);
            },
        };
        list.insert(months[i].clone(), days);
        proof {
            let ghost goal = Map::new(
                |m: Seq<char>| months.deep_view().subrange(0, i + 1).contains(m),
                |m: Seq<char>| day_map_of(text@, year@, m),
            );
            let ghost prev = Map::new(
                |m: Seq<char>| months.deep_view().subrange(0, i as int).contains(m),
                |m: Seq<char>| day_map_of(text@, year@, m),
            );
            assert(list.deep_view() == prev.insert(month, day_map_of(text@, year@, month)));
            assert forall|m: Seq<char>| list.deep_view().dom().contains(m) <==> goal.dom().contains(
                m,
            ) by {
                lemma_prefix_contains(months.deep_view(), i as int, m);
            }
            assert(list.deep_view().dom() =~= goal.dom());
            assert(list.deep_view() =~= goal);
            assert forall|m: Seq<char>|
                months.deep_view().subrange(0, i + 1).contains(m) implies pattern_is_valid(
                day_pattern(year@, m),
            ) by {
                lemma_prefix_contains(months.deep_view(), i as int, m);
            }
        }
        i += 1;
    }
    proof {
        assert(months.deep_view().subrange(0, i as int) =~= months.deep_view());
        assert(list.deep_view() =~= month_map_of(text@, year@));
    }
    Ok(list)
}

/// The calendar of `text`: every year the year-level pattern finds, with the
/// months found next to it and the days found next to each month, each day
/// once and with the fixed effort. The one failure is a pattern of the scan
/// that does not compile.
pub fn build_calendar(text: &str) -> (res: Result<TimesheetCalendar, AggregationError>)
    ensures
        res is Ok <==> hierarchy_valid(text@),
        res matches Ok(calendar) ==> calendar@ == calendar_of(text@),
        res matches Err(e) ==> malformed_in_hierarchy(e, text@),
        is_aggregation_of(
            text@,
            match res {
                Ok(calendar) => Some(calendar@),
                Err(_) => None,
            },
        ),
{
    let found = match find_all(YEAR_PATTERN, text) {
        Ok(found) => found,
        Err(_) => {
            return Err(
                AggregationError {
                    level: HierarchyLevel::Year,
                    pattern: String::from_str(YEAR_PATTERN),
                },
            );
        },
    };
    let years = distinct_strings(&trim_all(&found));
    let ghost observed = observed_years(text@);
    proof {
        lemma_distinct(observed);
        assert forall|y: Seq<char>| years.deep_view().contains(y) <==> observed.contains(y) by {
            assert(years.deep_view().to_set().contains(y) <==> observed.to_set().contains(y));
        }
    }
    let mut calendar = TimesheetCalendar::new();
    let mut i: usize = 0;
    while i < years.len()
        invariant
            i <= years.len(),
            observed == observed_years(text@),
            pattern_is_valid(YEAR_PATTERN@),
            forall|y: Seq<char>| years.deep_view().contains(y) <==> observed.contains(y),
            forall|y: Seq<char>|
                years.deep_view().subrange(0, i as int).contains(y) ==> year_patterns_valid(
                    text@,
                    y,
                ),
            calendar@ == Map::new(
                |y: Seq<char>| years.deep_view().subrange(0, i as int).contains(y),
                |y: Seq<char>| month_map_of(text@, y),
            ),
        decreases years.len() - i,
    {
        let ghost year = years[i as int]@;
        assert(years.deep_view()[i as int] == year);
        assert(observed.contains(year));
        let months = match year_months(text, years[i].as_str()) {
            Ok(months) => months,
            Err(e) => {
                return Err(e);
            },
        };
        calendar.insert_year(years[i].clone(), months);
        proof {
            let ghost goal = Map::new(
                |y: Seq<char>| years.deep_view().subrange(0, i + 1).contains(y),
                |y: Seq<char>| month_map_of(text@, y),
            );
            let ghost prev = Map::new(
                |y: Seq<char>| years.deep_view().subrange(0, i as int).contains(y),
                |y: Seq<char>| month_map_of(text@, y),
            );
            assert(calendar@ == prev.insert(year, month_map_of(text@, year)));
            assert forall|y: Seq<char>| calendar@.dom().contains(y) <==> goal.dom().contains(
                y,
            ) by {
                lemma_prefix_contains(years.deep_view(), i as int, y);
            }
            assert(calendar@.dom() =~= goal.dom());
            assert(calendar@ =~= goal);
            assert forall|y: Seq<char>|
                years.deep_view().subrange(0, i + 1).contains(y) implies year_patterns_valid(
                text@,
                y,
            ) by {
                lemma_prefix_contains(years.deep_view(), i as int, y);
            }
        }
        i += 1;
    }
    proof {
        assert(years.deep_view().subrange(0, i as int) =~= years.deep_view());
        assert(calendar@ =~= calendar_of(text@));
    }
    Ok(calendar)
}

/// What a scan of `text` may hand back: the calendar of `text` where every
/// pattern of the scan compiles, and no calendar where one does not.
pub open spec fn is_aggregation_of(text: Seq<char>, outcome: Option<CalendarView>) -> bool {
    match outcome {
        Some(calendar) => hierarchy_valid(text) && calendar == calendar_of(text),
        None => !hierarchy_valid(text),
    }
}

/// A text in which the year-level pattern finds nothing, and so no commit
/// date with a year between whitespace either, has the empty calendar.
pub proof fn lemma_no_match_no_calendar(text: Seq<char>)
    ensures
        pattern_matches(DATE_PATTERN@, text).len() == 0 && pattern_matches(
            YEAR_PATTERN@,
            text,
        ).len() == 0 ==> calendar_of(text) == CalendarView::empty(),
{
    if pattern_matches(YEAR_PATTERN@, text).len() == 0 {
        assert(observed_years(text).len() == 0);
        assert(calendar_of(text).dom() =~= Set::<Seq<char>>::empty());
        assert(calendar_of(text) =~= CalendarView::empty());
    }
}

/// The years of the calendar are the years that the year-level pattern
/// finds: every key is the trimmed text of one of its matches, and every
/// match is a key, the matches with a month next to them among them, which
/// then hold that month.
pub proof fn lemma_years_are_matches(text: Seq<char>)
    ensures
        forall|y: Seq<char>| #[trigger]
            calendar_of(text).contains_key(y) ==> exists|i: int|
                0 <= i < pattern_matches(YEAR_PATTERN@, text).len() && trimmed(
                    #[trigger] pattern_matches(YEAR_PATTERN@, text)[i],
                ) == y,
        forall|i: int|
            0 <= i < pattern_matches(YEAR_PATTERN@, text).len() ==> calendar_of(
                text,
            ).contains_key(trimmed(#[trigger] pattern_matches(YEAR_PATTERN@, text)[i])),
        forall|y: Seq<char>, m: Seq<char>|
            observed_years(text).contains(y) && #[trigger] observed_months(text, y).contains(m)
                ==> calendar_of(text).contains_key(y) && calendar_of(text)[y].contains_key(m),
{
    let found = pattern_matches(YEAR_PATTERN@, text);
    assert forall|y: Seq<char>| #[trigger] calendar_of(text).contains_key(y) implies exists|i: int|
        0 <= i < found.len() && trimmed(#[trigger] found[i]) == y by {
        let i = choose|i: int| 0 <= i < observed_years(text).len() && observed_years(text)[i] == y;
        assert(trimmed(found[i]) == y);
    }
    assert forall|i: int| 0 <= i < found.len() implies calendar_of(text).contains_key(
        trimmed(#[trigger] found[i]),
    ) by {
        assert(observed_years(text)[i] == trimmed(found[i]));
    }
}

/// Two scans of one text agree: both fail, or both give the same years,
/// months, days and entries.
pub proof fn lemma_aggregation_repeatable(
    text: Seq<char>,
    first: Option<CalendarView>,
    second: Option<CalendarView>,
)
    requires
        is_aggregation_of(text, first),
        is_aggregation_of(text, second),
    ensures
        first == second,
{
}

/// Every day of the calendar of a text carries the fixed effort.
pub proof fn lemma_every_day_has_fixed_effort(
    text: Seq<char>,
    year: Seq<char>,
    month: Seq<char>,
    day: Seq<char>,
)
    requires
        calendar_of(text).contains_key(year),
        calendar_of(text)[year].contains_key(month),
        calendar_of(text)[year][month].contains_key(day),
    ensures
        calendar_of(text)[year][month][day] == fixed_entry(),
        observed_years(text).contains(year),
        observed_months(text, year).contains(month),
        observed_days(text, year, month).contains(day),
{
}

/// What precedes the author's name in the argument that restricts a log to
/// one author.
pub const AUTHOR_OPTION: &'static str = "--author=";

/// The argument that restricts a log to the commits of `name`.
pub fn author_argument(name: &str) -> (res: String)
    ensures
        res@ == AUTHOR_OPTION@ + name@,
{
    String::from_str(AUTHOR_OPTION).concat(name)
}

/// What a log holds: its distinct commit dates, and its calendar.
#[derive(Debug)]
pub struct LogSummary {
    pub dates: Vec<String>,
    pub calendar: TimesheetCalendar,
}

/// Reads a commit log: the distinct dates first, then the calendar. The
/// first pattern that does not compile ends the reading.
pub fn build_months_from_git_log(log: &str) -> (res: Result<LogSummary, AggregationError>)
    ensures
        res is Ok <==> pattern_is_valid(DATE_PATTERN@) && hierarchy_valid(log@),
        res matches Ok(summary) ==> {
            &&& summary.dates.deep_view() == distinct(pattern_matches(DATE_PATTERN@, log@))
            &&& summary.calendar@ == calendar_of(log@)
        },
        res matches Err(e) ==> if pattern_is_valid(DATE_PATTERN@) {
            malformed_in_hierarchy(e, log@)
        } else {
            e.level == HierarchyLevel::Date && e.pattern@ == DATE_PATTERN@
        },
{
    let dates = match extract_dates(log) {
        Ok(dates) => dates,
        Err(e) => {
            return Err(e);
        },
    };
    let calendar = match build_calendar(log) {
        Ok(calendar) => calendar,
        Err(e) => {
            return Err(e);
        },
    };
    Ok(LogSummary { dates, calendar })
}

} // verus!
