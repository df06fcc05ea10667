//! The calendar of effort: year, then month, then day, then the effort
//! recorded for that day.

use crate::keyed::KeyedList;
use vstd::prelude::*;

verus! {

/// The effort recorded for every day on which work was observed.
pub const DAILY_EFFORT: u32 = 8;

/// What the calendar records for one day.
#[derive(Clone, Copy, Debug, PartialEq, Eq, Structural)]
pub struct CalendarEntry {
    pub effort: u32,
}

impl DeepView for CalendarEntry {
    type V = CalendarEntry;

    open spec fn deep_view(&self) -> CalendarEntry {
        *self
    }
}

/// The days of one month, each with its entry.
pub type DayList = KeyedList<CalendarEntry>;

/// The months of one year, each with its days.
pub type MonthList = KeyedList<DayList>;

/// The years, each with its months.
pub type YearList = KeyedList<MonthList>;

/// A calendar as a mathematical map: year to month to day to entry.
pub type CalendarView = Map<Seq<char>, Map<Seq<char>, Map<Seq<char>, CalendarEntry>>>;

/// The entry every observed day receives.
pub open spec fn fixed_entry() -> CalendarEntry {
    CalendarEntry { effort: DAILY_EFFORT }
}

/// The entry for `day`: the same fixed effort whatever the day.
pub fn assign_effort(day: &str) -> (res: CalendarEntry)
    ensures
        res == fixed_entry(),
{
    CalendarEntry { effort: DAILY_EFFORT }
}

/// Year to month to day to entry, with no key twice at any level.
#[derive(Debug, PartialEq)]
pub struct TimesheetCalendar {
    years: YearList,
}

impl View for TimesheetCalendar {
    type V = CalendarView;

    closed spec fn view(&self) -> CalendarView {
        self.years.deep_view()
    }
}

impl TimesheetCalendar {
    /// The calendar without any year.
    pub fn new() -> (res: Self)
        ensures
            res@ == CalendarView::empty(),
    {
        TimesheetCalendar { years: KeyedList::new() }
    }

    /// The calendar that holds exactly `years`.
    pub fn from_years(years: YearList) -> (res: Self)
        ensures
            res@ == years.deep_view(),
    {
        TimesheetCalendar { years }
    }

    /// Files `months` under `year`, in place of what the year held before.
    pub fn insert_year(&mut self, year: String, months: MonthList)
        ensures
            final(self)@ == old(self)@.insert(year@, months.deep_view()),
    {
        self.years.insert(year, months);
    }

    /// Whether the calendar is without any year.
    pub fn is_empty(&self) -> (res: bool)
        ensures
            res == (self@ == CalendarView::empty()),
    {
        let n = self.years.len();
        proof {
            if n == 0 {
                assert(self@.dom() =~= Set::empty());
                assert(self@ =~= CalendarView::empty());
            } else {
                assert(self@.dom().len() > 0);
            }
        }
        n == 0
    }

    /// The years of the calendar, each once.
    pub fn years(&self) -> (res: Vec<String>)
        ensures
            res.deep_view().no_duplicates(),
            forall|y: Seq<char>| res.deep_view().contains(y) <==> #[trigger] self@.contains_key(y),
    {
        self.years.key_list()
    }

    /// The months of `year`, each once; nothing where the calendar does not
    /// hold the year.
    pub fn months(&self, year: &str) -> (res: Option<Vec<String>>)
        ensures
            res is Some <==> self@.contains_key(year@),
            res matches Some(months) ==> {
                &&& months.deep_view().no_duplicates()
                &&& forall|m: Seq<char>|
                    months.deep_view().contains(m) <==> #[trigger] self@[year@].contains_key(m)
            },
    {
        match self.years.get(year) {
            Some(months) => Some(months.key_list()),
            None => None,
        }
    }

    /// The days of `month` in `year`, each once; nothing where the calendar
    /// does not hold the month.
    pub fn days(&self, year: &str, month: &str) -> (res: Option<Vec<String>>)
        ensures
            res is Some <==> self@.contains_key(year@) && self@[year@].contains_key(month@),
            res matches Some(days) ==> {
                &&& days.deep_view().no_duplicates()
                &&& forall|d: Seq<char>|
                    days.deep_view().contains(d) <==> #[trigger] self@[year@][month@].contains_key(
                        d,
                    )
            },
    {
        match self.years.get(year) {
            Some(months) => match months.get(month) {
                Some(days) => Some(days.key_list()),
                None => None,
            },
            None => None,
        }
    }

    /// What the calendar records for `day` of `month` in `year`, if it
    /// holds that day.
    pub fn entry(&self, year: &str, month: &str, day: &str) -> (res: Option<CalendarEntry>)
        ensures
            res is Some <==> self@.contains_key(year@) && self@[year@].contains_key(month@)
                && self@[year@][month@].contains_key(day@),
            res matches Some(e) ==> e == self@[year@][month@][day@],
    {
        match self.years.get(year) {
            Some(months) => match months.get(month) {
                Some(days) => match days.get(day) {
                    Some(entry) => Some(*entry),
                    None => None,
                },
                None => None,
            },
            None => None,
        }
    }
}

} // verus!
