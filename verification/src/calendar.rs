//! Calendar values: weekdays, months and the moment a rule set is evaluated at.

use chrono::Datelike;
use vstd::prelude::*;

verus! {

/// A day of the week.
#[derive(Debug, Clone, Copy, PartialEq, Eq, Hash, Structural)]
pub enum Weekday {
    Mon,
    Tue,
    Wed,
    Thu,
    Fri,
    Sat,
    Sun,
}

impl Weekday {
    /// Number of days after Monday, from 0 (Monday) to 6 (Sunday).
    pub open spec fn index(self) -> int {
        match self {
            Weekday::Mon => 0,
            Weekday::Tue => 1,
            Weekday::Wed => 2,
            Weekday::Thu => 3,
            Weekday::Fri => 4,
            Weekday::Sat => 5,
            Weekday::Sun => 6,
        }
    }

    /// The weekday that lies `i` days after Monday, for `i` below 7.
    pub open spec fn spec_from_index(i: int) -> Option<Weekday> {
        if i == 0 {
            Some(Weekday::Mon)
        } else if i == 1 {
            Some(Weekday::Tue)
        } else if i == 2 {
            Some(Weekday::Wed)
        } else if i == 3 {
            Some(Weekday::Thu)
        } else if i == 4 {
            Some(Weekday::Fri)
        } else if i == 5 {
            Some(Weekday::Sat)
        } else if i == 6 {
            Some(Weekday::Sun)
        } else {
            None
        }
    }

    /// The three-letter English abbreviation.
    pub open spec fn spec_name(self) -> Seq<char> {
        match self {
            Weekday::Mon => "Mon"@,
            Weekday::Tue => "Tue"@,
            Weekday::Wed => "Wed"@,
            Weekday::Thu => "Thu"@,
            Weekday::Fri => "Fri"@,
            Weekday::Sat => "Sat"@,
            Weekday::Sun => "Sun"@,
        }
    }

    /// Days elapsed since the most recent `other`, from 0 to 6.
    pub open spec fn spec_days_since(self, other: Weekday) -> int {
        (self.index() - other.index()) % 7
    }

    /// Number of days after Monday, from 0 to 6.
    pub fn num_days_from_monday(&self) -> (n: u32)
        ensures
            n == self.index(),
    {
        match self {
            Weekday::Mon => 0,
            Weekday::Tue => 1,
            Weekday::Wed => 2,
            Weekday::Thu => 3,
            Weekday::Fri => 4,
            Weekday::Sat => 5,
            Weekday::Sun => 6,
        }
    }

    /// The weekday that lies `i` days after Monday; `None` from 7 on.
    pub fn from_index(i: u32) -> (w: Option<Weekday>)
        ensures
            w == Weekday::spec_from_index(i as int),
            w is Some <==> i < 7,
            w matches Some(d) ==> d.index() == i,
    {
        if i == 0 {
            Some(Weekday::Mon)
        } else if i == 1 {
            Some(Weekday::Tue)
        } else if i == 2 {
            Some(Weekday::Wed)
        } else if i == 3 {
            Some(Weekday::Thu)
        } else if i == 4 {
            Some(Weekday::Fri)
        } else if i == 5 {
            Some(Weekday::Sat)
        } else if i == 6 {
            Some(Weekday::Sun)
        } else {
            None
        }
    }

    /// Days elapsed since the most recent `other`, from 0 to 6.
    pub fn days_since(&self, other: Weekday) -> (d: u32)
        ensures
            d == self.spec_days_since(other),
            d < 7,
    {
        let lhs: u32 = self.num_days_from_monday();
        let rhs: u32 = other.num_days_from_monday();
        if lhs < rhs {
            7 + lhs - rhs
        } else {
            lhs - rhs
        }
    }

    /// The three-letter English abbreviation.
    pub fn name(&self) -> (s: String)
        ensures
            s@ == self.spec_name(),
    {
        match self {
            Weekday::Mon => String::from_str("Mon"),
            Weekday::Tue => String::from_str("Tue"),
            Weekday::Wed => String::from_str("Wed"),
            Weekday::Thu => String::from_str("Thu"),
            Weekday::Fri => String::from_str("Fri"),
            Weekday::Sat => String::from_str("Sat"),
            Weekday::Sun => String::from_str("Sun"),
        }
    }
}

/// A month of the year.
#[derive(Debug, Clone, Copy, PartialEq, Eq, Hash, Structural)]
pub enum Month {
    January,
    February,
    March,
    April,
    May,
    June,
    July,
    August,
    September,
    October,
    November,
    December,
}

impl Month {
    /// The month's number within the year, from 1 (January) to 12 (December).
    pub open spec fn spec_number(self) -> int {
        match self {
            Month::January => 1,
            Month::February => 2,
            Month::March => 3,
            Month::April => 4,
            Month::May => 5,
            Month::June => 6,
            Month::July => 7,
            Month::August => 8,
            Month::September => 9,
            Month::October => 10,
            Month::November => 11,
            Month::December => 12,
        }
    }

    /// The month's number within the year, from 1 to 12.
    pub fn number(&self) -> (n: u32)
        ensures
            n == self.spec_number(),
            1 <= n <= 12,
    {
        match self {
            Month::January => 1,
            Month::February => 2,
            Month::March => 3,
            Month::April => 4,
            Month::May => 5,
            Month::June => 6,
            Month::July => 7,
            Month::August => 8,
            Month::September => 9,
            Month::October => 10,
            Month::November => 11,
            Month::December => 12,
        }
    }

    /// The month with the given number, for a number from 1 to 12.
    pub open spec fn spec_from_number(n: int) -> Option<Month> {
        if n == 1 {
            Some(Month::January)
        } else if n == 2 {
            Some(Month::February)
        } else if n == 3 {
            Some(Month::March)
        } else if n == 4 {
            Some(Month::April)
        } else if n == 5 {
            Some(Month::May)
        } else if n == 6 {
            Some(Month::June)
        } else if n == 7 {
            Some(Month::July)
        } else if n == 8 {
            Some(Month::August)
        } else if n == 9 {
            Some(Month::September)
        } else if n == 10 {
            Some(Month::October)
        } else if n == 11 {
            Some(Month::November)
        } else if n == 12 {
            Some(Month::December)
        } else {
            None
        }
    }

    /// The month with the given number; `None` outside 1 to 12.
    pub fn from_number(n: u32) -> (m: Option<Month>)
        ensures
            m == Month::spec_from_number(n as int),
            m is Some <==> 1 <= n <= 12,
            m matches Some(v) ==> v.spec_number() == n,
    {
        if n == 1 {
            Some(Month::January)
        } else if n == 2 {
            Some(Month::February)
        } else if n == 3 {
            Some(Month::March)
        } else if n == 4 {
            Some(Month::April)
        } else if n == 5 {
            Some(Month::May)
        } else if n == 6 {
            Some(Month::June)
        } else if n == 7 {
            Some(Month::July)
        } else if n == 8 {
            Some(Month::August)
        } else if n == 9 {
            Some(Month::September)
        } else if n == 10 {
            Some(Month::October)
        } else if n == 11 {
            Some(Month::November)
        } else if n == 12 {
            Some(Month::December)
        } else {
            None
        }
    }
}

/// The calendar reading of one day: what a rule's predicates are matched
/// against.
#[derive(Debug, Clone, Copy, PartialEq, Eq, Structural)]
pub struct Moment {
    pub year: i32,
    /// Month of the year, 1 to 12.
    pub month: u32,
    /// Day of the month, 1 to 31.
    pub day: u32,
    /// ISO 8601 week number, 1 to 53.
    pub week: u32,
    pub weekday: Weekday,
}

/// The first year that has calendar days.
pub const MIN_YEAR: i32 = -262143;

/// The last year that has calendar days.
pub const MAX_YEAR: i32 = 262142;

/// Whether `year` is a leap year of the proleptic Gregorian calendar.
pub open spec fn is_leap_year(year: int) -> bool {
    year % 4 == 0 && (year % 100 != 0 || year % 400 == 0)
}

/// The number of days of a month.
pub open spec fn days_in_month(year: int, month: int) -> int {
    if month == 2 {
        if is_leap_year(year) {
            29
        } else {
            28
        }
    } else if month == 4 || month == 6 || month == 9 || month == 11 {
        30
    } else {
        31
    }
}

/// Whether `year`-`month`-`day` is a day of the calendar.
pub open spec fn date_exists(year: int, month: int, day: int) -> bool {
    &&& MIN_YEAR <= year <= MAX_YEAR
    &&& 1 <= month <= 12
    &&& 1 <= day <= days_in_month(year, month)
}

/// The weekday (days after Monday) and the ISO 8601 week number of the day
/// `year`-`month`-`day` of the proleptic Gregorian calendar, or `None` where
/// no such day exists.
pub uninterp spec fn calendar_entry(year: int, month: int, day: int) -> Option<(u32, u32)>;

/// Looks a date up with `chrono::NaiveDate::from_ymd_opt` and reads
/// `weekday().num_days_from_monday()` and `iso_week().week()` off it.
///
/// Trusted: the pair depends on the three numbers alone; there is a pair
/// exactly for the days of the proleptic Gregorian calendar in the years
/// that chrono represents; the weekday number is below 7 and the week
/// number lies between 1 and 53.
#[verifier::external_body]
fn calendar_lookup(year: i32, month: u32, day: u32) -> (r: Option<(u32, u32)>)
    ensures
        r == calendar_entry(year as int, month as int, day as int),
        r is Some <==> date_exists(year as int, month as int, day as int),
        r matches Some((weekday, week)) ==> weekday < 7 && 1 <= week <= 53,
{
    match chrono::NaiveDate::from_ymd_opt(year, month, day) {
        Some(date) => Some((date.weekday().num_days_from_monday(), date.iso_week().week())),
        None => None,
    }
}

impl Moment {
    /// The fields lie in the ranges a calendar allows.
    pub open spec fn wf(self) -> bool {
        &&& 1 <= self.month <= 12
        &&& 1 <= self.day <= 31
        &&& 1 <= self.week <= 53
    }

    /// The moment made of the given readings, where they are in range.
    pub open spec fn spec_from_parts(
        year: i32,
        month: u32,
        day: u32,
        week: u32,
        weekday: u32,
    ) -> Option<Moment> {
        if 1 <= month <= 12 && 1 <= day <= 31 && 1 <= week <= 53 && weekday < 7 {
            Some(
                Moment {
                    year,
                    month,
                    day,
                    week,
                    weekday: Weekday::spec_from_index(weekday as int)->0,
                },
            )
        } else {
            None
        }
    }

    /// The moment of the calendar day `year`-`month`-`day`.
    pub open spec fn spec_from_ymd(year: i32, month: u32, day: u32) -> Option<Moment> {
        match calendar_entry(year as int, month as int, day as int) {
            Some((weekday, week)) => Moment::spec_from_parts(year, month, day, week, weekday),
            None => None,
        }
    }

    /// Builds a moment from plain readings; `weekday` counts days after
    /// Monday. Readings out of range give `None`.
    pub fn from_parts(year: i32, month: u32, day: u32, week: u32, weekday: u32) -> (r: Option<
        Moment,
    >)
        ensures
            r == Moment::spec_from_parts(year, month, day, week, weekday),
            r matches Some(m) ==> m.wf() && m.weekday.index() == weekday,
    {
        if 1 <= month && month <= 12 && 1 <= day && day <= 31 && 1 <= week && week <= 53 {
            match Weekday::from_index(weekday) {
                Some(w) => Some(Moment { year, month, day, week, weekday: w }),
                None => None,
            }
        } else {
            None
        }
    }

    /// Whether the moment is a day of the calendar, with the week and the
    /// weekday that the calendar gives it.
    pub open spec fn is_calendar_day(self) -> bool {
        Moment::spec_from_ymd(self.year, self.month, self.day) == Some(self)
    }

    /// The moment of a calendar day, or `None` where the day does not exist.
    pub fn from_ymd(year: i32, month: u32, day: u32) -> (r: Option<Moment>)
        ensures
            r == Moment::spec_from_ymd(year, month, day),
            r is Some <==> date_exists(year as int, month as int, day as int),
            r matches Some(m) ==> m.wf() && m.is_calendar_day() && m.year == year && m.month
                == month && m.day == day,
    {
        match calendar_lookup(year, month, day) {
            Some((weekday, week)) => Moment::from_parts(year, month, day, week, weekday),
            None => None,
        }
    }
}

} // verus!
