use vstd::prelude::*;

verus! {

/// A calendar day.
#[derive(Clone, Copy, Debug, PartialEq, Eq, Structural)]
pub struct Date {
    pub year: i32,
    pub month: u32,
    pub day: u32,
}

/// The day that a `YYYY-MM-DD` text names, as (year, month, day); `None` when
/// the text is not such a date or names no day of the calendar.
pub uninterp spec fn iso_date_of(s: Seq<char>) -> Option<(int, int, int)>;

/// Whether the day (year, month, day) comes strictly after `d`.
pub open spec fn ymd_after(y: int, m: int, dd: int, d: Date) -> bool {
    y > d.year || (y == d.year && (m > d.month || (m == d.month && dd > d.day)))
}

/// Whether `a` comes strictly after `b` in the calendar.
pub open spec fn date_after(a: Date, b: Date) -> bool {
    ymd_after(a.year as int, a.month as int, a.day as int, b)
}

/// Relies on chrono's `NaiveDate::parse_from_str` with the format `%Y-%m-%d`:
/// its result depends on the text alone, and on success it gives the year,
/// month and day of the date read.
#[verifier::external_body]
fn parse_iso_date(s: &str) -> (r: Option<Date>)
    ensures
        match r {
            None => iso_date_of(s@) is None,
            Some(d) => iso_date_of(s@) == Some((d.year as int, d.month as int, d.day as int)),
        },
{
    match chrono::NaiveDate::parse_from_str(s, "%Y-%m-%d") {
        Ok(d) => Some(
            Date {
                year: chrono::Datelike::year(&d),
                month: chrono::Datelike::month(&d),
                day: chrono::Datelike::day(&d),
            },
        ),
        Err(_) => None,
    }
}

impl Date {
    /// Whether this day comes strictly after `other`.
    pub fn is_after(&self, other: &Date) -> (r: bool)
        ensures
            r == date_after(*self, *other),
    {
        self.year > other.year || (self.year == other.year && (self.month > other.month || (
        self.month == other.month && self.day > other.day)))
    }
}

/// Whether the text `date` names a day strictly after `today`; a text that is
/// not a date never does.
pub open spec fn is_upcoming(date: Seq<char>, today: Date) -> bool {
    match iso_date_of(date) {
        Some((y, m, d)) => ymd_after(y, m, d, today),
        None => false,
    }
}

/// Whether the text `date` names a day strictly after `today`.
pub fn is_upcoming_date(date: &str, today: &Date) -> (r: bool)
    ensures
        r == is_upcoming(date@, *today),
{
    match parse_iso_date(date) {
        Some(d) => d.is_after(today),
        None => false,
    }
}

} // verus!
