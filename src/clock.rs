use vstd::prelude::*;

verus! {

/// A wall-clock reading in the local time zone, as calendar fields.
#[derive(Debug, Clone, Copy, PartialEq, Eq, Structural)]
pub struct LocalDateTime {
    pub year: i32,
    pub month: u32,
    pub day: u32,
    pub hour: u32,
    pub minute: u32,
    pub second: u32,
}

/// The long French form of a date (weekday, day of month, month name, year),
/// or `None` where the fields name no day of the calendar.
pub uninterp spec fn french_date_text(year: int, month: int, day: int) -> Option<Seq<char>>;

/// The decimal digit for `d < 10`.
pub open spec fn digit(d: int) -> char {
    seq!['0', '1', '2', '3', '4', '5', '6', '7', '8', '9'][d]
}

/// `n < 100` written with exactly two digits.
pub open spec fn two_digits(n: int) -> Seq<char> {
    seq![digit(n / 10), digit(n % 10)]
}

/// A time of day as `HH:MM:SS`.
pub open spec fn time_text(hour: int, minute: int, second: int) -> Seq<char> {
    two_digits(hour) + ":"@ + two_digits(minute) + ":"@ + two_digits(second)
}

/// Whether the fields name a time of day.
pub open spec fn is_time_of_day(hour: int, minute: int, second: int) -> bool {
    hour < 24 && minute < 60 && second < 60
}

/// Relies on chrono's `NaiveDate::from_ymd_opt`, which gives `None` for a day
/// that does not exist, and `NaiveDate::format_localized` with the pattern
/// `%A %e %B %Y` in the `fr_FR` locale.
#[verifier::external_body]
fn format_date(year: i32, month: u32, day: u32) -> (r: Option<String>)
    ensures
        match r {
            Some(t) => french_date_text(year as int, month as int, day as int) == Some(t@),
            None => french_date_text(year as int, month as int, day as int) is None,
        },
{
    chrono::NaiveDate::from_ymd_opt(year, month, day).map(
        |d| d.format_localized("%A %e %B %Y", chrono::Locale::fr_FR).to_string(),
    )
}

/// Relies on chrono's `NaiveTime::from_hms_opt`, which refuses an hour past
/// 23 and a minute or second past 59, and `NaiveTime::format` with `%T`,
/// which writes the three fields zero-padded to two digits, joined by `:`.
#[verifier::external_body]
fn format_time(hour: u32, minute: u32, second: u32) -> (r: Option<String>)
    ensures
        r is Some <==> is_time_of_day(hour as int, minute as int, second as int),
        r matches Some(t) ==> t@ == time_text(hour as int, minute as int, second as int),
{
    chrono::NaiveTime::from_hms_opt(hour, minute, second).map(|t| t.format("%T").to_string())
}

/// The date line of the clock page for a reading.
pub open spec fn date_line_of(now: LocalDateTime) -> Option<Seq<char>> {
    french_date_text(now.year as int, now.month as int, now.day as int)
}

/// The time line of the clock page for a reading.
pub open spec fn time_line_of(now: LocalDateTime) -> Option<Seq<char>> {
    if is_time_of_day(now.hour as int, now.minute as int, now.second as int) {
        Some(time_text(now.hour as int, now.minute as int, now.second as int))
    } else {
        None
    }
}

impl LocalDateTime {
    /// The date line of the clock page, or `None` for a day that does not
    /// exist.
    pub fn date_line(&self) -> (r: Option<String>)
        ensures
            match r {
                Some(t) => date_line_of(*self) == Some(t@),
                None => date_line_of(*self) is None,
            },
    {
        format_date(self.year, self.month, self.day)
    }

    /// The time line of the clock page, or `None` for fields that name no
    /// time of day.
    pub fn time_line(&self) -> (r: Option<String>)
        ensures
            match r {
                Some(t) => time_line_of(*self) == Some(t@),
                None => time_line_of(*self) is None,
            },
    {
        format_time(self.hour, self.minute, self.second)
    }
}

} // verus!
