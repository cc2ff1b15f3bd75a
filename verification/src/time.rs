//! Instants as text, by way of chrono.

use vstd::prelude::*;

verus! {

/// What chrono writes for the instant that lies `millis` milliseconds after
/// the Unix epoch, taken in UTC and formatted by the strftime `pattern`;
/// `None` where chrono has no date for that instant.
pub uninterp spec fn utc_text(millis: int, pattern: Seq<char>) -> Option<Seq<char>>;

/// Calls `chrono::DateTime::from_timestamp_millis` and, where that gives an
/// instant, `chrono::DateTime::format` on it with `to_string`.
///
/// Trusted: the result is a function of `millis` and `pattern` alone, which
/// `utc_text` names. Nothing is claimed of what the text holds. The two
/// patterns that are let in are those whose specifiers (`%F` and `%T`) chrono
/// documents, so that writing the text cannot fail.
#[verifier::external_body]
fn utc_format(millis: i64, pattern: &str) -> (text: Option<String>)
    requires
        pattern@ == "%F"@ || pattern@ == "%FT%T"@,
    ensures
        match text {
            Some(t) => utc_text(millis as int, pattern@) == Some(t@),
            None => utc_text(millis as int, pattern@) is None,
        },
{
    match chrono::DateTime::from_timestamp_millis(millis) {
        Some(at) => Some(at.format(pattern).to_string()),
        None => None,
    }
}

/// The calendar date of an instant, as `YYYY-MM-DD`.
pub open spec fn date_text(millis: int) -> Option<Seq<char>> {
    utc_text(millis, "%F"@)
}

/// The date and the time of day of an instant, to the second, as
/// `YYYY-MM-DDTHH:MM:SS`.
pub open spec fn date_time_text(millis: int) -> Option<Seq<char>> {
    utc_text(millis, "%FT%T"@)
}

/// Renders the calendar date, in UTC, of the instant `millis` milliseconds
/// after the Unix epoch. `None` where the instant is out of the calendar's
/// range.
pub fn render_date(millis: i64) -> (text: Option<String>)
    ensures
        match text {
            Some(t) => date_text(millis as int) == Some(t@),
            None => date_text(millis as int) is None,
        },
{
    utc_format(millis, "%F")
}

/// Renders date and time of day, in UTC and to the second, of the instant
/// `millis` milliseconds after the Unix epoch. `None` where the instant is
/// out of the calendar's range.
pub fn render_date_time(millis: i64) -> (text: Option<String>)
    ensures
        match text {
            Some(t) => date_time_text(millis as int) == Some(t@),
            None => date_time_text(millis as int) is None,
        },
{
    utc_format(millis, "%FT%T")
}

} // verus!
