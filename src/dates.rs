//! Calendar parsing and the clock, from chrono.

use vstd::prelude::*;
use chrono::{Datelike, Timelike};
use crate::release::ReleaseDate;

verus! {

/// What chrono reads from a text in the build archive's date format,
/// `%Y-%m-%dT%H:%M:%S%z`.
pub uninterp spec fn builder_date_of(text: Seq<char>) -> Option<ReleaseDate>;

/// What chrono reads from a stable-page sentence of the form
/// `Released on <Month> <Day>, <Year> · `, at midnight.
pub uninterp spec fn stable_date_of(text: Seq<char>) -> Option<ReleaseDate>;

/// Relies on chrono's `NaiveDateTime::parse_from_str` with the build archive's
/// format; a parsed value is a valid date and time.
#[verifier::external_body]
pub(crate) fn parse_builder_date(text: &str) -> (r: Option<ReleaseDate>)
    ensures
        r == builder_date_of(text@),
        r matches Some(d) ==> d.wf(),
{
    chrono::NaiveDateTime::parse_from_str(text, "%Y-%m-%dT%H:%M:%S%z").ok().map(|t| ReleaseDate {
        year: t.year(),
        month: t.month(),
        day: t.day(),
        hour: t.hour(),
        minute: t.minute(),
        second: t.second(),
    })
}

/// Relies on chrono's `NaiveDate::parse_from_str` with the stable page's
/// sentence format; a parsed value is a valid date, taken at midnight.
#[verifier::external_body]
pub(crate) fn parse_stable_date(text: &str) -> (r: Option<ReleaseDate>)
    ensures
        r == stable_date_of(text@),
        r matches Some(d) ==> d.wf() && d.hour == 0 && d.minute == 0 && d.second == 0,
{
    chrono::NaiveDate::parse_from_str(text, "Released on %B %d, %Y · ").ok().map(|d| ReleaseDate {
        year: d.year(),
        month: d.month(),
        day: d.day(),
        hour: 0,
        minute: 0,
        second: 0,
    })
}

/// Relies on chrono's `Utc::now`, read as a date and time in UTC; chrono
/// panics only when the system clock stands before 1970.
#[verifier::external_body]
pub(crate) fn now_utc() -> (r: ReleaseDate)
    ensures
        r.wf(),
{
    let t = chrono::Utc::now().naive_utc();
    ReleaseDate {
        year: t.year(),
        month: t.month(),
        day: t.day(),
        hour: t.hour(),
        minute: t.minute(),
        second: t.second(),
    }
}

} // verus!
