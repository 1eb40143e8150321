//! Calendar inputs, read by chrono.
use vstd::prelude::*;

verus! {

/// The instant that an RFC 3339 timestamp denotes, as whole seconds since the
/// Unix epoch and the nanoseconds past that second, or `None` when chrono
/// does not read the text as RFC 3339.
pub uninterp spec fn rfc3339_instant(s: Seq<char>) -> Option<(int, int)>;

/// `chrono::DateTime::parse_from_rfc3339`, the result taken as its UTC
/// instant: `timestamp()` and `timestamp_subsec_nanos()`. chrono orders such
/// values by that instant, seconds first and then nanoseconds. The contract
/// names the result and says nothing of which texts chrono accepts.
#[verifier::external_body]
pub fn parse_rfc3339(s: &str) -> (res: Option<(i64, u32)>)
    ensures
        match res {
            Some((secs, nanos)) => rfc3339_instant(s@) == Some((secs as int, nanos as int)),
            None => rfc3339_instant(s@) is None,
        },
{
    match chrono::DateTime::parse_from_rfc3339(s) {
        Ok(parsed) => Some((parsed.timestamp(), parsed.timestamp_subsec_nanos())),
        Err(_) => None,
    }
}

/// The day that a `%Y-%m-%d` date denotes, counted from January 1 of year 1,
/// or `None` when chrono does not read the text in that format.
pub uninterp spec fn ymd_day(s: Seq<char>) -> Option<int>;

/// `chrono::NaiveDate::parse_from_str(s, "%Y-%m-%d")`, the result taken as
/// `num_days_from_ce()`, which chrono counts so that later dates have larger
/// numbers. The contract names the result and says nothing of which texts
/// chrono accepts.
#[verifier::external_body]
pub fn parse_ymd_date(s: &str) -> (res: Option<i32>)
    ensures
        match res {
            Some(day) => ymd_day(s@) == Some(day as int),
            None => ymd_day(s@) is None,
        },
{
    match chrono::NaiveDate::parse_from_str(s, "%Y-%m-%d") {
        Ok(date) => Some(chrono::Datelike::num_days_from_ce(&date)),
        Err(_) => None,
    }
}

/// `a` is a later instant than `b`.
pub open spec fn instant_after(a: (int, int), b: (int, int)) -> bool {
    a.0 > b.0 || (a.0 == b.0 && a.1 > b.1)
}

pub fn instant_after_exec(a: (i64, u32), b: (i64, u32)) -> (res: bool)
    ensures
        res == instant_after((a.0 as int, a.1 as int), (b.0 as int, b.1 as int)),
{
    a.0 > b.0 || (a.0 == b.0 && a.1 > b.1)
}

} // verus!
