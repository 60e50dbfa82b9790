use std::fmt::Write;
use vstd::prelude::*;

verus! {

/// A point in time in UTC: whole seconds since 1970-01-01T00:00:00 UTC and the
/// nanoseconds past that second.
#[derive(Clone, Copy, Debug, PartialEq, Eq, Structural)]
pub struct UtcDateTime {
    pub secs: i64,
    pub nanos: u32,
}

/// What chrono's `NaiveDateTime::parse_from_str` reads from a text under a
/// strftime format, taken as UTC wall-clock time, as (seconds, nanoseconds).
pub uninterp spec fn naive_parsed(s: Seq<char>, fmt: Seq<char>) -> Option<(i64, u32)>;

/// What chrono's `DateTime::<Utc>::from_timestamp` followed by `format` writes for
/// a timestamp under a strftime format; `None` where either refuses.
pub uninterp spec fn utc_formatted(secs: i64, nanos: u32, fmt: Seq<char>) -> Option<Seq<char>>;

/// Relies on chrono's `NaiveDateTime::parse_from_str` (a deterministic parse of its
/// two arguments) and on `and_utc`, `timestamp` and `timestamp_subsec_nanos`,
/// which read the parsed wall-clock time as UTC.
#[verifier::external_body]
pub(crate) fn parse_naive_as_utc(s: &str, fmt: &str) -> (r: Option<(i64, u32)>)
    ensures
        r == naive_parsed(s@, fmt@),
{
    match chrono::NaiveDateTime::parse_from_str(s, fmt) {
        Ok(n) => Some((n.and_utc().timestamp(), n.and_utc().timestamp_subsec_nanos())),
        Err(_) => None,
    }
}

/// Relies on chrono's `DateTime::<Utc>::from_timestamp` (`None` out of range) and
/// `DateTime::format`, whose output depends on the timestamp and the format alone;
/// an item of the format that cannot be written gives `None`, not a panic.
#[verifier::external_body]
pub(crate) fn format_utc(secs: i64, nanos: u32, fmt: &str) -> (r: Option<String>)
    ensures
        r.is_some() == utc_formatted(secs, nanos, fmt@).is_some(),
        r.is_some() ==> r.unwrap()@ == utc_formatted(secs, nanos, fmt@).unwrap(),
{
    let d = chrono::DateTime::from_timestamp(secs, nanos)?;
    let mut out = String::new();
    match write!(out, "{}", d.format(fmt)) {
        Ok(()) => Some(out),
        Err(_) => None,
    }
}

/// The strftime layout of chrono's own display of a UTC time.
pub const DISPLAY_FORMAT: &'static str = "%Y-%m-%d %H:%M:%S%.f UTC";

impl UtcDateTime {
    /// The time written as `2020-01-02 03:04:05 UTC` (a fraction of a second is
    /// added when there is one); `None` where chrono cannot represent it.
    pub fn to_string(&self) -> (r: Option<String>)
        ensures
            r.is_some() == utc_formatted(self.secs, self.nanos, DISPLAY_FORMAT@).is_some(),
            r.is_some() ==> r.unwrap()@ == utc_formatted(self.secs, self.nanos, DISPLAY_FORMAT@).unwrap(),
    {
        format_utc(self.secs, self.nanos, DISPLAY_FORMAT)
    }
}

} // verus!
