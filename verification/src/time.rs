//! Points in time, held as plain numbers.
use vstd::prelude::*;
use std::fmt::Write;

verus! {

/// A point in time: whole seconds since the Unix epoch (UTC) and the
/// nanoseconds within that second.
#[derive(Clone, Copy, PartialEq, Eq, Debug)]
pub struct Timestamp {
    pub secs: i64,
    pub nanos: u32,
}

/// The pattern of the time stamps that deployments are committed with.
pub open spec fn stamp_pattern() -> Seq<char> {
    "%Y-%m-%d %H:%M:%S UTC"@
}

/// The current time, read with `chrono::Utc::now`. Which time it is depends
/// on the clock of the machine; what is promised is only that chrono built
/// it (`DateTime::from_timestamp` of these very seconds and nanoseconds, so
/// it reads back), and such a time always formats with the numeric date and
/// time fields of `stamp_pattern`.
#[verifier::external_body]
pub(crate) fn now() -> (res: Timestamp)
    ensures
        time_text(res, stamp_pattern()) is Some,
{
    let t = chrono::Utc::now();
    Timestamp { secs: t.timestamp(), nanos: t.timestamp_subsec_nanos() }
}

/// A time formatted by chrono with a `strftime`-style pattern, in UTC;
/// `None` for a time chrono cannot represent, or for a pattern whose
/// formatting chrono reports as an error.
pub uninterp spec fn time_text(t: Timestamp, pattern: Seq<char>) -> Option<Seq<char>>;

/// Formats a time with `chrono` (`DateTime::from_timestamp`, then
/// `format`, written with `write!` so that a formatting error comes back
/// as `None` rather than a panic). The result is named `time_text`; the
/// calendar and the pattern language are chrono's.
#[verifier::external_body]
pub(crate) fn format_time(t: Timestamp, pattern: &str) -> (res: Option<String>)
    ensures
        match res {
            Some(s) => time_text(t, pattern@) == Some(s@),
            None => time_text(t, pattern@) is None,
        },
{
    let mut out = String::new();
    match chrono::DateTime::from_timestamp(t.secs, t.nanos) {
        Some(dt) => match write!(out, "{}", dt.format(pattern)) {
            Ok(()) => Some(out),
            Err(_) => None,
        },
        None => None,
    }
}

} // verus!
