//! The time of an event: the system clock, and the calendar that shows it.

use vstd::prelude::*;

verus! {

/// Why an event has no timestamp.
#[derive(Debug, Clone, Copy, PartialEq, Eq, Structural)]
pub enum TimestampError {
    /// The system clock gives no time that a calendar can show.
    Clock,
    /// The time zone is unknown, or the pattern cannot be applied.
    Format,
}

/// What `chrono` shows for the instant `secs` seconds and `nanos` nanoseconds after the
/// Unix epoch, in the time zone with the IANA name `zone` and laid out by the
/// `strftime` pattern `pattern`; `None` where it shows nothing.
pub uninterp spec fn formatted_time(secs: i64, nanos: u32, zone: Seq<char>, pattern: Seq<char>)
    -> Option<Seq<char>>;

/// Reads the system clock with `SystemTime::elapsed` on the Unix epoch: the whole
/// seconds and the nanoseconds since then, or `None` where the clock stands before the
/// epoch. Nothing is claimed of the time that comes back.
#[verifier::external_body]
pub(crate) fn unix_now() -> (now: Option<(u64, u32)>) {
    match std::time::UNIX_EPOCH.elapsed() {
        Ok(since) => Some((since.as_secs(), since.subsec_nanos())),
        Err(_) => None,
    }
}

/// Formats an instant with `chrono`: `DateTime::from_timestamp` makes the instant,
/// `chrono_tz::Tz::from_str` finds the zone, and `DateTime::with_timezone` and
/// `DateTime::format` show the one in the other. The result is `None` where one of them
/// fails: the instant is out of range, the zone is unknown, or the pattern holds what
/// `chrono` cannot format. The contract only gives the result its name.
#[verifier::external_body]
pub(crate) fn format_time(secs: i64, nanos: u32, zone: &str, pattern: &str) -> (r: Option<String>)
    ensures
        match r {
            Some(text) => formatted_time(secs, nanos, zone@, pattern@) == Some(text@),
            None => formatted_time(secs, nanos, zone@, pattern@) is None,
        },
{
    let zone = match zone.parse::<chrono_tz::Tz>() {
        Ok(zone) => zone,
        Err(_) => return None,
    };
    let instant = match chrono::DateTime::from_timestamp(secs, nanos) {
        Some(instant) => instant,
        None => return None,
    };
    let mut text = String::new();
    match instant.with_timezone(&zone).format(pattern).write_to(&mut text) {
        Ok(()) => Some(text),
        Err(_) => None,
    }
}

} // verus!
