//! The wall clock.
//!
//! The clock is read in a way that returns in every state of the machine:
//! a clock that stands before the Unix epoch reads as the epoch.

use vstd::prelude::*;

verus! {

/// `std::time::SystemTime`, a reading of the system clock. Nothing is known
/// of what a value holds.
#[verifier::external_type_specification]
#[verifier::external_body]
pub struct ExSystemTime(std::time::SystemTime);

/// Reads the system clock with `std::time::SystemTime::now`.
#[verifier::external_body]
fn system_time_now() -> (reading: std::time::SystemTime) {
    std::time::SystemTime::now()
}

/// The time from the Unix epoch to a reading of the clock, by
/// `std::time::SystemTime::duration_since`: whole seconds and the
/// nanoseconds beyond them, or `None` where the reading lies before the
/// epoch. Nothing is claimed of the numbers.
#[verifier::external_body]
fn since_epoch(reading: &std::time::SystemTime) -> (elapsed: Option<(u64, u32)>) {
    match reading.duration_since(std::time::UNIX_EPOCH) {
        Ok(elapsed) => Some((elapsed.as_secs(), elapsed.subsec_nanos())),
        Err(_) => None,
    }
}

/// The RFC 3339 text of the time that lies the given seconds and
/// nanoseconds after the Unix epoch, made by `chrono::DateTime::from_timestamp`
/// and written by `chrono::DateTime::to_rfc3339`; `None` where chrono cannot
/// hold the time. Nothing is claimed of the text.
#[verifier::external_body]
fn rfc3339_text(secs: i64, nanos: u32) -> (text: Option<String>) {
    match chrono::DateTime::from_timestamp(secs, nanos) {
        Some(time) => Some(time.to_rfc3339()),
        None => None,
    }
}

/// The timestamp of a reading of the clock, in milliseconds since the Unix
/// epoch: a reading before the epoch counts as the epoch itself, and one
/// beyond what 64 bits hold as the last that they hold.
pub open spec fn clock_reading(elapsed: Option<(u64, u32)>) -> u64 {
    match elapsed {
        None => 0,
        Some((secs, nanos)) => if secs * 1000 + nanos / 1000000 <= u64::MAX {
            (secs * 1000 + nanos / 1000000) as u64
        } else {
            u64::MAX
        },
    }
}

/// The seconds and nanoseconds of a reading of the clock as chrono takes
/// them: those of the epoch for a reading before the epoch, and for one
/// whose seconds do not fit a signed number.
pub open spec fn calendar_reading(elapsed: Option<(u64, u32)>) -> (i64, u32) {
    match elapsed {
        None => (0, 0),
        Some((secs, nanos)) => if secs <= i64::MAX {
            (secs as i64, nanos)
        } else {
            (0, 0)
        },
    }
}

/// Turns a reading of the clock into a timestamp.
pub fn timestamp_of(elapsed: Option<(u64, u32)>) -> (now: u64)
    ensures
        now == clock_reading(elapsed),
{
    match elapsed {
        None => 0,
        Some((secs, nanos)) => {
            let millis: u64 = (nanos / 1000000) as u64;
            if secs <= (u64::MAX - millis) / 1000 {
                secs * 1000 + millis
            } else {
                u64::MAX
            }
        },
    }
}

/// Turns a reading of the clock into the seconds and nanoseconds that the
/// calendar is asked for.
pub fn calendar_time_of(elapsed: Option<(u64, u32)>) -> (time: (i64, u32))
    ensures
        time == calendar_reading(elapsed),
{
    match elapsed {
        None => (0, 0),
        Some((secs, nanos)) => {
            if secs <= 9223372036854775807 {
                (secs as i64, nanos)
            } else {
                (0, 0)
            }
        },
    }
}

/// The text that stands for the Unix epoch.
pub open spec fn epoch_text() -> Seq<char> {
    "1970-01-01T00:00:00+00:00"@
}

/// The text of a time, given what the calendar made of it: its text, or
/// that of the epoch where the calendar could not hold the time.
pub fn text_or_epoch(written: Option<String>) -> (text: String)
    ensures
        text@ == match written {
            Some(t) => t@,
            None => epoch_text(),
        },
{
    match written {
        Some(t) => t,
        None => "1970-01-01T00:00:00+00:00".to_owned(),
    }
}

/// The current time as milliseconds since the Unix epoch. Nothing is
/// claimed of the value: two readings may differ in either direction.
pub(crate) fn now_millis() -> (now: u64) {
    let reading = system_time_now();
    timestamp_of(since_epoch(&reading))
}

/// The current time as an RFC 3339 text. Nothing is claimed of the text.
pub(crate) fn now_rfc3339() -> (text: String) {
    let reading = system_time_now();
    let (secs, nanos) = calendar_time_of(since_epoch(&reading));
    text_or_epoch(rfc3339_text(secs, nanos))
}

} // verus!
