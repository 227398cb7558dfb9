//! A log message and the moment it was made.
use vstd::prelude::*;

verus! {

/// A moment as seconds since the Unix epoch (1970-01-01 00:00:00 UTC) and
/// nanoseconds past that second; during a leap second the nanoseconds go
/// past 999,999,999.
#[derive(Debug, Clone, Copy, PartialEq, Eq)]
pub struct Timestamp {
    pub seconds: i64,
    pub subsec_nanos: u32,
}

/// A message for the log, with the moment it was made.
#[derive(Debug)]
pub struct LogMessage {
    pub content: String,
    pub timestamp: Timestamp,
}

/// The system clock's type, held opaque.
#[verifier::external_type_specification]
#[verifier::external_body]
pub struct ExSystemTime(std::time::SystemTime);

/// `std::time::SystemTime::now()`: the system clock's reading. The clock
/// decides it, so nothing is promised of it.
#[verifier::external_body]
fn system_time_now() -> (r: std::time::SystemTime) {
    std::time::SystemTime::now()
}

/// `time.duration_since(std::time::UNIX_EPOCH)`: `Ok` with how long after
/// the Unix epoch `time` is or, where `time` is before the epoch, `Err` with
/// how long before it (the error's `duration`); each as whole seconds and
/// the nanoseconds past them, which `Duration::subsec_nanos` documents as
/// below one billion. The amount depends on the reading, which has no view
/// here, so only that bound is stated.
#[verifier::external_body]
fn since_epoch(time: &std::time::SystemTime) -> (r: Result<(u64, u32), (u64, u32)>)
    ensures
        is_clock_reading(r),
{
    match time.duration_since(std::time::UNIX_EPOCH) {
        Ok(d) => Ok((d.as_secs(), d.subsec_nanos())),
        Err(e) => Err((e.duration().as_secs(), e.duration().subsec_nanos())),
    }
}

/// Whether `reading` is a clock reading relative to the epoch (`Ok` after
/// it, `Err` before it) whose nanoseconds are below one billion.
pub open spec fn is_clock_reading(reading: Result<(u64, u32), (u64, u32)>) -> bool {
    match reading {
        Ok(d) => d.1 < 1_000_000_000,
        Err(d) => d.1 < 1_000_000_000,
    }
}

/// The signed number of nanoseconds from the epoch that `reading` stands for.
pub open spec fn reading_nanos(reading: Result<(u64, u32), (u64, u32)>) -> int {
    match reading {
        Ok(d) => d.0 * 1_000_000_000 + d.1,
        Err(d) => -(d.0 * 1_000_000_000 + d.1),
    }
}

/// The signed number of nanoseconds from the epoch that `t` stands for.
pub open spec fn timestamp_nanos(t: Timestamp) -> int {
    t.seconds * 1_000_000_000 + t.subsec_nanos
}

/// The earliest moment a `Timestamp` can hold, in nanoseconds from the epoch.
pub open spec fn earliest_nanos() -> int {
    i64::MIN * 1_000_000_000
}

/// The latest moment a `Timestamp` can hold with nanoseconds below one
/// billion, in nanoseconds from the epoch.
pub open spec fn latest_nanos() -> int {
    i64::MAX * 1_000_000_000 + 999_999_999
}

/// `nanos` brought into the range a `Timestamp` can hold.
pub open spec fn clamp_nanos(nanos: int) -> int {
    if nanos < earliest_nanos() {
        earliest_nanos()
    } else if nanos > latest_nanos() {
        latest_nanos()
    } else {
        nanos
    }
}

/// The moment a clock reading stands for, with nanoseconds below one
/// billion; a reading beyond what `i64` seconds can hold (some 292 billion
/// years from the epoch) gives the nearest moment that can be held.
pub fn timestamp_from_reading(reading: Result<(u64, u32), (u64, u32)>) -> (r: Timestamp)
    requires
        is_clock_reading(reading),
    ensures
        r.subsec_nanos < 1_000_000_000,
        timestamp_nanos(r) == clamp_nanos(reading_nanos(reading)),
{
    let max_seconds: u64 = 0x7fff_ffff_ffff_ffff;
    match reading {
        Ok((s, n)) => {
            if s <= max_seconds {
                Timestamp { seconds: s as i64, subsec_nanos: n }
            } else {
                Timestamp { seconds: i64::MAX, subsec_nanos: 999_999_999 }
            }
        },
        Err((s, n)) => {
            if s <= max_seconds {
                let back: i64 = s as i64;
                if n == 0 {
                    Timestamp { seconds: -back, subsec_nanos: 0 }
                } else {
                    Timestamp { seconds: -back - 1, subsec_nanos: 1_000_000_000 - n }
                }
            } else {
                Timestamp { seconds: i64::MIN, subsec_nanos: 0 }
            }
        },
    }
}

impl LogMessage {
    /// A message made now: its timestamp is the system clock's reading, as
    /// `timestamp_from_reading` turns it into a moment. The clock decides
    /// the reading, so only what holds of every reading is stated.
    pub fn new(content: String) -> (r: Self)
        ensures
            r.content@ == content@,
            r.timestamp.subsec_nanos < 1_000_000_000,
            earliest_nanos() <= timestamp_nanos(r.timestamp) <= latest_nanos(),
    {
        let now = system_time_now();
        let reading = since_epoch(&now);
        Self::new_with_timestamp(content, timestamp_from_reading(reading))
    }

    /// A message made at `timestamp`.
    pub fn new_with_timestamp(content: String, timestamp: Timestamp) -> (r: Self)
        ensures
            r.content@ == content@,
            r.timestamp == timestamp,
    {
        LogMessage { content, timestamp }
    }
}

impl Clone for LogMessage {
    fn clone(&self) -> (r: Self)
        ensures
            r.content@ == self.content@,
            r.timestamp == self.timestamp,
    {
        LogMessage { content: self.content.clone(), timestamp: self.timestamp }
    }
}

} // verus!
