//! Wall-clock timestamps as plain values: seconds since the epoch and
//! nanoseconds within the second. The clock itself is read through chrono.

use vstd::prelude::*;

verus! {

/// A point in time: seconds since the Unix epoch and nanoseconds within
/// the second (up to 1,999,999,999 during a leap second).
#[derive(Debug, Clone, Copy, PartialEq, Eq, Structural)]
pub struct Timestamp {
    pub seconds: i64,
    pub nanos: u32,
}

/// The current wall-clock time. Two calls may differ; nothing is promised
/// of the value beyond the documented range of the sub-second part.
///
/// Relies on chrono::Local::now and its accessors DateTime::timestamp and
/// DateTime::timestamp_subsec_nanos: seconds since the epoch, and
/// nanoseconds since the last second boundary (which chrono documents as
/// at most 1,999,999,999, leap seconds included). chrono aborts when the
/// system clock stands before the Unix epoch; this wrapper relies on the
/// clock not being set that far back.
#[verifier::external_body]
pub(crate) fn now() -> (r: Timestamp)
    ensures
        r.nanos <= 1_999_999_999,
{
    let t = chrono::Local::now();
    Timestamp { seconds: t.timestamp(), nanos: t.timestamp_subsec_nanos() }
}

/// A protobuf-shaped timestamp: seconds and an i32 nanosecond field.
#[derive(Debug, Clone, Copy, PartialEq, Eq, Structural, Default)]
pub struct ProtoTimestamp {
    pub seconds: i64,
    pub nanos: i32,
}

/// Fills a protobuf-shaped timestamp from a wall-clock one: the nanosecond
/// part is reduced below one second so it fits the i32 field.
pub fn set_proto_timestamp(timestamp: &mut ProtoTimestamp, exited_at: &Timestamp)
    ensures
        final(timestamp).seconds == exited_at.seconds,
        final(timestamp).nanos == exited_at.nanos as int % 1_000_000_000,
{
    timestamp.seconds = exited_at.seconds;
    timestamp.nanos = (exited_at.nanos % 1_000_000_000) as i32;
}

/// The protobuf-shaped form of a timestamp.
pub fn to_proto_timestamp(exited_at: &Timestamp) -> (r: ProtoTimestamp)
    ensures
        r.seconds == exited_at.seconds,
        r.nanos == exited_at.nanos as int % 1_000_000_000,
{
    let mut t = ProtoTimestamp { seconds: 0, nanos: 0 };
    set_proto_timestamp(&mut t, exited_at);
    t
}

} // verus!
