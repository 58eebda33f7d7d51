//! Points in time as plain UNIX-timestamp values, together with the trusted
//! calls into `chrono` that produce and validate them.

use vstd::prelude::*;

verus! {

/// A point in time: whole seconds since the UNIX epoch and nanoseconds within
/// the second. During a leap second the nanosecond count may exceed one
/// billion, but it never reaches two billion.
#[derive(Clone, Copy, PartialEq, Eq, Structural, Debug)]
pub struct Timestamp {
    pub seconds: i64,
    pub nanos: u32,
}

impl Timestamp {
    /// The nanosecond field stays below two billion, so it always fits the
    /// signed 32-bit nanosecond fields of the wire formats.
    pub open spec fn wf(&self) -> bool {
        self.nanos < 2_000_000_000
    }
}

/// Whether `chrono` accepts this seconds/nanoseconds pair as a representable
/// point in time.
pub uninterp spec fn chrono_accepts(seconds: i64, nanos: u32) -> bool;

/// Relies on `chrono::DateTime::from_timestamp`: it returns `Some` exactly on
/// the seconds/nanoseconds pairs that chrono can represent, and it always
/// rejects a nanosecond count of two billion or more.
#[verifier::external_body]
pub(crate) fn timestamp_in_range(seconds: i64, nanos: u32) -> (r: bool)
    ensures
        r == chrono_accepts(seconds, nanos),
        nanos >= 2_000_000_000 ==> !r,
{
    chrono::DateTime::from_timestamp(seconds, nanos).is_some()
}

/// Relies on `chrono::Utc::now` (read through `DateTime::timestamp` and
/// `DateTime::timestamp_subsec_nanos`): the current time; its subsecond
/// nanoseconds stay below two billion even during a leap second.
#[verifier::external_body]
pub(crate) fn now_timestamp() -> (r: Timestamp)
    ensures
        r.wf(),
{
    let now = chrono::Utc::now();
    Timestamp { seconds: now.timestamp(), nanos: now.timestamp_subsec_nanos() }
}

/// The timestamp for a seconds/nanoseconds pair read off the wire, or `None`
/// where chrono cannot represent the pair.
pub fn checked_timestamp(seconds: i64, nanos: u32) -> (r: Option<Timestamp>)
    ensures
        chrono_accepts(seconds, nanos) ==> r == Some(Timestamp { seconds, nanos }),
        !chrono_accepts(seconds, nanos) ==> r is None,
        r matches Some(t) ==> t.wf(),
{
    if timestamp_in_range(seconds, nanos) {
        Some(Timestamp { seconds, nanos })
    } else {
        None
    }
}

} // verus!
