//! Instants on the wall clock, as plain integers.

use vstd::prelude::*;

verus! {

/// The nanoseconds in a second.
pub const NANOS_PER_SEC: i128 = 1_000_000_000;

/// An instant: whole seconds since the start of 1970 (UTC), and the
/// nanoseconds that have passed since that second began.
#[derive(Clone, Copy, Debug, PartialEq, Eq)]
pub struct Timestamp {
    pub secs: i64,
    pub nanos: u32,
}

impl Timestamp {
    /// The instant as one number: nanoseconds since the start of 1970.
    pub open spec fn as_nanos(self) -> int {
        self.secs * NANOS_PER_SEC + self.nanos
    }

    /// The instant as nanoseconds since the start of 1970.
    pub fn to_nanos(&self) -> (n: i128)
        ensures
            n == self.as_nanos(),
    {
        (self.secs as i128) * NANOS_PER_SEC + (self.nanos as i128)
    }

    /// Whether `self` is no earlier than `other`.
    pub fn reached(&self, other: &Timestamp) -> (yes: bool)
        ensures
            yes == (self.as_nanos() >= other.as_nanos()),
    {
        self.to_nanos() >= other.to_nanos()
    }
}

/// Splits a wait of `nanos` nanoseconds into whole seconds and the
/// nanoseconds left over, or gives `None` where the seconds are beyond 64
/// bits.
pub fn split_nanos(nanos: u128) -> (parts: Option<(u64, u32)>)
    ensures
        match parts {
            Some((secs, rest)) => secs * NANOS_PER_SEC + rest == nanos && rest < NANOS_PER_SEC,
            None => nanos >= (u64::MAX + 1) * NANOS_PER_SEC,
        },
{
    let secs: u128 = nanos / 1_000_000_000;
    let rest: u128 = nanos % 1_000_000_000;
    if secs > (u64::MAX as u128) {
        None
    } else {
        Some((secs as u64, rest as u32))
    }
}

/// Reads the wall clock with `chrono::Utc::now` and hands back what
/// `DateTime::timestamp` and `DateTime::timestamp_subsec_nanos` say of it.
/// Nothing is claimed of the reading: two calls may give any two instants.
/// `Utc::now` panics on a machine whose clock is set before 1970.
#[verifier::external_body]
pub(crate) fn clock_now() -> (now: Timestamp) {
    let reading = chrono::Utc::now();
    Timestamp { secs: reading.timestamp(), nanos: reading.timestamp_subsec_nanos() }
}

} // verus!
