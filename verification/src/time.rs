//! Creation times, held as plain numbers.

use crate::hash::ContentHash;
use std::collections::hash_map::DefaultHasher;
use vstd::bytes::*;
use vstd::prelude::*;

verus! {

/// An instant in UTC: whole seconds since the Unix epoch, and the nanoseconds
/// since the last whole second.
#[derive(Clone, Copy, Debug, PartialEq, Eq, Structural)]
pub struct Timestamp {
    /// Non-leap seconds since January 1, 1970 0:00:00 UTC.
    pub secs: i64,
    /// Nanoseconds since the last second boundary.
    pub nanos: u32,
}

impl ContentHash for Timestamp {
    /// The seconds, then the nanoseconds.
    open spec fn content(&self) -> Seq<Seq<u8>> {
        self.secs.content() + self.nanos.content()
    }

    fn feed(&self, state: &mut DefaultHasher) {
        self.secs.feed(state);
        self.nanos.feed(state);
    }
}

/// Reads the wall clock: calls `chrono::Utc::now` and takes the result apart
/// with `DateTime::timestamp` and `DateTime::timestamp_subsec_nanos`.
///
/// Nothing is claimed of the value: it is whatever the system clock reads.
/// `Utc::now` panics if the clock reads a time before the Unix epoch.
#[verifier::external_body]
pub(crate) fn utc_now() -> Timestamp {
    let t = chrono::Utc::now();
    Timestamp { secs: t.timestamp(), nanos: t.timestamp_subsec_nanos() }
}

} // verus!
