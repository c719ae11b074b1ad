//! Wall-clock timestamps for measurements.

use vstd::prelude::*;

verus! {

/// A point in time: whole seconds since the Unix epoch, plus the nanoseconds
/// within that second.
#[derive(Clone, Copy, PartialEq, Eq, Structural, Debug)]
pub struct Timespec {
    pub sec: i64,
    pub nsec: u32,
}

impl Timespec {
    /// A timestamp is well formed when its nanosecond part names an offset
    /// inside one second.
    pub open spec fn wf(self) -> bool {
        self.nsec < 1_000_000_000
    }
}

/// Relies on time::OffsetDateTime::now_utc, unix_timestamp and nanosecond:
/// the wall clock now, split into whole seconds since the Unix epoch and the
/// nanoseconds within that second, which time documents to lie in
/// 0..1_000_000_000.
#[verifier::external_body]
pub(crate) fn now() -> (r: Timespec)
    ensures
        r.wf(),
{
    let t = time::OffsetDateTime::now_utc();
    Timespec { sec: t.unix_timestamp(), nsec: t.nanosecond() }
}

} // verus!
