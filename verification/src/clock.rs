//! Points in time.
use vstd::prelude::*;

verus! {

/// A point in time: whole seconds since the Unix epoch, and the nanoseconds past them.
#[derive(Clone, Copy, Debug, PartialEq, Eq, Structural)]
pub struct Timestamp {
    pub seconds: i64,
    pub nanos: u32,
}

/// Reads the system clock with `chrono::Utc::now`.
///
/// What is believed of it: the nanoseconds stay below one second. Which instant comes
/// back rests on the machine, and nothing is claimed of it. The call panics on a machine
/// whose clock stands before the Unix epoch.
#[verifier::external_body]
pub(crate) fn utc_now() -> (now: Timestamp)
    ensures
        now.nanos < 1_000_000_000,
{
    let now = chrono::Utc::now();
    Timestamp { seconds: now.timestamp(), nanos: now.timestamp_subsec_nanos() }
}

} // verus!
