use vstd::prelude::*;

verus! {

/// An instant in UTC: whole seconds since the Unix epoch and the nanoseconds
/// past that second.
#[derive(Debug, Clone, Copy, PartialEq, Eq, Structural)]
pub struct Timestamp {
    pub secs: i64,
    pub nanos: u32,
}

/// Reads the system clock through `chrono::Utc::now`, which takes the clock
/// to stand at or after the Unix epoch. The instant differs from call to
/// call; chrono keeps the sub-second part below two seconds (a leap second is
/// counted past 999,999,999).
#[verifier::external_body]
pub(crate) fn current_time() -> (t: Timestamp)
    ensures
        t.nanos < 2_000_000_000,
{
    let now = chrono::Utc::now();
    Timestamp { secs: now.timestamp(), nanos: now.timestamp_subsec_nanos() }
}

impl Timestamp {
    /// The current instant.
    pub fn now() -> (t: Timestamp)
        ensures
            t.nanos < 2_000_000_000,
    {
        current_time()
    }
}

} // verus!
