//! The wall clock.
use vstd::prelude::*;

verus! {

/// An instant as seconds since the Unix epoch and the nanoseconds within that second.
#[derive(Clone, Copy, Debug, PartialEq, Eq, Structural)]
pub struct Timestamp {
    pub seconds: u64,
    pub nanos: u32,
}

/// Reads `std::time::SystemTime::now()` and measures it from `UNIX_EPOCH` with
/// `SystemTime::duration_since`, taking `Duration::as_secs` and `Duration::subsec_nanos`.
/// `duration_since` fails when the clock reads earlier than the epoch; then the result is
/// `None`. A `Duration`'s sub-second nanoseconds stay below one second. Which instant is read
/// is not stated.
#[verifier::external_body]
pub fn now() -> (t: Option<Timestamp>)
    ensures
        t matches Some(t) ==> t.nanos < 1_000_000_000,
{
    match std::time::SystemTime::now().duration_since(std::time::UNIX_EPOCH) {
        Ok(d) => Some(Timestamp { seconds: d.as_secs(), nanos: d.subsec_nanos() }),
        Err(_) => None,
    }
}

} // verus!
