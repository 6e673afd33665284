//! Wall-clock access for the pacing of the dummy streams.

use vstd::prelude::*;

verus! {

/// Relies on `std::time::SystemTime::now`: nanoseconds elapsed since the
/// Unix epoch, truncated to 64 bits. Nothing is promised of the result:
/// the clock is read anew on every call and may jump either way.
#[verifier::external_body]
pub(crate) fn now_nanos() -> u64 {
    match std::time::SystemTime::now().duration_since(std::time::UNIX_EPOCH) {
        Ok(d) => d.as_nanos() as u64,
        Err(_) => 0,
    }
}

/// Waits until at least `deadline_nanos` nanoseconds have passed since
/// the clock read `start`, or the (practically unreachable) iteration
/// bound runs out. The wait polls the clock rather than sleeping: a
/// bounded loop stays within the verified subset, and the dummy streams
/// that pace themselves with it only ever wait a few milliseconds. A
/// clock that jumps backwards counts as no time passed.
pub(crate) fn wait_until_elapsed(start: u64, deadline_nanos: u64) {
    let mut i: u64 = 0;
    while i < u64::MAX
        invariant
            true,
        decreases u64::MAX - i,
    {
        let now = now_nanos();
        let elapsed: u64 = if now >= start {
            now - start
        } else {
            0
        };
        if elapsed >= deadline_nanos {
            return ;
        }
        i = i + 1;
    }
}

} // verus!
