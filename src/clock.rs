//! Wall-clock time in milliseconds since the Unix epoch.

use std::time::{Duration, SystemTime, UNIX_EPOCH};
use vstd::prelude::*;

verus! {

/// Milliseconds in a duration of `secs` seconds and `nanos` nanoseconds,
/// rounded down.
pub open spec fn millis_spec(secs: nat, nanos: nat) -> nat {
    secs * 1000 + nanos / 1_000_000
}

#[verifier::external_type_specification]
#[verifier::external_body]
pub struct ExSystemTime(SystemTime);

/// Relies on `SystemTime::now`: a reading of the system clock, of which
/// nothing is promised.
pub assume_specification[ SystemTime::now ]() -> SystemTime;

/// Relies on `Duration::as_secs`: the whole seconds of a duration.
pub assume_specification[ Duration::as_secs ](d: &Duration) -> u64;

/// Relies on `Duration::subsec_nanos`: the nanoseconds beyond the whole
/// seconds, documented to be below one billion.
pub assume_specification[ Duration::subsec_nanos ](d: &Duration) -> (r: u32)
    ensures
        r < 1_000_000_000,
;

/// Relies on `SystemTime::duration_since(UNIX_EPOCH)`: the time from the
/// epoch to `t`, or nothing when `t` is earlier than the epoch.
#[verifier::external_body]
fn since_unix_epoch(t: &SystemTime) -> Option<Duration> {
    t.duration_since(UNIX_EPOCH).ok()
}

/// The milliseconds in `secs` seconds and `nanos` nanoseconds, or nothing
/// when they do not fit in a `u64`.
pub fn millis_since_epoch(secs: u64, nanos: u32) -> (r: Option<u64>)
    ensures
        r == (if millis_spec(secs as nat, nanos as nat) <= u64::MAX {
            Some(millis_spec(secs as nat, nanos as nat) as u64)
        } else {
            None
        }),
{
    let sub: u64 = (nanos / 1_000_000) as u64;
    if secs > (u64::MAX - sub) / 1000 {
        assert(secs * 1000 + sub > u64::MAX) by (nonlinear_arith)
            requires
                secs > (u64::MAX - sub) / 1000,
                sub <= u64::MAX,
        ;
        None
    } else {
        assert(secs * 1000 + sub <= u64::MAX) by (nonlinear_arith)
            requires
                secs <= (u64::MAX - sub) / 1000,
                sub <= u64::MAX,
        ;
        Some(secs * 1000 + sub)
    }
}

/// The current wall-clock time in milliseconds since the epoch; nothing when
/// the clock reads earlier than the epoch or the count overflows a `u64`.
/// Whatever the clock says, the result is its reading rounded down to a
/// millisecond.
pub fn now() -> (r: Option<u64>)
    ensures
        r matches Some(ms) ==> exists|secs: u64, nanos: u32|
            nanos < 1_000_000_000 && #[trigger] millis_spec(secs as nat, nanos as nat) == ms,
{
    let t = SystemTime::now();
    match since_unix_epoch(&t) {
        Some(d) => millis_since_epoch(d.as_secs(), d.subsec_nanos()),
        None => None,
    }
}

} // verus!
