//! Wall-clock time: the UNIX timestamp of the system clock.

use std::time::{SystemTime, UNIX_EPOCH};
use vstd::prelude::*;

verus! {

/// A reading of the system clock relative to the UNIX epoch.
#[derive(Debug, Clone, Copy, PartialEq, Eq, Structural)]
pub enum ClockReading {
    /// `secs` seconds and `nanos` nanoseconds after the epoch.
    After { secs: u64, nanos: u32 },
    /// `secs` seconds and `nanos` nanoseconds before the epoch.
    Before { secs: u64, nanos: u32 },
}

/// Whole seconds since the epoch of a reading, rounded down: a reading before
/// the epoch gives a negative count.
pub open spec fn spec_timestamp(reading: ClockReading) -> int {
    match reading {
        ClockReading::After { secs, .. } => secs as int,
        ClockReading::Before { secs, nanos } => -(secs + if nanos > 0 { 1int } else { 0int }),
    }
}

/// `t` brought into the range of `i64`.
pub open spec fn clamp_i64(t: int) -> i64 {
    if t > i64::MAX {
        i64::MAX
    } else if t < i64::MIN {
        i64::MIN
    } else {
        t as i64
    }
}

/// The system clock, as given by `SystemTime::now().duration_since(UNIX_EPOCH)`:
/// the elapsed time when the clock reads after the epoch, and, when it reads
/// before, the amount by which it is earlier (the duration carried by the
/// call's error). The value depends on the machine's clock, so nothing is
/// promised about it.
#[verifier::external_body]
fn read_clock() -> ClockReading {
    match SystemTime::now().duration_since(UNIX_EPOCH) {
        Ok(d) => ClockReading::After { secs: d.as_secs(), nanos: d.subsec_nanos() },
        Err(e) => ClockReading::Before { secs: e.duration().as_secs(), nanos: e.duration().subsec_nanos() },
    }
}

/// UNIX timestamp of a reading: whole seconds since the epoch, rounded down
/// (negative before the epoch), brought into the range of `i64`.
pub fn timestamp_of(reading: ClockReading) -> (r: i64)
    ensures
        r == clamp_i64(spec_timestamp(reading)),
{
    match reading {
        ClockReading::After { secs, .. } => if secs <= i64::MAX as u64 {
            secs as i64
        } else {
            i64::MAX
        },
        ClockReading::Before { secs, nanos } => if secs <= i64::MAX as u64 {
            let s = secs as i64;
            if nanos > 0 {
                -s - 1
            } else {
                -s
            }
        } else {
            i64::MIN
        },
    }
}

/// Current UNIX timestamp of the system clock (see `timestamp_of`).
pub(crate) fn now_timestamp() -> i64 {
    timestamp_of(read_clock())
}

} // verus!
