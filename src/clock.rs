//! Millisecond timestamps from the wall clock.

use vstd::prelude::*;

verus! {

/// Relies on `time::get_time`: the wall clock as whole seconds and
/// nanoseconds, the nanoseconds in `0..1_000_000_000` (its `Timespec::new`
/// asserts so).
#[verifier::external_body]
fn wall_clock() -> (r: (i64, i32))
    ensures
        0 <= r.1 < 1_000_000_000,
{
    let t = time::get_time();
    (t.sec, t.nsec)
}

/// Milliseconds since the epoch, where they fit in a `u64`.
pub open spec fn millis_of(sec: i64, nsec: i32) -> Option<u64> {
    let ms = sec * 1000 + nsec / 1_000_000;
    if 0 <= sec && 0 <= nsec < 1_000_000_000 && ms <= u64::MAX {
        Some(ms as u64)
    } else {
        None
    }
}

/// Converts a clock reading to milliseconds; `None` before the epoch, for
/// nanoseconds outside one second, or where the result overflows.
pub fn timestamp_millis(sec: i64, nsec: i32) -> (r: Option<u64>)
    ensures
        r == millis_of(sec, nsec),
{
    if sec < 0 || nsec < 0 || nsec >= 1_000_000_000 {
        return None;
    }
    let whole = (sec as u64).checked_mul(1000);
    match whole {
        Some(w) => w.checked_add((nsec as u64) / 1_000_000),
        None => None,
    }
}

/// The current time in milliseconds since the epoch, where the clock reads
/// a time the conversion accepts.
pub fn current_time() -> (r: Option<u64>)
    ensures
        r is Some ==> exists|sec: i64, nsec: i32| #[trigger] millis_of(sec, nsec) == r,
{
    let (sec, nsec) = wall_clock();
    timestamp_millis(sec, nsec)
}

} // verus!
