//! The cutoff instant of a run: everything created strictly before it is expired.
use vstd::prelude::*;

use crate::config::CleanError;

verus! {

/// Milliseconds in one day.
pub const MILLIS_PER_DAY: i64 = 86_400_000;

/// The cutoff, in milliseconds since the Unix epoch, for a run that starts at
/// `now_ms` and keeps `retention_days` days of data.
pub open spec fn cutoff_of(now_ms: int, retention_days: int) -> int {
    now_ms - retention_days * MILLIS_PER_DAY
}

/// A row or file created at `created_ms` is expired under `cutoff` (strictly older).
pub open spec fn expired(created_ms: int, cutoff: int) -> bool {
    created_ms < cutoff
}

/// `now_ms - retention_days` days, in milliseconds; refused where that leaves `i64`.
pub fn compute_cutoff(now_ms: i64, retention_days: i64) -> (r: Result<i64, CleanError>)
    ensures
        r is Ok <==> i64::MIN <= cutoff_of(now_ms as int, retention_days as int) <= i64::MAX,
        r matches Ok(c) ==> c == cutoff_of(now_ms as int, retention_days as int),
        r is Err ==> r == Err::<i64, CleanError>(CleanError::CutoffOutOfRange),
{
    let days: i128 = retention_days as i128;
    proof {
        assert(-0x8000_0000_0000_0000 * 86_400_000 <= days * 86_400_000 <= 0x7fff_ffff_ffff_ffff
            * 86_400_000) by (nonlinear_arith)
            requires
                -0x8000_0000_0000_0000 <= days <= 0x7fff_ffff_ffff_ffff,
        ;
    }
    let wide: i128 = (now_ms as i128) - days * (MILLIS_PER_DAY as i128);
    if wide < (i64::MIN as i128) || wide > (i64::MAX as i128) {
        Err(CleanError::CutoffOutOfRange)
    } else {
        Ok(wide as i64)
    }
}

/// Whether `created_ms` falls before `cutoff`.
pub fn is_expired(created_ms: i64, cutoff: i64) -> (r: bool)
    ensures
        r == expired(created_ms as int, cutoff as int),
{
    created_ms < cutoff
}

} // verus!
