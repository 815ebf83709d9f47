//! Clock-time arithmetic: nanosecond values, the SDK's 100 ns units, and the
//! scaling `val * num / denom` used for durations and percentages.
use vstd::prelude::*;

use crate::ndisys;

verus! {

/// One second in nanoseconds.
pub const SECOND: u64 = 1_000_000_000;

/// One millisecond in nanoseconds.
pub const MSECOND: u64 = 1_000_000;

/// `floor(val * num / denom)`, or `None` where that does not fit in 64 bits.
pub open spec fn spec_mul_div_floor(val: u64, num: u64, denom: u64) -> Option<u64> {
    let r = (val as int * num as int) / (denom as int);
    if r > u64::MAX {
        None
    } else {
        Some(r as u64)
    }
}

/// `ceil(val * num / denom)`, or `None` where that does not fit in 64 bits.
pub open spec fn spec_mul_div_ceil(val: u64, num: u64, denom: u64) -> Option<u64> {
    let r = (val as int * num as int + denom as int - 1) / (denom as int);
    if r > u64::MAX {
        None
    } else {
        Some(r as u64)
    }
}

proof fn lemma_product_bounds(val: u64, num: u64)
    ensures
        0 <= val as int * num as int <= u64::MAX as int * u64::MAX as int,
        u64::MAX as int * u64::MAX as int + u64::MAX as int <= u128::MAX,
{
    assert(0 <= val as int * num as int <= u64::MAX as int * u64::MAX as int) by (nonlinear_arith)
        requires
            0 <= val <= u64::MAX,
            0 <= num <= u64::MAX,
    ;
}

/// Computes `floor(val * num / denom)` without intermediate overflow; `None`
/// where the result does not fit in 64 bits.
pub fn mul_div_floor(val: u64, num: u64, denom: u64) -> (r: Option<u64>)
    requires
        denom != 0,
    ensures
        r == spec_mul_div_floor(val, num, denom),
{
    proof {
        lemma_product_bounds(val, num);
    }
    let p: u128 = (val as u128) * (num as u128);
    let q: u128 = p / (denom as u128);
    if q > u64::MAX as u128 {
        None
    } else {
        Some(q as u64)
    }
}

/// Computes `ceil(val * num / denom)` without intermediate overflow; `None`
/// where the result does not fit in 64 bits.
pub fn mul_div_ceil(val: u64, num: u64, denom: u64) -> (r: Option<u64>)
    requires
        denom != 0,
    ensures
        r == spec_mul_div_ceil(val, num, denom),
{
    proof {
        lemma_product_bounds(val, num);
    }
    let p: u128 = (val as u128) * (num as u128);
    let q: u128 = (p + (denom as u128 - 1)) / (denom as u128);
    if q > u64::MAX as u128 {
        None
    } else {
        Some(q as u64)
    }
}

/// The largest SDK time (in 100 ns units) whose nanosecond value fits in 64 bits.
pub const MAX_NDI_TIME: i64 = 184467440737095516;

/// Converts an SDK time in 100 ns units into nanoseconds.
pub fn ndi_time_to_nseconds(t: i64) -> (r: u64)
    requires
        0 <= t <= MAX_NDI_TIME,
    ensures
        r == t * 100,
{
    (t as u64) * 100
}

/// A timecode that the sink derives from a running time of `t * 100` ns (with
/// base time 0) is `t` again, and the receiver turns it back into that
/// running time: SDK times survive the trip through nanoseconds.
pub proof fn lemma_timecode_roundtrip(t: i64)
    requires
        0 <= t <= MAX_NDI_TIME,
    ensures
        spec_timecode_from_running_time(Some((t * 100) as u64), Some(0)) == t,
{
}

/// The SDK timecode (in 100 ns units) for a running time plus base time, or
/// "synthesize" where either is unknown or their sum overflows.
pub open spec fn spec_timecode_from_running_time(
    running_time: Option<u64>,
    base_time: Option<u64>,
) -> i64 {
    match (running_time, base_time) {
        (Some(rt), Some(bt)) => if rt + bt <= u64::MAX {
            ((rt + bt) / 100) as i64
        } else {
            ndisys::NDIlib_send_timecode_synthesize
        },
        _ => ndisys::NDIlib_send_timecode_synthesize,
    }
}

/// The SDK timecode (in 100 ns units) for a running time plus base time, or
/// "synthesize" where either is unknown or their sum overflows.
pub fn timecode_from_running_time(running_time: Option<u64>, base_time: Option<u64>) -> (r: i64)
    ensures
        r == spec_timecode_from_running_time(running_time, base_time),
        r >= 0,
{
    match (running_time, base_time) {
        (Some(rt), Some(bt)) => match rt.checked_add(bt) {
            Some(t) => (t / 100) as i64,
            None => ndisys::NDIlib_send_timecode_synthesize,
        },
        _ => ndisys::NDIlib_send_timecode_synthesize,
    }
}

} // verus!
