//! Splitting a clock reading into the `sec`/`nanosec` fields of a ROS 2 time stamp.
use vstd::prelude::*;

verus! {

/// Nanoseconds in a second.
pub const NANOS_PER_SEC: i64 = 1_000_000_000;

/// `a / b` rounded towards zero, as Rust's integer division does.
pub open spec fn trunc_div(a: int, b: int) -> int {
    if a >= 0 {
        a / b
    } else {
        -((-a) / b)
    }
}

/// The remainder that goes with [`trunc_div`]; it has the sign of `a`.
pub open spec fn trunc_rem(a: int, b: int) -> int {
    a - trunc_div(a, b) * b
}

/// The `(sec, nanosec)` stamp of a clock reading of `nsec` nanoseconds: the
/// whole seconds read as an `i32` and the remaining nanoseconds read as a
/// `u32`, both cut to their width as `as` casts do.
pub fn stamp_from_nanos(nsec: i64) -> (stamp: (i32, u32))
    ensures
        stamp.0 == trunc_div(nsec as int, NANOS_PER_SEC as int) as i32,
        stamp.1 == trunc_rem(nsec as int, NANOS_PER_SEC as int) as u32,
{
    let magnitude: u64 = if nsec >= 0 {
        nsec as u64
    } else {
        (-(nsec as i128)) as u64
    };
    let whole = magnitude / 1_000_000_000u64;
    let rest = magnitude % 1_000_000_000u64;
    let (sec, nanos): (i64, i64) = if nsec >= 0 {
        (whole as i64, rest as i64)
    } else {
        (-(whole as i64), -(rest as i64))
    };
    (sec as i32, nanos as u32)
}

/// A reading of `nsec` nanoseconds, with `0 <= nsec` and its seconds within
/// an `i32`, is given back exactly by its stamp.
pub proof fn lemma_stamp_round_trip(nsec: int)
    requires
        0 <= nsec < (i32::MAX + 1) * NANOS_PER_SEC,
    ensures
        ({
            let sec = trunc_div(nsec, NANOS_PER_SEC as int);
            let nanos = trunc_rem(nsec, NANOS_PER_SEC as int);
            &&& 0 <= sec <= i32::MAX
            &&& 0 <= nanos < NANOS_PER_SEC
            &&& sec * NANOS_PER_SEC + nanos == nsec
        }),
{
    vstd::arithmetic::div_mod::lemma_fundamental_div_mod(nsec, NANOS_PER_SEC as int);
    vstd::arithmetic::div_mod::lemma_div_is_ordered(nsec, (i32::MAX + 1) * NANOS_PER_SEC - 1, NANOS_PER_SEC as int);
}

} // verus!
