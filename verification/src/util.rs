//! Small helpers: the clock-seeded random scalar used to scatter particles,
//! and byte-size helpers for handing buffers to a renderer.

use vstd::prelude::*;
use vstd::arithmetic::div_mod::lemma_div_is_ordered;
use vstd::arithmetic::div_mod::lemma_div_multiples_vanish;
use vstd::arithmetic::div_mod::lemma_div_pos_is_pos;
use vstd::arithmetic::div_mod::lemma_div_nonincreasing;
use vstd::arithmetic::mul::lemma_mul_inequality;
use vstd::arithmetic::mul::lemma_mul_nonnegative;

verus! {

#[verifier::external_type_specification]
#[verifier::external_body]
pub struct ExSystemTime(std::time::SystemTime);

#[verifier::external_type_specification]
#[verifier::external_body]
pub struct ExSystemTimeError(std::time::SystemTimeError);

/// Relies on `std::time::SystemTime::now`: reads the wall clock.  Nothing
/// can be promised of the value it returns.
pub assume_specification[ std::time::SystemTime::now ]() -> std::time::SystemTime;

/// Relies on `std::time::SystemTime::duration_since`: the elapsed time
/// since `earlier`, or an error if that time is later than `self`.  Which
/// case occurs depends on the clock, so nothing is promised.
pub assume_specification[ std::time::SystemTime::duration_since ](
    t: &std::time::SystemTime,
    earlier: std::time::SystemTime,
) -> Result<core::time::Duration, std::time::SystemTimeError>;

/// Relies on `core::time::Duration::subsec_nanos`: the fractional-second
/// part of the duration in nanoseconds, documented to be below one billion.
pub assume_specification[ core::time::Duration::subsec_nanos ](
    d: &core::time::Duration,
) -> (r: u32)
    ensures
        r < 1_000_000_000,
;

/// Relies on the constant `std::time::UNIX_EPOCH`: the clock's reference
/// point; an opaque value handed straight back to the clock.
#[verifier::external_body]
fn unix_epoch() -> std::time::SystemTime {
    std::time::UNIX_EPOCH
}

/// The sub-second part of the wall clock, in nanoseconds; zero when the
/// clock reads earlier than its reference point.
fn clock_subsec_nanos() -> (r: u32)
    ensures
        r < 1_000_000_000,
{
    let now = std::time::SystemTime::now();
    match now.duration_since(unix_epoch()) {
        Ok(d) => d.subsec_nanos(),
        Err(_) => 0,
    }
}

/// A cheap pseudo-random value in `[min, max]`: the wall clock's nanosecond
/// count, reduced modulo 255, picks one of 255 evenly spaced points of the
/// interval.  Successive calls give different values as the clock advances;
/// only the bounds are promised.
pub fn generate_rng(min: i64, max: i64) -> (r: i64)
    requires
        min <= max,
    ensures
        min <= r <= max,
{
    let nanos = clock_subsec_nanos();
    let n255: i128 = (nanos % 255) as i128;
    let d: i128 = (max as i128) - (min as i128);
    proof {
        assert(0 <= n255 * d <= 254 * d) by (nonlinear_arith)
            requires
                0 <= n255 <= 254,
                0 <= d,
        {}
    }
    let num: i128 = n255 * d;
    proof {
        lemma_div_pos_is_pos(num as int, 255);
        lemma_div_nonincreasing(num as int, 255);
        lemma_div_is_ordered(num as int, 255 * (d as int), 255);
        lemma_mul_inequality(n255 as int, 255, d as int);
        lemma_div_multiples_vanish(d as int, 255);
    }
    let q: i128 = num.checked_div_euclid(255).unwrap();
    let r128: i128 = (min as i128) + q;
    r128 as i64
}

/// The size of `T` in bytes, as the renderer's APIs want it.
pub fn size_of<T>() -> (r: i32)
    requires
        vstd::layout::size_of::<T>() <= i32::MAX as nat,
    ensures
        r as nat == vstd::layout::size_of::<T>(),
{
    core::mem::size_of::<T>() as i32
}

/// The size of a whole slice in bytes: element count times element size.
pub fn byte_size_of_array<T>(val: &[T]) -> (r: isize)
    requires
        val@.len() * vstd::layout::size_of::<T>() <= isize::MAX as nat,
    ensures
        r as int == val@.len() * vstd::layout::size_of::<T>(),
{
    let n: usize = val.len();
    let s: usize = core::mem::size_of::<T>();
    proof {
        lemma_mul_nonnegative(n as int, s as int);
    }
    (n * s) as isize
}

} // verus!
