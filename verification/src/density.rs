//! Linear bucketing of an 8-bit grey level into a fixed number of density levels.

use vstd::prelude::*;
use vstd::arithmetic::div_mod::{
    lemma_basic_div, lemma_div_is_ordered, lemma_fundamental_div_mod, lemma_small_mod,
};

verus! {

/// The greatest value an 8-bit channel can hold.
pub const MAX_INTENSITY: u8 = 255;

/// The smallest integer that is at least `a / b`, for `a >= 0` and `b > 0`.
pub open spec fn ceil_div(a: int, b: int) -> int {
    if a % b == 0 {
        a / b
    } else {
        a / b + 1
    }
}

/// Mean of three channels, rounded down. The sum is taken before the division,
/// so it may exceed the 8-bit range.
pub open spec fn mean_intensity(r: int, g: int, b: int) -> int {
    (r + g + b) / 3
}

/// Width of one bucket when the range `0..=255` is cut into `levels` buckets.
pub open spec fn partition_size(levels: int) -> int {
    ceil_div(MAX_INTENSITY as int, levels)
}

/// The bucket a grey level falls into: the grey level divided by the partition
/// size and rounded up, held below `levels` so that it always names a level.
pub open spec fn bucket_of(grey: int, levels: int) -> int {
    let raw = ceil_div(grey, partition_size(levels));
    if raw < levels {
        raw
    } else {
        levels - 1
    }
}

/// `ceil_div` is the ceiling of the quotient: the least `q` with `q * b >= a`.
pub proof fn lemma_ceil_div_is_ceiling(a: int, b: int)
    requires
        0 <= a,
        0 < b,
    ensures
        ceil_div(a, b) * b >= a,
        (ceil_div(a, b) - 1) * b < a,
        0 <= ceil_div(a, b) <= a,
{
    lemma_fundamental_div_mod(a, b);
    let q = a / b;
    let r = a % b;
    assert(a == b * q + r);
    assert(0 <= r < b);
    assert(q >= 0 && q <= a) by (nonlinear_arith)
        requires
            a == b * q + r,
            0 <= r < b,
            0 <= a,
            0 < b,
    ;
    assert((q + 1) * b == b * q + b) by (nonlinear_arith);
    assert((q - 1) * b == b * q - b) by (nonlinear_arith);
    assert(q * b == b * q) by (nonlinear_arith);
    if r != 0 {
        assert(q + 1 <= a) by (nonlinear_arith)
            requires
                a == b * q + r,
                0 < r < b,
                0 <= q,
        ;
    }
}

/// Rounding up keeps the order of the numerators.
pub proof fn lemma_ceil_div_monotonic(a: int, b: int, d: int)
    requires
        0 <= a <= b,
        0 < d,
    ensures
        ceil_div(a, d) <= ceil_div(b, d),
{
    lemma_div_is_ordered(a, b, d);
    lemma_fundamental_div_mod(a, d);
    lemma_fundamental_div_mod(b, d);
    if a / d == b / d {
        assert(a % d <= b % d);
    } else {
        assert(a / d + 1 <= b / d);
    }
}

/// The partition size is at least one and at most 255.
pub proof fn lemma_partition_size_bounds(levels: int)
    requires
        1 <= levels,
    ensures
        1 <= partition_size(levels) <= 255,
{
    lemma_ceil_div_is_ceiling(255, levels);
    if partition_size(levels) <= 0 {
        assert(partition_size(levels) * levels <= 0) by (nonlinear_arith)
            requires
                partition_size(levels) <= 0,
                1 <= levels,
        ;
    }
}

/// Monotonic quantization: a brighter grey level never lands in a lower bucket.
pub proof fn lemma_bucket_monotonic(a: int, b: int, levels: int)
    requires
        0 <= a <= b <= 255,
        1 <= levels,
    ensures
        bucket_of(a, levels) <= bucket_of(b, levels),
{
    lemma_partition_size_bounds(levels);
    lemma_ceil_div_monotonic(a, b, partition_size(levels));
}

/// Every grey level lands in a bucket that exists, and black lands in the first.
pub proof fn lemma_bucket_in_range(grey: int, levels: int)
    requires
        0 <= grey <= 255,
        1 <= levels,
    ensures
        0 <= bucket_of(grey, levels) < levels,
        bucket_of(grey, levels) <= grey,
        bucket_of(0, levels) == 0,
{
    lemma_partition_size_bounds(levels);
    lemma_ceil_div_is_ceiling(grey, partition_size(levels));
    lemma_ceil_div_is_ceiling(0, partition_size(levels));
}

/// With 92 levels the partition size is 3, so a grey level lands in the bucket
/// `ceil(grey / 3)`. The brightest grey lands in bucket 85: the bound on the
/// bucket never comes into play, and the levels above 85 stay unused.
pub proof fn lemma_buckets_of_92_levels(grey: int)
    requires
        0 <= grey <= 255,
    ensures
        partition_size(92) == 3,
        bucket_of(grey, 92) == (grey + 2) / 3,
        bucket_of(grey, 92) <= 85,
        bucket_of(255, 92) == 85,
{
}

/// Mean of the three channels of a pixel, rounded down.
pub fn average_intensity(r: u8, g: u8, b: u8) -> (avg: u8)
    ensures
        avg == mean_intensity(r as int, g as int, b as int),
{
    let sum: u16 = r as u16 + g as u16 + b as u16;
    (sum / 3) as u8
}

/// Quotient of `a` by `b`, rounded up.
pub fn div_round_up(a: u8, b: u8) -> (q: u8)
    requires
        b > 0,
    ensures
        q == ceil_div(a as int, b as int),
{
    proof {
        lemma_ceil_div_is_ceiling(a as int, b as int);
    }
    if a % b == 0 {
        a / b
    } else {
        a / b + 1
    }
}

/// Width of one bucket for `density_range` levels.
pub fn partition_width(density_range: usize) -> (width: u8)
    requires
        density_range > 0,
    ensures
        width == partition_size(density_range as int),
        width >= 1,
{
    proof {
        lemma_partition_size_bounds(density_range as int);
    }
    if density_range >= 255 {
        proof {
            let n = density_range as int;
            if n > 255 {
                lemma_basic_div(255, n);
                lemma_small_mod(255, n as nat);
            } else {
                assert(255int / 255 == 1 && 255int % 255 == 0);
            }
            assert(ceil_div(255, n) == 1);
        }
        1
    } else {
        div_round_up(MAX_INTENSITY, density_range as u8)
    }
}

/// Index of the density level for a grey value, among `density_range` levels.
pub fn bucket_index(grayscale_value: u8, density_range: usize) -> (index: u8)
    requires
        density_range > 0,
    ensures
        index == bucket_of(grayscale_value as int, density_range as int),
        index < density_range,
        grayscale_value == 0 ==> index == 0,
{
    proof {
        lemma_bucket_in_range(grayscale_value as int, density_range as int);
    }
    let raw: u8 = div_round_up(grayscale_value, partition_width(density_range));
    if (raw as usize) < density_range {
        raw
    } else {
        (density_range - 1) as u8
    }
}

} // verus!
