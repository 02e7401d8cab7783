//! Fixed-point scalar arithmetic.
//!
//! Every scalar quantity of this library (coordinates, angles, seconds,
//! color channels) is a signed 64-bit integer counting 1/65536 units.
//! Arithmetic on such scalars is exact integer arithmetic, so contracts
//! can state results exactly.  Trigonometric values are produced by a
//! rational approximation whose defining formula is itself the
//! specification; its range and symmetry are proved.

use vstd::prelude::*;

verus! {

/// Number of fixed-point units in one whole unit.
pub const FX_ONE: i64 = 65536;

/// Half a unit.
pub const FX_HALF: i64 = 32768;

/// Pi in fixed-point radians, rounded to an even count of units so that
/// `FX_PI == 2 * FX_HALF_PI` holds exactly.
pub const FX_PI: i64 = 205888;

/// Pi over two in fixed-point radians.
pub const FX_HALF_PI: i64 = 102944;

/// Two pi in fixed-point radians.
pub const FX_TWO_PI: i64 = 411776;

/// Magnitude bound within which the geometric routines promise exact
/// results without overflow: 2^30 units, about 16384 whole units.
pub const FX_BOUND: i64 = 1073741824;

/// Angles handed to the trigonometric routines stay within this bound
/// (2^54 units) so that range reduction cannot overflow.
pub const FX_ANGLE_BOUND: i64 = 18014398509481984;

/// Magnitude bound on raw input deltas (pointer movements, scroll
/// amounts) and on movement speeds: 2^26 units, about 1024 whole units.
pub const FX_INPUT_BOUND: i64 = 67108864;

/// Bound on one frame's elapsed time: 2^28 units, about 4096 seconds.
pub const FX_DT_BOUND: i64 = 268435456;

/// Truncating (round toward zero) division by a positive divisor,
/// the rounding Rust's `/` performs.
pub open spec fn fx_div_trunc(a: int, d: int) -> int
    recommends
        d > 0,
{
    if a >= 0 {
        a / d
    } else {
        -((-a) / d)
    }
}

/// The product of two fixed-point scalars, rescaled to fixed point.
pub open spec fn fx_mul(a: int, b: int) -> int {
    fx_div_trunc(a * b, FX_ONE as int)
}

/// Clamping into a closed interval.
pub open spec fn fx_clamp(x: int, lo: int, hi: int) -> int {
    if x < lo {
        lo
    } else if x > hi {
        hi
    } else {
        x
    }
}

/// Fixed-point product; exact per `fx_mul`.
pub fn mul_fx(a: i64, b: i64) -> (r: i64)
    requires
        i64::MIN <= fx_mul(a as int, b as int) <= i64::MAX,
    ensures
        r == fx_mul(a as int, b as int),
{
    let p: i128 = (a as i128) * (b as i128);
    (p / (FX_ONE as i128)) as i64
}

/// Clamps `x` into `[lo, hi]`.
pub fn clamp_fx(x: i64, lo: i64, hi: i64) -> (r: i64)
    requires
        lo <= hi,
    ensures
        r == fx_clamp(x as int, lo as int, hi as int),
{
    if x < lo {
        lo
    } else if x > hi {
        hi
    } else {
        x
    }
}

/// The core rational sine approximation on `[0, FX_PI]`, in fixed point:
/// `16 x (pi - x) / (5 pi^2 - 4 x (pi - x))`, scaled by `FX_ONE`.
pub open spec fn sin_half_spec(x: int) -> int
    recommends
        0 <= x <= FX_PI as int,
{
    fx_div_trunc(
        16 * x * (FX_PI as int - x) * (FX_ONE as int),
        5 * (FX_PI as int) * (FX_PI as int) - 4 * x * (FX_PI as int - x),
    )
}

/// An angle congruent to `x` modulo two pi, within `[-FX_PI, FX_PI]`.
pub open spec fn reduce_spec(x: int) -> int {
    let m = x - (FX_TWO_PI as int) * fx_div_trunc(x, FX_TWO_PI as int);
    if m > FX_PI as int {
        m - FX_TWO_PI as int
    } else if m < -(FX_PI as int) {
        m + FX_TWO_PI as int
    } else {
        m
    }
}

/// Sine of any in-bound angle: range-reduce, then apply the odd
/// extension of the core approximation.
pub open spec fn sin_fx_spec(x: int) -> int {
    let r = reduce_spec(x);
    if r >= 0 {
        sin_half_spec(r)
    } else {
        -sin_half_spec(-r)
    }
}

/// Cosine as the quarter-turn shift of sine.
pub open spec fn cos_fx_spec(x: int) -> int {
    sin_fx_spec(x + FX_HALF_PI as int)
}

proof fn lemma_quadratic_peak(x: int)
    requires
        0 <= x <= FX_PI as int,
    ensures
        0 <= x * (FX_PI as int - x) <= (FX_HALF_PI as int) * (FX_HALF_PI as int),
{
    assert(0 <= x * (FX_PI as int - x) <= (FX_HALF_PI as int) * (FX_HALF_PI as int)) by (nonlinear_arith)
        requires
            0 <= x <= FX_PI as int,
            FX_PI as int == 2 * (FX_HALF_PI as int),
    {
        assert((x - FX_HALF_PI as int) * (x - FX_HALF_PI as int) >= 0);
    }
}

fn sin_half(x: i64) -> (r: i64)
    requires
        0 <= x <= FX_PI,
    ensures
        r == sin_half_spec(x as int),
        0 <= r <= FX_ONE,
{
    proof {
        lemma_quadratic_peak(x as int);
    }
    let y: i64 = x * (FX_PI - x);
    let num: i64 = 16 * y * FX_ONE;
    let den: i64 = 5 * FX_PI * FX_PI - 4 * y;
    assert(4 * (y as int) <= (FX_PI as int) * (FX_PI as int)) by (nonlinear_arith)
        requires
            y as int <= (FX_HALF_PI as int) * (FX_HALF_PI as int),
            FX_PI as int == 2 * (FX_HALF_PI as int),
    ;
    assert(den as int >= 4 * (FX_PI as int) * (FX_PI as int));
    assert(num as int == 16 * (x as int) * (FX_PI as int - x as int) * (FX_ONE as int)
        && den as int == 5 * (FX_PI as int) * (FX_PI as int) - 4 * (x as int) * (FX_PI as int
        - x as int)) by (nonlinear_arith)
        requires
            y as int == (x as int) * (FX_PI as int - x as int),
            num as int == 16 * (y as int) * (FX_ONE as int),
            den as int == 5 * (FX_PI as int) * (FX_PI as int) - 4 * (y as int),
    ;
    let r = num / den;
    assert(num <= (FX_ONE as int) * den) by {
        assert(20 * (y as int) <= 5 * (FX_PI as int) * (FX_PI as int));
    }
    assert(r <= FX_ONE) by {
        assert(fx_div_trunc(num as int, den as int) * den <= num as int) by {
            assert(num as int >= 0);
            assert((num as int / den as int) * den as int <= num as int) by (nonlinear_arith)
                requires
                    num as int >= 0,
                    den as int > 0,
            ;
        }
        assert(fx_div_trunc(num as int, den as int) <= FX_ONE as int) by (nonlinear_arith)
            requires
                fx_div_trunc(num as int, den as int) * den as int <= num as int,
                num as int <= (FX_ONE as int) * den as int,
                den as int > 0,
                fx_div_trunc(num as int, den as int) >= 0,
        ;
    }
    r
}

/// Reduces an angle to the principal range `[-FX_PI, FX_PI]`; the result
/// differs from the argument by an exact multiple of two pi.
pub fn reduce_angle(x: i64) -> (r: i64)
    requires
        -FX_ANGLE_BOUND - FX_TWO_PI <= x <= FX_ANGLE_BOUND + FX_TWO_PI,
    ensures
        r == reduce_spec(x as int),
        -FX_PI <= r <= FX_PI,
{
    let q: i64 = x / FX_TWO_PI;
    let m: i64 = x - q * FX_TWO_PI;
    assert(-(FX_TWO_PI as int) < m < FX_TWO_PI as int) by {
        if x >= 0 {
            assert((x as int / FX_TWO_PI as int) * (FX_TWO_PI as int) + x as int % (
            FX_TWO_PI as int) == x as int) by (nonlinear_arith)
                requires
                    FX_TWO_PI as int > 0,
            ;
        } else {
            assert(((-x as int) / FX_TWO_PI as int) * (FX_TWO_PI as int) + (-x as int) % (
            FX_TWO_PI as int) == -x as int) by (nonlinear_arith)
                requires
                    FX_TWO_PI as int > 0,
            ;
        }
    }
    if m > FX_PI {
        m - FX_TWO_PI
    } else if m < -FX_PI {
        m + FX_TWO_PI
    } else {
        m
    }
}

/// Fixed-point sine; exact per `sin_fx_spec`, always within one unit of
/// magnitude.
pub fn sin_fx(x: i64) -> (r: i64)
    requires
        -FX_ANGLE_BOUND <= x <= FX_ANGLE_BOUND,
    ensures
        r == sin_fx_spec(x as int),
        -FX_ONE <= r <= FX_ONE,
{
    let m = reduce_angle(x);
    if m >= 0 {
        sin_half(m)
    } else {
        -sin_half(-m)
    }
}

/// Fixed-point cosine; exact per `cos_fx_spec`, always within one unit
/// of magnitude.
pub fn cos_fx(x: i64) -> (r: i64)
    requires
        -FX_ANGLE_BOUND <= x <= FX_ANGLE_BOUND,
    ensures
        r == cos_fx_spec(x as int),
        -FX_ONE <= r <= FX_ONE,
{
    let m = reduce_angle(x + FX_HALF_PI);
    assert(m == reduce_spec(x as int + FX_HALF_PI as int));
    if m >= 0 {
        sin_half(m)
    } else {
        -sin_half(-m)
    }
}

/// The integer square root: the greatest `r` with `r * r <= n`.
pub open spec fn is_isqrt(n: int, r: int) -> bool {
    r >= 0 && r * r <= n < (r + 1) * (r + 1)
}

/// The integer square root as a function.
pub open spec fn sqrt_floor(n: int) -> int {
    choose|r: int| is_isqrt(n, r)
}

/// The integer square root is unique, so any witness is the function's
/// value.
pub proof fn lemma_isqrt_unique(n: int, r: int)
    requires
        is_isqrt(n, r),
    ensures
        sqrt_floor(n) == r,
{
    assert(is_isqrt(n, sqrt_floor(n)));
    let q = sqrt_floor(n);
    assert(q == r) by (nonlinear_arith)
        requires
            q >= 0,
            r >= 0,
            q * q <= n < (q + 1) * (q + 1),
            r * r <= n < (r + 1) * (r + 1),
    ;
}

/// Computes the integer square root by bisection.
pub fn isqrt(n: u64) -> (r: u64)
    ensures
        is_isqrt(n as int, r as int),
        r as int == sqrt_floor(n as int),
{
    let mut lo: u64 = 0;
    let mut hi: u64 = 4294967296;
    assert((hi as int) * (hi as int) > n as int) by (nonlinear_arith)
        requires
            hi as int == 4294967296,
            n as int <= 0xffff_ffff_ffff_ffff,
    ;
    while lo + 1 < hi
        invariant
            0 <= lo < hi <= 4294967296,
            (lo as int) * (lo as int) <= n as int,
            (hi as int) * (hi as int) > n as int,
        decreases hi - lo,
    {
        let mid: u64 = lo + (hi - lo) / 2;
        assert((mid as int) * (mid as int) <= 4294967296 * 4294967296) by (nonlinear_arith)
            requires
                0 <= mid as int <= 4294967296,
        ;
        let sq: u128 = (mid as u128) * (mid as u128);
        if sq <= n as u128 {
            lo = mid;
        } else {
            hi = mid;
        }
    }
    proof {
        lemma_isqrt_unique(n as int, lo as int);
    }
    lo
}

/// Computes the integer square root of a wide value by bisection; the
/// argument stays below 2^116 so squares fit the working type.
pub fn isqrt_wide(n: u128) -> (r: u128)
    requires
        n < 0x10_0000_0000_0000_0000_0000_0000_0000u128,
    ensures
        is_isqrt(n as int, r as int),
        r as int == sqrt_floor(n as int),
        r as int <= 0x400_0000_0000_0000,
{
    let mut lo: u128 = 0;
    let mut hi: u128 = 0x400_0000_0000_0000;
    assert((hi as int) * (hi as int) > n as int) by (nonlinear_arith)
        requires
            hi as int == 0x400_0000_0000_0000,
            (n as int) < 0x10_0000_0000_0000_0000_0000_0000_0000u128,
    ;
    while lo + 1 < hi
        invariant
            0 <= lo < hi <= 0x400_0000_0000_0000,
            (lo as int) * (lo as int) <= n as int,
            (hi as int) * (hi as int) > n as int,
        decreases hi - lo,
    {
        let mid: u128 = lo + (hi - lo) / 2;
        assert((mid as int) * (mid as int) <= 0x400_0000_0000_0000 * 0x400_0000_0000_0000)
            by (nonlinear_arith)
            requires
                0 <= mid as int <= 0x400_0000_0000_0000,
        ;
        let sq: u128 = mid * mid;
        if sq <= n {
            lo = mid;
        } else {
            hi = mid;
        }
    }
    proof {
        lemma_isqrt_unique(n as int, lo as int);
    }
    lo
}


/// The magnitude of a fixed-point product is bounded by the product of
/// the factors' bounds, rescaled.
pub proof fn lemma_fx_mul_bound(a: int, b: int, ba: int, bb: int)
    requires
        0 <= ba,
        0 <= bb,
        -ba <= a <= ba,
        -bb <= b <= bb,
    ensures
        -(ba * bb) <= a * b <= ba * bb,
        -((ba * bb) / (FX_ONE as int)) <= fx_mul(a, b) <= (ba * bb) / (FX_ONE as int),
{
    assert(-(ba * bb) <= a * b <= ba * bb) by (nonlinear_arith)
        requires
            0 <= ba,
            0 <= bb,
            -ba <= a <= ba,
            -bb <= b <= bb,
    ;
    lemma_div_trunc_bound(a * b, FX_ONE as int, ba * bb);
}

/// Truncating division shrinks magnitudes: if `|a| <= m` then
/// `|a / d| <= m / d`.
pub proof fn lemma_div_trunc_bound(a: int, d: int, m: int)
    requires
        d >= 1,
        0 <= m,
        -m <= a <= m,
    ensures
        -(m / d) <= fx_div_trunc(a, d) <= m / d,
{
    if a >= 0 {
        assert(0 <= a / d <= m / d) by (nonlinear_arith)
            requires
                d >= 1,
                0 <= a <= m,
        ;
    } else {
        assert(0 <= (-a) / d <= m / d) by (nonlinear_arith)
            requires
                d >= 1,
                0 <= -a <= m,
        ;
    }
}

} // verus!
