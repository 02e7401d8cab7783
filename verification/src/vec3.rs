//! Exact three-component vectors over fixed-point scalars.
//!
//! Sums, differences and scalar products are exact; the cross product is
//! kept unscaled (its components are products of fixed-point scalars),
//! so it serves as an exact direction vector.  The GPU shell rescales
//! and normalizes directions when it converts them to floats.

use vstd::prelude::*;

use crate::fx::{
    fx_clamp, fx_div_trunc, fx_mul, is_isqrt, isqrt, isqrt_wide, mul_fx, sqrt_floor, FX_BOUND,
    FX_ONE,
};

verus! {

/// A point or direction with fixed-point components.
#[derive(Clone, Copy, Debug, PartialEq, Eq, Structural)]
pub struct Vec3 {
    pub x: i64,
    pub y: i64,
    pub z: i64,
}

impl Vec3 {
    /// All components within `[-b, b]`.
    pub open spec fn bounded(self, b: int) -> bool {
        &&& -b <= self.x as int <= b
        &&& -b <= self.y as int <= b
        &&& -b <= self.z as int <= b
    }

    /// The exact squared length, in squared fixed-point units.
    pub open spec fn norm_sq_spec(self) -> int {
        (self.x as int) * (self.x as int) + (self.y as int) * (self.y as int) + (self.z as int)
            * (self.z as int)
    }

    /// Spec-level componentwise sum.
    pub open spec fn add_spec(self, o: Vec3) -> Vec3 {
        Vec3 {
            x: (self.x as int + o.x as int) as i64,
            y: (self.y as int + o.y as int) as i64,
            z: (self.z as int + o.z as int) as i64,
        }
    }

    /// Spec-level componentwise difference.
    pub open spec fn sub_spec(self, o: Vec3) -> Vec3 {
        Vec3 {
            x: (self.x as int - o.x as int) as i64,
            y: (self.y as int - o.y as int) as i64,
            z: (self.z as int - o.z as int) as i64,
        }
    }

    /// Spec-level cross product, unscaled.
    pub open spec fn cross_spec(self, o: Vec3) -> Vec3 {
        Vec3 {
            x: ((self.y as int) * (o.z as int) - (self.z as int) * (o.y as int)) as i64,
            y: ((self.z as int) * (o.x as int) - (self.x as int) * (o.z as int)) as i64,
            z: ((self.x as int) * (o.y as int) - (self.y as int) * (o.x as int)) as i64,
        }
    }

    /// Collinear with a coordinate axis: exactly one component is not
    /// zero.  The exact directions of a box's face normals.
    pub open spec fn axis_aligned(self) -> bool {
        ||| (self.x != 0 && self.y == 0 && self.z == 0)
        ||| (self.x == 0 && self.y != 0 && self.z == 0)
        ||| (self.x == 0 && self.y == 0 && self.z != 0)
    }

    pub fn new(x: i64, y: i64, z: i64) -> (v: Vec3)
        ensures
            v == (Vec3 { x, y, z }),
    {
        Vec3 { x, y, z }
    }

    /// The zero vector.
    pub fn zero() -> (v: Vec3)
        ensures
            v == (Vec3 { x: 0i64, y: 0i64, z: 0i64 }),
    {
        Vec3 { x: 0, y: 0, z: 0 }
    }

    /// The vertical unit direction, one fixed-point unit along y.
    pub fn unit_y_fx() -> (v: Vec3)
        ensures
            v == (Vec3 { x: 0i64, y: FX_ONE, z: 0i64 }),
    {
        Vec3 { x: 0, y: FX_ONE, z: 0 }
    }

    /// Componentwise sum, exact.
    pub fn add(self, o: Vec3) -> (r: Vec3)
        requires
            i64::MIN <= self.x as int + o.x as int <= i64::MAX,
            i64::MIN <= self.y as int + o.y as int <= i64::MAX,
            i64::MIN <= self.z as int + o.z as int <= i64::MAX,
        ensures
            r.x as int == self.x as int + o.x as int,
            r.y as int == self.y as int + o.y as int,
            r.z as int == self.z as int + o.z as int,
            r == self.add_spec(o),
    {
        Vec3 { x: self.x + o.x, y: self.y + o.y, z: self.z + o.z }
    }

    /// Componentwise difference, exact.
    pub fn sub(self, o: Vec3) -> (r: Vec3)
        requires
            i64::MIN <= self.x as int - o.x as int <= i64::MAX,
            i64::MIN <= self.y as int - o.y as int <= i64::MAX,
            i64::MIN <= self.z as int - o.z as int <= i64::MAX,
        ensures
            r.x as int == self.x as int - o.x as int,
            r.y as int == self.y as int - o.y as int,
            r.z as int == self.z as int - o.z as int,
            r == self.sub_spec(o),
    {
        Vec3 { x: self.x - o.x, y: self.y - o.y, z: self.z - o.z }
    }

    /// Componentwise negation, exact.
    pub fn neg(self) -> (r: Vec3)
        requires
            self.x > i64::MIN,
            self.y > i64::MIN,
            self.z > i64::MIN,
        ensures
            r.x as int == -(self.x as int),
            r.y as int == -(self.y as int),
            r.z as int == -(self.z as int),
    {
        Vec3 { x: -self.x, y: -self.y, z: -self.z }
    }

    /// Product with a fixed-point scalar, rescaled to fixed point.
    pub fn scale_fx(self, k: i64) -> (r: Vec3)
        requires
            i64::MIN <= fx_mul(self.x as int, k as int) <= i64::MAX,
            i64::MIN <= fx_mul(self.y as int, k as int) <= i64::MAX,
            i64::MIN <= fx_mul(self.z as int, k as int) <= i64::MAX,
        ensures
            r.x as int == fx_mul(self.x as int, k as int),
            r.y as int == fx_mul(self.y as int, k as int),
            r.z as int == fx_mul(self.z as int, k as int),
            r == self.scale_fx_spec(k),
    {
        Vec3 { x: mul_fx(self.x, k), y: mul_fx(self.y, k), z: mul_fx(self.z, k) }
    }

    /// The cross product, unscaled: components are exact products of
    /// fixed-point scalars and give the exact direction.
    pub fn cross(self, o: Vec3) -> (r: Vec3)
        requires
            self.bounded(FX_BOUND as int),
            o.bounded(FX_BOUND as int),
        ensures
            r.x as int == (self.y as int) * (o.z as int) - (self.z as int) * (o.y as int),
            r.y as int == (self.z as int) * (o.x as int) - (self.x as int) * (o.z as int),
            r.z as int == (self.x as int) * (o.y as int) - (self.y as int) * (o.x as int),
            r == self.cross_spec(o),
    {
        proof {
            lemma_bounded_product(self.x as int, o.y as int, FX_BOUND as int);
            lemma_bounded_product(self.x as int, o.z as int, FX_BOUND as int);
            lemma_bounded_product(self.y as int, o.x as int, FX_BOUND as int);
            lemma_bounded_product(self.y as int, o.z as int, FX_BOUND as int);
            lemma_bounded_product(self.z as int, o.x as int, FX_BOUND as int);
            lemma_bounded_product(self.z as int, o.y as int, FX_BOUND as int);
        }
        Vec3 {
            x: self.y * o.z - self.z * o.y,
            y: self.z * o.x - self.x * o.z,
            z: self.x * o.y - self.y * o.x,
        }
    }

    /// The exact squared length.
    pub fn norm_sq(self) -> (s: i64)
        requires
            self.bounded(FX_BOUND as int),
        ensures
            s as int == self.norm_sq_spec(),
            s >= 0,
    {
        proof {
            lemma_bounded_square(self.x as int, FX_BOUND as int);
            lemma_bounded_square(self.y as int, FX_BOUND as int);
            lemma_bounded_square(self.z as int, FX_BOUND as int);
        }
        self.x * self.x + self.y * self.y + self.z * self.z
    }

    /// The length in fixed-point units, rounded down to an integer
    /// count of units squared: the integer square root of the squared
    /// length.
    pub fn magnitude_fx(self) -> (m: i64)
        requires
            self.bounded(FX_BOUND as int),
        ensures
            is_isqrt(self.norm_sq_spec(), m as int),
            m as int == sqrt_floor(self.norm_sq_spec()),
            0 <= m as int <= 0x1_0000_0000,
    {
        let s = self.norm_sq();
        let m = isqrt(s as u64);
        proof {
            assert(m as int <= 0x1_0000_0000) by (nonlinear_arith)
                requires
                    (m as int) * (m as int) <= s as int,
                    s as int <= 0xffff_ffff_ffff_ffff,
                    m as int >= 0,
            ;
        }
        m as i64
    }

    /// Spec-level product with a fixed-point scalar.
    pub open spec fn scale_fx_spec(self, k: i64) -> Vec3 {
        Vec3 {
            x: fx_mul(self.x as int, k as int) as i64,
            y: fx_mul(self.y as int, k as int) as i64,
            z: fx_mul(self.z as int, k as int) as i64,
        }
    }

    /// Spec-level clamp of each component into `[-b, b]`.
    pub open spec fn clamp_spec(self, b: int) -> Vec3 {
        Vec3 {
            x: fx_clamp(self.x as int, -b, b) as i64,
            y: fx_clamp(self.y as int, -b, b) as i64,
            z: fx_clamp(self.z as int, -b, b) as i64,
        }
    }

    /// Clamps each component into `[-b, b]`: movement saturates at the
    /// edge of the bounded world.
    pub fn clamped(self, b: i64) -> (r: Vec3)
        requires
            b > 0,
        ensures
            r == self.clamp_spec(b as int),
            r.bounded(b as int),
    {
        Vec3 {
            x: crate::fx::clamp_fx(self.x, -b, b),
            y: crate::fx::clamp_fx(self.y, -b, b),
            z: crate::fx::clamp_fx(self.z, -b, b),
        }
    }

    /// The length of a wide vector (components up to 2^56), via the
    /// wide integer square root.
    pub fn magnitude_wide(self) -> (m: i64)
        requires
            self.bounded(0x100_0000_0000_0000),
        ensures
            is_isqrt(self.norm_sq_spec(), m as int),
            m as int == sqrt_floor(self.norm_sq_spec()),
            0 <= m as int <= 0x200_0000_0000_0000,
    {
        proof {
            lemma_bounded_square(self.x as int, 0x100_0000_0000_0000);
            lemma_bounded_square(self.y as int, 0x100_0000_0000_0000);
            lemma_bounded_square(self.z as int, 0x100_0000_0000_0000);
        }
        let sx: i128 = (self.x as i128) * (self.x as i128);
        let sy: i128 = (self.y as i128) * (self.y as i128);
        let sz: i128 = (self.z as i128) * (self.z as i128);
        let n: u128 = (sx + sy + sz) as u128;
        let m = isqrt_wide(n);
        proof {
            assert(m as int <= 0x200_0000_0000_0000) by (nonlinear_arith)
                requires
                    (m as int) * (m as int) <= n as int,
                    n as int <= 3 * 0x100_0000_0000_0000 * 0x100_0000_0000_0000,
                    m as int >= 0,
            ;
        }
        m as i64
    }

    /// Each component multiplied by `num` and divided by `den`,
    /// rounding toward zero: rescales a vector by an exact ratio.
    pub fn scale_num_div(self, num: i64, den: i64) -> (r: Vec3)
        requires
            den >= 1,
            i64::MIN <= fx_div_trunc((self.x as int) * (num as int), den as int) <= i64::MAX,
            i64::MIN <= fx_div_trunc((self.y as int) * (num as int), den as int) <= i64::MAX,
            i64::MIN <= fx_div_trunc((self.z as int) * (num as int), den as int) <= i64::MAX,
        ensures
            r.x as int == fx_div_trunc((self.x as int) * (num as int), den as int),
            r.y as int == fx_div_trunc((self.y as int) * (num as int), den as int),
            r.z as int == fx_div_trunc((self.z as int) * (num as int), den as int),
    {
        proof {
            lemma_bounded_product(self.x as int, num as int, 0x8000_0000_0000_0000);
            lemma_bounded_product(self.y as int, num as int, 0x8000_0000_0000_0000);
            lemma_bounded_product(self.z as int, num as int, 0x8000_0000_0000_0000);
        }
        let rx: i128 = (self.x as i128) * (num as i128) / (den as i128);
        let ry: i128 = (self.y as i128) * (num as i128) / (den as i128);
        let rz: i128 = (self.z as i128) * (num as i128) / (den as i128);
        Vec3 { x: rx as i64, y: ry as i64, z: rz as i64 }
    }

    /// Each component divided by a positive scalar, rounding toward
    /// zero.
    pub fn div_trunc(self, d: i64) -> (r: Vec3)
        requires
            d > 0,
            self.x > i64::MIN,
            self.y > i64::MIN,
            self.z > i64::MIN,
        ensures
            r.x as int == fx_div_trunc(self.x as int, d as int),
            r.y as int == fx_div_trunc(self.y as int, d as int),
            r.z as int == fx_div_trunc(self.z as int, d as int),
    {
        Vec3 { x: self.x / d, y: self.y / d, z: self.z / d }
    }
}

/// Componentwise evaluation of the cross product: within the geometric
/// bound the casts in its definition are exact.
pub proof fn lemma_cross_eval(a: Vec3, b: Vec3)
    requires
        a.bounded(FX_BOUND as int),
        b.bounded(FX_BOUND as int),
    ensures
        a.cross_spec(b).x as int == (a.y as int) * (b.z as int) - (a.z as int) * (b.y as int),
        a.cross_spec(b).y as int == (a.z as int) * (b.x as int) - (a.x as int) * (b.z as int),
        a.cross_spec(b).z as int == (a.x as int) * (b.y as int) - (a.y as int) * (b.x as int),
{
    lemma_bounded_product(a.y as int, b.z as int, FX_BOUND as int);
    lemma_bounded_product(a.z as int, b.y as int, FX_BOUND as int);
    lemma_bounded_product(a.z as int, b.x as int, FX_BOUND as int);
    lemma_bounded_product(a.x as int, b.z as int, FX_BOUND as int);
    lemma_bounded_product(a.x as int, b.y as int, FX_BOUND as int);
    lemma_bounded_product(a.y as int, b.x as int, FX_BOUND as int);
}

/// The componentwise bounds of a scalar product.
pub proof fn lemma_scale_fx_bounded(v: Vec3, k: i64, bv: int, bk: int)
    requires
        0 <= bv,
        0 <= bk,
        v.bounded(bv),
        -bk <= k as int <= bk,
    ensures
        -((bv * bk) / (FX_ONE as int)) <= fx_mul(v.x as int, k as int) <= (bv * bk) / (
        FX_ONE as int),
        -((bv * bk) / (FX_ONE as int)) <= fx_mul(v.y as int, k as int) <= (bv * bk) / (
        FX_ONE as int),
        -((bv * bk) / (FX_ONE as int)) <= fx_mul(v.z as int, k as int) <= (bv * bk) / (
        FX_ONE as int),
{
    crate::fx::lemma_fx_mul_bound(v.x as int, k as int, bv, bk);
    crate::fx::lemma_fx_mul_bound(v.y as int, k as int, bv, bk);
    crate::fx::lemma_fx_mul_bound(v.z as int, k as int, bv, bk);
}

/// The magnitude of a product is bounded by the product of the
/// factors' bounds.
pub proof fn lemma_product_bound(x: int, y: int, bx: int, by: int)
    requires
        0 <= bx,
        0 <= by,
        -bx <= x <= bx,
        -by <= y <= by,
    ensures
        -(bx * by) <= x * y <= bx * by,
{
    assert(-(bx * by) <= x * y <= bx * by) by (nonlinear_arith)
        requires
            0 <= bx,
            0 <= by,
            -bx <= x <= bx,
            -by <= y <= by,
    ;
}

/// The componentwise bound of a cross product.
pub proof fn lemma_cross_bounded(a: Vec3, b: Vec3, ba: int, bb: int)
    requires
        0 <= ba,
        0 <= bb,
        2 * ba * bb <= 0x4000_0000_0000_0000,
        a.bounded(ba),
        b.bounded(bb),
    ensures
        a.cross_spec(b).bounded(2 * ba * bb),
        a.cross_spec(b).x as int == (a.y as int) * (b.z as int) - (a.z as int) * (b.y as int),
        a.cross_spec(b).y as int == (a.z as int) * (b.x as int) - (a.x as int) * (b.z as int),
        a.cross_spec(b).z as int == (a.x as int) * (b.y as int) - (a.y as int) * (b.x as int),
{
    lemma_product_bound(a.y as int, b.z as int, ba, bb);
    lemma_product_bound(a.z as int, b.y as int, ba, bb);
    lemma_product_bound(a.z as int, b.x as int, ba, bb);
    lemma_product_bound(a.x as int, b.z as int, ba, bb);
    lemma_product_bound(a.x as int, b.y as int, ba, bb);
    lemma_product_bound(a.y as int, b.x as int, ba, bb);
    assert(2 * (ba * bb) == 2 * ba * bb) by (nonlinear_arith);
}

/// Each component of a vector is bounded by the vector's magnitude.
pub proof fn lemma_component_le_mag(v: Vec3, m: int)
    requires
        is_isqrt(v.norm_sq_spec(), m),
    ensures
        -m <= v.x as int <= m,
        -m <= v.y as int <= m,
        -m <= v.z as int <= m,
{
    assert(-m <= v.x as int <= m && -m <= v.y as int <= m && -m <= v.z as int <= m)
        by (nonlinear_arith)
        requires
            m >= 0,
            (v.x as int) * (v.x as int) + (v.y as int) * (v.y as int) + (v.z as int) * (
            v.z as int) < (m + 1) * (m + 1),
    ;
}

/// The product of two scalars bounded by `b` is bounded by `b * b`.
pub proof fn lemma_bounded_product(a: int, k: int, b: int)
    requires
        b >= 0,
        -b <= a <= b,
        -b <= k <= b,
    ensures
        -(b * b) <= a * k <= b * b,
{
    assert(-(b * b) <= a * k <= b * b) by (nonlinear_arith)
        requires
            b >= 0,
            -b <= a <= b,
            -b <= k <= b,
    ;
}

/// The square of a scalar bounded by `b` lies within `[0, b * b]`.
pub proof fn lemma_bounded_square(a: int, b: int)
    requires
        b >= 0,
        -b <= a <= b,
    ensures
        0 <= a * a <= b * b,
{
    assert(0 <= a * a <= b * b) by (nonlinear_arith)
        requires
            b >= 0,
            -b <= a <= b,
    ;
}

} // verus!
