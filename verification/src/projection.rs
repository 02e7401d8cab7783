//! The perspective projection's parameters.
//!
//! The projection keeps the viewport extent and the frustum parameters
//! as plain values; the GPU shell builds the float matrix from them
//! each frame.  The composed matrix remaps the symmetric frustum's
//! depth range into the unit interval, a fact proved here over the
//! parameters themselves: for a camera at the origin looking down the
//! canonical forward axis, a point at forward distance `d` lands at
//! clip depth `zfar * (d - znear) / (d * (zfar - znear))`.

use vstd::prelude::*;

use crate::fx::{FX_BOUND, FX_PI};

verus! {

/// A plain snapshot of a projection's parameters, as the camera
/// uniform carries it.
#[derive(Clone, Copy, Debug, PartialEq, Eq, Structural)]
pub struct ProjectionParams {
    pub width: u32,
    pub height: u32,
    pub fovy: i64,
    pub znear: i64,
    pub zfar: i64,
}

/// Aspect ratio as the exact viewport extent, plus the vertical field
/// of view and the clip distances.  Mutated only on resize.
pub struct Projection {
    width: u32,
    height: u32,
    fovy: i64,
    znear: i64,
    zfar: i64,
}

impl Projection {
    /// The stored viewport width.
    pub closed spec fn width_spec(self) -> u32 {
        self.width
    }

    /// The stored viewport height.
    pub closed spec fn height_spec(self) -> u32 {
        self.height
    }

    /// The vertical field of view, in fixed-point radians.
    pub closed spec fn fovy_spec(self) -> i64 {
        self.fovy
    }

    /// The near clip distance.
    pub closed spec fn znear_spec(self) -> i64 {
        self.znear
    }

    /// The far clip distance.
    pub closed spec fn zfar_spec(self) -> i64 {
        self.zfar
    }

    /// A non-empty viewport and a proper frustum.
    pub open spec fn wf(self) -> bool {
        &&& self.width_spec() >= 1
        &&& self.height_spec() >= 1
        &&& 0 < self.znear_spec() < self.zfar_spec() <= FX_BOUND
        &&& 0 < self.fovy_spec() < FX_PI
    }

    /// A projection for the given viewport and frustum.  A zero
    /// viewport extent is the caller's to rule out.
    pub fn new(width: u32, height: u32, fovy: i64, znear: i64, zfar: i64) -> (p: Projection)
        requires
            width >= 1,
            height >= 1,
            0 < znear < zfar <= FX_BOUND,
            0 < fovy < FX_PI,
        ensures
            p.width_spec() == width,
            p.height_spec() == height,
            p.fovy_spec() == fovy,
            p.znear_spec() == znear,
            p.zfar_spec() == zfar,
            p.wf(),
    {
        Projection { width, height, fovy, znear, zfar }
    }

    /// Adopts a new viewport extent; the aspect ratio is the stored
    /// pair.  A zero extent is ignored rather than poisoning the
    /// ratio.
    pub fn resize(&mut self, width: u32, height: u32)
        ensures
            width >= 1 && height >= 1 ==> final(self).width_spec() == width
                && final(self).height_spec() == height,
            !(width >= 1 && height >= 1) ==> final(self).width_spec() == old(self).width_spec()
                && final(self).height_spec() == old(self).height_spec(),
            final(self).fovy_spec() == old(self).fovy_spec(),
            final(self).znear_spec() == old(self).znear_spec(),
            final(self).zfar_spec() == old(self).zfar_spec(),
            old(self).wf() ==> final(self).wf(),
    {
        if width >= 1 && height >= 1 {
            self.width = width;
            self.height = height;
        }
    }

    /// The stored viewport width.
    pub fn width(&self) -> (w: u32)
        ensures
            w == self.width_spec(),
    {
        self.width
    }

    /// The stored viewport height.
    pub fn height(&self) -> (h: u32)
        ensures
            h == self.height_spec(),
    {
        self.height
    }

    /// The vertical field of view, in fixed-point radians.
    pub fn fovy(&self) -> (f: i64)
        ensures
            f == self.fovy_spec(),
    {
        self.fovy
    }

    /// The near clip distance.
    pub fn znear(&self) -> (n: i64)
        ensures
            n == self.znear_spec(),
    {
        self.znear
    }

    /// The far clip distance.
    pub fn zfar(&self) -> (f: i64)
        ensures
            f == self.zfar_spec(),
    {
        self.zfar
    }

    /// The parameters as one plain record.
    pub open spec fn params_spec(self) -> ProjectionParams {
        ProjectionParams {
            width: self.width_spec(),
            height: self.height_spec(),
            fovy: self.fovy_spec(),
            znear: self.znear_spec(),
            zfar: self.zfar_spec(),
        }
    }

    /// Snapshots the parameters for the camera uniform.
    pub fn snapshot(&self) -> (p: ProjectionParams)
        ensures
            p == self.params_spec(),
    {
        ProjectionParams {
            width: self.width,
            height: self.height,
            fovy: self.fovy,
            znear: self.znear,
            zfar: self.zfar,
        }
    }
}

/// The composed projection maps the frustum onto the unit depth
/// interval.  A symmetric-frustum perspective projection takes a point
/// at forward distance `d` to clip coordinates with `z = -(zfar +
/// znear) / (zfar - znear) * (-d) - 2 zfar znear / (zfar - znear)` and
/// `w = d`; the fixed convention matrix then replaces `z` with
/// `z / 2 + w / 2`, so the depth after the perspective divide is `zfar
/// (d - znear) / (d (zfar - znear))`.  For `znear <= d <= zfar` that
/// fraction lies within `[0, 1]`: its numerator is non-negative and
/// never exceeds its positive denominator.
pub proof fn lemma_projection_depth_in_unit_interval(znear: int, zfar: int, d: int)
    requires
        0 < znear <= d <= zfar,
    ensures
        0 < d * (zfar - znear) || znear == zfar,
        0 <= zfar * (d - znear),
        zfar * (d - znear) <= d * (zfar - znear),
{
    assert(0 <= zfar * (d - znear)) by (nonlinear_arith)
        requires
            0 < znear <= d <= zfar,
    ;
    assert(zfar * (d - znear) <= d * (zfar - znear)) by (nonlinear_arith)
        requires
            0 < znear <= d <= zfar,
    ;
    if znear < zfar {
        assert(0 < d * (zfar - znear)) by (nonlinear_arith)
            requires
                0 < znear <= d <= zfar,
                znear < zfar,
        ;
    }
}

/// The unit-interval depth fact, stated over a projection's own
/// parameters: any forward distance inside its frustum maps to a
/// clip depth within `[0, 1]`.
pub proof fn lemma_projection_maps_frustum_to_unit_depth(p: Projection, d: int)
    requires
        p.wf(),
        p.znear_spec() as int <= d <= p.zfar_spec() as int,
    ensures
        0 < d * (p.zfar_spec() - p.znear_spec()) || p.znear_spec() == p.zfar_spec(),
        0 <= p.zfar_spec() * (d - p.znear_spec()),
        p.zfar_spec() * (d - p.znear_spec()) <= d * (p.zfar_spec() - p.znear_spec()),
{
    lemma_projection_depth_in_unit_interval(p.znear_spec() as int, p.zfar_spec() as int, d);
}

} // verus!
