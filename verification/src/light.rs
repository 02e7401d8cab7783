//! The point light uniform.
//!
//! Position and color of the single point light.  The GPU-side record
//! pads each three-scalar block to a sixteen-byte stride; the shell's
//! plain-data copy carries that padding.

use vstd::prelude::*;

use crate::vec3::Vec3;

verus! {

/// The light's world bound: half the geometric bound, so one rotation
/// step cannot overflow.
pub const LIGHT_BOUND: i64 = 536870912;

/// Position and color of the scene's one point light.
#[derive(Clone, Copy, Debug, PartialEq, Eq, Structural)]
pub struct LightUniform {
    pub position: Vec3,
    pub color: Vec3,
}

} // verus!
