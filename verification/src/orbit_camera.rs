//! The orbiting camera and its controller.
//!
//! The camera circles a fixed target: each update rebuilds the eye
//! from the target and a rotated direction of the same length, so the
//! orbit cannot drift; pan and zoom then translate the eye.  The
//! rotation speed scales with the orbit radius, which keeps the
//! apparent sensitivity constant at any zoom.

use vstd::prelude::*;

use crate::camera::{scroll_amount, KeyCode, ScrollDelta};
use crate::fx::{
    fx_div_trunc, fx_mul, mul_fx, sqrt_floor, FX_BOUND, FX_DT_BOUND, FX_INPUT_BOUND, FX_ONE,
};
use crate::vec3::{lemma_component_le_mag, Vec3};

verus! {

/// The orbit world bound: half the geometric bound, so that the
/// difference of two positions stays within it.
pub const ORBIT_BOUND: i64 = 536870912;

/// The default movement speed, four units per second.
pub const ORBIT_DEFAULT_SPEED: i64 = 262144;

/// The default rotation sensitivity, a twentieth.
pub const ORBIT_DEFAULT_SENSITIVITY: i64 = 3277;

/// An observer circling a fixed target.
#[derive(Clone, Copy, Debug, PartialEq, Eq, Structural)]
pub struct OrbitCamera {
    pub eye: Vec3,
    pub target: Vec3,
    pub up: Vec3,
}

impl OrbitCamera {
    /// Eye and target stay inside the orbit world; up is the fixed
    /// vertical unit.
    pub open spec fn wf(self) -> bool {
        &&& self.eye.bounded(ORBIT_BOUND as int)
        &&& self.target.bounded(ORBIT_BOUND as int)
        &&& self.up == (Vec3 { x: 0i64, y: FX_ONE, z: 0i64 })
    }

    /// A camera at the given eye looking at the world origin.
    pub fn new(eye: Vec3) -> (c: OrbitCamera)
        requires
            eye.bounded(ORBIT_BOUND as int),
        ensures
            c.eye == eye,
            c.target == (Vec3 { x: 0i64, y: 0i64, z: 0i64 }),
            c.up == (Vec3 { x: 0i64, y: FX_ONE, z: 0i64 }),
            c.wf(),
    {
        OrbitCamera { eye, target: Vec3::zero(), up: Vec3::unit_y_fx() }
    }

    /// Same fixed default orientation as `new`.
    pub fn from_position(position: Vec3) -> (c: OrbitCamera)
        requires
            position.bounded(ORBIT_BOUND as int),
        ensures
            c.eye == position,
            c.target == (Vec3 { x: 0i64, y: 0i64, z: 0i64 }),
            c.wf(),
    {
        OrbitCamera::new(position)
    }

    /// The current eye position.
    pub fn get_position(&self) -> (p: Vec3)
        ensures
            p == self.eye,
    {
        self.eye
    }
}

/// Accumulated movement intents, pending rotation and scroll deltas,
/// and the integration gains.
#[derive(Clone, Copy, Debug, PartialEq, Eq, Structural)]
pub struct OrbitCameraController {
    pub amount_left: i64,
    pub amount_right: i64,
    pub amount_forward: i64,
    pub amount_backward: i64,
    pub amount_up: i64,
    pub amount_down: i64,
    pub rotate_horizontal: i64,
    pub rotate_vertical: i64,
    pub scroll: i64,
    pub speed: i64,
    pub sensitivity: i64,
}

/// The eye one orbit update step produces.  When the eye sits on the
/// target, or the rotated direction degenerates to zero, the
/// corresponding step leaves the eye where it was; otherwise the eye
/// is rebuilt from the target at the old radius along the rotated
/// direction, then panned and zoomed, and finally clamped into the
/// orbit world.
pub open spec fn orbit_new_eye(c: OrbitCameraController, cam: OrbitCamera, dt: i64) -> Vec3 {
    let forward = cam.target.sub_spec(cam.eye);
    let mag = sqrt_floor(forward.norm_sq_spec());
    if mag <= 0 {
        cam.eye
    } else {
        let fnorm = Vec3 {
            x: fx_div_trunc((forward.x as int) * (FX_ONE as int), mag) as i64,
            y: fx_div_trunc((forward.y as int) * (FX_ONE as int), mag) as i64,
            z: fx_div_trunc((forward.z as int) * (FX_ONE as int), mag) as i64,
        };
        let right = Vec3 {
            x: fx_div_trunc(fnorm.cross_spec(cam.up).x as int, FX_ONE as int) as i64,
            y: fx_div_trunc(fnorm.cross_spec(cam.up).y as int, FX_ONE as int) as i64,
            z: fx_div_trunc(fnorm.cross_spec(cam.up).z as int, FX_ONE as int) as i64,
        };
        let rotation_speed = fx_mul(c.sensitivity as int, mag) as i64;
        let t_inner = right.scale_fx_spec(c.rotate_horizontal).sub_spec(
            cam.up.scale_fx_spec(c.rotate_vertical),
        );
        let rotation_vector = forward.add_spec(t_inner.scale_fx_spec(rotation_speed));
        let rv_mag = sqrt_floor(rotation_vector.norm_sq_spec());
        let rotated_eye = if rv_mag <= 0 {
            cam.eye
        } else {
            cam.target.sub_spec(
                Vec3 {
                    x: fx_div_trunc((rotation_vector.x as int) * mag, rv_mag) as i64,
                    y: fx_div_trunc((rotation_vector.y as int) * mag, rv_mag) as i64,
                    z: fx_div_trunc((rotation_vector.z as int) * mag, rv_mag) as i64,
                },
            )
        };
        let cf = fx_mul(fx_mul(c.amount_forward - c.amount_backward, c.speed as int), dt as int);
        let cr = fx_mul(fx_mul(c.amount_right - c.amount_left, c.speed as int), dt as int);
        let panned = rotated_eye.add_spec(forward.scale_fx_spec(cf as i64)).add_spec(
            right.scale_fx_spec(cr as i64),
        ).add_spec(fnorm.scale_fx_spec(c.scroll));
        panned.clamp_spec(ORBIT_BOUND as int)
    }
}

impl OrbitCameraController {
    /// Intents are unit scalars, pending deltas and gains are bounded.
    pub open spec fn wf(self) -> bool {
        &&& 0 <= self.amount_left <= FX_ONE
        &&& 0 <= self.amount_right <= FX_ONE
        &&& 0 <= self.amount_forward <= FX_ONE
        &&& 0 <= self.amount_backward <= FX_ONE
        &&& 0 <= self.amount_up <= FX_ONE
        &&& 0 <= self.amount_down <= FX_ONE
        &&& -FX_INPUT_BOUND <= self.rotate_horizontal <= FX_INPUT_BOUND
        &&& -FX_INPUT_BOUND <= self.rotate_vertical <= FX_INPUT_BOUND
        &&& -FX_INPUT_BOUND <= self.scroll <= FX_INPUT_BOUND
        &&& 0 < self.speed <= FX_INPUT_BOUND
        &&& 0 < self.sensitivity <= FX_INPUT_BOUND
    }

    /// A controller with no pending input and the given gains.
    pub fn new(speed: i64, sensitivity: i64) -> (c: OrbitCameraController)
        requires
            0 < speed <= FX_INPUT_BOUND,
            0 < sensitivity <= FX_INPUT_BOUND,
        ensures
            c == (OrbitCameraController {
                amount_left: 0i64,
                amount_right: 0i64,
                amount_forward: 0i64,
                amount_backward: 0i64,
                amount_up: 0i64,
                amount_down: 0i64,
                rotate_horizontal: 0i64,
                rotate_vertical: 0i64,
                scroll: 0i64,
                speed,
                sensitivity,
            }),
            c.wf(),
    {
        OrbitCameraController {
            amount_left: 0,
            amount_right: 0,
            amount_forward: 0,
            amount_backward: 0,
            amount_up: 0,
            amount_down: 0,
            rotate_horizontal: 0,
            rotate_vertical: 0,
            scroll: 0,
            speed,
            sensitivity,
        }
    }

    /// The default gains: four units per second, sensitivity one
    /// twentieth.
    pub fn default() -> (c: OrbitCameraController)
        ensures
            c.wf(),
            c.speed == ORBIT_DEFAULT_SPEED,
            c.sensitivity == ORBIT_DEFAULT_SENSITIVITY,
            c.rotate_horizontal == 0,
            c.rotate_vertical == 0,
            c.scroll == 0,
            c.amount_forward == 0,
            c.amount_backward == 0,
            c.amount_left == 0,
            c.amount_right == 0,
            c.amount_up == 0,
            c.amount_down == 0,
    {
        OrbitCameraController::new(ORBIT_DEFAULT_SPEED, ORBIT_DEFAULT_SENSITIVITY)
    }

    /// Maps the fixed key set to intent scalars, exactly as the
    /// first-person controller does.
    pub fn process_keyboard(&mut self, key: KeyCode, pressed: bool) -> (recognized: bool)
        ensures
            recognized == crate::fps_camera::fps_key_recognized(key),
            *final(self) == orbit_keyed(*old(self), key, pressed),
            old(self).wf() ==> final(self).wf(),
    {
        let amount: i64 = if pressed {
            FX_ONE
        } else {
            0
        };

        match key {
            KeyCode::W | KeyCode::Up => {
                self.amount_forward = amount;
                true
            },
            KeyCode::S | KeyCode::Down => {
                self.amount_backward = amount;
                true
            },
            KeyCode::A | KeyCode::Left => {
                self.amount_left = amount;
                true
            },
            KeyCode::D | KeyCode::Right => {
                self.amount_right = amount;
                true
            },
            KeyCode::Space => {
                self.amount_up = amount;
                true
            },
            KeyCode::LShift => {
                self.amount_down = amount;
                true
            },
            KeyCode::L | KeyCode::R | KeyCode::Other => false,
        }
    }

    /// Stores the latest pointer deltas as the pending rotation input,
    /// overwriting whatever was pending.
    pub fn process_mouse(&mut self, mouse_dx: i64, mouse_dy: i64)
        requires
            -FX_INPUT_BOUND <= mouse_dx <= FX_INPUT_BOUND,
            -FX_INPUT_BOUND <= mouse_dy <= FX_INPUT_BOUND,
        ensures
            *final(self) == (OrbitCameraController {
                rotate_horizontal: mouse_dx,
                rotate_vertical: mouse_dy,
                ..*old(self)
            }),
            old(self).wf() ==> final(self).wf(),
    {
        self.rotate_horizontal = mouse_dx;
        self.rotate_vertical = mouse_dy;
    }

    /// Normalizes a scroll event into the pending zoom scalar.
    pub fn process_scroll(&mut self, delta: &ScrollDelta)
        requires
            delta.bounded(),
        ensures
            *final(self) == (OrbitCameraController {
                scroll: scroll_amount(*delta) as i64,
                ..*old(self)
            }),
            old(self).wf() ==> final(self).wf(),
    {
        self.scroll = crate::camera::normalize_scroll(delta);
    }

    /// One frame's orbit step: rebuild the eye from the fixed target
    /// along the rotated direction at the unchanged radius, pan by the
    /// intents, zoom by the pending scroll along the view direction,
    /// and consume the pending deltas.
    pub fn update_camera(&mut self, camera: &mut OrbitCamera, dt: i64)
        requires
            old(self).wf(),
            old(camera).wf(),
            0 <= dt <= FX_DT_BOUND,
        ensures
            final(camera).eye == orbit_new_eye(*old(self), *old(camera), dt),
            final(camera).target == old(camera).target,
            final(camera).up == old(camera).up,
            *final(self) == (OrbitCameraController {
                rotate_horizontal: 0i64,
                rotate_vertical: 0i64,
                scroll: 0i64,
                ..*old(self)
            }),
            final(self).wf(),
            final(camera).wf(),
    {
        let forward = camera.target.sub(camera.eye);
        let forward_mag = forward.magnitude_fx();
        if forward_mag > 0 {
            proof {
                lemma_component_le_mag(forward, forward_mag as int);
                lemma_orbit_bounds(*old(self), forward, forward_mag, dt);
                lemma_norm_unit_bound(forward, forward_mag as int);
            }
            let forward_norm = forward.scale_num_div(FX_ONE, forward_mag);
            proof {
                assert(forward_norm.bounded(FX_ONE as int));
                crate::vec3::lemma_cross_bounded(
                    forward_norm,
                    camera.up,
                    FX_ONE as int,
                    FX_ONE as int,
                );
                crate::fx::lemma_div_trunc_bound(
                    forward_norm.cross_spec(camera.up).x as int,
                    FX_ONE as int,
                    0x2_0000_0000,
                );
                crate::fx::lemma_div_trunc_bound(
                    forward_norm.cross_spec(camera.up).y as int,
                    FX_ONE as int,
                    0x2_0000_0000,
                );
                crate::fx::lemma_div_trunc_bound(
                    forward_norm.cross_spec(camera.up).z as int,
                    FX_ONE as int,
                    0x2_0000_0000,
                );
            }
            let right = forward_norm.cross(camera.up).div_trunc(FX_ONE);
            let rotation_speed = mul_fx(self.sensitivity, forward_mag);
            proof {
                assert(right.bounded(0x2_0000));
                crate::vec3::lemma_scale_fx_bounded(
                    right,
                    self.rotate_horizontal,
                    0x2_0000,
                    FX_INPUT_BOUND as int,
                );
                crate::vec3::lemma_scale_fx_bounded(
                    camera.up,
                    self.rotate_vertical,
                    FX_ONE as int,
                    FX_INPUT_BOUND as int,
                );
            }
            let t_inner = right.scale_fx(self.rotate_horizontal).sub(
                camera.up.scale_fx(self.rotate_vertical),
            );
            proof {
                assert(t_inner.bounded(0x1000_0000));
                crate::vec3::lemma_scale_fx_bounded(
                    t_inner,
                    rotation_speed,
                    0x1000_0000,
                    0x400_0000_0000,
                );
            }
            let t = t_inner.scale_fx(rotation_speed);
            let rotation_vector = forward.add(t);
            proof {
                assert(rotation_vector.bounded(0x100_0000_0000_0000));
            }
            let rv_mag = rotation_vector.magnitude_wide();
            if rv_mag > 0 {
                proof {
                    lemma_component_le_mag(rotation_vector, rv_mag as int);
                    lemma_reprojection_bounds(rotation_vector, forward_mag, rv_mag);
                }
                let offset = rotation_vector.scale_num_div(forward_mag, rv_mag);
                camera.eye = camera.target.sub(offset);
            }
            let cf = mul_fx(mul_fx(self.amount_forward - self.amount_backward, self.speed), dt);
            let cr = mul_fx(mul_fx(self.amount_right - self.amount_left, self.speed), dt);
            proof {
                assert(camera.eye.bounded(0x2_4000_0000));
                crate::vec3::lemma_scale_fx_bounded(
                    forward,
                    cf,
                    crate::fx::FX_BOUND as int,
                    0x40_0000_0000,
                );
                crate::vec3::lemma_scale_fx_bounded(right, cr, 0x2_0000, 0x40_0000_0000);
                crate::vec3::lemma_scale_fx_bounded(
                    forward_norm,
                    self.scroll,
                    FX_ONE as int,
                    FX_INPUT_BOUND as int,
                );
            }
            camera.eye = camera.eye.add(forward.scale_fx(cf));
            camera.eye = camera.eye.add(right.scale_fx(cr));
            camera.eye = camera.eye.add(forward_norm.scale_fx(self.scroll));
            camera.eye = camera.eye.clamped(ORBIT_BOUND);
        }
        self.rotate_horizontal = 0;
        self.rotate_vertical = 0;
        self.scroll = 0;
    }
}

/// The controller after one key event.
pub open spec fn orbit_keyed(
    c: OrbitCameraController,
    key: KeyCode,
    pressed: bool,
) -> OrbitCameraController {
    let amount: i64 = if pressed {
        FX_ONE
    } else {
        0i64
    };
    match key {
        KeyCode::W | KeyCode::Up => OrbitCameraController { amount_forward: amount, ..c },
        KeyCode::S | KeyCode::Down => OrbitCameraController { amount_backward: amount, ..c },
        KeyCode::A | KeyCode::Left => OrbitCameraController { amount_left: amount, ..c },
        KeyCode::D | KeyCode::Right => OrbitCameraController { amount_right: amount, ..c },
        KeyCode::Space => OrbitCameraController { amount_up: amount, ..c },
        KeyCode::LShift => OrbitCameraController { amount_down: amount, ..c },
        KeyCode::L | KeyCode::R | KeyCode::Other => c,
    }
}

/// The normalized direction's components stay within one unit.
proof fn lemma_norm_unit_bound(forward: Vec3, mag: int)
    requires
        mag >= 1,
        -mag <= forward.x as int <= mag,
        -mag <= forward.y as int <= mag,
        -mag <= forward.z as int <= mag,
    ensures
        -(FX_ONE as int) <= fx_div_trunc((forward.x as int) * (FX_ONE as int), mag) <= FX_ONE
            as int,
        -(FX_ONE as int) <= fx_div_trunc((forward.y as int) * (FX_ONE as int), mag) <= FX_ONE
            as int,
        -(FX_ONE as int) <= fx_div_trunc((forward.z as int) * (FX_ONE as int), mag) <= FX_ONE
            as int,
{
    assert(-(mag * (FX_ONE as int)) <= (forward.x as int) * (FX_ONE as int) <= mag * (
    FX_ONE as int) && -(mag * (FX_ONE as int)) <= (forward.y as int) * (FX_ONE as int) <= mag * (
    FX_ONE as int) && -(mag * (FX_ONE as int)) <= (forward.z as int) * (FX_ONE as int) <= mag * (
    FX_ONE as int)) by (nonlinear_arith)
        requires
            mag >= 1,
            -mag <= forward.x as int <= mag,
            -mag <= forward.y as int <= mag,
            -mag <= forward.z as int <= mag,
    ;
    crate::fx::lemma_div_trunc_bound(
        (forward.x as int) * (FX_ONE as int),
        mag,
        mag * (FX_ONE as int),
    );
    crate::fx::lemma_div_trunc_bound(
        (forward.y as int) * (FX_ONE as int),
        mag,
        mag * (FX_ONE as int),
    );
    crate::fx::lemma_div_trunc_bound(
        (forward.z as int) * (FX_ONE as int),
        mag,
        mag * (FX_ONE as int),
    );
    assert((mag * (FX_ONE as int)) / mag == FX_ONE as int) by (nonlinear_arith)
        requires
            mag >= 1,
    ;
}

/// The reprojected offset stays within twice the orbit radius.
proof fn lemma_reprojection_bounds(rv: Vec3, mag: i64, rv_mag: i64)
    requires
        1 <= rv_mag,
        -(rv_mag as int) <= rv.x as int <= rv_mag as int,
        -(rv_mag as int) <= rv.y as int <= rv_mag as int,
        -(rv_mag as int) <= rv.z as int <= rv_mag as int,
        0 <= mag,
    ensures
        -(mag as int) <= fx_div_trunc((rv.x as int) * (mag as int), rv_mag as int) <= mag as int,
        -(mag as int) <= fx_div_trunc((rv.y as int) * (mag as int), rv_mag as int) <= mag as int,
        -(mag as int) <= fx_div_trunc((rv.z as int) * (mag as int), rv_mag as int) <= mag as int,
{
    assert(-((rv_mag as int) * (mag as int)) <= (rv.x as int) * (mag as int) <= (rv_mag as int) * (
    mag as int) && -((rv_mag as int) * (mag as int)) <= (rv.y as int) * (mag as int) <= (
    rv_mag as int) * (mag as int) && -((rv_mag as int) * (mag as int)) <= (rv.z as int) * (
    mag as int) <= (rv_mag as int) * (mag as int)) by (nonlinear_arith)
        requires
            1 <= rv_mag,
            0 <= mag,
            -(rv_mag as int) <= rv.x as int <= rv_mag as int,
            -(rv_mag as int) <= rv.y as int <= rv_mag as int,
            -(rv_mag as int) <= rv.z as int <= rv_mag as int,
    ;
    crate::fx::lemma_div_trunc_bound(
        (rv.x as int) * (mag as int),
        rv_mag as int,
        (rv_mag as int) * (mag as int),
    );
    crate::fx::lemma_div_trunc_bound(
        (rv.y as int) * (mag as int),
        rv_mag as int,
        (rv_mag as int) * (mag as int),
    );
    crate::fx::lemma_div_trunc_bound(
        (rv.z as int) * (mag as int),
        rv_mag as int,
        (rv_mag as int) * (mag as int),
    );
    assert(((rv_mag as int) * (mag as int)) / (rv_mag as int) == mag as int) by (nonlinear_arith)
        requires
            rv_mag as int >= 1,
            mag as int >= 0,
    ;
}

/// The intermediate products of one orbit update step stay far inside
/// the 64-bit range.
proof fn lemma_orbit_bounds(c: OrbitCameraController, forward: Vec3, mag: i64, dt: i64)
    requires
        c.wf(),
        0 <= dt <= FX_DT_BOUND,
        1 <= mag as int <= 0x1_0000_0000,
        forward.bounded(FX_BOUND as int),
    ensures
        0 <= fx_mul(c.sensitivity as int, mag as int) <= 0x400_0000_0000,
        -0x400_0000 <= fx_mul(c.amount_forward - c.amount_backward, c.speed as int)
            <= 0x400_0000,
        -0x40_0000_0000 <= fx_mul(
            fx_mul(c.amount_forward - c.amount_backward, c.speed as int),
            dt as int,
        ) <= 0x40_0000_0000,
        -0x400_0000 <= fx_mul(c.amount_right - c.amount_left, c.speed as int) <= 0x400_0000,
        -0x40_0000_0000 <= fx_mul(
            fx_mul(c.amount_right - c.amount_left, c.speed as int),
            dt as int,
        ) <= 0x40_0000_0000,
{
    crate::fx::lemma_fx_mul_bound(
        c.sensitivity as int,
        mag as int,
        FX_INPUT_BOUND as int,
        0x1_0000_0000,
    );
    assert(fx_mul(c.sensitivity as int, mag as int) >= 0) by {
        assert((c.sensitivity as int) * (mag as int) >= 0) by (nonlinear_arith)
            requires
                c.sensitivity as int > 0,
                mag as int >= 1,
        ;
    }
    crate::fx::lemma_fx_mul_bound(
        c.amount_forward - c.amount_backward,
        c.speed as int,
        FX_ONE as int,
        FX_INPUT_BOUND as int,
    );
    crate::fx::lemma_fx_mul_bound(
        fx_mul(c.amount_forward - c.amount_backward, c.speed as int),
        dt as int,
        0x400_0000,
        FX_DT_BOUND as int,
    );
    crate::fx::lemma_fx_mul_bound(
        c.amount_right - c.amount_left,
        c.speed as int,
        FX_ONE as int,
        FX_INPUT_BOUND as int,
    );
    crate::fx::lemma_fx_mul_bound(
        fx_mul(c.amount_right - c.amount_left, c.speed as int),
        dt as int,
        0x400_0000,
        FX_DT_BOUND as int,
    );
}


/// Pure rotation preserves the orbit radius.  One orbit step rebuilds
/// the eye as `target - v * mag / |v|`, where `v` is the rotated
/// direction and `mag` the old distance to the target.  Whenever the
/// squared length of `v` is an exact square (`|v| == m` with
/// `v . v == m * m`) and the three fixed-point divisions are exact,
/// the rebuilt offset has exactly the squared length `mag * mag`: the
/// eye stays at the old distance from the fixed target, whatever
/// rotation input produced `v`.  Truncation in the divisions is the
/// only deviation the executable step can introduce.
pub proof fn lemma_orbit_rotation_preserves_radius(
    vx: int,
    vy: int,
    vz: int,
    m: int,
    mag: int,
    ox: int,
    oy: int,
    oz: int,
)
    requires
        m >= 1,
        vx * vx + vy * vy + vz * vz == m * m,
        ox * m == vx * mag,
        oy * m == vy * mag,
        oz * m == vz * mag,
    ensures
        ox * ox + oy * oy + oz * oz == mag * mag,
{
    assert((ox * ox) * (m * m) == (vx * vx) * (mag * mag)) by (nonlinear_arith)
        requires
            ox * m == vx * mag,
    ;
    assert((oy * oy) * (m * m) == (vy * vy) * (mag * mag)) by (nonlinear_arith)
        requires
            oy * m == vy * mag,
    ;
    assert((oz * oz) * (m * m) == (vz * vz) * (mag * mag)) by (nonlinear_arith)
        requires
            oz * m == vz * mag,
    ;
    assert((vx * vx) * (mag * mag) + (vy * vy) * (mag * mag) + (vz * vz) * (mag * mag) == (m * m)
        * (mag * mag)) by (nonlinear_arith)
        requires
            vx * vx + vy * vy + vz * vz == m * m,
    ;
    assert((ox * ox + oy * oy + oz * oz) * (m * m) == (ox * ox) * (m * m) + (oy * oy) * (m * m) + (
    oz * oz) * (m * m)) by (nonlinear_arith);
    assert((mag * mag) * (m * m) == (m * m) * (mag * mag)) by (nonlinear_arith);
    assert(m * m >= 1) by (nonlinear_arith)
        requires
            m >= 1,
    ;
    lemma_cancel_factor(ox * ox + oy * oy + oz * oz, mag * mag, m * m);
}

/// Cancels a positive common factor from an equation.
proof fn lemma_cancel_factor(a: int, b: int, k: int)
    requires
        k >= 1,
        a * k == b * k,
    ensures
        a == b,
{
    assert(a == b) by (nonlinear_arith)
        requires
            k >= 1,
            a * k == b * k,
    ;
}

} // verus!
