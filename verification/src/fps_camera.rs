//! The first-person camera and its controller.
//!
//! The camera holds a position and yaw/pitch angles in fixed-point
//! radians.  The controller accumulates movement intents and pending
//! rotation/scroll deltas and integrates them over one frame's elapsed
//! time; the update consumes the pending deltas, wraps yaw into the
//! principal range, and clamps pitch to a quarter turn either way so
//! the view can never flip over the vertical.

use vstd::prelude::*;

use crate::camera::{scroll_amount, KeyCode, ScrollDelta};
use crate::fx::{
    clamp_fx, cos_fx, cos_fx_spec, fx_clamp, fx_mul, mul_fx, reduce_angle, reduce_spec, sin_fx,
    sin_fx_spec, FX_BOUND, FX_DT_BOUND, FX_HALF_PI, FX_INPUT_BOUND, FX_ONE, FX_PI,
};
use crate::vec3::Vec3;

verus! {

/// The default yaw: a quarter turn to look down the negative z axis.
pub const FPS_DEFAULT_YAW: i64 = -102944;

/// The default pitch: a slight downward tilt, about twenty degrees.
pub const FPS_DEFAULT_PITCH: i64 = -22876;

/// The default movement speed, four units per second.
pub const FPS_DEFAULT_SPEED: i64 = 262144;

/// The default rotation sensitivity, four radians per unit delta and
/// second.
pub const FPS_DEFAULT_SENSITIVITY: i64 = 262144;

/// A free observer: position plus yaw and pitch in fixed-point
/// radians.
#[derive(Clone, Copy, Debug, PartialEq, Eq, Structural)]
pub struct FPSCamera {
    pub position: Vec3,
    pub yaw: i64,
    pub pitch: i64,
}

impl FPSCamera {
    /// The position stays inside the bounded world and the angles stay
    /// in their principal ranges.
    pub open spec fn wf(self) -> bool {
        &&& self.position.bounded(FX_BOUND as int)
        &&& -FX_PI <= self.yaw <= FX_PI
        &&& -FX_HALF_PI <= self.pitch <= FX_HALF_PI
    }

    pub fn new(position: Vec3, yaw: i64, pitch: i64) -> (c: FPSCamera)
        ensures
            c == (FPSCamera { position, yaw, pitch }),
    {
        FPSCamera { position, yaw, pitch }
    }

    /// A camera at the given position with the fixed default
    /// orientation: looking along negative z, tilted slightly down.
    pub fn from_position(position: Vec3) -> (c: FPSCamera)
        requires
            position.bounded(FX_BOUND as int),
        ensures
            c.position == position,
            c.yaw == FPS_DEFAULT_YAW,
            c.pitch == FPS_DEFAULT_PITCH,
            c.wf(),
    {
        FPSCamera { position, yaw: FPS_DEFAULT_YAW, pitch: FPS_DEFAULT_PITCH }
    }

    /// The current eye position.
    pub fn get_position(&self) -> (p: Vec3)
        ensures
            p == self.position,
    {
        self.position
    }
}

/// Accumulated movement intents, pending rotation and scroll deltas,
/// and the integration gains.
#[derive(Clone, Copy, Debug, PartialEq, Eq, Structural)]
pub struct FPSCameraController {
    pub amount_left: i64,
    pub amount_right: i64,
    pub amount_forward: i64,
    pub amount_backward: i64,
    pub amount_up: i64,
    pub amount_down: i64,
    pub rotate_horizontal: i64,
    pub rotate_vertical: i64,
    pub scroll: i64,
    pub speed: i64,
    pub sensitivity: i64,
}

/// The position one first-person update step produces: translate along
/// the yaw-derived forward/right basis and vertically by the intents,
/// along the pitch-weighted forward by the pending scroll, then clamp
/// into the bounded world.
pub open spec fn fps_new_position(c: FPSCameraController, cam: FPSCamera, dt: i64) -> Vec3 {
    let yaw_sin = sin_fx_spec(cam.yaw as int);
    let yaw_cos = cos_fx_spec(cam.yaw as int);
    let pitch_sin = sin_fx_spec(cam.pitch as int);
    let pitch_cos = cos_fx_spec(cam.pitch as int);
    let cf = fx_mul(fx_mul(c.amount_forward - c.amount_backward, c.speed as int), dt as int);
    let cr = fx_mul(fx_mul(c.amount_right - c.amount_left, c.speed as int), dt as int);
    let cs = fx_mul(
        fx_mul(fx_mul(c.scroll as int, c.speed as int), c.sensitivity as int),
        dt as int,
    );
    let cu = fx_mul(fx_mul(c.amount_up - c.amount_down, c.speed as int), dt as int);
    let px = cam.position.x + fx_mul(yaw_cos, cf) + fx_mul(-yaw_sin, cr) + fx_mul(
        fx_mul(pitch_cos, yaw_cos),
        cs,
    );
    let py = cam.position.y + fx_mul(pitch_sin, cs) + cu;
    let pz = cam.position.z + fx_mul(yaw_sin, cf) + fx_mul(yaw_cos, cr) + fx_mul(
        fx_mul(pitch_cos, yaw_sin),
        cs,
    );
    Vec3 {
        x: fx_clamp(px, -FX_BOUND as int, FX_BOUND as int) as i64,
        y: fx_clamp(py, -FX_BOUND as int, FX_BOUND as int) as i64,
        z: fx_clamp(pz, -FX_BOUND as int, FX_BOUND as int) as i64,
    }
}

/// The yaw one update step produces: integrate the pending horizontal
/// delta and wrap into the principal range.
pub open spec fn fps_new_yaw(c: FPSCameraController, cam: FPSCamera, dt: i64) -> int {
    reduce_spec(
        cam.yaw as int + fx_mul(
            fx_mul(c.rotate_horizontal as int, c.sensitivity as int),
            dt as int,
        ),
    )
}

/// The pitch one update step produces: integrate the pending vertical
/// delta, then clamp to a quarter turn either way.
pub open spec fn fps_new_pitch(c: FPSCameraController, cam: FPSCamera, dt: i64) -> int {
    fx_clamp(
        cam.pitch as int + fx_mul(
            fx_mul(-(c.rotate_vertical as int), c.sensitivity as int),
            dt as int,
        ),
        -FX_HALF_PI as int,
        FX_HALF_PI as int,
    )
}

impl FPSCameraController {
    /// Intents are unit scalars, pending deltas and gains are bounded.
    pub open spec fn wf(self) -> bool {
        &&& 0 <= self.amount_left <= FX_ONE
        &&& 0 <= self.amount_right <= FX_ONE
        &&& 0 <= self.amount_forward <= FX_ONE
        &&& 0 <= self.amount_backward <= FX_ONE
        &&& 0 <= self.amount_up <= FX_ONE
        &&& 0 <= self.amount_down <= FX_ONE
        &&& -FX_INPUT_BOUND <= self.rotate_horizontal <= FX_INPUT_BOUND
        &&& -FX_INPUT_BOUND <= self.rotate_vertical <= FX_INPUT_BOUND
        &&& -FX_INPUT_BOUND <= self.scroll <= FX_INPUT_BOUND
        &&& 0 < self.speed <= FX_INPUT_BOUND
        &&& 0 < self.sensitivity <= FX_INPUT_BOUND
    }

    /// A controller with no pending input and the given gains.
    pub fn new(speed: i64, sensitivity: i64) -> (c: FPSCameraController)
        requires
            0 < speed <= FX_INPUT_BOUND,
            0 < sensitivity <= FX_INPUT_BOUND,
        ensures
            c == (FPSCameraController {
                amount_left: 0i64,
                amount_right: 0i64,
                amount_forward: 0i64,
                amount_backward: 0i64,
                amount_up: 0i64,
                amount_down: 0i64,
                rotate_horizontal: 0i64,
                rotate_vertical: 0i64,
                scroll: 0i64,
                speed,
                sensitivity,
            }),
            c.wf(),
    {
        FPSCameraController {
            amount_left: 0,
            amount_right: 0,
            amount_forward: 0,
            amount_backward: 0,
            amount_up: 0,
            amount_down: 0,
            rotate_horizontal: 0,
            rotate_vertical: 0,
            scroll: 0,
            speed,
            sensitivity,
        }
    }

    /// The default gains: four units per second, sensitivity four.
    pub fn default() -> (c: FPSCameraController)
        ensures
            c.wf(),
            c.speed == FPS_DEFAULT_SPEED,
            c.sensitivity == FPS_DEFAULT_SENSITIVITY,
            c.rotate_horizontal == 0,
            c.rotate_vertical == 0,
            c.scroll == 0,
            c.amount_forward == 0,
            c.amount_backward == 0,
            c.amount_left == 0,
            c.amount_right == 0,
            c.amount_up == 0,
            c.amount_down == 0,
    {
        FPSCameraController::new(FPS_DEFAULT_SPEED, FPS_DEFAULT_SENSITIVITY)
    }

    /// Maps the fixed key set to intent scalars: a recognized key sets
    /// its intent to one on press and zero on release and returns true;
    /// any other key changes nothing and returns false.
    pub fn process_keyboard(&mut self, key: KeyCode, pressed: bool) -> (recognized: bool)
        ensures
            recognized == fps_key_recognized(key),
            *final(self) == fps_keyed(*old(self), key, pressed),
            old(self).wf() ==> final(self).wf(),
    {
        let amount: i64 = if pressed {
            FX_ONE
        } else {
            0
        };

        match key {
            KeyCode::W | KeyCode::Up => {
                self.amount_forward = amount;
                true
            },
            KeyCode::S | KeyCode::Down => {
                self.amount_backward = amount;
                true
            },
            KeyCode::A | KeyCode::Left => {
                self.amount_left = amount;
                true
            },
            KeyCode::D | KeyCode::Right => {
                self.amount_right = amount;
                true
            },
            KeyCode::Space => {
                self.amount_up = amount;
                true
            },
            KeyCode::LShift => {
                self.amount_down = amount;
                true
            },
            KeyCode::L | KeyCode::R | KeyCode::Other => false,
        }
    }

    /// Stores the latest pointer deltas as the pending rotation input,
    /// overwriting whatever was pending.
    pub fn process_mouse(&mut self, mouse_dx: i64, mouse_dy: i64)
        requires
            -FX_INPUT_BOUND <= mouse_dx <= FX_INPUT_BOUND,
            -FX_INPUT_BOUND <= mouse_dy <= FX_INPUT_BOUND,
        ensures
            *final(self) == (FPSCameraController {
                rotate_horizontal: mouse_dx,
                rotate_vertical: mouse_dy,
                ..*old(self)
            }),
            old(self).wf() ==> final(self).wf(),
    {
        self.rotate_horizontal = mouse_dx;
        self.rotate_vertical = mouse_dy;
    }

    /// Normalizes a scroll event into the pending zoom scalar: line
    /// deltas are scaled by a small negative constant, pixel deltas are
    /// taken as they are.
    pub fn process_scroll(&mut self, delta: &ScrollDelta)
        requires
            delta.bounded(),
        ensures
            *final(self) == (FPSCameraController {
                scroll: scroll_amount(*delta) as i64,
                ..*old(self)
            }),
            old(self).wf() ==> final(self).wf(),
    {
        self.scroll = crate::camera::normalize_scroll(delta);
    }

    /// One frame's integration step: translate the camera by the
    /// intents and the pending scroll, consume the pending deltas,
    /// wrap yaw, and clamp pitch to a quarter turn either way.  The
    /// pitch bound holds however large the pending deltas were.
    pub fn update_camera(&mut self, camera: &mut FPSCamera, dt: i64)
        requires
            old(self).wf(),
            old(camera).wf(),
            0 <= dt <= FX_DT_BOUND,
        ensures
            final(camera).position == fps_new_position(*old(self), *old(camera), dt),
            final(camera).yaw as int == fps_new_yaw(*old(self), *old(camera), dt),
            final(camera).pitch as int == fps_new_pitch(*old(self), *old(camera), dt),
            -FX_HALF_PI <= final(camera).pitch <= FX_HALF_PI,
            *final(self) == (FPSCameraController {
                rotate_horizontal: 0i64,
                rotate_vertical: 0i64,
                scroll: 0i64,
                ..*old(self)
            }),
            final(self).wf(),
            final(camera).wf(),
    {
        proof {
            lemma_fps_update_bounds(*old(self), *old(camera), dt);
        }
        let yaw_sin = sin_fx(camera.yaw);
        let yaw_cos = cos_fx(camera.yaw);
        let pitch_sin = sin_fx(camera.pitch);
        let pitch_cos = cos_fx(camera.pitch);

        let cf = mul_fx(mul_fx(self.amount_forward - self.amount_backward, self.speed), dt);
        let cr = mul_fx(mul_fx(self.amount_right - self.amount_left, self.speed), dt);
        let cs = mul_fx(mul_fx(mul_fx(self.scroll, self.speed), self.sensitivity), dt);
        let cu = mul_fx(mul_fx(self.amount_up - self.amount_down, self.speed), dt);

        proof {
            crate::fx::lemma_fx_mul_bound(
                yaw_cos as int,
                cf as int,
                FX_ONE as int,
                0x10_0000_0000_0000,
            );
            crate::fx::lemma_fx_mul_bound(
                -(yaw_sin as int),
                cr as int,
                FX_ONE as int,
                0x10_0000_0000_0000,
            );
            crate::fx::lemma_fx_mul_bound(
                yaw_sin as int,
                cf as int,
                FX_ONE as int,
                0x10_0000_0000_0000,
            );
            crate::fx::lemma_fx_mul_bound(
                yaw_cos as int,
                cr as int,
                FX_ONE as int,
                0x10_0000_0000_0000,
            );
            crate::fx::lemma_fx_mul_bound(
                pitch_cos as int,
                yaw_cos as int,
                FX_ONE as int,
                FX_ONE as int,
            );
            crate::fx::lemma_fx_mul_bound(
                pitch_cos as int,
                yaw_sin as int,
                FX_ONE as int,
                FX_ONE as int,
            );
            crate::fx::lemma_fx_mul_bound(
                fx_mul(pitch_cos as int, yaw_cos as int),
                cs as int,
                FX_ONE as int,
                0x4000_0000_0000_0000,
            );
            crate::fx::lemma_fx_mul_bound(
                fx_mul(pitch_cos as int, yaw_sin as int),
                cs as int,
                FX_ONE as int,
                0x4000_0000_0000_0000,
            );
            crate::fx::lemma_fx_mul_bound(
                pitch_sin as int,
                cs as int,
                FX_ONE as int,
                0x4000_0000_0000_0000,
            );
        }
        let px = camera.position.x + mul_fx(yaw_cos, cf) + mul_fx(-yaw_sin, cr) + mul_fx(
            mul_fx(pitch_cos, yaw_cos),
            cs,
        );
        let py = camera.position.y + mul_fx(pitch_sin, cs) + cu;
        let pz = camera.position.z + mul_fx(yaw_sin, cf) + mul_fx(yaw_cos, cr) + mul_fx(
            mul_fx(pitch_cos, yaw_sin),
            cs,
        );
        camera.position = Vec3 {
            x: clamp_fx(px, -FX_BOUND, FX_BOUND),
            y: clamp_fx(py, -FX_BOUND, FX_BOUND),
            z: clamp_fx(pz, -FX_BOUND, FX_BOUND),
        };
        self.scroll = 0;

        camera.yaw = reduce_angle(
            camera.yaw + mul_fx(mul_fx(self.rotate_horizontal, self.sensitivity), dt),
        );
        camera.pitch = clamp_fx(
            camera.pitch + mul_fx(mul_fx(-self.rotate_vertical, self.sensitivity), dt),
            -FX_HALF_PI,
            FX_HALF_PI,
        );
        self.rotate_horizontal = 0;
        self.rotate_vertical = 0;
    }
}

/// Whether the fixed key set recognizes a key.
pub open spec fn fps_key_recognized(key: KeyCode) -> bool {
    key != KeyCode::Other && key != KeyCode::L && key != KeyCode::R
}

/// The controller after one key event.
pub open spec fn fps_keyed(c: FPSCameraController, key: KeyCode, pressed: bool) -> FPSCameraController {
    let amount: i64 = if pressed {
        FX_ONE
    } else {
        0i64
    };
    match key {
        KeyCode::W | KeyCode::Up => FPSCameraController { amount_forward: amount, ..c },
        KeyCode::S | KeyCode::Down => FPSCameraController { amount_backward: amount, ..c },
        KeyCode::A | KeyCode::Left => FPSCameraController { amount_left: amount, ..c },
        KeyCode::D | KeyCode::Right => FPSCameraController { amount_right: amount, ..c },
        KeyCode::Space => FPSCameraController { amount_up: amount, ..c },
        KeyCode::LShift => FPSCameraController { amount_down: amount, ..c },
        KeyCode::L | KeyCode::R | KeyCode::Other => c,
    }
}

/// The intermediate products of one first-person update step stay far
/// inside the 64-bit range.
proof fn lemma_fps_update_bounds(c: FPSCameraController, cam: FPSCamera, dt: i64)
    requires
        c.wf(),
        cam.wf(),
        0 <= dt <= FX_DT_BOUND,
    ensures
        -0x40_0000_0000 <= fx_mul(c.amount_forward - c.amount_backward, c.speed as int)
            <= 0x40_0000_0000,
        -0x40_0000_0000 <= fx_mul(c.amount_right - c.amount_left, c.speed as int)
            <= 0x40_0000_0000,
        -0x40_0000_0000 <= fx_mul(c.amount_up - c.amount_down, c.speed as int) <= 0x40_0000_0000,
        -0x10_0000_0000_0000 <= fx_mul(
            fx_mul(c.amount_forward - c.amount_backward, c.speed as int),
            dt as int,
        ) <= 0x10_0000_0000_0000,
        -0x10_0000_0000_0000 <= fx_mul(
            fx_mul(c.amount_right - c.amount_left, c.speed as int),
            dt as int,
        ) <= 0x10_0000_0000_0000,
        -0x10_0000_0000_0000 <= fx_mul(
            fx_mul(c.amount_up - c.amount_down, c.speed as int),
            dt as int,
        ) <= 0x10_0000_0000_0000,
        -0x10_0000_0000 <= fx_mul(c.scroll as int, c.speed as int) <= 0x10_0000_0000,
        -0x4_0000_0000_0000 <= fx_mul(
            fx_mul(c.scroll as int, c.speed as int),
            c.sensitivity as int,
        ) <= 0x4_0000_0000_0000,
        -0x4000_0000_0000_0000 <= fx_mul(
            fx_mul(fx_mul(c.scroll as int, c.speed as int), c.sensitivity as int),
            dt as int,
        ) <= 0x4000_0000_0000_0000,
        -0x10_0000_0000 <= fx_mul(c.rotate_horizontal as int, c.sensitivity as int)
            <= 0x10_0000_0000,
        -0x4_0000_0000_0000 <= fx_mul(
            fx_mul(c.rotate_horizontal as int, c.sensitivity as int),
            dt as int,
        ) <= 0x4_0000_0000_0000,
        -0x10_0000_0000 <= fx_mul(-(c.rotate_vertical as int), c.sensitivity as int)
            <= 0x10_0000_0000,
        -0x4_0000_0000_0000 <= fx_mul(
            fx_mul(-(c.rotate_vertical as int), c.sensitivity as int),
            dt as int,
        ) <= 0x4_0000_0000_0000,
{
    crate::fx::lemma_fx_mul_bound(
        c.amount_forward - c.amount_backward,
        c.speed as int,
        FX_ONE as int,
        FX_INPUT_BOUND as int,
    );
    crate::fx::lemma_fx_mul_bound(
        fx_mul(c.amount_forward - c.amount_backward, c.speed as int),
        dt as int,
        0x40_0000_0000,
        FX_DT_BOUND as int,
    );
    crate::fx::lemma_fx_mul_bound(
        c.amount_right - c.amount_left,
        c.speed as int,
        FX_ONE as int,
        FX_INPUT_BOUND as int,
    );
    crate::fx::lemma_fx_mul_bound(
        fx_mul(c.amount_right - c.amount_left, c.speed as int),
        dt as int,
        0x40_0000_0000,
        FX_DT_BOUND as int,
    );
    crate::fx::lemma_fx_mul_bound(
        c.amount_up - c.amount_down,
        c.speed as int,
        FX_ONE as int,
        FX_INPUT_BOUND as int,
    );
    crate::fx::lemma_fx_mul_bound(
        fx_mul(c.amount_up - c.amount_down, c.speed as int),
        dt as int,
        0x40_0000_0000,
        FX_DT_BOUND as int,
    );
    crate::fx::lemma_fx_mul_bound(
        c.scroll as int,
        c.speed as int,
        FX_INPUT_BOUND as int,
        FX_INPUT_BOUND as int,
    );
    crate::fx::lemma_fx_mul_bound(
        fx_mul(c.scroll as int, c.speed as int),
        c.sensitivity as int,
        0x10_0000_0000,
        FX_INPUT_BOUND as int,
    );
    crate::fx::lemma_fx_mul_bound(
        fx_mul(fx_mul(c.scroll as int, c.speed as int), c.sensitivity as int),
        dt as int,
        0x4_0000_0000_0000,
        FX_DT_BOUND as int,
    );
    crate::fx::lemma_fx_mul_bound(
        c.rotate_horizontal as int,
        c.sensitivity as int,
        FX_INPUT_BOUND as int,
        FX_INPUT_BOUND as int,
    );
    crate::fx::lemma_fx_mul_bound(
        fx_mul(c.rotate_horizontal as int, c.sensitivity as int),
        dt as int,
        0x10_0000_0000,
        FX_DT_BOUND as int,
    );
    crate::fx::lemma_fx_mul_bound(
        -(c.rotate_vertical as int),
        c.sensitivity as int,
        FX_INPUT_BOUND as int,
        FX_INPUT_BOUND as int,
    );
    crate::fx::lemma_fx_mul_bound(
        fx_mul(-(c.rotate_vertical as int), c.sensitivity as int),
        dt as int,
        0x10_0000_0000,
        FX_DT_BOUND as int,
    );
}

} // verus!
