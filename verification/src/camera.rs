//! Shared camera infrastructure: the logical input alphabet the
//! controllers consume, scroll normalization, and the rig that binds a
//! camera variant to its matching controller.

use vstd::prelude::*;

use crate::fps_camera::{
    fps_key_recognized, fps_keyed, fps_new_pitch, fps_new_position, fps_new_yaw, FPSCamera,
    FPSCameraController, FPS_DEFAULT_PITCH, FPS_DEFAULT_SENSITIVITY, FPS_DEFAULT_SPEED,
    FPS_DEFAULT_YAW,
};
use crate::fx::{fx_mul, mul_fx, FX_DT_BOUND, FX_INPUT_BOUND};
use crate::orbit_camera::{
    orbit_keyed, orbit_new_eye, OrbitCamera, OrbitCameraController, ORBIT_DEFAULT_SENSITIVITY,
    ORBIT_DEFAULT_SPEED,
};
use crate::projection::{Projection, ProjectionParams};
use crate::vec3::Vec3;

verus! {

/// The factor applied to line-based scroll deltas: minus one tenth.
pub const LINE_SCROLL_FACTOR: i64 = -6554;

/// The logical keys the controllers understand; anything else is
/// `Other` and is a no-op.
#[derive(Clone, Copy, Debug, PartialEq, Eq, Structural)]
pub enum KeyCode {
    W,
    A,
    S,
    D,
    Up,
    Down,
    Left,
    Right,
    Space,
    LShift,
    L,
    R,
    Other,
}

/// A scroll event: line-based or pixel-based, in fixed-point units.
#[derive(Clone, Copy, Debug, PartialEq, Eq, Structural)]
pub enum ScrollDelta {
    LineDelta(i64),
    PixelDelta(i64),
}

impl ScrollDelta {
    /// The event's scalar stays within the raw input bound.
    pub open spec fn bounded(self) -> bool {
        match self {
            ScrollDelta::LineDelta(l) => -FX_INPUT_BOUND <= l <= FX_INPUT_BOUND,
            ScrollDelta::PixelDelta(p) => -FX_INPUT_BOUND <= p <= FX_INPUT_BOUND,
        }
    }
}

/// The normalized zoom scalar of a scroll event.
pub open spec fn scroll_amount(delta: ScrollDelta) -> int {
    match delta {
        ScrollDelta::LineDelta(l) => fx_mul(l as int, LINE_SCROLL_FACTOR as int),
        ScrollDelta::PixelDelta(p) => p as int,
    }
}

/// Normalizes a scroll event into one signed scalar: line deltas are
/// scaled by a small negative constant, pixel deltas pass through.
pub fn normalize_scroll(delta: &ScrollDelta) -> (s: i64)
    requires
        delta.bounded(),
    ensures
        s as int == scroll_amount(*delta),
        -FX_INPUT_BOUND <= s <= FX_INPUT_BOUND,
{
    match delta {
        ScrollDelta::LineDelta(l) => {
            proof {
                crate::fx::lemma_fx_mul_bound(
                    *l as int,
                    LINE_SCROLL_FACTOR as int,
                    FX_INPUT_BOUND as int,
                    6554,
                );
            }
            mul_fx(*l, LINE_SCROLL_FACTOR)
        },
        ScrollDelta::PixelDelta(p) => *p,
    }
}


/// A navigable observer: one of the two camera variants.
#[derive(Clone, Copy, Debug, PartialEq, Eq, Structural)]
pub enum Camera {
    FPS(FPSCamera),
    Orbit(OrbitCamera),
}

impl Camera {
    /// The variant's own well-formedness.
    pub open spec fn wf(self) -> bool {
        match self {
            Camera::FPS(c) => c.wf(),
            Camera::Orbit(c) => c.wf(),
        }
    }

    /// The current eye position.
    pub open spec fn position_spec(self) -> Vec3 {
        match self {
            Camera::FPS(c) => c.position,
            Camera::Orbit(c) => c.eye,
        }
    }

    /// The current eye position, for shading and the camera uniform.
    pub fn get_position(&self) -> (p: Vec3)
        ensures
            p == self.position_spec(),
    {
        match self {
            Camera::FPS(c) => c.get_position(),
            Camera::Orbit(c) => c.get_position(),
        }
    }
}

/// The controller matching one of the two camera variants.
#[derive(Clone, Copy, Debug, PartialEq, Eq, Structural)]
pub enum CameraController {
    FPS(FPSCameraController),
    Orbit(OrbitCameraController),
}

impl CameraController {
    /// The variant's own well-formedness.
    pub open spec fn wf(self) -> bool {
        match self {
            CameraController::FPS(c) => c.wf(),
            CameraController::Orbit(c) => c.wf(),
        }
    }
}

/// The controller after one key event.
pub open spec fn controller_keyed(
    c: CameraController,
    key: KeyCode,
    pressed: bool,
) -> CameraController {
    match c {
        CameraController::FPS(c) => CameraController::FPS(fps_keyed(c, key, pressed)),
        CameraController::Orbit(c) => CameraController::Orbit(orbit_keyed(c, key, pressed)),
    }
}

/// The controller after one pointer event: the deltas overwrite
/// whatever was pending.
pub open spec fn controller_moused(c: CameraController, dx: i64, dy: i64) -> CameraController {
    match c {
        CameraController::FPS(c) => CameraController::FPS(
            FPSCameraController { rotate_horizontal: dx, rotate_vertical: dy, ..c },
        ),
        CameraController::Orbit(c) => CameraController::Orbit(
            OrbitCameraController { rotate_horizontal: dx, rotate_vertical: dy, ..c },
        ),
    }
}

/// The controller after one scroll event.
pub open spec fn controller_scrolled(c: CameraController, delta: ScrollDelta) -> CameraController {
    match c {
        CameraController::FPS(c) => CameraController::FPS(
            FPSCameraController { scroll: scroll_amount(delta) as i64, ..c },
        ),
        CameraController::Orbit(c) => CameraController::Orbit(
            OrbitCameraController { scroll: scroll_amount(delta) as i64, ..c },
        ),
    }
}

/// The controller after one update: the pending deltas are consumed.
pub open spec fn controller_consumed(c: CameraController) -> CameraController {
    match c {
        CameraController::FPS(c) => CameraController::FPS(
            FPSCameraController {
                rotate_horizontal: 0i64,
                rotate_vertical: 0i64,
                scroll: 0i64,
                ..c
            },
        ),
        CameraController::Orbit(c) => CameraController::Orbit(
            OrbitCameraController {
                rotate_horizontal: 0i64,
                rotate_vertical: 0i64,
                scroll: 0i64,
                ..c
            },
        ),
    }
}

/// The camera after one update by its matching controller.
pub open spec fn camera_updated(ctl: CameraController, cam: Camera, dt: i64) -> Camera {
    match (ctl, cam) {
        (CameraController::FPS(c), Camera::FPS(m)) => Camera::FPS(
            FPSCamera {
                position: fps_new_position(c, m, dt),
                yaw: fps_new_yaw(c, m, dt) as i64,
                pitch: fps_new_pitch(c, m, dt) as i64,
            },
        ),
        (CameraController::Orbit(c), Camera::Orbit(m)) => Camera::Orbit(
            OrbitCamera { eye: orbit_new_eye(c, m, dt), ..m },
        ),
        _ => cam,
    }
}

/// Binds one camera with its matching controller: the only unit
/// through which navigation state reaches the renderer.
pub struct CameraRig {
    pub camera: Camera,
    pub controller: CameraController,
}

impl CameraRig {
    /// The variants match and both halves are well-formed.
    pub open spec fn wf(self) -> bool {
        &&& match (self.camera, self.controller) {
            (Camera::FPS(_), CameraController::FPS(_)) => true,
            (Camera::Orbit(_), CameraController::Orbit(_)) => true,
            _ => false,
        }
        &&& self.camera.wf()
        &&& self.controller.wf()
    }

    /// A first-person rig at the given position: the camera in its
    /// fixed default orientation, the controller with default gains
    /// and no pending input.
    pub fn new_first_person(position: Vec3) -> (r: CameraRig)
        requires
            position.bounded(crate::fx::FX_BOUND as int),
        ensures
            r.wf(),
            r.camera == Camera::FPS(
                FPSCamera { position, yaw: FPS_DEFAULT_YAW, pitch: FPS_DEFAULT_PITCH },
            ),
            r.controller == CameraController::FPS(
                FPSCameraController {
                    amount_left: 0i64,
                    amount_right: 0i64,
                    amount_forward: 0i64,
                    amount_backward: 0i64,
                    amount_up: 0i64,
                    amount_down: 0i64,
                    rotate_horizontal: 0i64,
                    rotate_vertical: 0i64,
                    scroll: 0i64,
                    speed: FPS_DEFAULT_SPEED,
                    sensitivity: FPS_DEFAULT_SENSITIVITY,
                },
            ),
            r.camera.position_spec() == position,
    {
        CameraRig {
            camera: Camera::FPS(FPSCamera::from_position(position)),
            controller: CameraController::FPS(FPSCameraController::default()),
        }
    }

    /// An orbit rig at the given position looking at the world origin,
    /// the controller with default gains and no pending input.
    pub fn new_orbit(position: Vec3) -> (r: CameraRig)
        requires
            position.bounded(crate::orbit_camera::ORBIT_BOUND as int),
        ensures
            r.wf(),
            r.camera == Camera::Orbit(
                OrbitCamera {
                    eye: position,
                    target: Vec3 { x: 0i64, y: 0i64, z: 0i64 },
                    up: Vec3 { x: 0i64, y: crate::fx::FX_ONE, z: 0i64 },
                },
            ),
            r.controller == CameraController::Orbit(
                OrbitCameraController {
                    amount_left: 0i64,
                    amount_right: 0i64,
                    amount_forward: 0i64,
                    amount_backward: 0i64,
                    amount_up: 0i64,
                    amount_down: 0i64,
                    rotate_horizontal: 0i64,
                    rotate_vertical: 0i64,
                    scroll: 0i64,
                    speed: ORBIT_DEFAULT_SPEED,
                    sensitivity: ORBIT_DEFAULT_SENSITIVITY,
                },
            ),
            r.camera.position_spec() == position,
    {
        CameraRig {
            camera: Camera::Orbit(OrbitCamera::from_position(position)),
            controller: CameraController::Orbit(OrbitCameraController::default()),
        }
    }

    /// Routes a key event to the controller; unrecognized keys change
    /// nothing and report false.
    pub fn process_keyboard(&mut self, key: KeyCode, pressed: bool) -> (recognized: bool)
        ensures
            recognized == fps_key_recognized(key),
            final(self).camera == old(self).camera,
            final(self).controller == controller_keyed(old(self).controller, key, pressed),
            old(self).wf() ==> final(self).wf(),
    {
        match &mut self.controller {
            CameraController::FPS(c) => c.process_keyboard(key, pressed),
            CameraController::Orbit(c) => c.process_keyboard(key, pressed),
        }
    }

    /// Routes a pointer event to the controller.
    pub fn process_mouse(&mut self, mouse_dx: i64, mouse_dy: i64)
        requires
            -FX_INPUT_BOUND <= mouse_dx <= FX_INPUT_BOUND,
            -FX_INPUT_BOUND <= mouse_dy <= FX_INPUT_BOUND,
        ensures
            final(self).camera == old(self).camera,
            final(self).controller == controller_moused(old(self).controller, mouse_dx, mouse_dy),
            old(self).wf() ==> final(self).wf(),
    {
        match &mut self.controller {
            CameraController::FPS(c) => c.process_mouse(mouse_dx, mouse_dy),
            CameraController::Orbit(c) => c.process_mouse(mouse_dx, mouse_dy),
        }
    }

    /// Routes a scroll event to the controller.
    pub fn process_scroll(&mut self, delta: &ScrollDelta)
        requires
            delta.bounded(),
        ensures
            final(self).camera == old(self).camera,
            final(self).controller == controller_scrolled(old(self).controller, *delta),
            old(self).wf() ==> final(self).wf(),
    {
        match &mut self.controller {
            CameraController::FPS(c) => c.process_scroll(delta),
            CameraController::Orbit(c) => c.process_scroll(delta),
        }
    }

    /// One frame's integration step: the controller advances its
    /// matching camera and consumes its pending deltas.
    pub fn update_camera(&mut self, dt: i64)
        requires
            old(self).wf(),
            0 <= dt <= FX_DT_BOUND,
        ensures
            final(self).camera == camera_updated(old(self).controller, old(self).camera, dt),
            final(self).controller == controller_consumed(old(self).controller),
            final(self).wf(),
    {
        match (&mut self.controller, &mut self.camera) {
            (CameraController::FPS(c), Camera::FPS(m)) => c.update_camera(m, dt),
            (CameraController::Orbit(c), Camera::Orbit(m)) => c.update_camera(m, dt),
            (CameraController::FPS(_), Camera::Orbit(_)) => (),
            (CameraController::Orbit(_), Camera::FPS(_)) => (),
        }
    }
}


/// What the view-projection matrix is a function of: nothing yet, or
/// a camera pose composed with projection parameters.
#[derive(Clone, Copy, Debug, PartialEq, Eq, Structural)]
pub enum ViewProj {
    Identity,
    Composed { camera: Camera, projection: ProjectionParams },
}

/// The GPU-mirrored camera record: the camera's homogeneous position
/// and the data its view-projection matrix is derived from.
/// Recomputed every frame; never mutated directly.
#[derive(Clone, Copy, Debug, PartialEq, Eq, Structural)]
pub struct CameraUniform {
    pub view_position: Vec3,
    pub view_proj: ViewProj,
}

impl CameraUniform {
    /// The record before any camera is bound: origin position,
    /// identity view-projection.
    pub fn new() -> (u: CameraUniform)
        ensures
            u.view_position == (Vec3 { x: 0i64, y: 0i64, z: 0i64 }),
            u.view_proj == ViewProj::Identity,
    {
        CameraUniform { view_position: Vec3::zero(), view_proj: ViewProj::Identity }
    }

    /// Rebinds the record to the camera's position and the composition
    /// of the projection with the camera's view: the only place the
    /// two are combined.
    pub fn update_view_proj(&mut self, camera: &Camera, projection: &Projection)
        ensures
            final(self).view_position == camera.position_spec(),
            final(self).view_proj == (ViewProj::Composed {
                camera: *camera,
                projection: projection.params_spec(),
            }),
    {
        self.view_position = camera.get_position();
        self.view_proj = ViewProj::Composed { camera: *camera, projection: projection.snapshot() };
    }
}

} // verus!
