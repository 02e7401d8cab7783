//! The scene's session state and input dispatch.
//!
//! One frame loop drives this state strictly in order: input events
//! mutate the rig and the renderer toggles, the update step advances
//! the camera and the uniforms, and the render step composes the
//! frame plan the GPU shell executes.

use vstd::prelude::*;

use crate::camera::{
    camera_updated, controller_consumed, controller_keyed, controller_moused,
    controller_scrolled, Camera, CameraController, CameraRig, CameraUniform, KeyCode, ScrollDelta,
};
use crate::orbit_camera::{
    OrbitCamera, OrbitCameraController, ORBIT_DEFAULT_SENSITIVITY, ORBIT_DEFAULT_SPEED,
};
use crate::fx::{FX_BOUND, FX_DT_BOUND, FX_INPUT_BOUND, FX_ONE};
use crate::light::LightUniform;
use crate::model::{Model, ModelPrimitive};
use crate::renderer::{toggled_light_render, toggled_light_rotation, FramePlan, Renderer};
use crate::vec3::Vec3;

verus! {

/// The eye's starting position: five units up, ten units back.
pub const START_EYE_Y: i64 = 327680;

/// The eye's starting distance along the view axis.
pub const START_EYE_Z: i64 = 655360;

/// The library's model of one raw input event.
#[derive(Clone, Copy, Debug, PartialEq, Eq, Structural)]
pub enum DeviceEvent {
    Key { key: KeyCode, pressed: bool },
    MouseWheel { delta: ScrollDelta },
    Button { button: u32, pressed: bool },
    MouseMotion { dx: i64, dy: i64 },
    Other,
}

impl DeviceEvent {
    /// Raw deltas stay within the input bound.
    pub open spec fn bounded(self) -> bool {
        match self {
            DeviceEvent::MouseWheel { delta } => delta.bounded(),
            DeviceEvent::MouseMotion { dx, dy } => {
                &&& -FX_INPUT_BOUND <= dx <= FX_INPUT_BOUND
                &&& -FX_INPUT_BOUND <= dy <= FX_INPUT_BOUND
            },
            _ => true,
        }
    }
}

/// The session: the navigable rig, the scene's models, the pointer
/// gate for rotation input, the renderer, and the viewport extent.
pub struct State {
    pub camera_rig: CameraRig,
    pub models: Vec<Model>,
    pub mouse_pressed: bool,
    pub renderer: Renderer,
    pub size: (u32, u32),
}

impl State {
    /// Both halves well-formed.
    pub open spec fn wf(self) -> bool {
        &&& self.camera_rig.wf()
        &&& self.renderer.wf()
    }

    /// A fresh session for a viewport: an orbit rig a little up and
    /// back from the origin, an empty model list, and a renderer with
    /// default uniforms.
    pub fn new(width: u32, height: u32) -> (s: State)
        requires
            width >= 1,
            height >= 1,
        ensures
            s.wf(),
            s.models@.len() == 0,
            s.mouse_pressed == false,
            s.size == (width, height),
            s.camera_rig.camera == Camera::Orbit(
                OrbitCamera {
                    eye: Vec3 { x: 0i64, y: START_EYE_Y, z: START_EYE_Z },
                    target: Vec3 { x: 0i64, y: 0i64, z: 0i64 },
                    up: Vec3 { x: 0i64, y: FX_ONE, z: 0i64 },
                },
            ),
            s.camera_rig.controller == CameraController::Orbit(
                OrbitCameraController {
                    amount_left: 0i64,
                    amount_right: 0i64,
                    amount_forward: 0i64,
                    amount_backward: 0i64,
                    amount_up: 0i64,
                    amount_down: 0i64,
                    rotate_horizontal: 0i64,
                    rotate_vertical: 0i64,
                    scroll: 0i64,
                    speed: ORBIT_DEFAULT_SPEED,
                    sensitivity: ORBIT_DEFAULT_SENSITIVITY,
                },
            ),
            s.renderer.render_light == false,
            s.renderer.rotate_light == false,
            s.renderer.depth_extent == (width, height),
    {
        State {
            camera_rig: CameraRig::new_orbit(Vec3::new(0, START_EYE_Y, START_EYE_Z)),
            models: Vec::new(),
            mouse_pressed: false,
            renderer: Renderer::new(width, height),
            size: (width, height),
        }
    }

    /// Builds the requested primitive and appends it to the scene.
    pub fn add_model_primitive(&mut self, primitive: ModelPrimitive, size: i64)
        requires
            0 < size <= FX_BOUND,
        ensures
            final(self).models@.len() == old(self).models@.len() + 1,
            forall|i: int|
                0 <= i < old(self).models@.len() ==> final(self).models@[i] == old(
                    self,
                ).models@[i],
            primitive == ModelPrimitive::Cube ==> {
                let m = final(self).models@[old(self).models@.len() as int];
                &&& m.meshes@.len() == 1
                &&& m.meshes@[0].vertices@ == crate::model::cube_vertices(size)
                &&& m.meshes@[0].indices@ == crate::model::cube_indices()
                &&& m.meshes@[0].valid()
            },
            primitive == ModelPrimitive::Plane ==> {
                let m = final(self).models@[old(self).models@.len() as int];
                &&& m.meshes@.len() == 1
                &&& m.meshes@[0].vertices@ == crate::model::plane_vertices(size)
                &&& m.meshes@[0].indices@ == crate::mesh::quad_indices(0)
                &&& m.meshes@[0].valid()
            },
            final(self).camera_rig == old(self).camera_rig,
            final(self).renderer == old(self).renderer,
            final(self).mouse_pressed == old(self).mouse_pressed,
            final(self).size == old(self).size,
            old(self).wf() ==> final(self).wf(),
    {
        let model = match primitive {
            ModelPrimitive::Cube => Model::cube(size),
            ModelPrimitive::Plane => Model::plane(size),
        };
        self.models.push(model);
    }

    /// Builds a random height-field surface and appends it to the
    /// scene.
    pub fn add_surface(&mut self, count: u32, size: i64, height_max: i64)
        requires
            1 <= count <= 20000,
            0 < size,
            (size as int) * (count as int) <= FX_BOUND as int,
            1 <= height_max <= FX_BOUND,
        ensures
            final(self).models@.len() == old(self).models@.len() + 1,
            forall|i: int|
                0 <= i < old(self).models@.len() ==> final(self).models@[i] == old(
                    self,
                ).models@[i],
            ({
                let m = final(self).models@[old(self).models@.len() as int];
                let rows = crate::model::surface_rows(count);
                &&& m.meshes@.len() == 1
                &&& m.meshes@[0].vertices@.len() == rows * rows
                &&& m.meshes@[0].indices@.len() == 6 * (rows - 1) * (rows - 1)
                &&& m.meshes@[0].valid()
            }),
            final(self).camera_rig == old(self).camera_rig,
            final(self).renderer == old(self).renderer,
            final(self).mouse_pressed == old(self).mouse_pressed,
            final(self).size == old(self).size,
            old(self).wf() ==> final(self).wf(),
    {
        let model = Model::surface(count, size, height_max);
        self.models.push(model);
    }

    /// Dispatches one raw event: the light toggles claim their keys,
    /// every other key goes to the controller; scroll always feeds the
    /// controller; the primary button gates pointer rotation; pointer
    /// motion feeds the controller only while the button is held.
    /// Returns whether the event category is consumed.
    pub fn input(&mut self, event: &DeviceEvent) -> (consumed: bool)
        requires
            old(self).wf(),
            event.bounded(),
        ensures
            final(self).models == old(self).models,
            final(self).size == old(self).size,
            match *event {
                DeviceEvent::Key { key: KeyCode::L, pressed: true } => {
                    &&& consumed
                    &&& final(self).renderer == toggled_light_render(old(self).renderer)
                    &&& final(self).camera_rig == old(self).camera_rig
                    &&& final(self).mouse_pressed == old(self).mouse_pressed
                },
                DeviceEvent::Key { key: KeyCode::R, pressed: true } => {
                    &&& consumed
                    &&& final(self).renderer == toggled_light_rotation(old(self).renderer)
                    &&& final(self).camera_rig == old(self).camera_rig
                    &&& final(self).mouse_pressed == old(self).mouse_pressed
                },
                DeviceEvent::Key { key, pressed } => {
                    &&& consumed
                    &&& final(self).renderer == old(self).renderer
                    &&& final(self).camera_rig.camera == old(self).camera_rig.camera
                    &&& final(self).camera_rig.controller == controller_keyed(
                        old(self).camera_rig.controller,
                        key,
                        pressed,
                    )
                    &&& final(self).mouse_pressed == old(self).mouse_pressed
                },
                DeviceEvent::MouseWheel { delta } => {
                    &&& consumed
                    &&& final(self).renderer == old(self).renderer
                    &&& final(self).camera_rig.camera == old(self).camera_rig.camera
                    &&& final(self).camera_rig.controller == controller_scrolled(
                        old(self).camera_rig.controller,
                        delta,
                    )
                    &&& final(self).mouse_pressed == old(self).mouse_pressed
                },
                DeviceEvent::Button { button, pressed } => {
                    &&& consumed == (button == 1)
                    &&& final(self).renderer == old(self).renderer
                    &&& final(self).camera_rig == old(self).camera_rig
                    &&& final(self).mouse_pressed == if button == 1 {
                        pressed
                    } else {
                        old(self).mouse_pressed
                    }
                },
                DeviceEvent::MouseMotion { dx, dy } => {
                    &&& consumed
                    &&& final(self).renderer == old(self).renderer
                    &&& final(self).camera_rig.camera == old(self).camera_rig.camera
                    &&& final(self).camera_rig.controller == if old(self).mouse_pressed {
                        controller_moused(old(self).camera_rig.controller, dx, dy)
                    } else {
                        old(self).camera_rig.controller
                    }
                    &&& final(self).mouse_pressed == old(self).mouse_pressed
                },
                DeviceEvent::Other => {
                    &&& !consumed
                    &&& final(self).renderer == old(self).renderer
                    &&& final(self).camera_rig == old(self).camera_rig
                    &&& final(self).mouse_pressed == old(self).mouse_pressed
                },
            },
            final(self).wf(),
    {
        match event {
            DeviceEvent::Key { key, pressed } => {
                match (key, pressed) {
                    (KeyCode::L, true) => {
                        self.renderer.toggle_light_render();
                    },
                    (KeyCode::R, true) => {
                        self.renderer.toggle_light_rotation();
                    },
                    _ => {
                        self.camera_rig.process_keyboard(*key, *pressed);
                    },
                }
                true
            },
            DeviceEvent::MouseWheel { delta } => {
                self.camera_rig.process_scroll(delta);
                true
            },
            DeviceEvent::Button { button, pressed } => {
                if *button == 1 {
                    self.mouse_pressed = *pressed;
                    true
                } else {
                    false
                }
            },
            DeviceEvent::MouseMotion { dx, dy } => {
                if self.mouse_pressed {
                    self.camera_rig.process_mouse(*dx, *dy);
                }
                true
            },
            DeviceEvent::Other => false,
        }
    }

    /// Adopts a new viewport extent, or ignores a zero one.  Returns
    /// whether the surface should be reconfigured.
    pub fn resize(&mut self, width: u32, height: u32) -> (accepted: bool)
        ensures
            accepted == (width >= 1 && height >= 1),
            accepted ==> final(self).size == (width, height) && final(self).renderer.depth_extent
                == (width, height) && final(self).renderer.projection.width_spec() == width
                && final(self).renderer.projection.height_spec() == height,
            !accepted ==> *final(self) == *old(self),
            final(self).camera_rig == old(self).camera_rig,
            final(self).models == old(self).models,
            final(self).mouse_pressed == old(self).mouse_pressed,
            old(self).wf() ==> final(self).wf(),
    {
        if width >= 1 && height >= 1 {
            self.size = (width, height);
            self.renderer.resize(width, height);
            true
        } else {
            false
        }
    }

    /// One frame's simulation step: the controller advances the
    /// camera, the camera uniform is recomputed, and the uniforms are
    /// synchronized.  Returns the two uniform values for the shell to
    /// upload.
    pub fn update(&mut self, dt: i64) -> (out: (CameraUniform, LightUniform))
        requires
            old(self).wf(),
            0 <= dt <= FX_DT_BOUND,
        ensures
            final(self).camera_rig.camera == camera_updated(
                old(self).camera_rig.controller,
                old(self).camera_rig.camera,
                dt,
            ),
            final(self).camera_rig.controller == controller_consumed(
                old(self).camera_rig.controller,
            ),
            final(self).renderer.camera_uniform.uniform.view_position
                == final(self).camera_rig.camera.position_spec(),
            final(self).renderer.camera_uniform.synced(),
            final(self).renderer.light_uniform.synced(),
            out.0 == final(self).renderer.camera_uniform.uniform,
            out.1 == final(self).renderer.light_uniform.uniform,
            final(self).models == old(self).models,
            final(self).size == old(self).size,
            final(self).mouse_pressed == old(self).mouse_pressed,
            final(self).wf(),
    {
        self.camera_rig.update_camera(dt);
        self.renderer.update_camera_uniform(&self.camera_rig.camera);
        self.renderer.update(dt)
    }

    /// Composes the frame plan for the current scene.
    pub fn render(&self) -> (p: FramePlan)
        ensures
            p.clear_color == self.renderer.ambient_uniform.uniform,
            p.depth_clear == FX_ONE,
            p.depth_extent == self.renderer.depth_extent,
            p.commands@ == crate::renderer::frame_commands(
                self.renderer.render_light,
                self.models@.len() as int,
            ),
    {
        self.renderer.plan_frame(self.models.len())
    }
}

} // verus!
