//! The renderer's state machine and frame composition.
//!
//! The renderer owns the ambient, camera and light uniform mirrors,
//! the extent of the depth target, and two toggles: whether a pass
//! visualizing the light runs, and whether the light circles the
//! vertical axis.  Each frame it composes one plan — clear to the
//! ambient color, depth cleared to the farthest value, the optional
//! light pass, then one pass per model, in that order — which the GPU
//! shell records and submits as one unit.

use vstd::prelude::*;

use crate::camera::{Camera, CameraUniform, ViewProj};
use crate::color::ColorUniform;
use crate::fx::{cos_fx, cos_fx_spec, fx_mul, mul_fx, sin_fx, sin_fx_spec, FX_DT_BOUND, FX_ONE};
use crate::light::{LightUniform, LIGHT_BOUND};
use crate::mesh::Color;
use crate::projection::Projection;
use crate::uniform::Uniform;
use crate::vec3::Vec3;

verus! {

/// The ambient clear color's gray channel: three tenths.
pub const AMBIENT_CHANNEL: i64 = 19661;

/// The light's starting coordinate: two units along each axis.
pub const LIGHT_START: i64 = 131072;

/// The light's angular rate about the vertical axis: a third of pi
/// (sixty degrees) per second.
pub const LIGHT_ROTATE_RATE: i64 = 68629;

/// The default vertical field of view: a quarter turn's half,
/// forty-five degrees.
pub const RENDER_FOVY: i64 = 51472;

/// The default near clip distance: a tenth of a unit.
pub const RENDER_ZNEAR: i64 = 6554;

/// The default far clip distance: a hundred units.
pub const RENDER_ZFAR: i64 = 6553600;

/// One recorded draw within the frame's single pass.
#[derive(Clone, Copy, Debug, PartialEq, Eq, Structural)]
pub enum DrawCommand {
    /// Draw the light's marker model with the light pipeline, bound to
    /// the camera and light uniforms only.
    DrawLight,
    /// Draw one scene model, instanced, with the model pipeline, bound
    /// to the ambient, camera and light uniforms.
    DrawModel { index: usize },
}

/// One frame's composition: the clear state, the depth target it
/// references, and the recorded draws in submission order.
pub struct FramePlan {
    pub clear_color: ColorUniform,
    pub depth_clear: i64,
    pub depth_extent: (u32, u32),
    pub commands: Vec<DrawCommand>,
}

/// The draw order of one frame: the optional light pass first, then
/// every model in list order.
pub open spec fn frame_commands(render_light: bool, n: int) -> Seq<DrawCommand> {
    let models = Seq::new(n as nat, |i: int| DrawCommand::DrawModel { index: i as usize });
    if render_light {
        seq![DrawCommand::DrawLight] + models
    } else {
        models
    }
}

/// Owns the uniform mirrors, the depth target extent, the projection
/// and the two light toggles.
pub struct Renderer {
    pub ambient_uniform: Uniform<ColorUniform>,
    pub camera_uniform: Uniform<CameraUniform>,
    pub light_uniform: Uniform<LightUniform>,
    pub projection: Projection,
    pub depth_extent: (u32, u32),
    pub render_light: bool,
    pub rotate_light: bool,
}

/// The renderer with the light visualization toggled.
pub open spec fn toggled_light_render(r: Renderer) -> Renderer {
    Renderer { render_light: !r.render_light, ..r }
}

/// The renderer with the light rotation toggled.
pub open spec fn toggled_light_rotation(r: Renderer) -> Renderer {
    Renderer { rotate_light: !r.rotate_light, ..r }
}

/// The light position after one frame's rotation about the vertical
/// axis, clamped into the light's world bound.
pub open spec fn rotated_light_position(p: Vec3, dt: i64) -> Vec3 {
    let ang = fx_mul(LIGHT_ROTATE_RATE as int, dt as int);
    let c = cos_fx_spec(ang);
    let s = sin_fx_spec(ang);
    let r = Vec3 {
        x: (fx_mul(p.x as int, c) + fx_mul(p.z as int, s)) as i64,
        y: p.y,
        z: (fx_mul(-(p.x as int), s) + fx_mul(p.z as int, c)) as i64,
    };
    r.clamp_spec(LIGHT_BOUND as int)
}

impl Renderer {
    /// The projection is proper and the light stays in its world.
    pub open spec fn wf(self) -> bool {
        &&& self.projection.wf()
        &&& self.light_uniform.uniform.position.bounded(LIGHT_BOUND as int)
    }

    /// A renderer for the given viewport: gray ambient, a white light
    /// two units out along each axis, both toggles off, all mirrors
    /// freshly uploaded.
    pub fn new(width: u32, height: u32) -> (r: Renderer)
        requires
            width >= 1,
            height >= 1,
        ensures
            r.ambient_uniform.uniform == (ColorUniform {
                color: Color { r: AMBIENT_CHANNEL, g: AMBIENT_CHANNEL, b: AMBIENT_CHANNEL, a: FX_ONE },
            }),
            r.ambient_uniform.synced(),
            r.camera_uniform.uniform.view_proj == ViewProj::Identity,
            r.camera_uniform.synced(),
            r.light_uniform.uniform == (LightUniform {
                position: Vec3 { x: LIGHT_START, y: LIGHT_START, z: LIGHT_START },
                color: Vec3 { x: FX_ONE, y: FX_ONE, z: FX_ONE },
            }),
            r.light_uniform.synced(),
            r.projection.width_spec() == width,
            r.projection.height_spec() == height,
            r.projection.fovy_spec() == RENDER_FOVY,
            r.projection.znear_spec() == RENDER_ZNEAR,
            r.projection.zfar_spec() == RENDER_ZFAR,
            r.depth_extent == (width, height),
            r.render_light == false,
            r.rotate_light == false,
            r.wf(),
    {
        Renderer {
            ambient_uniform: Uniform::new(
                ColorUniform {
                    color: Color {
                        r: AMBIENT_CHANNEL,
                        g: AMBIENT_CHANNEL,
                        b: AMBIENT_CHANNEL,
                        a: FX_ONE,
                    },
                },
            ),
            camera_uniform: Uniform::new(CameraUniform::new()),
            light_uniform: Uniform::new(
                LightUniform {
                    position: Vec3::new(LIGHT_START, LIGHT_START, LIGHT_START),
                    color: Vec3::new(FX_ONE, FX_ONE, FX_ONE),
                },
            ),
            projection: Projection::new(width, height, RENDER_FOVY, RENDER_ZNEAR, RENDER_ZFAR),
            depth_extent: (width, height),
            render_light: false,
            rotate_light: false,
        }
    }

    /// Turns the light visualization pass on; the shell rebuilds its
    /// pipeline when this changes.
    pub fn enable_light_render_pipeline(&mut self)
        ensures
            *final(self) == (Renderer { render_light: true, ..*old(self) }),
            old(self).wf() ==> final(self).wf(),
    {
        self.render_light = true;
    }

    /// Turns the light visualization pass off, dropping the shell's
    /// pipeline for it.
    pub fn disable_light_render_pipeline(&mut self)
        ensures
            *final(self) == (Renderer { render_light: false, ..*old(self) }),
            old(self).wf() ==> final(self).wf(),
    {
        self.render_light = false;
    }

    /// Whether the light visualization pass currently runs.
    pub fn light_render_pipeline_enabled(&self) -> (enabled: bool)
        ensures
            enabled == self.render_light,
    {
        self.render_light
    }

    /// Flips whether the light visualization pass runs.
    pub fn toggle_light_render(&mut self)
        ensures
            *final(self) == toggled_light_render(*old(self)),
            old(self).wf() ==> final(self).wf(),
    {
        self.render_light = !self.render_light;
    }

    /// Flips whether the light circles the vertical axis.
    pub fn toggle_light_rotation(&mut self)
        ensures
            *final(self) == toggled_light_rotation(*old(self)),
            old(self).wf() ==> final(self).wf(),
    {
        self.rotate_light = !self.rotate_light;
    }

    /// Adopts a new viewport: the depth target is reallocated at the
    /// new extent and the projection's aspect follows.  A zero extent
    /// is a no-op.
    pub fn resize(&mut self, width: u32, height: u32)
        ensures
            width >= 1 && height >= 1 ==> final(self).depth_extent == (width, height)
                && final(self).projection.width_spec() == width
                && final(self).projection.height_spec() == height,
            !(width >= 1 && height >= 1) ==> final(self).depth_extent == old(self).depth_extent
                && final(self).projection == old(self).projection,
            final(self).projection.fovy_spec() == old(self).projection.fovy_spec(),
            final(self).projection.znear_spec() == old(self).projection.znear_spec(),
            final(self).projection.zfar_spec() == old(self).projection.zfar_spec(),
            final(self).ambient_uniform == old(self).ambient_uniform,
            final(self).camera_uniform == old(self).camera_uniform,
            final(self).light_uniform == old(self).light_uniform,
            final(self).render_light == old(self).render_light,
            final(self).rotate_light == old(self).rotate_light,
            old(self).wf() ==> final(self).wf(),
    {
        if width >= 1 && height >= 1 {
            self.depth_extent = (width, height);
            self.projection.resize(width, height);
        }
    }

    /// One frame's uniform synchronization: pushes the camera mirror
    /// unconditionally, advances the light about the vertical axis
    /// when rotation is on, and pushes the light mirror regardless.
    /// Returns the two values for the shell to upload.
    pub fn update(&mut self, dt: i64) -> (out: (CameraUniform, LightUniform))
        requires
            old(self).wf(),
            0 <= dt <= FX_DT_BOUND,
        ensures
            final(self).camera_uniform.uniform == old(self).camera_uniform.uniform,
            final(self).camera_uniform.synced(),
            final(self).light_uniform.uniform.position == if old(self).rotate_light {
                rotated_light_position(old(self).light_uniform.uniform.position, dt)
            } else {
                old(self).light_uniform.uniform.position
            },
            final(self).light_uniform.uniform.color == old(self).light_uniform.uniform.color,
            final(self).light_uniform.synced(),
            out.0 == old(self).camera_uniform.uniform,
            out.1 == final(self).light_uniform.uniform,
            final(self).ambient_uniform == old(self).ambient_uniform,
            final(self).projection == old(self).projection,
            final(self).depth_extent == old(self).depth_extent,
            final(self).render_light == old(self).render_light,
            final(self).rotate_light == old(self).rotate_light,
            final(self).wf(),
    {
        let camera_value = self.camera_uniform.sync();

        if self.rotate_light {
            let p = self.light_uniform.uniform.position;
            let ang = mul_fx(LIGHT_ROTATE_RATE, dt);
            proof {
                crate::fx::lemma_fx_mul_bound(
                    LIGHT_ROTATE_RATE as int,
                    dt as int,
                    LIGHT_ROTATE_RATE as int,
                    FX_DT_BOUND as int,
                );
            }
            let c = cos_fx(ang);
            let s = sin_fx(ang);
            proof {
                crate::fx::lemma_fx_mul_bound(p.x as int, c as int, LIGHT_BOUND as int, FX_ONE as int);
                crate::fx::lemma_fx_mul_bound(p.z as int, s as int, LIGHT_BOUND as int, FX_ONE as int);
                crate::fx::lemma_fx_mul_bound(
                    -(p.x as int),
                    s as int,
                    LIGHT_BOUND as int,
                    FX_ONE as int,
                );
                crate::fx::lemma_fx_mul_bound(p.z as int, c as int, LIGHT_BOUND as int, FX_ONE as int);
            }
            let rotated = Vec3 {
                x: mul_fx(p.x, c) + mul_fx(p.z, s),
                y: p.y,
                z: mul_fx(-p.x, s) + mul_fx(p.z, c),
            };
            let position = rotated.clamped(LIGHT_BOUND);
            let color = self.light_uniform.uniform.color;
            self.light_uniform.set(LightUniform { position, color });
        }
        let light_value = self.light_uniform.sync();
        (camera_value, light_value)
    }

    /// Recomputes the camera uniform from the camera and the current
    /// projection; the mirror follows at the next update.
    pub fn update_camera_uniform(&mut self, camera: &Camera)
        ensures
            final(self).camera_uniform.uniform.view_position == camera.position_spec(),
            final(self).camera_uniform.uniform.view_proj == (ViewProj::Composed {
                camera: *camera,
                projection: old(self).projection.params_spec(),
            }),
            final(self).camera_uniform.mirror_spec() == old(self).camera_uniform.mirror_spec(),
            final(self).ambient_uniform == old(self).ambient_uniform,
            final(self).light_uniform == old(self).light_uniform,
            final(self).projection == old(self).projection,
            final(self).depth_extent == old(self).depth_extent,
            final(self).render_light == old(self).render_light,
            final(self).rotate_light == old(self).rotate_light,
            old(self).wf() ==> final(self).wf(),
    {
        let mut value = self.camera_uniform.uniform;
        value.update_view_proj(camera, &self.projection);
        self.camera_uniform.set(value);
    }

    /// Composes one frame: clear to the ambient color with depth
    /// cleared to the farthest value, then the optional light pass,
    /// then every model in list order, all against the current depth
    /// target.
    pub fn plan_frame(&self, model_count: usize) -> (p: FramePlan)
        ensures
            p.clear_color == self.ambient_uniform.uniform,
            p.depth_clear == FX_ONE,
            p.depth_extent == self.depth_extent,
            p.commands@ == frame_commands(self.render_light, model_count as int),
    {
        let mut commands: Vec<DrawCommand> = Vec::new();
        if self.render_light {
            commands.push(DrawCommand::DrawLight);
        }
        let ghost prefix: Seq<DrawCommand> = commands@;
        let mut i: usize = 0;
        while i < model_count
            invariant
                0 <= i <= model_count,
                commands@ == prefix + Seq::new(
                    i as nat,
                    |k: int| DrawCommand::DrawModel { index: k as usize },
                ),
            decreases model_count - i,
        {
            commands.push(DrawCommand::DrawModel { index: i });
            i = i + 1;
            proof {
                assert(commands@ =~= prefix + Seq::new(
                    i as nat,
                    |k: int| DrawCommand::DrawModel { index: k as usize },
                ));
            }
        }
        proof {
            assert(commands@ =~= frame_commands(self.render_light, model_count as int));
        }
        FramePlan {
            clear_color: self.ambient_uniform.uniform,
            depth_clear: FX_ONE,
            depth_extent: self.depth_extent,
            commands,
        }
    }
}

/// Toggling the light visualization twice returns the renderer to
/// exactly the state it had, so a frame composed after the two
/// toggles is identical to one composed before them.
pub proof fn lemma_toggle_light_render_involution(r: Renderer)
    ensures
        toggled_light_render(toggled_light_render(r)) == r,
        forall|n: int|
            frame_commands(toggled_light_render(toggled_light_render(r)).render_light, n)
                == frame_commands(r.render_light, n),
{
}

} // verus!
