//! Core of an interactive 3D scene viewer: camera navigation, procedural
//! and imported mesh construction, uniform synchronization, and frame
//! composition, all verified over exact fixed-point scalars.  The GPU and
//! windowing shell around this crate converts these scalars to the float
//! formats its device expects.

pub mod camera;
pub mod color;
pub mod fps_camera;
pub mod fx;
pub mod import;
pub mod light;
pub mod mesh;
pub mod model;
pub mod orbit_camera;
pub mod projection;
pub mod renderer;
pub mod rng;
pub mod state;
pub mod uniform;
pub mod vec3;
