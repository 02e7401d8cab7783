//! The renderer state machine, uniform synchronization, and the
//! session's input dispatch, exercised on concrete values.

use viewer_core::camera::{KeyCode, ScrollDelta, ViewProj};
use viewer_core::fx::{FX_ONE, FX_PI};
use viewer_core::model::ModelPrimitive;
use viewer_core::renderer::{DrawCommand, Renderer, LIGHT_START};
use viewer_core::state::{DeviceEvent, State};
use viewer_core::uniform::Uniform;

#[test]
fn uniform_sync_marks_the_mirror_written() {
    let mut u: Uniform<u32> = Uniform::new(7);
    assert_eq!(u.uniform, 7);
    u.set(9);
    assert_eq!(u.uniform, 9);
    let pushed = u.sync();
    assert_eq!(pushed, 9);
}

#[test]
fn renderer_starts_with_both_toggles_off() {
    let r = Renderer::new(800, 600);
    assert!(!r.render_light);
    assert!(!r.rotate_light);
    assert_eq!(r.depth_extent, (800, 600));
    assert_eq!(r.projection.width(), 800);
    assert_eq!(r.projection.height(), 600);
    assert_eq!(r.light_uniform.uniform.position.x, LIGHT_START);
    assert!(matches!(r.camera_uniform.uniform.view_proj, ViewProj::Identity));
    assert!(r.projection.znear() < r.projection.zfar());
    assert!(0 < r.projection.fovy() && r.projection.fovy() < FX_PI);
}

#[test]
fn toggling_light_twice_restores_the_frame() {
    // A static scene composed before and after a double toggle is
    // byte-identical: the state and the plan both return to what they
    // were.
    let mut r = Renderer::new(640, 480);
    let before = r.plan_frame(3);
    r.toggle_light_render();
    let lit = r.plan_frame(3);
    assert_eq!(lit.commands.len(), 4);
    assert_eq!(lit.commands[0], DrawCommand::DrawLight);
    r.toggle_light_render();
    let after = r.plan_frame(3);
    assert!(!r.render_light);
    assert_eq!(before.commands, after.commands);
    assert_eq!(before.clear_color, after.clear_color);
    assert_eq!(before.depth_clear, after.depth_clear);
    assert_eq!(before.depth_extent, after.depth_extent);
}

#[test]
fn frame_plan_draws_models_in_list_order() {
    let mut r = Renderer::new(640, 480);
    r.toggle_light_render();
    let plan = r.plan_frame(2);
    assert_eq!(
        plan.commands,
        vec![
            DrawCommand::DrawLight,
            DrawCommand::DrawModel { index: 0 },
            DrawCommand::DrawModel { index: 1 },
        ],
    );
    assert_eq!(plan.depth_clear, FX_ONE);
}

#[test]
fn resize_updates_aspect_and_depth_target() {
    // Resizing from 800x600 to 1920x1080 moves the aspect pair and
    // the depth target to the new extent; the next plan references
    // only the new target.
    let mut s = State::new(800, 600);
    assert!(s.resize(1920, 1080));
    assert_eq!(s.size, (1920, 1080));
    assert_eq!(s.renderer.projection.width(), 1920);
    assert_eq!(s.renderer.projection.height(), 1080);
    assert_eq!(s.renderer.depth_extent, (1920, 1080));
    let plan = s.render();
    assert_eq!(plan.depth_extent, (1920, 1080));
}

#[test]
fn zero_extent_resize_is_a_no_op() {
    let mut s = State::new(800, 600);
    assert!(!s.resize(0, 1080));
    assert!(!s.resize(1920, 0));
    assert_eq!(s.size, (800, 600));
    assert_eq!(s.renderer.depth_extent, (800, 600));
}

#[test]
fn light_keys_toggle_the_renderer() {
    let mut s = State::new(640, 480);
    assert!(s.input(&DeviceEvent::Key { key: KeyCode::L, pressed: true }));
    assert!(s.renderer.render_light);
    assert!(s.input(&DeviceEvent::Key { key: KeyCode::R, pressed: true }));
    assert!(s.renderer.rotate_light);
    assert!(s.input(&DeviceEvent::Key { key: KeyCode::L, pressed: true }));
    assert!(!s.renderer.render_light);
}

#[test]
fn pointer_motion_is_gated_by_the_primary_button() {
    let mut s = State::new(640, 480);
    let motion = DeviceEvent::MouseMotion { dx: 500, dy: 600 };
    assert!(s.input(&motion));
    let untouched = match s.camera_rig.controller {
        viewer_core::camera::CameraController::Orbit(c) => c,
        _ => panic!("orbit rig expected"),
    };
    assert_eq!(untouched.rotate_horizontal, 0);

    assert!(s.input(&DeviceEvent::Button { button: 1, pressed: true }));
    assert!(s.input(&motion));
    let turned = match s.camera_rig.controller {
        viewer_core::camera::CameraController::Orbit(c) => c,
        _ => panic!("orbit rig expected"),
    };
    assert_eq!(turned.rotate_horizontal, 500);
    assert_eq!(turned.rotate_vertical, 600);

    // A different button is not consumed.
    assert!(!s.input(&DeviceEvent::Button { button: 3, pressed: true }));
    assert!(!s.input(&DeviceEvent::Other));
}

#[test]
fn wheel_events_feed_the_controller() {
    let mut s = State::new(640, 480);
    assert!(s.input(&DeviceEvent::MouseWheel { delta: ScrollDelta::PixelDelta(123) }));
    let ctl = match s.camera_rig.controller {
        viewer_core::camera::CameraController::Orbit(c) => c,
        _ => panic!("orbit rig expected"),
    };
    assert_eq!(ctl.scroll, 123);
}

#[test]
fn update_pushes_both_uniform_mirrors() {
    let mut s = State::new(640, 480);
    let (camera_value, light_value) = s.update(FX_ONE / 60);
    assert_eq!(camera_value.view_position, s.camera_rig.camera.get_position());
    assert!(matches!(camera_value.view_proj, ViewProj::Composed { .. }));
    // Rotation is off: the light has not moved.
    assert_eq!(light_value.position.x, LIGHT_START);
    assert_eq!(light_value.position.y, LIGHT_START);
    assert_eq!(light_value.position.z, LIGHT_START);
}

#[test]
fn rotating_light_circles_the_vertical_axis() {
    let mut s = State::new(640, 480);
    s.input(&DeviceEvent::Key { key: KeyCode::R, pressed: true });
    // A quarter second at sixty degrees per second: fifteen degrees.
    let (_, light) = s.update(FX_ONE / 4);
    let x = light.position.x as f64 / FX_ONE as f64;
    let z = light.position.z as f64 / FX_ONE as f64;
    // Height is untouched; the planar radius is roughly preserved.
    assert_eq!(light.position.y, 2 * FX_ONE);
    let radius = (x * x + z * z).sqrt();
    let expected = (2.0f64 * 2.0 + 2.0 * 2.0).sqrt();
    assert!((radius - expected).abs() < 0.05, "radius {radius}");
    // And the position really rotated away from the diagonal.
    assert!((x - z).abs() > 0.2, "x {x} z {z}");
}

#[test]
fn scene_models_accumulate() {
    let mut s = State::new(640, 480);
    s.add_model_primitive(ModelPrimitive::Cube, FX_ONE);
    s.add_model_primitive(ModelPrimitive::Plane, 2 * FX_ONE);
    s.add_surface(4, FX_ONE, FX_ONE);
    assert_eq!(s.models.len(), 3);
    let plan = s.render();
    assert_eq!(plan.commands.len(), 3);
    assert_eq!(plan.commands[0], DrawCommand::DrawModel { index: 0 });
}
