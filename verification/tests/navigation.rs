//! Camera controllers, fixed-point numerics, and the rig, exercised
//! on concrete values.

use viewer_core::camera::{CameraRig, KeyCode, ScrollDelta};
use viewer_core::fps_camera::{FPSCamera, FPSCameraController};
use viewer_core::fx::{clamp_fx, cos_fx, isqrt, mul_fx, reduce_angle, sin_fx, FX_HALF_PI, FX_ONE, FX_PI, FX_TWO_PI};
use viewer_core::orbit_camera::{OrbitCamera, OrbitCameraController};
use viewer_core::vec3::Vec3;

fn v(x: i64, y: i64, z: i64) -> Vec3 {
    Vec3 { x, y, z }
}

#[test]
fn fixed_point_multiply_is_exact() {
    assert_eq!(mul_fx(FX_ONE, FX_ONE), FX_ONE);
    assert_eq!(mul_fx(2 * FX_ONE, 3 * FX_ONE), 6 * FX_ONE);
    assert_eq!(mul_fx(-2 * FX_ONE, 3 * FX_ONE), -6 * FX_ONE);
    assert_eq!(mul_fx(FX_ONE / 2, FX_ONE / 2), FX_ONE / 4);
    assert_eq!(mul_fx(7, 0), 0);
}

#[test]
fn clamp_saturates_at_both_edges() {
    assert_eq!(clamp_fx(5, -3, 3), 3);
    assert_eq!(clamp_fx(-5, -3, 3), -3);
    assert_eq!(clamp_fx(2, -3, 3), 2);
}

#[test]
fn integer_square_root_brackets() {
    assert_eq!(isqrt(0), 0);
    assert_eq!(isqrt(1), 1);
    assert_eq!(isqrt(15), 3);
    assert_eq!(isqrt(16), 4);
    assert_eq!(isqrt(u64::MAX), 4294967295);
}

#[test]
fn angle_reduction_wraps_into_principal_range() {
    assert_eq!(reduce_angle(0), 0);
    assert_eq!(reduce_angle(FX_TWO_PI), 0);
    assert_eq!(reduce_angle(-FX_TWO_PI), 0);
    let r = reduce_angle(5 * FX_TWO_PI + 100);
    assert_eq!(r, 100);
    assert!((-FX_PI..=FX_PI).contains(&reduce_angle(123456789)));
}

#[test]
fn sine_tracks_the_real_function() {
    assert_eq!(sin_fx(0), 0);
    for k in -20..=20i64 {
        let x = k * FX_ONE / 4;
        let approx = sin_fx(x) as f64 / FX_ONE as f64;
        let exact = (x as f64 / FX_ONE as f64).sin();
        assert!((approx - exact).abs() < 0.01, "sin at {k}: {approx} vs {exact}");
        let capprox = cos_fx(x) as f64 / FX_ONE as f64;
        let cexact = (x as f64 / FX_ONE as f64).cos();
        assert!((capprox - cexact).abs() < 0.01, "cos at {k}: {capprox} vs {cexact}");
    }
}

#[test]
fn pitch_stays_clamped_under_huge_deltas() {
    // A pathologically large vertical delta in one frame still leaves
    // the pitch within a quarter turn either way.
    let mut camera = FPSCamera::from_position(v(0, 0, 0));
    let mut controller = FPSCameraController::default();
    controller.process_mouse(0, 60_000_000);
    controller.update_camera(&mut camera, FX_ONE);
    assert_eq!(camera.pitch, -FX_HALF_PI);
    controller.process_mouse(0, -60_000_000);
    controller.update_camera(&mut camera, FX_ONE);
    assert_eq!(camera.pitch, FX_HALF_PI);
    assert!((-FX_HALF_PI..=FX_HALF_PI).contains(&camera.pitch));
}

#[test]
fn update_consumes_pending_deltas_but_keeps_intents() {
    let mut camera = FPSCamera::from_position(v(0, 0, 0));
    let mut controller = FPSCameraController::default();
    assert!(controller.process_keyboard(KeyCode::W, true));
    controller.process_mouse(1000, 2000);
    controller.process_scroll(&ScrollDelta::PixelDelta(300));
    controller.update_camera(&mut camera, FX_ONE / 60);
    assert_eq!(controller.rotate_horizontal, 0);
    assert_eq!(controller.rotate_vertical, 0);
    assert_eq!(controller.scroll, 0);
    // Key state persists until release.
    assert_eq!(controller.amount_forward, FX_ONE);
    assert!(controller.process_keyboard(KeyCode::W, false));
    assert_eq!(controller.amount_forward, 0);
}

#[test]
fn forward_intent_moves_along_the_view_direction() {
    // Default orientation looks along negative z; one second at the
    // default speed moves about four units that way.
    let mut camera = FPSCamera::from_position(v(0, 0, 0));
    let mut controller = FPSCameraController::default();
    controller.process_keyboard(KeyCode::W, true);
    controller.update_camera(&mut camera, FX_ONE);
    let z_units = camera.position.z as f64 / FX_ONE as f64;
    assert!(z_units < -3.5, "moved {z_units}");
    assert!(camera.position.x.abs() < FX_ONE / 8);
}

#[test]
fn unrecognized_keys_are_no_ops() {
    let mut controller = FPSCameraController::default();
    let before = controller;
    assert!(!controller.process_keyboard(KeyCode::Other, true));
    assert!(!controller.process_keyboard(KeyCode::L, true));
    assert!(!controller.process_keyboard(KeyCode::R, true));
    assert_eq!(controller, before);
}

#[test]
fn line_scroll_is_scaled_pixel_scroll_is_direct() {
    let mut controller = OrbitCameraController::default();
    controller.process_scroll(&ScrollDelta::LineDelta(10 * FX_ONE));
    // Ten lines scaled by minus a tenth: about minus one unit.
    let units = controller.scroll as f64 / FX_ONE as f64;
    assert!((units + 1.0).abs() < 0.01, "scaled to {units}");
    controller.process_scroll(&ScrollDelta::PixelDelta(777));
    assert_eq!(controller.scroll, 777);
}

#[test]
fn orbit_rotation_keeps_the_radius() {
    // Pure rotation input: the distance to the fixed target stays
    // within a tiny rounding tolerance of the original radius.
    let mut camera = OrbitCamera::new(v(0, 0, 10 * FX_ONE));
    let mut controller = OrbitCameraController::default();
    let before = 10.0f64;
    for _ in 0..50 {
        controller.process_mouse(40 * FX_ONE, 15 * FX_ONE);
        controller.update_camera(&mut camera, FX_ONE / 60);
    }
    let e = camera.eye;
    let dist = ((e.x as f64).powi(2) + (e.y as f64).powi(2) + (e.z as f64).powi(2)).sqrt()
        / FX_ONE as f64;
    assert!((dist - before).abs() < 0.05, "radius drifted to {dist}");
    // The eye actually moved.
    assert!(e.x != 0 || e.y != 0);
}

#[test]
fn orbit_scroll_changes_the_radius() {
    let mut camera = OrbitCamera::new(v(0, 0, 10 * FX_ONE));
    let mut controller = OrbitCameraController::default();
    controller.process_scroll(&ScrollDelta::PixelDelta(-2 * FX_ONE));
    controller.update_camera(&mut camera, FX_ONE / 60);
    let dist = (camera.eye.z as f64) / FX_ONE as f64;
    assert!(dist > 11.5, "zoomed out to {dist}");
}

#[test]
fn rig_binds_matching_variants() {
    let mut rig = CameraRig::new_orbit(v(0, 5 * FX_ONE, 10 * FX_ONE));
    assert_eq!(rig.camera.get_position(), v(0, 5 * FX_ONE, 10 * FX_ONE));
    assert!(rig.process_keyboard(KeyCode::D, true));
    assert!(!rig.process_keyboard(KeyCode::Other, true));
    rig.process_mouse(100, 200);
    rig.process_scroll(&ScrollDelta::PixelDelta(50));
    rig.update_camera(FX_ONE / 60);

    let mut fps = CameraRig::new_first_person(v(0, 0, 0));
    assert!(fps.process_keyboard(KeyCode::Space, true));
    fps.update_camera(FX_ONE / 60);
    let up = fps.camera.get_position().y;
    assert!(up > 0, "rose by {up}");
}
