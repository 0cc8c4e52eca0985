//! Camera state, input handling and matrix idempotence.

use mandelwow::Fx;
use mandelwow::vec3::Vec3;
use mandelwow::camera::{CameraState, InputEvent, Key};

#[test]
fn matrices_are_idempotent_between_updates() {
    let cam = CameraState::new();
    let v1 = cam.get_view();
    let v2 = cam.get_view();
    assert_eq!(v1, v2);
    let p1 = cam.get_perspective();
    let p2 = cam.get_perspective();
    assert_eq!(p1, p2);
    let pv1 = cam.get_perspview();
    let pv2 = cam.get_perspview();
    assert_eq!(pv1, pv2);
}

#[test]
fn startup_pose() {
    let cam = CameraState::new();
    assert_eq!(cam.get_pos(), Vec3(Fx(0), Fx(0), Fx(0)));
    assert_eq!(cam.dir, Vec3(Fx(0), Fx(0), Fx(-65536)));
}

#[test]
fn perspective_entries() {
    let cam = CameraState::new();
    let p = cam.get_persp_mat();
    // focal factor 1.0 over the 16:9 aspect
    assert_eq!(p.x.x, Fx(36864));
    assert_eq!(p.y.y, Fx(65536));
    assert_eq!(p.z.z, Fx(65548));
    assert_eq!(p.z.w, Fx(65536));
    assert_eq!(p.w.z, Fx(-13109));
    assert_eq!(p.w.w, Fx(0));
}

#[test]
fn walk_forward_moves_along_view_direction() {
    let mut cam = CameraState::new();
    cam.process_input(&InputEvent::KeyPressed(Key::W));
    assert!(cam.moving_forward);
    cam.update();
    // one step at walk speed along -z
    assert_eq!(cam.get_pos(), Vec3(Fx(0), Fx(0), Fx(-655)));
    cam.process_input(&InputEvent::KeyReleased(Key::W));
    assert!(!cam.moving_forward);
    cam.update();
    assert_eq!(cam.get_pos(), Vec3(Fx(0), Fx(0), Fx(-655)));
}

#[test]
fn mouse_motion_accumulates_relative_deltas() {
    let mut cam = CameraState::new();
    // the first position only calibrates the origin
    cam.process_input(&InputEvent::MouseMoved(100, 100));
    assert_eq!(cam.rel_x, 0);
    assert_eq!(cam.rel_y, 0);
    cam.process_input(&InputEvent::MouseMoved(110, 95));
    assert_eq!(cam.rel_x, 10);
    assert_eq!(cam.rel_y, -5);
    cam.update();
    // the update consumes the accumulated deltas
    assert_eq!(cam.rel_x, 0);
    assert_eq!(cam.rel_y, 0);
}

#[test]
fn view_unchanged_by_idle_update() {
    let mut cam = CameraState::new();
    let before = cam.get_view();
    cam.update();
    let after = cam.get_view();
    // no intents, no pan deltas: the pose is a fixed point of the update
    assert_eq!(before, after);
}
