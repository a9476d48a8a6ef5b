use fps_camera::camera::{CameraState, PITCH_LIMIT_MICRORAD};
use fps_camera::input::{InputSnapshot, MouseDelta};
use fps_camera::motion::move_intent;

fn locked_keys(
    forward: bool,
    backward: bool,
    left: bool,
    right: bool,
    ascend: bool,
    descend: bool,
) -> InputSnapshot {
    InputSnapshot { forward, backward, left, right, ascend, descend, cursor_locked: true }
}

const MICRO: f64 = 1.0e-6;

/// The camera's horizontal forward and right axes, evaluated in floats
/// the way the engine does: the local backward axis negated and
/// flattened to the horizontal plane.
fn horizontal_axes(yaw_rad: f64, pitch_rad: f64) -> ([f64; 3], [f64; 3]) {
    let local_z = [
        yaw_rad.sin() * pitch_rad.cos(),
        -pitch_rad.sin(),
        yaw_rad.cos() * pitch_rad.cos(),
    ];
    let forward = [-local_z[0], 0.0, -local_z[2]];
    let right = [local_z[2], 0.0, -local_z[0]];
    (forward, right)
}

fn norm(v: [f64; 3]) -> f64 {
    (v[0] * v[0] + v[1] * v[1] + v[2] * v[2]).sqrt()
}

#[test]
fn empty_tick_changes_nothing() {
    let state = CameraState::new(123_456, -7_890);
    let deltas: Vec<MouseDelta> = Vec::new();
    let input = InputSnapshot::released(true);
    let out = state.on_tick(&input, &deltas, 5_000, 1_000_000, 16_667);
    assert_eq!(out.state, state);
    assert_eq!(out.intent.forward, 0);
    assert_eq!(out.intent.right, 0);
    assert_eq!(out.intent.up, 0);
    assert_eq!(out.intent.norm_sq, 0);
}

#[test]
fn unlocked_input_is_drained_without_effect() {
    let state = CameraState::new(42, 37);
    let deltas: Vec<MouseDelta> = vec![
        MouseDelta { dx: 100_000, dy: -100_000 },
        MouseDelta { dx: -2_000_000, dy: 2_000_000 },
    ];
    let mut input = locked_keys(true, false, false, true, true, false);
    input.cursor_locked = false;
    let out = state.on_tick(&input, &deltas, 60_000, 1_000_000, 16_667);
    assert_eq!(out.state, state);
    assert_eq!(out.intent.norm_sq, 0);
    assert_eq!(out.intent.forward, 0);
    assert_eq!(out.intent.right, 0);
    assert_eq!(out.intent.up, 0);
}

#[test]
fn yaw_turn_scenario() {
    // One sample of dx = 100 at 0.1 degrees per count: the yaw drops by
    // ten degrees; the pitch and the position are untouched.
    let state = CameraState::new(0, 0);
    let deltas: Vec<MouseDelta> = vec![MouseDelta { dx: 100, dy: 0 }];
    // 0.1 degrees per count is 1745.329... microradians; the controller
    // works on whole microradians.
    let sensitivity: u32 = 1_745;
    let input = InputSnapshot::released(true);
    let out = state.on_tick(&input, &deltas, sensitivity, 1_000_000, 1_000_000);
    assert_eq!(out.state.yaw_microrad, -174_500);
    assert_eq!(out.state.pitch_microrad, 0);
    let ten_degrees: f64 = 10.0_f64.to_radians();
    let turned: f64 = -(out.state.yaw_microrad as f64) * MICRO;
    assert!((turned - ten_degrees).abs() < 1.0e-3);
    assert_eq!(out.intent.norm_sq, 0);
}

#[test]
fn diagonal_step_scenario() {
    // W and D together for one second at speed one: the displacement
    // has magnitude exactly one and bisects forward and right.
    let state = CameraState::new(0, 0);
    let deltas: Vec<MouseDelta> = Vec::new();
    let input = locked_keys(true, false, false, true, false, false);
    let out = state.on_tick(&input, &deltas, 0, 1_000_000, 1_000_000);
    assert_eq!(out.intent.forward, 1);
    assert_eq!(out.intent.right, 1);
    assert_eq!(out.intent.up, 0);
    assert_eq!(out.intent.norm_sq, 2);
    assert_eq!(out.step_length_pico, 1_000_000_000_000);

    let (forward, right) = horizontal_axes(0.0, 0.0);
    let step: f64 = (out.step_length_pico as f64) * MICRO * MICRO;
    let raw = [
        out.intent.forward as f64 * forward[0] + out.intent.right as f64 * right[0],
        0.0,
        out.intent.forward as f64 * forward[2] + out.intent.right as f64 * right[2],
    ];
    let scale: f64 = step / norm(raw);
    let disp = [raw[0] * scale, raw[1] * scale, raw[2] * scale];
    assert!((norm(disp) - 1.0).abs() < 1.0e-12);
    let along_forward: f64 = disp[0] * forward[0] + disp[1] * forward[1] + disp[2] * forward[2];
    let along_right: f64 = disp[0] * right[0] + disp[1] * right[1] + disp[2] * right[2];
    assert!((along_forward - along_right).abs() < 1.0e-12);
    assert!(along_forward > 0.0);
}

#[test]
fn pitch_stays_clamped_under_large_input() {
    let state = CameraState::new(0, 0);
    let mut deltas: Vec<MouseDelta> = Vec::new();
    for _ in 0..1000 {
        deltas.push(MouseDelta { dx: 0, dy: 1_000_000 });
    }
    let turned = state.apply_look(&deltas, 4_000_000, true);
    assert_eq!(turned.pitch_microrad, -PITCH_LIMIT_MICRORAD);

    let mut up_deltas: Vec<MouseDelta> = Vec::new();
    for _ in 0..1000 {
        up_deltas.push(MouseDelta { dx: 0, dy: -1_000_000 });
    }
    let raised = turned.apply_look(&up_deltas, 4_000_000, true);
    assert_eq!(raised.pitch_microrad, PITCH_LIMIT_MICRORAD);
}

#[test]
fn pitch_clamp_applies_per_sample() {
    // A huge downward sample followed by a moderate upward one: the
    // clamp catches the first sample before the second applies, so the
    // result starts from the clamp bound, not from the raw sum.
    let state = CameraState::new(0, 0);
    let deltas: Vec<MouseDelta> =
        vec![MouseDelta { dx: 0, dy: 2_000_000 }, MouseDelta { dx: 0, dy: -1_000_000 }];
    let turned = state.apply_look(&deltas, 1, true);
    assert_eq!(turned.pitch_microrad, -PITCH_LIMIT_MICRORAD + 1_000_000);
}

#[test]
fn yaw_accumulates_without_clamp() {
    let state = CameraState::new(0, 0);
    let deltas: Vec<MouseDelta> = vec![MouseDelta { dx: 2_000_000, dy: 0 }];
    let turned = state.apply_look(&deltas, 2, true);
    assert_eq!(turned.yaw_microrad, -4_000_000);
    assert_eq!(turned.pitch_microrad, 0);
}

#[test]
fn samples_drain_in_order_and_sum() {
    let state = CameraState::new(1_000, 2_000);
    let deltas: Vec<MouseDelta> = vec![
        MouseDelta { dx: 10, dy: -5 },
        MouseDelta { dx: -3, dy: 8 },
        MouseDelta { dx: 7, dy: 0 },
    ];
    let turned = state.apply_look(&deltas, 100, true);
    // Away from the clamp the per-sample updates add up linearly.
    assert_eq!(turned.yaw_microrad, 1_000 - 100 * (10 - 3 + 7));
    assert_eq!(turned.pitch_microrad, 2_000 - 100 * (-5 + 8));
}

#[test]
fn opposed_keys_cancel() {
    let input = locked_keys(true, true, true, true, true, true);
    let intent = move_intent(&input);
    assert_eq!(intent.forward, 0);
    assert_eq!(intent.right, 0);
    assert_eq!(intent.up, 0);
    assert_eq!(intent.norm_sq, 0);
}

#[test]
fn single_keys_pick_their_axes() {
    let w = move_intent(&locked_keys(true, false, false, false, false, false));
    assert_eq!((w.forward, w.right, w.up, w.norm_sq), (1, 0, 0, 1));
    let s = move_intent(&locked_keys(false, true, false, false, false, false));
    assert_eq!((s.forward, s.right, s.up, s.norm_sq), (-1, 0, 0, 1));
    let a = move_intent(&locked_keys(false, false, true, false, false, false));
    assert_eq!((a.forward, a.right, a.up, a.norm_sq), (0, -1, 0, 1));
    let d = move_intent(&locked_keys(false, false, false, true, false, false));
    assert_eq!((d.forward, d.right, d.up, d.norm_sq), (0, 1, 0, 1));
    let space = move_intent(&locked_keys(false, false, false, false, true, false));
    assert_eq!((space.forward, space.right, space.up, space.norm_sq), (0, 0, 1, 1));
    let shift = move_intent(&locked_keys(false, false, false, false, false, true));
    assert_eq!((shift.forward, shift.right, shift.up, shift.norm_sq), (0, 0, -1, 1));
}

#[test]
fn diagonal_displacement_keeps_speed() {
    // Every combination of two or more keys with a nonzero sum moves
    // exactly speed · dt over the tick, at an arbitrary orientation.
    let yaw_rad: f64 = 0.52;
    let pitch_rad: f64 = -0.35;
    let state = CameraState::new((yaw_rad / MICRO) as i64, (pitch_rad / MICRO) as i64);
    let combos: Vec<InputSnapshot> = vec![
        locked_keys(true, false, false, true, false, false),
        locked_keys(true, false, false, false, true, false),
        locked_keys(false, true, true, false, false, true),
        locked_keys(true, false, false, true, true, false),
    ];
    let speed_dt: f64 = 2.5 * 0.016;
    for input in combos {
        let intent = move_intent(&input);
        assert!(intent.norm_sq > 0);
        let (forward, right) = horizontal_axes(
            state.yaw_microrad as f64 * MICRO,
            state.pitch_microrad as f64 * MICRO,
        );
        let raw = [
            intent.forward as f64 * forward[0] + intent.right as f64 * right[0],
            intent.up as f64,
            intent.forward as f64 * forward[2] + intent.right as f64 * right[2],
        ];
        let scale: f64 = speed_dt / norm(raw);
        let disp = [raw[0] * scale, raw[1] * scale, raw[2] * scale];
        assert!((norm(disp) - speed_dt).abs() < 1.0e-9);
    }
}

fn yaw_rotation(angle: f64) -> [[f64; 3]; 3] {
    let (s, c) = angle.sin_cos();
    [[c, 0.0, s], [0.0, 1.0, 0.0], [-s, 0.0, c]]
}

fn pitch_rotation(angle: f64) -> [[f64; 3]; 3] {
    let (s, c) = angle.sin_cos();
    [[1.0, 0.0, 0.0], [0.0, c, -s], [0.0, s, c]]
}

fn mat_vec(m: [[f64; 3]; 3], v: [f64; 3]) -> [f64; 3] {
    [
        m[0][0] * v[0] + m[0][1] * v[1] + m[0][2] * v[2],
        m[1][0] * v[0] + m[1][1] * v[1] + m[1][2] * v[2],
        m[2][0] * v[0] + m[2][1] * v[1] + m[2][2] * v[2],
    ]
}

#[test]
fn yaw_never_tilts_the_right_axis() {
    // The numeric mirror of the no-roll law: with yaw applied outside
    // pitch the right axis stays level and the up axis keeps exactly
    // the world-up projection of a pure pitch — while the reversed
    // composition rolls the right axis visibly off the horizontal.
    let pairs: Vec<(f64, f64)> = vec![(0.8, 0.4), (-2.4, 1.2), (3.0, -1.5)];
    for (yaw, pitch) in pairs {
        let right = mat_vec(yaw_rotation(yaw), mat_vec(pitch_rotation(pitch), [1.0, 0.0, 0.0]));
        assert!(right[1].abs() < 1.0e-12);
        let up = mat_vec(yaw_rotation(yaw), mat_vec(pitch_rotation(pitch), [0.0, 1.0, 0.0]));
        assert!((up[1] - pitch.cos()).abs() < 1.0e-12);
        let rolled = mat_vec(pitch_rotation(pitch), mat_vec(yaw_rotation(yaw), [1.0, 0.0, 0.0]));
        assert!(rolled[1].abs() > 0.1);
    }
}

#[test]
fn step_length_is_speed_times_dt() {
    let state = CameraState::new(0, 0);
    let deltas: Vec<MouseDelta> = Vec::new();
    let input = InputSnapshot::released(true);
    let out = state.on_tick(&input, &deltas, 0, 2_500_000, 16_000);
    assert_eq!(out.step_length_pico, 40_000_000_000);
}

#[test]
fn constructors_keep_their_fields() {
    let s = CameraState::new(-5, 7);
    assert_eq!(s.yaw_microrad, -5);
    assert_eq!(s.pitch_microrad, 7);
    let level = CameraState::level(99);
    assert_eq!(level.yaw_microrad, 99);
    assert_eq!(level.pitch_microrad, 0);
    let released = InputSnapshot::released(false);
    assert!(!released.cursor_locked);
    assert!(!released.forward && !released.backward);
}
