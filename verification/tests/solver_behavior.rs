use pose_solver::landmarks::{body_slot, face_slot, hand_slot, FaceIndex, HandIndex, MainBodyIndex};
use pose_solver::result::PoseSolverResult;
use pose_solver::rotation::Rotation;
use pose_solver::solver::{PoseSolver, Side};
use pose_solver::vec3::Vec3;

const FX: i64 = 1_000_000;

fn v(x: i64, y: i64, z: i64) -> Vec3 {
    Vec3 { x, y, z }
}

/// A plausible non-degenerate body frame: shoulders and hips offset both
/// horizontally and vertically so that no solved joint collapses to a
/// degenerate segment.
fn sample_body() -> Vec<Vec3> {
    let mut body = vec![v(0, 0, 0); 33];
    body[body_slot(MainBodyIndex::Nose)] = v(0, -1_500_000, -300_000);
    body[body_slot(MainBodyIndex::LeftShoulder)] = v(1_000_000, -1_000_000, 0);
    body[body_slot(MainBodyIndex::RightShoulder)] = v(-1_000_000, -900_000, 100_000);
    body[body_slot(MainBodyIndex::LeftElbow)] = v(1_500_000, -200_000, 100_000);
    body[body_slot(MainBodyIndex::RightElbow)] = v(-1_600_000, -100_000, 0);
    body[body_slot(MainBodyIndex::LeftWrist)] = v(1_800_000, 500_000, 200_000);
    body[body_slot(MainBodyIndex::RightWrist)] = v(-1_900_000, 600_000, -100_000);
    body[body_slot(MainBodyIndex::LeftHip)] = v(600_000, 1_000_000, 0);
    body[body_slot(MainBodyIndex::RightHip)] = v(-600_000, 1_100_000, 50_000);
    body[body_slot(MainBodyIndex::LeftKnee)] = v(700_000, 2_000_000, 100_000);
    body[body_slot(MainBodyIndex::RightKnee)] = v(-800_000, 2_100_000, 0);
    body
}

fn sample_hand(offset: i64) -> Vec<Vec3> {
    let mut hand = Vec::new();
    let mut i: i64 = 0;
    while i < 21 {
        hand.push(v(offset + 40_000 * i, 100_000 + 30_000 * i, -20_000 * i));
        i += 1;
    }
    hand
}

#[test]
fn empty_body_yields_default_result() {
    let solver = PoseSolver::new();
    let empty: Vec<Vec3> = Vec::new();
    let r = solver.solve(&empty, &empty, &empty, &empty);
    assert_eq!(r, PoseSolverResult::new());
}

#[test]
fn empty_body_yields_default_even_with_other_streams() {
    let solver = PoseSolver::new();
    let empty: Vec<Vec3> = Vec::new();
    let r = solver.solve(&empty, &sample_hand(0), &sample_hand(500_000), &vec![v(0, 0, 0); 478]);
    assert_eq!(r, PoseSolverResult::new());
}

#[test]
fn solve_is_deterministic() {
    let solver = PoseSolver::new();
    let body = sample_body();
    let lh = sample_hand(100_000);
    let rh = sample_hand(-900_000);
    let empty: Vec<Vec3> = Vec::new();
    let first = solver.solve(&body, &lh, &rh, &empty);
    let second = solver.solve(&body, &lh, &rh, &empty);
    assert_eq!(first, second);
}

#[test]
fn missing_hand_leaves_hand_fields_identity() {
    let solver = PoseSolver::new();
    let body = sample_body();
    let empty: Vec<Vec3> = Vec::new();
    let r = solver.solve(&body, &empty, &empty, &empty);
    let id = Rotation::default();
    assert_eq!(r.left_wrist, id);
    assert_eq!(r.left_thumb_cmc, id);
    assert_eq!(r.left_index_finger_mcp, id);
    assert_eq!(r.left_pinky_finger_dip, id);
    assert_eq!(r.right_wrist, id);
    assert_eq!(r.right_middle_finger_pip, id);
    // body-dependent fields are computed from the non-degenerate geometry
    assert_ne!(r.upper_body, id);
    assert_ne!(r.lower_body, id);
    assert_ne!(r.neck, id);
    assert_ne!(r.left_upper_arm, id);
    assert_ne!(r.right_upper_arm, id);
    assert_ne!(r.left_lower_arm, id);
    assert_ne!(r.right_lower_arm, id);
}

#[test]
fn present_hand_fills_hand_fields() {
    let solver = PoseSolver::new();
    let body = sample_body();
    let lh = sample_hand(100_000);
    let empty: Vec<Vec3> = Vec::new();
    let r = solver.solve(&body, &lh, &empty, &empty);
    let id = Rotation::default();
    assert_ne!(r.left_wrist, id);
    assert_ne!(r.left_index_finger_mcp, id);
    // the other hand's fields stay at the identity
    assert_eq!(r.right_wrist, id);
    assert_eq!(r.right_index_finger_mcp, id);
}

#[test]
fn hand_stream_does_not_change_body_fields() {
    let solver = PoseSolver::new();
    let body = sample_body();
    let lh = sample_hand(100_000);
    let empty: Vec<Vec3> = Vec::new();
    let bare = solver.solve(&body, &empty, &empty, &empty);
    let with_hand = solver.solve(&body, &lh, &empty, &empty);
    assert_eq!(bare.upper_body, with_hand.upper_body);
    assert_eq!(bare.neck, with_hand.neck);
    assert_eq!(bare.left_lower_arm, with_hand.left_lower_arm);
    assert_eq!(bare.right_hip, with_hand.right_hip);
}

#[test]
fn solve_matches_per_joint_calculations() {
    let solver = PoseSolver::new();
    let body = sample_body();
    let empty: Vec<Vec3> = Vec::new();
    let r = solver.solve(&body, &empty, &empty, &empty);
    let ls = body[body_slot(MainBodyIndex::LeftShoulder)];
    let rs = body[body_slot(MainBodyIndex::RightShoulder)];
    let upper = solver.calculate_upper_body_rotation(&ls, &rs);
    assert_eq!(r.upper_body, upper);
    let le = body[body_slot(MainBodyIndex::LeftElbow)];
    assert_eq!(
        r.left_upper_arm,
        solver.calculate_upper_arm_rotation(&ls, &le, &upper, Side::Left),
    );
    let lh = body[body_slot(MainBodyIndex::LeftHip)];
    let rh = body[body_slot(MainBodyIndex::RightHip)];
    let lower = solver.calculate_lower_body_rotation(&lh, &rh);
    assert_eq!(r.lower_body, lower);
    let lk = body[body_slot(MainBodyIndex::LeftKnee)];
    let hip = solver.calculate_hip_rotation(&lh, &lk, &lower);
    assert_eq!(r.left_hip, hip);
    assert_eq!(r.left_foot, hip);
}

#[test]
fn all_output_rotations_are_near_unit() {
    let solver = PoseSolver::new();
    let body = sample_body();
    let lh = sample_hand(100_000);
    let rh = sample_hand(-900_000);
    let r = solver.solve(&body, &lh, &rh, &Vec::new());
    let quats = [
        r.upper_body,
        r.lower_body,
        r.neck,
        r.left_hip,
        r.right_hip,
        r.left_foot,
        r.right_foot,
        r.left_upper_arm,
        r.right_upper_arm,
        r.left_lower_arm,
        r.right_lower_arm,
        r.left_wrist,
        r.right_wrist,
        r.left_thumb_cmc,
        r.left_index_finger_pip,
        r.right_ring_finger_dip,
        r.left_eye_rotation,
        r.right_eye_rotation,
    ];
    for q in quats {
        let ns = q.x() * q.x() + q.y() * q.y() + q.z() * q.z() + q.w() * q.w();
        assert!((ns - FX * FX).abs() <= 4_000_000_000);
    }
}

#[test]
fn hip_clamp_caps_extreme_bend_at_quarter_turn() {
    let solver = PoseSolver::new();
    let id = Rotation::default();
    // both knee positions imply a bend beyond ninety degrees from
    // straight down; the clamp makes them the same quarter-turn
    let near = solver.calculate_hip_rotation(&v(0, 0, 0), &v(1_000_000, -1_000_000, 0), &id);
    let far = solver.calculate_hip_rotation(&v(0, 0, 0), &v(1_000_000, -3_000_000, 0), &id);
    assert_eq!(near, Rotation::new(0, 0, 707_107, 707_107));
    assert_eq!(far, Rotation::new(0, 0, 707_107, 707_107));
    assert_eq!(near, far);
}

#[test]
fn hip_without_clamp_follows_the_leg() {
    let solver = PoseSolver::new();
    let id = Rotation::default();
    // a knee forward and down bends less than ninety degrees
    let r = solver.calculate_hip_rotation(&v(0, 0, 0), &v(0, 1_000_000, -1_000_000), &id);
    assert_ne!(r, Rotation::default());
    assert_ne!(r, Rotation::new(0, 0, 707_107, 707_107));
}

#[test]
fn degenerate_segment_yields_identity_joint() {
    let solver = PoseSolver::new();
    let id = Rotation::default();
    let p = v(500_000, 500_000, 500_000);
    assert_eq!(
        solver.calculate_upper_arm_rotation(&p, &p, &id, Side::Left),
        Rotation::default(),
    );
    assert_eq!(solver.calculate_hip_rotation(&p, &p, &id), Rotation::default());
}

#[test]
fn finger_rotation_mirrors_between_sides() {
    let solver = PoseSolver::new();
    let id = Rotation::default();
    let o = v(100_000, 200_000, 50_000);
    let t = v(600_000, 900_000, -250_000);
    let mo = v(-o.x, o.y, o.z);
    let mt = v(-t.x, t.y, t.z);
    let left = solver.calculate_finger_rotation(&o, &t, &id, Side::Left);
    let right = solver.calculate_finger_rotation(&mo, &mt, &id, Side::Right);
    assert_eq!(left, Rotation::new(118_472, 118_472, -78_981, 982_696));
    assert_eq!(right.x(), left.x());
    assert_eq!(right.y(), -left.y());
    assert_eq!(right.z(), -left.z());
    assert_eq!(right.w(), left.w());
}

#[test]
fn thumb_rotation_mirrors_between_sides() {
    let solver = PoseSolver::new();
    let id = Rotation::default();
    let o = v(0, 0, 0);
    let t = v(300_000, 400_000, 500_000);
    let left = solver.calculate_thumb_rotation(&o, &t, &id, Side::Left);
    let right = solver.calculate_thumb_rotation(&o, &v(-t.x, t.y, t.z), &id, Side::Right);
    assert_eq!(right.x(), left.x());
    assert_eq!(right.y(), -left.y());
    assert_eq!(right.z(), -left.z());
    assert_eq!(right.w(), left.w());
}

#[test]
fn upper_arm_sample_value() {
    let solver = PoseSolver::new();
    let id = Rotation::default();
    let r = solver.calculate_upper_arm_rotation(
        &v(0, 0, 0),
        &v(500_000, 800_000, 100_000),
        &id,
        Side::Left,
    );
    assert_eq!(r, Rotation::new(-37_560, -37_560, -112_681, 992_210));
}

#[test]
fn try_solve_accepts_well_formed_frames() {
    let solver = PoseSolver::new();
    let body = sample_body();
    let empty: Vec<Vec3> = Vec::new();
    let r = solver.try_solve(&body, &empty, &empty, &empty);
    assert!(r.is_some());
    assert_eq!(r.unwrap(), solver.solve(&body, &empty, &empty, &empty));
}

#[test]
fn try_solve_rejects_wrong_length_body() {
    let solver = PoseSolver::new();
    let body = vec![v(0, 0, 0); 5];
    let empty: Vec<Vec3> = Vec::new();
    assert!(solver.try_solve(&body, &empty, &empty, &empty).is_none());
}

#[test]
fn try_solve_rejects_out_of_band_coordinates() {
    let solver = PoseSolver::new();
    let mut body = sample_body();
    body[0] = v(9_000_000, 0, 0);
    let empty: Vec<Vec3> = Vec::new();
    assert!(solver.try_solve(&body, &empty, &empty, &empty).is_none());
}

#[test]
fn try_solve_rejects_short_face_stream() {
    let solver = PoseSolver::new();
    let body = sample_body();
    let empty: Vec<Vec3> = Vec::new();
    let face = vec![v(0, 0, 0); 100];
    assert!(solver.try_solve(&body, &empty, &empty, &face).is_none());
}

#[test]
fn landmark_slots_match_their_stream_positions() {
    assert_eq!(body_slot(MainBodyIndex::Nose), 0);
    assert_eq!(body_slot(MainBodyIndex::LeftShoulder), 11);
    assert_eq!(body_slot(MainBodyIndex::RightFootIndex), 32);
    assert_eq!(hand_slot(HandIndex::Wrist), 0);
    assert_eq!(hand_slot(HandIndex::PinkyMCP), 17);
    assert_eq!(hand_slot(HandIndex::PinkyTip), 20);
    assert_eq!(face_slot(FaceIndex::LeftEyeIris), 468);
    assert_eq!(face_slot(FaceIndex::RightEyeIris), 473);
    assert_eq!(face_slot(FaceIndex::UpperLipCenter), 0);
}

#[test]
fn result_starts_all_default() {
    let r = PoseSolverResult::new();
    assert_eq!(r.upper_body, Rotation::default());
    assert_eq!(r.right_pinky_finger_dip, Rotation::default());
    assert_eq!(r.left_eye_openness, 0);
    assert_eq!(r.right_eye_openness, 0);
    assert_eq!(r.mouth_openness, 0);
}
