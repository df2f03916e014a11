use pose_solver::landmarks::{body_slot, face_slot, FaceIndex, MainBodyIndex};
use pose_solver::rotation::Rotation;
use pose_solver::solver::PoseSolver;
use pose_solver::vec3::Vec3;

fn v(x: i64, y: i64, z: i64) -> Vec3 {
    Vec3 { x, y, z }
}

fn minimal_body() -> Vec<Vec3> {
    let mut body = vec![v(0, 0, 0); 33];
    body[body_slot(MainBodyIndex::Nose)] = v(0, -1_500_000, -300_000);
    body[body_slot(MainBodyIndex::LeftShoulder)] = v(1_000_000, -1_000_000, 0);
    body[body_slot(MainBodyIndex::RightShoulder)] = v(-1_000_000, -900_000, 100_000);
    body[body_slot(MainBodyIndex::LeftHip)] = v(600_000, 1_000_000, 0);
    body[body_slot(MainBodyIndex::RightHip)] = v(-600_000, 1_100_000, 50_000);
    body
}

/// A face frame whose eye boxes, irises and mouth are placed at exact
/// fixed-point values.
fn sample_face() -> Vec<Vec3> {
    let mut face = vec![v(0, 0, 0); 478];
    face[face_slot(FaceIndex::LeftEyeLeft)] = v(0, 0, 0);
    face[face_slot(FaceIndex::LeftEyeRight)] = v(1_000_000, 0, 0);
    face[face_slot(FaceIndex::LeftEyeIris)] = v(600_000, 100_000, 0);
    face[face_slot(FaceIndex::LeftEyeUpper)] = v(500_000, -300_000, 0);
    face[face_slot(FaceIndex::LeftEyeLower)] = v(500_000, 0, 0);
    face[face_slot(FaceIndex::RightEyeLeft)] = v(2_000_000, 0, 0);
    face[face_slot(FaceIndex::RightEyeRight)] = v(3_000_000, 0, 0);
    face[face_slot(FaceIndex::RightEyeIris)] = v(2_600_000, 100_000, 0);
    face[face_slot(FaceIndex::RightEyeUpper)] = v(2_500_000, -107_500, 0);
    face[face_slot(FaceIndex::RightEyeLower)] = v(2_500_000, 107_500, 0);
    face[face_slot(FaceIndex::UpperLipTop)] = v(0, 0, 0);
    face[face_slot(FaceIndex::LowerLipBottom)] = v(0, 600_000, 0);
    face[face_slot(FaceIndex::MouthLeft)] = v(-1_000_000, 300_000, 0);
    face[face_slot(FaceIndex::MouthRight)] = v(1_000_000, 300_000, 0);
    face
}

#[test]
fn eye_gaze_inside_the_eye_box() {
    let solver = PoseSolver::new();
    let g = solver.calculate_eye_gaze(&v(0, 0, 0), &v(1_000_000, 0, 0), &v(600_000, 100_000, 0));
    assert_eq!(g, (200_000, 400_000));
}

#[test]
fn eye_gaze_clamps_to_its_bands() {
    let solver = PoseSolver::new();
    let g = solver.calculate_eye_gaze(
        &v(0, 0, 0),
        &v(1_000_000, 0, 0),
        &v(3_000_000, 2_000_000, 0),
    );
    assert_eq!(g, (1_000_000, 500_000));
}

#[test]
fn eye_gaze_of_degenerate_eye_box_is_centered() {
    let solver = PoseSolver::new();
    let p = v(500_000, 500_000, 0);
    assert_eq!(solver.calculate_eye_gaze(&p, &p, &v(700_000, 0, 0)), (0, 0));
}

#[test]
fn eye_openness_closed_at_or_under_the_floor() {
    let solver = PoseSolver::new();
    // aspect ratio 0.15 exactly
    let r = solver.calculate_eye_openness(
        &v(0, 0, 0),
        &v(1_000_000, 0, 0),
        &v(500_000, -150_000, 0),
        &v(500_000, 0, 0),
    );
    assert_eq!(r, 0);
}

#[test]
fn eye_openness_open_at_or_over_the_ceiling() {
    let solver = PoseSolver::new();
    // aspect ratio 0.30
    let r = solver.calculate_eye_openness(
        &v(0, 0, 0),
        &v(1_000_000, 0, 0),
        &v(500_000, -300_000, 0),
        &v(500_000, 0, 0),
    );
    assert_eq!(r, 1_000_000);
}

#[test]
fn eye_openness_midpoint_is_half() {
    let solver = PoseSolver::new();
    // aspect ratio 0.215, the midpoint of the band
    let r = solver.calculate_eye_openness(
        &v(0, 0, 0),
        &v(1_000_000, 0, 0),
        &v(500_000, -215_000, 0),
        &v(500_000, 0, 0),
    );
    assert_eq!(r, 500_000);
}

#[test]
fn eye_openness_of_degenerate_eye_box_is_closed() {
    let solver = PoseSolver::new();
    let p = v(0, 0, 0);
    assert_eq!(solver.calculate_eye_openness(&p, &p, &p, &p), 0);
}

#[test]
fn mouth_openness_linear_value() {
    let solver = PoseSolver::new();
    let r = solver.calculate_mouth_openness(
        &v(0, 0, 0),
        &v(0, 600_000, 0),
        &v(-1_000_000, 300_000, 0),
        &v(1_000_000, 300_000, 0),
    );
    assert_eq!(r, 400_000);
}

#[test]
fn mouth_openness_clamps_at_its_ceiling() {
    let solver = PoseSolver::new();
    let r = solver.calculate_mouth_openness(
        &v(0, 0, 0),
        &v(0, 2_000_000, 0),
        &v(-500_000, 1_000_000, 0),
        &v(500_000, 1_000_000, 0),
    );
    assert_eq!(r, 700_000);
}

#[test]
fn mouth_openness_never_negative() {
    let solver = PoseSolver::new();
    // a lip gap under a tenth of the width clamps to zero
    let r = solver.calculate_mouth_openness(
        &v(0, 0, 0),
        &v(0, 100_000, 0),
        &v(-1_000_000, 50_000, 0),
        &v(1_000_000, 50_000, 0),
    );
    assert_eq!(r, 0);
}

#[test]
fn eye_rotation_from_averaged_gaze() {
    let solver = PoseSolver::new();
    let r = solver.calculate_eye_rotation(200_000, 400_000);
    assert_eq!(r, Rotation::new(52_265, -52_264, 2_739, 997_261));
}

#[test]
fn centered_gaze_gives_identity_eye_rotation() {
    let solver = PoseSolver::new();
    assert_eq!(solver.calculate_eye_rotation(0, 0), Rotation::default());
}

#[test]
fn face_stream_fills_face_fields() {
    let solver = PoseSolver::new();
    let body = minimal_body();
    let empty: Vec<Vec3> = Vec::new();
    let face = sample_face();
    let r = solver.solve(&body, &empty, &empty, &face);
    // the eyelid openness of each output eye reads the opposite side's
    // eye box
    assert_eq!(r.left_eye_openness, 500_000);
    assert_eq!(r.right_eye_openness, 1_000_000);
    assert_eq!(r.mouth_openness, 400_000);
    // both output eyes share the averaged gaze rotation
    assert_eq!(r.left_eye_rotation, r.right_eye_rotation);
    assert_eq!(r.left_eye_rotation, Rotation::new(52_265, -52_264, 2_739, 997_261));
}

#[test]
fn missing_face_leaves_face_fields_default() {
    let solver = PoseSolver::new();
    let body = minimal_body();
    let empty: Vec<Vec3> = Vec::new();
    let r = solver.solve(&body, &empty, &empty, &empty);
    assert_eq!(r.left_eye_openness, 0);
    assert_eq!(r.right_eye_openness, 0);
    assert_eq!(r.mouth_openness, 0);
    assert_eq!(r.left_eye_rotation, Rotation::default());
    assert_eq!(r.right_eye_rotation, Rotation::default());
}
