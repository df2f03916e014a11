use pose_solver::rotation::{ham, qnormalize, rotation_between, Rotation};
use pose_solver::vec3::{normalize, vcross, vdot_raw_exec, vsub, Vec3};

const FX: i64 = 1_000_000;

fn v(x: i64, y: i64, z: i64) -> Vec3 {
    Vec3 { x, y, z }
}

#[test]
fn rotation_default_is_identity() {
    let r = Rotation::default();
    assert_eq!(r.x(), 0);
    assert_eq!(r.y(), 0);
    assert_eq!(r.z(), 0);
    assert_eq!(r.w(), FX);
}

#[test]
fn rotation_new_carries_components() {
    let r = Rotation::new(1, -2, 3, 999_999);
    assert_eq!(r.x(), 1);
    assert_eq!(r.y(), -2);
    assert_eq!(r.z(), 3);
    assert_eq!(r.w(), 999_999);
}

#[test]
fn normalize_unit_axis_is_exact() {
    let u = normalize(&v(2_500_000, 0, 0)).unwrap();
    assert_eq!(u, v(FX, 0, 0));
}

#[test]
fn normalize_zero_vector_is_degenerate() {
    assert!(normalize(&v(0, 0, 0)).is_none());
}

#[test]
fn normalize_diagonal() {
    let u = normalize(&v(1_000_000, -1_000_000, 0)).unwrap();
    assert_eq!(u, v(707_107, -707_107, 0));
}

#[test]
fn cross_of_axes() {
    let c = vcross(&v(FX, 0, 0), &v(0, FX, 0));
    assert_eq!(c, v(0, 0, FX));
}

#[test]
fn dot_of_orthogonal_axes_is_zero() {
    assert_eq!(vdot_raw_exec(&v(FX, 0, 0), &v(0, FX, 0)), 0);
}

#[test]
fn sub_is_componentwise() {
    assert_eq!(vsub(&v(5, 7, -2), &v(1, 10, 4)), v(4, -3, -6));
}

#[test]
fn rotation_between_same_direction_is_identity() {
    let d = v(300_000, 400_000, 0);
    assert_eq!(rotation_between(&d, &d), Rotation::default());
}

#[test]
fn rotation_between_same_direction_is_identity_for_any_scale() {
    let d = v(-7_123_456, 55, 999);
    assert_eq!(rotation_between(&d, &d), Rotation::default());
}

#[test]
fn rotation_between_degenerate_input_is_identity() {
    let z = v(0, 0, 0);
    assert_eq!(rotation_between(&z, &v(FX, 0, 0)), Rotation::default());
    assert_eq!(rotation_between(&v(FX, 0, 0), &z), Rotation::default());
}

#[test]
fn rotation_between_quarter_turn() {
    // carrying +x onto +y is a quarter turn about +z
    let r = rotation_between(&v(FX, 0, 0), &v(0, FX, 0));
    assert_eq!(r, Rotation::new(0, 0, 707_107, 707_107));
}

#[test]
fn rotation_between_antiparallel_is_identity() {
    // no unique minimal arc exists, so the solver degrades to no rotation
    let r = rotation_between(&v(FX, 0, 0), &v(-FX, 0, 0));
    assert_eq!(r, Rotation::default());
}

#[test]
fn ham_with_identity_is_exact() {
    let q = Rotation::new(100_000, -200_000, 300_000, 900_000);
    let id = Rotation::default();
    assert_eq!(ham(&q, &id), q);
    assert_eq!(ham(&id, &q), q);
}

#[test]
fn qnormalize_keeps_unit_norm_within_tolerance() {
    let q = qnormalize(&Rotation::new(250_000, -250_000, 250_000, 250_000));
    let ns = q.x() * q.x() + q.y() * q.y() + q.z() * q.z() + q.w() * q.w();
    assert!((ns - FX * FX).abs() <= 4_000_000_000);
}

#[test]
fn qnormalize_of_degenerate_is_identity() {
    assert_eq!(qnormalize(&Rotation::new(0, 0, 0, 0)), Rotation::default());
    assert_eq!(qnormalize(&Rotation::new(10, -10, 5, 3)), Rotation::default());
}
