use vstd::prelude::*;

use crate::fixed::{
    clamp_i64, div_fx, iabs, isqrt_spec, isqrt_u64, lemma_abs_sq, lemma_isqrt_at_least, lemma_isqrt_bracket, lemma_tdiv_bound, lemma_tdiv_bound_by, lemma_tdiv_exact, lemma_tdiv_ordered, spec_clamp, tdiv, COORD_LIMIT, FX_ONE,
};
use crate::landmarks::{
    body_ok, body_point, check_body, check_face, check_hand, face_ok, face_point, hand_ok, hand_point, FaceIndex, HandIndex, MainBodyIndex,
};
use crate::result::{
    default_model, PoseSolverResult, ResultModel,
};
use crate::rotation::{
    axis_angle, conj, cos_half, cos_series, ham, iquat_identity, lemma_ham_bounded, lemma_identity_near_unit, lemma_mul_within2, lemma_unit_cross_dot_bounded, near_unit, qbounded, qnormalize, rotate_vec, rotation_between, sin_half, sin_series, spec_axis_angle, spec_conj, spec_cos_half, spec_cos_series, spec_ham, spec_qnormalize, spec_rotate, spec_rotation_between, spec_sin_half, spec_sin_series, IQuat, Rotation, ROT_LIMIT, TRIG_LIMIT,
};
use crate::vec3::{
    flip_y, lemma_component_le_len, lemma_mul_within, lemma_vlen_pos, normalize, spec_flip_y, spec_normalize, spec_vcross, spec_vmid, spec_vsub, vbounded, vcross, vdot_raw, vdot_raw_exec, vmid, vnorm_sq, vsub, IVec3, Vec3,
};

verus! {

/// Which side of the body a limb chain belongs to; it selects the sign
/// of the bind-pose direction.
#[derive(Clone, Copy, PartialEq, Eq, Structural, Debug)]
pub enum Side {
    Left,
    Right,
}

/// Bind-pose direction of the shoulder and hip lines: the positive
/// horizontal axis. Default directions are stored raw at the fixed-point
/// scale and normalized once, inside the rotation-between operation.
pub open spec fn spec_body_line_default() -> IVec3 {
    IVec3 { x: FX_ONE as int, y: 0, z: 0 }
}

/// Bind-pose direction of a leg: straight down.
pub open spec fn spec_hip_default() -> IVec3 {
    IVec3 { x: 0, y: -FX_ONE as int, z: 0 }
}

/// Bind-pose direction of an arm segment, outward and down by side.
pub open spec fn spec_arm_default(side: Side) -> IVec3 {
    match side {
        Side::Left => IVec3 { x: FX_ONE as int, y: -FX_ONE as int, z: 0 },
        Side::Right => IVec3 { x: -FX_ONE as int, y: -FX_ONE as int, z: 0 },
    }
}

/// Bind-pose direction of a finger segment, outward and down by side.
pub open spec fn spec_finger_default(side: Side) -> IVec3 {
    spec_arm_default(side)
}

/// Bind-pose direction of the hand from the wrist, outward, down and
/// toward the viewer by side.
pub open spec fn spec_wrist_default(side: Side) -> IVec3 {
    match side {
        Side::Left => IVec3 { x: FX_ONE as int, y: -FX_ONE as int, z: -FX_ONE as int },
        Side::Right => IVec3 { x: -FX_ONE as int, y: -FX_ONE as int, z: -FX_ONE as int },
    }
}

/// Bind-pose direction of a thumb segment, mirrored against the fingers.
pub open spec fn spec_thumb_default(side: Side) -> IVec3 {
    match side {
        Side::Left => IVec3 { x: -FX_ONE as int, y: -FX_ONE as int, z: -FX_ONE as int },
        Side::Right => IVec3 { x: FX_ONE as int, y: -FX_ONE as int, z: -FX_ONE as int },
    }
}

/// Executable body-line default.
pub fn body_line_default() -> (r: Vec3)
    ensures
        r@ == spec_body_line_default(),
        vbounded(r@, FX_ONE as int),
{
    Vec3 { x: FX_ONE, y: 0, z: 0 }
}

/// Executable leg default.
pub fn hip_default() -> (r: Vec3)
    ensures
        r@ == spec_hip_default(),
        vbounded(r@, FX_ONE as int),
{
    Vec3 { x: 0, y: -FX_ONE, z: 0 }
}

/// Executable arm default by side.
pub fn arm_default(side: Side) -> (r: Vec3)
    ensures
        r@ == spec_arm_default(side),
        vbounded(r@, FX_ONE as int),
{
    match side {
        Side::Left => Vec3 { x: FX_ONE, y: -FX_ONE, z: 0 },
        Side::Right => Vec3 { x: -FX_ONE, y: -FX_ONE, z: 0 },
    }
}

/// Executable finger default by side.
pub fn finger_default(side: Side) -> (r: Vec3)
    ensures
        r@ == spec_finger_default(side),
        vbounded(r@, FX_ONE as int),
{
    arm_default(side)
}

/// Executable wrist default by side.
pub fn wrist_default(side: Side) -> (r: Vec3)
    ensures
        r@ == spec_wrist_default(side),
        vbounded(r@, FX_ONE as int),
{
    match side {
        Side::Left => Vec3 { x: FX_ONE, y: -FX_ONE, z: -FX_ONE },
        Side::Right => Vec3 { x: -FX_ONE, y: -FX_ONE, z: -FX_ONE },
    }
}

/// Executable thumb default by side.
pub fn thumb_default(side: Side) -> (r: Vec3)
    ensures
        r@ == spec_thumb_default(side),
        vbounded(r@, FX_ONE as int),
{
    match side {
        Side::Left => Vec3 { x: -FX_ONE, y: -FX_ONE, z: -FX_ONE },
        Side::Right => Vec3 { x: FX_ONE, y: -FX_ONE, z: -FX_ONE },
    }
}

/// The observed segment direction of a joint, expressed in the local
/// frame of its parent: the segment normalized, its vertical axis
/// flipped into the avatar convention, then rotated by the inverse of
/// the parent rotation. A zero-length segment has no direction.
pub open spec fn spec_joint_direction(origin: IVec3, target: IVec3, parent: IQuat) -> Option<
    IVec3,
> {
    match spec_normalize(spec_vsub(target, origin)) {
        Option::None => Option::None,
        Option::Some(d) => Option::Some(spec_rotate(spec_conj(parent), spec_flip_y(d))),
    }
}

/// One directional joint solve: the minimal-arc rotation from the
/// bind-pose default onto the observed local direction; the identity for
/// a degenerate segment.
pub open spec fn spec_solve_joint(origin: IVec3, target: IVec3, parent: IQuat, dflt: IVec3) -> IQuat {
    match spec_joint_direction(origin, target, parent) {
        Option::None => iquat_identity(),
        Option::Some(local) => spec_rotation_between(dflt, local),
    }
}

/// Executable directional joint solve.
pub fn solve_joint(origin: &Vec3, target: &Vec3, parent: &Rotation, dflt: &Vec3) -> (r: Rotation)
    requires
        vbounded(origin@, COORD_LIMIT as int),
        vbounded(target@, COORD_LIMIT as int),
        qbounded(parent@, ROT_LIMIT as int),
        vbounded(dflt@, FX_ONE as int),
    ensures
        r@ == spec_solve_joint(origin@, target@, parent@, dflt@),
        near_unit(r@),
        qbounded(r@, FX_ONE as int),
{
    let seg = vsub(target, origin);
    match normalize(&seg) {
        Option::None => {
            proof {
                lemma_identity_near_unit();
            }
            Rotation::default()
        },
        Option::Some(d) => {
            let flipped = flip_y(&d);
            let inv_parent = conj(parent);
            let local = rotate_vec(&inv_parent, &flipped);
            rotation_between(dflt, &local)
        },
    }
}

/// A solver of one landmark frame into joint rotations. It is stateless:
/// the bind-pose directions are fixed, and each solve depends only on
/// its inputs.
pub struct PoseSolver {}

impl PoseSolver {
    /// A new solver.
    pub fn new() -> (r: PoseSolver) {
        PoseSolver {  }
    }

    /// The upper-body rotation from the shoulder line, composed with the
    /// forward-lean bend read from the shoulder midpoint.
    pub fn calculate_upper_body_rotation(
        &self,
        left_shoulder: &Vec3,
        right_shoulder: &Vec3,
    ) -> (r: Rotation)
        requires
            vbounded(left_shoulder@, COORD_LIMIT as int),
            vbounded(right_shoulder@, COORD_LIMIT as int),
        ensures
            r@ == spec_upper_body_rotation(left_shoulder@, right_shoulder@),
            near_unit(r@),
            qbounded(r@, FX_ONE as int),
    {
        let identity = Rotation::default();
        proof {
            lemma_identity_near_unit();
        }
        let spine = solve_joint(
            right_shoulder,
            left_shoulder,
            &identity,
            &body_line_default(),
        );
        let mid = vmid(left_shoulder, right_shoulder);
        let bend = match normalize(&mid) {
            Option::None => Rotation::default(),
            Option::Some(u) => {
                let b = flip_y(&u);
                let up = Vec3 { x: 0, y: FX_ONE, z: 0 };
                proof {
                    lemma_unit_cross_dot_bounded(up@, b@);
                }
                let c = vcross(&up, &b);
                match normalize(&c) {
                    Option::None => Rotation::default(),
                    Option::Some(axis) => axis_angle(&axis, b.y),
                }
            },
        };
        proof {
            lemma_ham_bounded(spine@, bend@, FX_ONE as int, FX_ONE as int, 4 * FX_ONE as int);
        }
        qnormalize(&ham(&spine, &bend))
    }

    /// The lower-body rotation from the hip line.
    pub fn calculate_lower_body_rotation(&self, left_hip: &Vec3, right_hip: &Vec3) -> (r: Rotation)
        requires
            vbounded(left_hip@, COORD_LIMIT as int),
            vbounded(right_hip@, COORD_LIMIT as int),
        ensures
            r@ == spec_lower_body_rotation(left_hip@, right_hip@),
            near_unit(r@),
            qbounded(r@, FX_ONE as int),
    {
        let identity = Rotation::default();
        proof {
            lemma_identity_near_unit();
        }
        solve_joint(right_hip, left_hip, &identity, &body_line_default())
    }

    /// An upper-arm rotation from shoulder and elbow, in the upper
    /// body's local frame.
    pub fn calculate_upper_arm_rotation(
        &self,
        shoulder: &Vec3,
        elbow: &Vec3,
        upper_body_rotation: &Rotation,
        side: Side,
    ) -> (r: Rotation)
        requires
            vbounded(shoulder@, COORD_LIMIT as int),
            vbounded(elbow@, COORD_LIMIT as int),
            qbounded(upper_body_rotation@, ROT_LIMIT as int),
        ensures
            r@ == spec_solve_joint(
                shoulder@,
                elbow@,
                upper_body_rotation@,
                spec_arm_default(side),
            ),
            near_unit(r@),
            qbounded(r@, FX_ONE as int),
    {
        solve_joint(shoulder, elbow, upper_body_rotation, &arm_default(side))
    }

    /// A lower-arm rotation from elbow and wrist, in the upper arm's
    /// local frame.
    pub fn calculate_lower_arm_rotation(
        &self,
        elbow: &Vec3,
        wrist: &Vec3,
        upper_arm_rotation: &Rotation,
        side: Side,
    ) -> (r: Rotation)
        requires
            vbounded(elbow@, COORD_LIMIT as int),
            vbounded(wrist@, COORD_LIMIT as int),
            qbounded(upper_arm_rotation@, ROT_LIMIT as int),
        ensures
            r@ == spec_solve_joint(
                elbow@,
                wrist@,
                upper_arm_rotation@,
                spec_arm_default(side),
            ),
            near_unit(r@),
            qbounded(r@, FX_ONE as int),
    {
        solve_joint(elbow, wrist, upper_arm_rotation, &arm_default(side))
    }
}

/// The hip rotation: an axis-angle turn from the straight-down default
/// toward the observed leg direction, its angle clamped to a quarter
/// turn. Clamping the angle at ninety degrees is clamping its cosine at
/// zero from below.
pub open spec fn spec_hip_rotation(hip: IVec3, knee: IVec3, lower_body: IQuat) -> IQuat {
    match spec_joint_direction(hip, knee, lower_body) {
        Option::None => iquat_identity(),
        Option::Some(local) => {
            let nb = isqrt_spec(vnorm_sq(local));
            if nb == 0 {
                iquat_identity()
            } else {
                let cosv = tdiv(vdot_raw(spec_hip_default(), local), nb);
                let clamped = if cosv < 0 {
                    0
                } else {
                    cosv
                };
                match spec_normalize(spec_vcross(spec_hip_default(), local)) {
                    Option::None => iquat_identity(),
                    Option::Some(axis) => spec_qnormalize(spec_axis_angle(axis, clamped)),
                }
            }
        },
    }
}

impl PoseSolver {
    /// A hip rotation from hip and knee, in the lower body's local
    /// frame; the same value also serves as the foot rotation of that
    /// leg.
    pub fn calculate_hip_rotation(
        &self,
        hip: &Vec3,
        knee: &Vec3,
        lower_body_rotation: &Rotation,
    ) -> (r: Rotation)
        requires
            vbounded(hip@, COORD_LIMIT as int),
            vbounded(knee@, COORD_LIMIT as int),
            qbounded(lower_body_rotation@, ROT_LIMIT as int),
        ensures
            r@ == spec_hip_rotation(hip@, knee@, lower_body_rotation@),
            near_unit(r@),
            qbounded(r@, FX_ONE as int),
    {
        let seg = vsub(knee, hip);
        match normalize(&seg) {
            Option::None => {
                proof {
                    lemma_identity_near_unit();
                }
                Rotation::default()
            },
            Option::Some(d) => {
                let flipped = flip_y(&d);
                let inv_parent = conj(lower_body_rotation);
                let local = rotate_vec(&inv_parent, &flipped);
                let nb = crate::vec3::vlen_exec(&local);
                if nb == 0 {
                    proof {
                        lemma_identity_near_unit();
                    }
                    Rotation::default()
                } else {
                    let dflt = hip_default();
                    let dotv = vdot_raw_exec(&dflt, &local);
                    proof {
                        lemma_component_le_len(local@);
                        let dv = vdot_raw(dflt@, local@);
                        assert(0 * local@.x == 0 && 0 * local@.z == 0) by (nonlinear_arith);
                        assert(dv == (-(FX_ONE as int)) * local@.y);
                        assert(iabs(dv) <= FX_ONE * (nb as int)) by (nonlinear_arith)
                            requires
                                dv == (-(FX_ONE as int)) * local@.y,
                                iabs(local@.y) <= nb as int,
                                nb as int >= 0,
                        ;
                        lemma_tdiv_bound_by(dv, nb as int, FX_ONE as int);
                    }
                    let cosv = div_fx(dotv, nb);
                    let clamped = if cosv < 0 {
                        0
                    } else {
                        cosv
                    };
                    proof {
                        lemma_unit_cross_dot_bounded_wide(dflt@, local@);
                    }
                    let c = vcross(&dflt, &local);
                    match normalize(&c) {
                        Option::None => {
                            proof {
                                lemma_identity_near_unit();
                            }
                            Rotation::default()
                        },
                        Option::Some(axis) => qnormalize(&axis_angle(&axis, clamped)),
                    }
                }
            },
        }
    }

    /// A wrist rotation from the wrist and the pinky knuckle, in the
    /// lower arm's local frame, against the hand bind direction.
    pub fn calculate_wrist_rotation(
        &self,
        wrist: &Vec3,
        pinky_knuckle: &Vec3,
        lower_arm_rotation: &Rotation,
        side: Side,
    ) -> (r: Rotation)
        requires
            vbounded(wrist@, COORD_LIMIT as int),
            vbounded(pinky_knuckle@, COORD_LIMIT as int),
            qbounded(lower_arm_rotation@, ROT_LIMIT as int),
        ensures
            r@ == spec_solve_joint(
                wrist@,
                pinky_knuckle@,
                lower_arm_rotation@,
                spec_wrist_default(side),
            ),
            near_unit(r@),
            qbounded(r@, FX_ONE as int),
    {
        solve_joint(wrist, pinky_knuckle, lower_arm_rotation, &wrist_default(side))
    }

    /// A thumb-segment rotation from one thumb joint to the next, in its
    /// parent's local frame.
    pub fn calculate_thumb_rotation(
        &self,
        current_joint: &Vec3,
        next_joint: &Vec3,
        parent_rotation: &Rotation,
        side: Side,
    ) -> (r: Rotation)
        requires
            vbounded(current_joint@, COORD_LIMIT as int),
            vbounded(next_joint@, COORD_LIMIT as int),
            qbounded(parent_rotation@, ROT_LIMIT as int),
        ensures
            r@ == spec_solve_joint(
                current_joint@,
                next_joint@,
                parent_rotation@,
                spec_thumb_default(side),
            ),
            near_unit(r@),
            qbounded(r@, FX_ONE as int),
    {
        solve_joint(current_joint, next_joint, parent_rotation, &thumb_default(side))
    }

    /// A finger-segment rotation from one finger joint to the next, in
    /// its parent's local frame.
    pub fn calculate_finger_rotation(
        &self,
        current_joint: &Vec3,
        next_joint: &Vec3,
        parent_rotation: &Rotation,
        side: Side,
    ) -> (r: Rotation)
        requires
            vbounded(current_joint@, COORD_LIMIT as int),
            vbounded(next_joint@, COORD_LIMIT as int),
            qbounded(parent_rotation@, ROT_LIMIT as int),
        ensures
            r@ == spec_solve_joint(
                current_joint@,
                next_joint@,
                parent_rotation@,
                spec_finger_default(side),
            ),
            near_unit(r@),
            qbounded(r@, FX_ONE as int),
    {
        solve_joint(current_joint, next_joint, parent_rotation, &finger_default(side))
    }
}

/// Cosine of half the fixed neck tilt offset (ten degrees) at the
/// fixed-point scale.
pub const TILT_OFF_COS: i64 = 984_808;

/// Sine of half the fixed neck tilt offset (ten degrees) at the
/// fixed-point scale.
pub const TILT_OFF_SIN: i64 = 173_648;

/// The neck rotation. The gaze segment from the shoulder midpoint to the
/// nose, expressed in the upper body's local frame, splits into a
/// horizontal look about the vertical axis (from the projected forward
/// direction) and a tilt about the local horizontal axis (from the
/// vertical component against the horizontal magnitude, offset twenty
/// degrees forward); the result is their composition, normalized.
pub open spec fn spec_neck_rotation(nose: IVec3, ls: IVec3, rs: IVec3, upper_body: IQuat) -> IQuat {
    let neck_pos = spec_vmid(ls, rs);
    match spec_normalize(spec_vsub(nose, neck_pos)) {
        Option::None => iquat_identity(),
        Option::Some(d) => {
            let local = spec_rotate(spec_conj(upper_body), d);
            let fraw = IVec3 { x: -local.x, y: 0, z: -local.z };
            match spec_normalize(fraw) {
                Option::None => iquat_identity(),
                Option::Some(f) => {
                    let sh = spec_sin_half(f.z);
                    let ch = spec_cos_half(f.z);
                    let horiz = IQuat {
                        x: 0,
                        y: if f.x >= 0 {
                            sh
                        } else {
                            -sh
                        },
                        z: 0,
                        w: ch,
                    };
                    let h = isqrt_spec(local.x * local.x + local.z * local.z);
                    let rr = isqrt_spec(local.y * local.y + h * h);
                    let cphi = tdiv(h * FX_ONE, rr);
                    let shp_mag = spec_sin_half(cphi);
                    let chp = spec_cos_half(cphi);
                    let shp = if local.y <= 0 {
                        shp_mag
                    } else {
                        -shp_mag
                    };
                    let sa = tdiv(shp * TILT_OFF_COS - chp * TILT_OFF_SIN, FX_ONE as int);
                    let ca = tdiv(chp * TILT_OFF_COS + shp * TILT_OFF_SIN, FX_ONE as int);
                    let tilt = IQuat { x: sa, y: 0, z: 0, w: ca };
                    spec_qnormalize(spec_ham(horiz, tilt))
                },
            }
        },
    }
}

impl PoseSolver {
    /// The neck rotation from the nose and the shoulder line, in the
    /// upper body's local frame.
    pub fn calculate_neck_rotation(
        &self,
        nose: &Vec3,
        left_shoulder: &Vec3,
        right_shoulder: &Vec3,
        upper_body_rotation: &Rotation,
    ) -> (r: Rotation)
        requires
            vbounded(nose@, COORD_LIMIT as int),
            vbounded(left_shoulder@, COORD_LIMIT as int),
            vbounded(right_shoulder@, COORD_LIMIT as int),
            qbounded(upper_body_rotation@, ROT_LIMIT as int),
        ensures
            r@ == spec_neck_rotation(
                nose@,
                left_shoulder@,
                right_shoulder@,
                upper_body_rotation@,
            ),
            near_unit(r@),
            qbounded(r@, FX_ONE as int),
    {
        let neck_pos = vmid(left_shoulder, right_shoulder);
        let seg = vsub(nose, &neck_pos);
        match normalize(&seg) {
            Option::None => {
                proof {
                    lemma_identity_near_unit();
                }
                Rotation::default()
            },
            Option::Some(d) => {
                let inv_parent = conj(upper_body_rotation);
                let local = rotate_vec(&inv_parent, &d);
                let fraw = Vec3 { x: -local.x, y: 0, z: -local.z };
                match normalize(&fraw) {
                    Option::None => {
                        proof {
                            lemma_identity_near_unit();
                        }
                        Rotation::default()
                    },
                    Option::Some(f) => {
                        let sh = sin_half(f.z);
                        let ch = cos_half(f.z);
                        let horiz = Rotation {
                            x: 0,
                            y: if f.x >= 0 {
                                sh
                            } else {
                                -sh
                            },
                            z: 0,
                            w: ch,
                        };
                        proof {
                            let m = 64_000_000int;
                            lemma_mul_within2(local@.x, local@.x, m, m);
                            lemma_mul_within2(local@.z, local@.z, m, m);
                            lemma_mul_within2(local@.y, local@.y, m, m);
                            assert(local@.x * local@.x >= 0 && local@.z * local@.z >= 0
                                && local@.y * local@.y >= 0 && (-local@.x) * (-local@.x)
                                == local@.x * local@.x && (-local@.z) * (-local@.z) == local@.z
                                * local@.z && 0 * 0 == 0) by (nonlinear_arith);
                        }
                        let hsq = local.x * local.x + local.z * local.z;
                        let h = isqrt_u64(hsq as u64) as i64;
                        proof {
                            lemma_isqrt_bracket(hsq as int);
                            assert(isqrt_spec(hsq as int) <= 200_000_000) by (nonlinear_arith)
                                requires
                                    isqrt_spec(hsq as int) >= 0,
                                    isqrt_spec(hsq as int) * isqrt_spec(hsq as int) <= hsq as int,
                                    hsq as int <= 2 * (64_000_000 * 64_000_000int),
                            ;
                            lemma_mul_within2(h as int, h as int, 200_000_000, 200_000_000);
                        }
                        let rsq = local.y * local.y + h * h;
                        let rr = isqrt_u64(rsq as u64) as i64;
                        proof {
                            // the projected direction is nonzero, so the
                            // horizontal magnitude and the full magnitude are
                            // positive
                            lemma_abs_sq(local@.x);
                            lemma_abs_sq(local@.z);
                            assert(vnorm_sq(fraw@) == hsq as int);
                            crate::vec3::lemma_vlen_pos(fraw@);
                            lemma_isqrt_at_least(hsq as int, 1);
                            assert((h as int) * (h as int) <= rsq as int) by (nonlinear_arith)
                                requires
                                    rsq as int == local@.y * local@.y + (h as int) * (h as int),
                                    local@.y * local@.y >= 0,
                            ;
                            lemma_isqrt_at_least(rsq as int, h as int);
                            lemma_isqrt_bracket(rsq as int);
                            assert(isqrt_spec(rsq as int) <= 300_000_000) by (nonlinear_arith)
                                requires
                                    isqrt_spec(rsq as int) >= 0,
                                    isqrt_spec(rsq as int) * isqrt_spec(rsq as int) <= rsq as int,
                                    rsq as int <= 64_000_000 * 64_000_000int + 200_000_000
                                        * 200_000_000int,
                            ;
                            lemma_mul_within2(h as int, FX_ONE as int, 200_000_000, FX_ONE as int);
                            lemma_tdiv_ordered(h * FX_ONE, (rr as int) * (FX_ONE as int), rr as int);
                            lemma_tdiv_exact(FX_ONE as int, rr as int);
                            lemma_tdiv_bound(h * FX_ONE, rr as int);
                        }
                        let cphi = div_fx(h * FX_ONE, rr);
                        let shp_mag = sin_half(cphi);
                        let chp = cos_half(cphi);
                        let shp = if local.y <= 0 {
                            shp_mag
                        } else {
                            -shp_mag
                        };
                        proof {
                            lemma_mul_within2(shp as int, TILT_OFF_COS as int, FX_ONE as int,
                                FX_ONE as int);
                            lemma_mul_within2(chp as int, TILT_OFF_SIN as int, FX_ONE as int,
                                FX_ONE as int);
                            lemma_mul_within2(chp as int, TILT_OFF_COS as int, FX_ONE as int,
                                FX_ONE as int);
                            lemma_mul_within2(shp as int, TILT_OFF_SIN as int, FX_ONE as int,
                                FX_ONE as int);
                            lemma_tdiv_bound_by(shp * TILT_OFF_COS - chp * TILT_OFF_SIN,
                                FX_ONE as int, 2 * FX_ONE as int);
                            lemma_tdiv_bound_by(chp * TILT_OFF_COS + shp * TILT_OFF_SIN,
                                FX_ONE as int, 2 * FX_ONE as int);
                        }
                        let sa = div_fx(shp * TILT_OFF_COS - chp * TILT_OFF_SIN, FX_ONE);
                        let ca = div_fx(chp * TILT_OFF_COS + shp * TILT_OFF_SIN, FX_ONE);
                        let tilt = Rotation { x: sa, y: 0, z: 0, w: ca };
                        proof {
                            lemma_ham_bounded(horiz@, tilt@, FX_ONE as int, 2 * FX_ONE as int, 8
                                * FX_ONE as int);
                        }
                        qnormalize(&ham(&horiz, &tilt))
                    },
                }
            },
        }
    }
}

/// Half the maximum horizontal eye turn (fifteen degrees, half of
/// thirty) at the fixed-point scale.
pub const GAZE_HALF_HORIZONTAL: i64 = 261_799;

/// Half the maximum vertical eye turn (seven and a half degrees, half of
/// fifteen) at the fixed-point scale.
pub const GAZE_HALF_VERTICAL: i64 = 130_900;

/// Largest vertical gaze magnitude.
pub const GAZE_Y_LIMIT: i64 = 500_000;

/// Largest mouth openness value (seven tenths).
pub const MOUTH_MAX: i64 = 700_000;

/// A point scaled by ten, the working scale of the eye-box geometry.
pub open spec fn spec_scale10(v: IVec3) -> IVec3 {
    IVec3 { x: 10 * v.x, y: 10 * v.y, z: 10 * v.z }
}

/// The gaze offset of one iris inside its eye box: the iris offset from
/// the eye-corner midpoint, normalized by half the eye width
/// horizontally and by half the eye height (itself half the width)
/// vertically, clamped to the unit band horizontally and half of it
/// vertically. An eye box narrower than the resolution reads as centered.
pub open spec fn spec_eye_gaze(eye_left: IVec3, eye_right: IVec3, iris: IVec3) -> (int, int) {
    let sl = spec_scale10(eye_left);
    let sr = spec_scale10(eye_right);
    let si = spec_scale10(iris);
    let cx = tdiv(sl.x + sr.x, 2);
    let cy = tdiv(sl.y + sr.y, 2);
    let w = isqrt_spec(vnorm_sq(spec_vsub(sl, sr)));
    let half_w = tdiv(w, 2);
    let half_h = tdiv(half_w, 2);
    if half_w <= 0 || half_h <= 0 {
        (0, 0)
    } else {
        let gx = tdiv((si.x - cx) * FX_ONE, half_w);
        let gy = tdiv((si.y - cy) * FX_ONE, half_h);
        (spec_clamp(gx, -FX_ONE as int, FX_ONE as int), spec_clamp(
            gy,
            -GAZE_Y_LIMIT as int,
            GAZE_Y_LIMIT as int,
        ))
    }
}

/// The averaged gaze mapped to a rotation: the vertical offset turns
/// about the horizontal axis and the horizontal offset (negated) about
/// the vertical axis, scaled into the fixed angle budgets and composed,
/// then normalized. Sine and cosine come from the truncated series.
pub open spec fn spec_eye_rotation(gx: int, gy: int) -> IQuat {
    let tx = tdiv(gy * GAZE_HALF_VERTICAL, FX_ONE as int);
    let ty = tdiv((-gx) * GAZE_HALF_HORIZONTAL, FX_ONE as int);
    let qx = IQuat { x: spec_sin_series(tx), y: 0, z: 0, w: spec_cos_series(tx) };
    let qy = IQuat { x: 0, y: spec_sin_series(ty), z: 0, w: spec_cos_series(ty) };
    spec_qnormalize(spec_ham(qy, qx))
}

/// Eyelid openness from the aspect ratio of the eye box: zero at or
/// under the closed ratio (fifteen hundredths), one at or over the open
/// ratio (twenty-eight hundredths), linear between; a degenerate eye box
/// reads as closed.
pub open spec fn spec_openness_band(h: int, w: int) -> int {
    if w <= 0 {
        0
    } else if 100 * h <= 15 * w {
        0
    } else if 100 * h >= 28 * w {
        FX_ONE as int
    } else {
        tdiv((100 * h - 15 * w) * FX_ONE, 13 * w)
    }
}

/// Eyelid openness from the four eye landmarks.
pub open spec fn spec_eye_openness(
    eye_left: IVec3,
    eye_right: IVec3,
    eye_upper: IVec3,
    eye_lower: IVec3,
) -> int {
    let h = isqrt_spec(vnorm_sq(spec_vsub(eye_upper, eye_lower)));
    let w = isqrt_spec(vnorm_sq(spec_vsub(eye_left, eye_right)));
    spec_openness_band(h, w)
}

/// Mouth openness from the lip gap against the mouth width: the ratio
/// shifted down a tenth, doubled, and clamped to `[0, 7/10]`; a
/// degenerate mouth width reads as closed.
pub open spec fn spec_mouth_openness(
    upper_lip_top: IVec3,
    lower_lip_bottom: IVec3,
    mouth_left: IVec3,
    mouth_right: IVec3,
) -> int {
    let h = isqrt_spec(vnorm_sq(spec_vsub(upper_lip_top, lower_lip_bottom)));
    let w = isqrt_spec(vnorm_sq(spec_vsub(mouth_left, mouth_right)));
    if w <= 0 {
        0
    } else {
        spec_clamp(tdiv((10 * h - w) * FX_ONE, 5 * w), 0, MOUTH_MAX as int)
    }
}

impl PoseSolver {
    /// The gaze offset of one iris inside its eye box.
    pub fn calculate_eye_gaze(&self, eye_left: &Vec3, eye_right: &Vec3, iris: &Vec3) -> (r: (
        i64,
        i64,
    ))
        requires
            vbounded(eye_left@, COORD_LIMIT as int),
            vbounded(eye_right@, COORD_LIMIT as int),
            vbounded(iris@, COORD_LIMIT as int),
        ensures
            (r.0 as int, r.1 as int) == spec_eye_gaze(eye_left@, eye_right@, iris@),
            -FX_ONE <= r.0 <= FX_ONE,
            -GAZE_Y_LIMIT <= r.1 <= GAZE_Y_LIMIT,
    {
        let sl = Vec3 { x: 10 * eye_left.x, y: 10 * eye_left.y, z: 10 * eye_left.z };
        let sr = Vec3 { x: 10 * eye_right.x, y: 10 * eye_right.y, z: 10 * eye_right.z };
        let si = Vec3 { x: 10 * iris.x, y: 10 * iris.y, z: 10 * iris.z };
        let cx = div_fx(sl.x + sr.x, 2);
        let cy = div_fx(sl.y + sr.y, 2);
        let diff = vsub(&sl, &sr);
        let w = crate::vec3::vlen_exec(&diff);
        let half_w = div_fx(w, 2);
        let half_h = div_fx(half_w, 2);
        if half_w <= 0 || half_h <= 0 {
            (0, 0)
        } else {
            proof {
                lemma_mul_within((si@.x - cx as int), FX_ONE as int, 200_000_000);
                lemma_mul_within((si@.y - cy as int), FX_ONE as int, 200_000_000);
                lemma_tdiv_bound((si@.x - cx as int) * FX_ONE, half_w as int);
                lemma_tdiv_bound((si@.y - cy as int) * FX_ONE, half_h as int);
            }
            let gx = div_fx((si.x - cx) * FX_ONE, half_w);
            let gy = div_fx((si.y - cy) * FX_ONE, half_h);
            (clamp_i64(gx, -FX_ONE, FX_ONE), clamp_i64(gy, -GAZE_Y_LIMIT, GAZE_Y_LIMIT))
        }
    }

    /// The averaged gaze mapped to an eye rotation.
    pub fn calculate_eye_rotation(&self, x: i64, y: i64) -> (r: Rotation)
        requires
            -FX_ONE <= x <= FX_ONE,
            -GAZE_Y_LIMIT <= y <= GAZE_Y_LIMIT,
        ensures
            r@ == spec_eye_rotation(x as int, y as int),
            near_unit(r@),
            qbounded(r@, FX_ONE as int),
    {
        proof {
            lemma_mul_within2(y as int, GAZE_HALF_VERTICAL as int, GAZE_Y_LIMIT as int,
                GAZE_HALF_VERTICAL as int);
            lemma_mul_within2(-x as int, GAZE_HALF_HORIZONTAL as int, FX_ONE as int,
                GAZE_HALF_HORIZONTAL as int);
            lemma_tdiv_bound_by(y * GAZE_HALF_VERTICAL, FX_ONE as int, TRIG_LIMIT as int);
            lemma_tdiv_bound_by((-x) * GAZE_HALF_HORIZONTAL, FX_ONE as int, TRIG_LIMIT as int);
        }
        let tx = div_fx(y * GAZE_HALF_VERTICAL, FX_ONE);
        let ty = div_fx((-x) * GAZE_HALF_HORIZONTAL, FX_ONE);
        let qx = Rotation { x: sin_series(tx), y: 0, z: 0, w: cos_series(tx) };
        let qy = Rotation { x: 0, y: sin_series(ty), z: 0, w: cos_series(ty) };
        proof {
            lemma_ham_bounded(qy@, qx@, 1_100_000, 1_100_000, 5_000_000);
        }
        qnormalize(&ham(&qy, &qx))
    }

    /// Eyelid openness from the four eye landmarks.
    pub fn calculate_eye_openness(
        &self,
        eye_left: &Vec3,
        eye_right: &Vec3,
        eye_upper: &Vec3,
        eye_lower: &Vec3,
    ) -> (r: i64)
        requires
            vbounded(eye_left@, COORD_LIMIT as int),
            vbounded(eye_right@, COORD_LIMIT as int),
            vbounded(eye_upper@, COORD_LIMIT as int),
            vbounded(eye_lower@, COORD_LIMIT as int),
        ensures
            r == spec_eye_openness(eye_left@, eye_right@, eye_upper@, eye_lower@),
            0 <= r <= FX_ONE,
    {
        let hseg = vsub(eye_upper, eye_lower);
        let wseg = vsub(eye_left, eye_right);
        let h = crate::vec3::vlen_exec(&hseg);
        let w = crate::vec3::vlen_exec(&wseg);
        if w <= 0 {
            0
        } else if 100 * h <= 15 * w {
            0
        } else if 100 * h >= 28 * w {
            FX_ONE
        } else {
            proof {
                crate::vec3::lemma_vlen_bounded(hseg@, 16_000_000);
                crate::vec3::lemma_vlen_bounded(wseg@, 16_000_000);
                lemma_mul_within2((100 * h - 15 * w) as int, FX_ONE as int, 3_680_000_000,
                    FX_ONE as int);
                lemma_tdiv_ordered((100 * h - 15 * w) * (FX_ONE as int), (FX_ONE as int) * (13 * w),
                    13 * w);
                lemma_tdiv_exact(FX_ONE as int, 13 * w);
                lemma_tdiv_bound((100 * h - 15 * w) * (FX_ONE as int), 13 * w);
                assert((100 * h - 15 * w) * (FX_ONE as int) <= (FX_ONE as int) * (13 * (w as int)))
                    by (nonlinear_arith)
                    requires
                        100 * h - 15 * w <= 13 * (w as int),
                ;
            }
            div_fx((100 * h - 15 * w) * FX_ONE, 13 * w)
        }
    }

    /// Mouth openness from the lip gap and the mouth width.
    pub fn calculate_mouth_openness(
        &self,
        upper_lip_top: &Vec3,
        lower_lip_bottom: &Vec3,
        mouth_left: &Vec3,
        mouth_right: &Vec3,
    ) -> (r: i64)
        requires
            vbounded(upper_lip_top@, COORD_LIMIT as int),
            vbounded(lower_lip_bottom@, COORD_LIMIT as int),
            vbounded(mouth_left@, COORD_LIMIT as int),
            vbounded(mouth_right@, COORD_LIMIT as int),
        ensures
            r == spec_mouth_openness(
                upper_lip_top@,
                lower_lip_bottom@,
                mouth_left@,
                mouth_right@,
            ),
            0 <= r <= MOUTH_MAX,
    {
        let hseg = vsub(upper_lip_top, lower_lip_bottom);
        let wseg = vsub(mouth_left, mouth_right);
        let h = crate::vec3::vlen_exec(&hseg);
        let w = crate::vec3::vlen_exec(&wseg);
        if w <= 0 {
            0
        } else {
            proof {
                crate::vec3::lemma_vlen_bounded(hseg@, 16_000_000);
                crate::vec3::lemma_vlen_bounded(wseg@, 16_000_000);
                lemma_mul_within2((10 * h - w) as int, FX_ONE as int, 3_680_000_000,
                    FX_ONE as int);
                lemma_tdiv_bound((10 * h - w) * (FX_ONE as int), 5 * w);
            }
            clamp_i64(div_fx((10 * h - w) * FX_ONE, 5 * w), 0, MOUTH_MAX)
        }
    }
}

/// Cross-product bound for one unit vector against one rotated
/// direction.
proof fn lemma_unit_cross_dot_bounded_wide(f: IVec3, t: IVec3)
    requires
        vbounded(f, FX_ONE as int),
        vbounded(t, 64_000_000),
    ensures
        vbounded(spec_vcross(f, t), 128_000_000),
{
    let u = FX_ONE as int;
    let m = 64_000_000int;
    lemma_mul_within2(f.y, t.z, u, m);
    lemma_mul_within2(f.z, t.y, u, m);
    lemma_mul_within2(f.z, t.x, u, m);
    lemma_mul_within2(f.x, t.z, u, m);
    lemma_mul_within2(f.x, t.y, u, m);
    lemma_mul_within2(f.y, t.x, u, m);
    assert(2 * (u * m) == 128_000_000int * u) by (nonlinear_arith)
        requires
            u == FX_ONE as int,
            m == 64_000_000int,
    ;
    lemma_tdiv_bound_by(f.y * t.z - f.z * t.y, u, 128_000_000);
    lemma_tdiv_bound_by(f.z * t.x - f.x * t.z, u, 128_000_000);
    lemma_tdiv_bound_by(f.x * t.y - f.y * t.x, u, 128_000_000);
}

/// The upper-body rotation: minimal arc from the horizontal default onto
/// the shoulder line, composed with an axis-angle bend toward the
/// shoulder midpoint, then normalized.
pub open spec fn spec_upper_body_rotation(ls: IVec3, rs: IVec3) -> IQuat {
    let spine = spec_solve_joint(rs, ls, iquat_identity(), spec_body_line_default());
    let bend = spec_upper_body_bend(ls, rs);
    spec_qnormalize(spec_ham(spine, bend))
}

/// The forward/backward lean: the angle between the flipped shoulder
/// midpoint direction and straight up, about the axis orthogonal to
/// both; the identity when either direction degenerates.
pub open spec fn spec_upper_body_bend(ls: IVec3, rs: IVec3) -> IQuat {
    match spec_normalize(spec_vmid(ls, rs)) {
        Option::None => iquat_identity(),
        Option::Some(u) => {
            let b = spec_flip_y(u);
            let up = IVec3 { x: 0, y: FX_ONE as int, z: 0 };
            match spec_normalize(spec_vcross(up, b)) {
                Option::None => iquat_identity(),
                Option::Some(axis) => spec_axis_angle(axis, b.y),
            }
        },
    }
}

/// The lower-body rotation: minimal arc from the horizontal default onto
/// the hip line.
pub open spec fn spec_lower_body_rotation(lh: IVec3, rh: IVec3) -> IQuat {
    spec_solve_joint(rh, lh, iquat_identity(), spec_body_line_default())
}


/// The body-joint fields of one solve: shoulder/hip lines first, then
/// neck, arms and legs each in its parent's local frame; hand and face
/// fields stay at their defaults. Both feet reuse their hip's rotation.
pub open spec fn spec_body_fields(body: Seq<Vec3>) -> ResultModel {
    let ls = body[11]@;
    let rs = body[12]@;
    let lh = body[23]@;
    let rh = body[24]@;
    let upper = spec_upper_body_rotation(ls, rs);
    let lower = spec_lower_body_rotation(lh, rh);
    let neck = spec_neck_rotation(body[0]@, ls, rs, upper);
    let lua = spec_solve_joint(ls, body[13]@, upper, spec_arm_default(Side::Left));
    let lla = spec_solve_joint(body[13]@, body[15]@, lua, spec_arm_default(Side::Left));
    let rua = spec_solve_joint(rs, body[14]@, upper, spec_arm_default(Side::Right));
    let rla = spec_solve_joint(body[14]@, body[16]@, rua, spec_arm_default(Side::Right));
    let lhip = spec_hip_rotation(lh, body[25]@, lower);
    let rhip = spec_hip_rotation(rh, body[26]@, lower);
    ResultModel {
        upper_body: upper,
        lower_body: lower,
        neck: neck,
        left_upper_arm: lua,
        left_lower_arm: lla,
        right_upper_arm: rua,
        right_lower_arm: rla,
        left_hip: lhip,
        right_hip: rhip,
        left_foot: lhip,
        right_foot: rhip,
        ..default_model()
    }
}

/// The left-hand fields: the wrist from the wrist-to-pinky-knuckle
/// segment under the lower arm, then the thumb and finger chains each
/// under their predecessor.
pub open spec fn spec_left_hand_fields(m: ResultModel, s: Seq<Vec3>) -> ResultModel {
    let wrist = spec_solve_joint(s[0]@, s[17]@, m.left_lower_arm, spec_wrist_default(Side::Left));
    let thumb_cmc = spec_solve_joint(s[1]@, s[2]@, wrist, spec_thumb_default(Side::Left));
    let thumb_mcp = spec_solve_joint(s[2]@, s[3]@, thumb_cmc, spec_thumb_default(Side::Left));
    let index_finger_mcp = spec_solve_joint(s[5]@, s[6]@, wrist, spec_finger_default(Side::Left));
    let index_finger_pip = spec_solve_joint(s[6]@, s[7]@, index_finger_mcp, spec_finger_default(Side::Left));
    let index_finger_dip = spec_solve_joint(s[7]@, s[8]@, index_finger_pip, spec_finger_default(Side::Left));
    let middle_finger_mcp = spec_solve_joint(s[9]@, s[10]@, wrist, spec_finger_default(Side::Left));
    let middle_finger_pip = spec_solve_joint(s[10]@, s[11]@, middle_finger_mcp, spec_finger_default(Side::Left));
    let middle_finger_dip = spec_solve_joint(s[11]@, s[12]@, middle_finger_pip, spec_finger_default(Side::Left));
    let ring_finger_mcp = spec_solve_joint(s[13]@, s[14]@, wrist, spec_finger_default(Side::Left));
    let ring_finger_pip = spec_solve_joint(s[14]@, s[15]@, ring_finger_mcp, spec_finger_default(Side::Left));
    let ring_finger_dip = spec_solve_joint(s[15]@, s[16]@, ring_finger_pip, spec_finger_default(Side::Left));
    let pinky_finger_mcp = spec_solve_joint(s[17]@, s[18]@, wrist, spec_finger_default(Side::Left));
    let pinky_finger_pip = spec_solve_joint(s[18]@, s[19]@, pinky_finger_mcp, spec_finger_default(Side::Left));
    let pinky_finger_dip = spec_solve_joint(s[19]@, s[20]@, pinky_finger_pip, spec_finger_default(Side::Left));
    ResultModel {
        left_wrist: wrist,
        left_thumb_cmc: thumb_cmc,
        left_thumb_mcp: thumb_mcp,
        left_index_finger_mcp: index_finger_mcp,
        left_index_finger_pip: index_finger_pip,
        left_index_finger_dip: index_finger_dip,
        left_middle_finger_mcp: middle_finger_mcp,
        left_middle_finger_pip: middle_finger_pip,
        left_middle_finger_dip: middle_finger_dip,
        left_ring_finger_mcp: ring_finger_mcp,
        left_ring_finger_pip: ring_finger_pip,
        left_ring_finger_dip: ring_finger_dip,
        left_pinky_finger_mcp: pinky_finger_mcp,
        left_pinky_finger_pip: pinky_finger_pip,
        left_pinky_finger_dip: pinky_finger_dip,
        ..m
    }
}

/// The right-hand fields: the wrist from the wrist-to-pinky-knuckle
/// segment under the lower arm, then the thumb and finger chains each
/// under their predecessor.
pub open spec fn spec_right_hand_fields(m: ResultModel, s: Seq<Vec3>) -> ResultModel {
    let wrist = spec_solve_joint(s[0]@, s[17]@, m.right_lower_arm, spec_wrist_default(Side::Right));
    let thumb_cmc = spec_solve_joint(s[1]@, s[2]@, wrist, spec_thumb_default(Side::Right));
    let thumb_mcp = spec_solve_joint(s[2]@, s[3]@, thumb_cmc, spec_thumb_default(Side::Right));
    let index_finger_mcp = spec_solve_joint(s[5]@, s[6]@, wrist, spec_finger_default(Side::Right));
    let index_finger_pip = spec_solve_joint(s[6]@, s[7]@, index_finger_mcp, spec_finger_default(Side::Right));
    let index_finger_dip = spec_solve_joint(s[7]@, s[8]@, index_finger_pip, spec_finger_default(Side::Right));
    let middle_finger_mcp = spec_solve_joint(s[9]@, s[10]@, wrist, spec_finger_default(Side::Right));
    let middle_finger_pip = spec_solve_joint(s[10]@, s[11]@, middle_finger_mcp, spec_finger_default(Side::Right));
    let middle_finger_dip = spec_solve_joint(s[11]@, s[12]@, middle_finger_pip, spec_finger_default(Side::Right));
    let ring_finger_mcp = spec_solve_joint(s[13]@, s[14]@, wrist, spec_finger_default(Side::Right));
    let ring_finger_pip = spec_solve_joint(s[14]@, s[15]@, ring_finger_mcp, spec_finger_default(Side::Right));
    let ring_finger_dip = spec_solve_joint(s[15]@, s[16]@, ring_finger_pip, spec_finger_default(Side::Right));
    let pinky_finger_mcp = spec_solve_joint(s[17]@, s[18]@, wrist, spec_finger_default(Side::Right));
    let pinky_finger_pip = spec_solve_joint(s[18]@, s[19]@, pinky_finger_mcp, spec_finger_default(Side::Right));
    let pinky_finger_dip = spec_solve_joint(s[19]@, s[20]@, pinky_finger_pip, spec_finger_default(Side::Right));
    ResultModel {
        right_wrist: wrist,
        right_thumb_cmc: thumb_cmc,
        right_thumb_mcp: thumb_mcp,
        right_index_finger_mcp: index_finger_mcp,
        right_index_finger_pip: index_finger_pip,
        right_index_finger_dip: index_finger_dip,
        right_middle_finger_mcp: middle_finger_mcp,
        right_middle_finger_pip: middle_finger_pip,
        right_middle_finger_dip: middle_finger_dip,
        right_ring_finger_mcp: ring_finger_mcp,
        right_ring_finger_pip: ring_finger_pip,
        right_ring_finger_dip: ring_finger_dip,
        right_pinky_finger_mcp: pinky_finger_mcp,
        right_pinky_finger_pip: pinky_finger_pip,
        right_pinky_finger_dip: pinky_finger_dip,
        ..m
    }
}

/// The face fields of one solve: the two gazes averaged into one eye
/// rotation shared by both eyes, each eyelid's openness read from the
/// opposite side's eye box, and the mouth openness.
pub open spec fn spec_face_fields(m: ResultModel, face: Seq<Vec3>) -> ResultModel {
    let lg = spec_eye_gaze(face[33]@, face[133]@, face[468]@);
    let rg = spec_eye_gaze(face[362]@, face[263]@, face[473]@);
    let ax = tdiv(lg.0 + rg.0, 2);
    let ay = tdiv(lg.1 + rg.1, 2);
    let eye = spec_eye_rotation(ax, ay);
    ResultModel {
        left_eye_openness: spec_eye_openness(face[362]@, face[263]@, face[386]@, face[374]@),
        right_eye_openness: spec_eye_openness(face[33]@, face[133]@, face[159]@, face[145]@),
        left_eye_rotation: eye,
        right_eye_rotation: eye,
        mouth_openness: spec_mouth_openness(face[13]@, face[14]@, face[61]@, face[291]@),
        ..m
    }
}

/// One full solve of a frame. An empty body stream yields the default
/// result whole; otherwise the body joints are solved, then each hand
/// chain if its stream is present, then the face fields if the face
/// stream is present.
pub open spec fn spec_solve(
    body: Seq<Vec3>,
    left_hand: Seq<Vec3>,
    right_hand: Seq<Vec3>,
    face: Seq<Vec3>,
) -> ResultModel {
    if body.len() == 0 {
        default_model()
    } else {
        let m1 = spec_body_fields(body);
        let m2 = if left_hand.len() == 0 {
            m1
        } else {
            spec_left_hand_fields(m1, left_hand)
        };
        let m3 = if right_hand.len() == 0 {
            m2
        } else {
            spec_right_hand_fields(m2, right_hand)
        };
        if face.len() == 0 {
            m3
        } else {
            spec_face_fields(m3, face)
        }
    }
}


impl PoseSolver {
    /// One full solve of a frame: body joints root to leaf, then each
    /// hand chain where its stream is present, then the face fields
    /// where the face stream is present. An empty body stream yields the
    /// default result whole.
    #[verifier::rlimit(100)]
    pub fn solve(
        &self,
        main_body: &Vec<Vec3>,
        left_hand: &Vec<Vec3>,
        right_hand: &Vec<Vec3>,
        face: &Vec<Vec3>,
    ) -> (r: PoseSolverResult)
        requires
            body_ok(main_body@),
            hand_ok(left_hand@),
            hand_ok(right_hand@),
            face_ok(face@),
        ensures
            r@ == spec_solve(main_body@, left_hand@, right_hand@, face@),
    {
        if main_body.len() == 0 {
            return PoseSolverResult::new();
        }
        let mut result = PoseSolverResult::new();
        let ls = body_point(main_body, MainBodyIndex::LeftShoulder);
        let rs = body_point(main_body, MainBodyIndex::RightShoulder);
        let lh = body_point(main_body, MainBodyIndex::LeftHip);
        let rh = body_point(main_body, MainBodyIndex::RightHip);
        let nose = body_point(main_body, MainBodyIndex::Nose);
        let le = body_point(main_body, MainBodyIndex::LeftElbow);
        let re = body_point(main_body, MainBodyIndex::RightElbow);
        let lw = body_point(main_body, MainBodyIndex::LeftWrist);
        let rw = body_point(main_body, MainBodyIndex::RightWrist);
        let lk = body_point(main_body, MainBodyIndex::LeftKnee);
        let rk = body_point(main_body, MainBodyIndex::RightKnee);
        result.upper_body = self.calculate_upper_body_rotation(&ls, &rs);
        result.lower_body = self.calculate_lower_body_rotation(&lh, &rh);
        result.neck = self.calculate_neck_rotation(&nose, &ls, &rs, &result.upper_body);
        result.left_upper_arm = self.calculate_upper_arm_rotation(
            &ls,
            &le,
            &result.upper_body,
            Side::Left,
        );
        result.left_lower_arm = self.calculate_lower_arm_rotation(
            &le,
            &lw,
            &result.left_upper_arm,
            Side::Left,
        );
        result.right_upper_arm = self.calculate_upper_arm_rotation(
            &rs,
            &re,
            &result.upper_body,
            Side::Right,
        );
        result.right_lower_arm = self.calculate_lower_arm_rotation(
            &re,
            &rw,
            &result.right_upper_arm,
            Side::Right,
        );
        result.left_hip = self.calculate_hip_rotation(&lh, &lk, &result.lower_body);
        result.right_hip = self.calculate_hip_rotation(&rh, &rk, &result.lower_body);
        result.left_foot = result.left_hip;
        result.right_foot = result.right_hip;
        let ghost m1 = spec_body_fields(main_body@);
        proof {
            assert(result@ == m1);
        }
        if left_hand.len() > 0 {
            result.left_wrist = self.calculate_wrist_rotation(
                &hand_point(left_hand, HandIndex::Wrist),
                &hand_point(left_hand, HandIndex::PinkyMCP),
                &result.left_lower_arm,
                Side::Left,
            );
            result.left_thumb_cmc = self.calculate_thumb_rotation(
                &hand_point(left_hand, HandIndex::ThumbCMC),
                &hand_point(left_hand, HandIndex::ThumbMCP),
                &result.left_wrist,
                Side::Left,
            );
            result.left_thumb_mcp = self.calculate_thumb_rotation(
                &hand_point(left_hand, HandIndex::ThumbMCP),
                &hand_point(left_hand, HandIndex::ThumbIP),
                &result.left_thumb_cmc,
                Side::Left,
            );
            result.left_index_finger_mcp = self.calculate_finger_rotation(
                &hand_point(left_hand, HandIndex::IndexMCP),
                &hand_point(left_hand, HandIndex::IndexPIP),
                &result.left_wrist,
                Side::Left,
            );
            result.left_index_finger_pip = self.calculate_finger_rotation(
                &hand_point(left_hand, HandIndex::IndexPIP),
                &hand_point(left_hand, HandIndex::IndexDIP),
                &result.left_index_finger_mcp,
                Side::Left,
            );
            result.left_index_finger_dip = self.calculate_finger_rotation(
                &hand_point(left_hand, HandIndex::IndexDIP),
                &hand_point(left_hand, HandIndex::IndexTip),
                &result.left_index_finger_pip,
                Side::Left,
            );
            result.left_middle_finger_mcp = self.calculate_finger_rotation(
                &hand_point(left_hand, HandIndex::MiddleMCP),
                &hand_point(left_hand, HandIndex::MiddlePIP),
                &result.left_wrist,
                Side::Left,
            );
            result.left_middle_finger_pip = self.calculate_finger_rotation(
                &hand_point(left_hand, HandIndex::MiddlePIP),
                &hand_point(left_hand, HandIndex::MiddleDIP),
                &result.left_middle_finger_mcp,
                Side::Left,
            );
            result.left_middle_finger_dip = self.calculate_finger_rotation(
                &hand_point(left_hand, HandIndex::MiddleDIP),
                &hand_point(left_hand, HandIndex::MiddleTip),
                &result.left_middle_finger_pip,
                Side::Left,
            );
            result.left_ring_finger_mcp = self.calculate_finger_rotation(
                &hand_point(left_hand, HandIndex::RingMCP),
                &hand_point(left_hand, HandIndex::RingPIP),
                &result.left_wrist,
                Side::Left,
            );
            result.left_ring_finger_pip = self.calculate_finger_rotation(
                &hand_point(left_hand, HandIndex::RingPIP),
                &hand_point(left_hand, HandIndex::RingDIP),
                &result.left_ring_finger_mcp,
                Side::Left,
            );
            result.left_ring_finger_dip = self.calculate_finger_rotation(
                &hand_point(left_hand, HandIndex::RingDIP),
                &hand_point(left_hand, HandIndex::RingTip),
                &result.left_ring_finger_pip,
                Side::Left,
            );
            result.left_pinky_finger_mcp = self.calculate_finger_rotation(
                &hand_point(left_hand, HandIndex::PinkyMCP),
                &hand_point(left_hand, HandIndex::PinkyPIP),
                &result.left_wrist,
                Side::Left,
            );
            result.left_pinky_finger_pip = self.calculate_finger_rotation(
                &hand_point(left_hand, HandIndex::PinkyPIP),
                &hand_point(left_hand, HandIndex::PinkyDIP),
                &result.left_pinky_finger_mcp,
                Side::Left,
            );
            result.left_pinky_finger_dip = self.calculate_finger_rotation(
                &hand_point(left_hand, HandIndex::PinkyDIP),
                &hand_point(left_hand, HandIndex::PinkyTip),
                &result.left_pinky_finger_pip,
                Side::Left,
            );
        }
        let ghost m2 = if left_hand@.len() == 0 {
            m1
        } else {
            spec_left_hand_fields(m1, left_hand@)
        };
        proof {
            assert(result@ == m2);
        }
        if right_hand.len() > 0 {
            result.right_wrist = self.calculate_wrist_rotation(
                &hand_point(right_hand, HandIndex::Wrist),
                &hand_point(right_hand, HandIndex::PinkyMCP),
                &result.right_lower_arm,
                Side::Right,
            );
            result.right_thumb_cmc = self.calculate_thumb_rotation(
                &hand_point(right_hand, HandIndex::ThumbCMC),
                &hand_point(right_hand, HandIndex::ThumbMCP),
                &result.right_wrist,
                Side::Right,
            );
            result.right_thumb_mcp = self.calculate_thumb_rotation(
                &hand_point(right_hand, HandIndex::ThumbMCP),
                &hand_point(right_hand, HandIndex::ThumbIP),
                &result.right_thumb_cmc,
                Side::Right,
            );
            result.right_index_finger_mcp = self.calculate_finger_rotation(
                &hand_point(right_hand, HandIndex::IndexMCP),
                &hand_point(right_hand, HandIndex::IndexPIP),
                &result.right_wrist,
                Side::Right,
            );
            result.right_index_finger_pip = self.calculate_finger_rotation(
                &hand_point(right_hand, HandIndex::IndexPIP),
                &hand_point(right_hand, HandIndex::IndexDIP),
                &result.right_index_finger_mcp,
                Side::Right,
            );
            result.right_index_finger_dip = self.calculate_finger_rotation(
                &hand_point(right_hand, HandIndex::IndexDIP),
                &hand_point(right_hand, HandIndex::IndexTip),
                &result.right_index_finger_pip,
                Side::Right,
            );
            result.right_middle_finger_mcp = self.calculate_finger_rotation(
                &hand_point(right_hand, HandIndex::MiddleMCP),
                &hand_point(right_hand, HandIndex::MiddlePIP),
                &result.right_wrist,
                Side::Right,
            );
            result.right_middle_finger_pip = self.calculate_finger_rotation(
                &hand_point(right_hand, HandIndex::MiddlePIP),
                &hand_point(right_hand, HandIndex::MiddleDIP),
                &result.right_middle_finger_mcp,
                Side::Right,
            );
            result.right_middle_finger_dip = self.calculate_finger_rotation(
                &hand_point(right_hand, HandIndex::MiddleDIP),
                &hand_point(right_hand, HandIndex::MiddleTip),
                &result.right_middle_finger_pip,
                Side::Right,
            );
            result.right_ring_finger_mcp = self.calculate_finger_rotation(
                &hand_point(right_hand, HandIndex::RingMCP),
                &hand_point(right_hand, HandIndex::RingPIP),
                &result.right_wrist,
                Side::Right,
            );
            result.right_ring_finger_pip = self.calculate_finger_rotation(
                &hand_point(right_hand, HandIndex::RingPIP),
                &hand_point(right_hand, HandIndex::RingDIP),
                &result.right_ring_finger_mcp,
                Side::Right,
            );
            result.right_ring_finger_dip = self.calculate_finger_rotation(
                &hand_point(right_hand, HandIndex::RingDIP),
                &hand_point(right_hand, HandIndex::RingTip),
                &result.right_ring_finger_pip,
                Side::Right,
            );
            result.right_pinky_finger_mcp = self.calculate_finger_rotation(
                &hand_point(right_hand, HandIndex::PinkyMCP),
                &hand_point(right_hand, HandIndex::PinkyPIP),
                &result.right_wrist,
                Side::Right,
            );
            result.right_pinky_finger_pip = self.calculate_finger_rotation(
                &hand_point(right_hand, HandIndex::PinkyPIP),
                &hand_point(right_hand, HandIndex::PinkyDIP),
                &result.right_pinky_finger_mcp,
                Side::Right,
            );
            result.right_pinky_finger_dip = self.calculate_finger_rotation(
                &hand_point(right_hand, HandIndex::PinkyDIP),
                &hand_point(right_hand, HandIndex::PinkyTip),
                &result.right_pinky_finger_pip,
                Side::Right,
            );
        }
        let ghost m3 = if right_hand@.len() == 0 {
            m2
        } else {
            spec_right_hand_fields(m2, right_hand@)
        };
        proof {
            assert(result@ == m3);
        }
        if face.len() > 0 {
            let gl = self.calculate_eye_gaze(
                &face_point(face, FaceIndex::LeftEyeLeft),
                &face_point(face, FaceIndex::LeftEyeRight),
                &face_point(face, FaceIndex::LeftEyeIris),
            );
            let gr = self.calculate_eye_gaze(
                &face_point(face, FaceIndex::RightEyeLeft),
                &face_point(face, FaceIndex::RightEyeRight),
                &face_point(face, FaceIndex::RightEyeIris),
            );
            proof {
                lemma_tdiv_bound_by(gl.0 + gr.0, 2, FX_ONE as int);
                lemma_tdiv_bound_by(gl.1 + gr.1, 2, GAZE_Y_LIMIT as int);
            }
            let ax = div_fx(gl.0 + gr.0, 2);
            let ay = div_fx(gl.1 + gr.1, 2);
            result.left_eye_openness = self.calculate_eye_openness(
                &face_point(face, FaceIndex::RightEyeLeft),
                &face_point(face, FaceIndex::RightEyeRight),
                &face_point(face, FaceIndex::RightEyeUpper),
                &face_point(face, FaceIndex::RightEyeLower),
            );
            result.right_eye_openness = self.calculate_eye_openness(
                &face_point(face, FaceIndex::LeftEyeLeft),
                &face_point(face, FaceIndex::LeftEyeRight),
                &face_point(face, FaceIndex::LeftEyeUpper),
                &face_point(face, FaceIndex::LeftEyeLower),
            );
            let eye = self.calculate_eye_rotation(ax, ay);
            result.left_eye_rotation = eye;
            result.right_eye_rotation = eye;
            result.mouth_openness = self.calculate_mouth_openness(
                &face_point(face, FaceIndex::UpperLipTop),
                &face_point(face, FaceIndex::LowerLipBottom),
                &face_point(face, FaceIndex::MouthLeft),
                &face_point(face, FaceIndex::MouthRight),
            );
            proof {
                assert(result@ == spec_face_fields(m3, face@));
            }
        }
        result
    }

    /// One full solve behind a run-time check of the boundary contract:
    /// streams of the wrong length or with out-of-band coordinates are
    /// rejected instead of solved.
    pub fn try_solve(
        &self,
        main_body: &Vec<Vec3>,
        left_hand: &Vec<Vec3>,
        right_hand: &Vec<Vec3>,
        face: &Vec<Vec3>,
    ) -> (r: Option<PoseSolverResult>)
        ensures
            r is Some <==> body_ok(main_body@) && hand_ok(left_hand@) && hand_ok(right_hand@)
                && face_ok(face@),
            r is Some ==> r.unwrap()@ == spec_solve(main_body@, left_hand@, right_hand@, face@),
    {
        if check_body(main_body) && check_hand(left_hand) && check_hand(right_hand) && check_face(
            face,
        ) {
            Option::Some(self.solve(main_body, left_hand, right_hand, face))
        } else {
            Option::None
        }
    }
}

} // verus!
