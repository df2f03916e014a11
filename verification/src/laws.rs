use vstd::prelude::*;

use crate::fixed::{
    isqrt_spec, lemma_isqrt_at_least, lemma_isqrt_square, lemma_neg_mul, lemma_tdiv_bound, lemma_tdiv_exact, lemma_tdiv_neg, tdiv, FX_ONE,
};

use crate::result::{
    default_model, ResultModel,
};
use crate::rotation::{
    iquat_identity, lemma_identity_near_unit, lemma_qnormalize_near_unit, near_unit, qlen, qnorm_sq, spec_axis_angle, spec_cos_half, spec_qnormalize, spec_rotation_between, spec_sin_half, IQuat, QEPS_SQ,
};
use crate::solver::{
    spec_body_fields, spec_eye_gaze, spec_eye_rotation, spec_face_fields, spec_hip_default, spec_hip_rotation, spec_joint_direction, spec_left_hand_fields, spec_lower_body_rotation, spec_neck_rotation, spec_openness_band, spec_right_hand_fields, spec_solve, spec_solve_joint, spec_upper_body_rotation, Side,
};
use crate::rotation::{
    pure_quat, spec_conj, spec_ham, spec_rotate,
};
use crate::vec3::{
    spec_flip_y, spec_mirror_x, spec_normalize, spec_vcross, spec_vneg, spec_vsub, vdot_raw, vlen, vnorm_sq, vunit, IVec3, Vec3,
};

verus! {

/// The minimal-arc rotation from any direction onto itself is the exact
/// identity: the cross product of a direction with itself vanishes, the
/// scaled dot product is nonnegative, and normalizing the resulting
/// axis-free quaternion recovers the identity with no rounding at all.
pub proof fn lemma_rotation_between_self(v: IVec3)
    ensures
        spec_rotation_between(v, v) == iquat_identity(),
{
    if vnorm_sq(v) == 0 {
    } else {
        let u = vunit(v);
        let c = spec_vcross(u, u);
        assert(u.y * u.z - u.z * u.y == 0 && u.z * u.x - u.x * u.z == 0 && u.x * u.y - u.y * u.x
            == 0) by (nonlinear_arith);
        vstd::arithmetic::div_mod::lemma_div_of0(FX_ONE as int);
        assert(c.x == 0 && c.y == 0 && c.z == 0);
        let d = tdiv(vdot_raw(u, u), FX_ONE as int);
        assert(vdot_raw(u, u) >= 0) by (nonlinear_arith);
        lemma_tdiv_bound(vdot_raw(u, u), FX_ONE as int);
        let q = IQuat { x: 0, y: 0, z: 0, w: FX_ONE + d };
        let w = FX_ONE + d;
        assert(qnorm_sq(q) == w * w) by (nonlinear_arith)
            requires
                qnorm_sq(q) == 0 * 0 + 0 * 0 + 0 * 0 + w * w,
        ;
        assert(qnorm_sq(q) >= QEPS_SQ) by (nonlinear_arith)
            requires
                qnorm_sq(q) == w * w,
                w >= FX_ONE,
                FX_ONE == 1_000_000,
                QEPS_SQ == 1_000_000,
        ;
        lemma_isqrt_square(w);
        assert(qlen(q) == w);
        vstd::arithmetic::div_mod::lemma_div_of0(w);
        assert(tdiv(0 * FX_ONE, w) == 0);
        lemma_tdiv_exact(FX_ONE as int, w);
        assert(spec_qnormalize(q).w == FX_ONE as int);
    }
}

/// The solver is pure: its result is a function of the landmark frames
/// alone, so two solves of identical frames agree in every field.
pub proof fn lemma_solve_deterministic(
    body: Seq<Vec3>,
    left_hand: Seq<Vec3>,
    right_hand: Seq<Vec3>,
    face: Seq<Vec3>,
    first: ResultModel,
    second: ResultModel,
)
    requires
        first == spec_solve(body, left_hand, right_hand, face),
        second == spec_solve(body, left_hand, right_hand, face),
    ensures
        first == second,
{
}

/// An empty body stream yields the all-default result exactly, whatever
/// the other streams hold: no partial computation is attempted.
pub proof fn lemma_empty_body_default(
    body: Seq<Vec3>,
    left_hand: Seq<Vec3>,
    right_hand: Seq<Vec3>,
    face: Seq<Vec3>,
)
    requires
        body.len() == 0,
    ensures
        spec_solve(body, left_hand, right_hand, face) == default_model(),
{
}

/// With a body stream present and a hand stream absent, that hand's
/// wrist, thumb and finger fields stay at the identity while the body
/// fields are solved from the body stream alone: an absent stream
/// degrades only its own fields.
pub proof fn lemma_hand_gating(
    body: Seq<Vec3>,
    left_hand: Seq<Vec3>,
    right_hand: Seq<Vec3>,
    face: Seq<Vec3>,
)
    requires
        body.len() != 0,
        left_hand.len() == 0,
    ensures
        spec_solve(body, left_hand, right_hand, face).left_wrist == iquat_identity(),
        spec_solve(body, left_hand, right_hand, face).left_thumb_cmc == iquat_identity(),
        spec_solve(body, left_hand, right_hand, face).left_thumb_mcp == iquat_identity(),
        spec_solve(body, left_hand, right_hand, face).left_index_finger_mcp == iquat_identity(),
        spec_solve(body, left_hand, right_hand, face).left_index_finger_pip == iquat_identity(),
        spec_solve(body, left_hand, right_hand, face).left_index_finger_dip == iquat_identity(),
        spec_solve(body, left_hand, right_hand, face).left_middle_finger_mcp == iquat_identity(),
        spec_solve(body, left_hand, right_hand, face).left_middle_finger_pip == iquat_identity(),
        spec_solve(body, left_hand, right_hand, face).left_middle_finger_dip == iquat_identity(),
        spec_solve(body, left_hand, right_hand, face).left_ring_finger_mcp == iquat_identity(),
        spec_solve(body, left_hand, right_hand, face).left_ring_finger_pip == iquat_identity(),
        spec_solve(body, left_hand, right_hand, face).left_ring_finger_dip == iquat_identity(),
        spec_solve(body, left_hand, right_hand, face).left_pinky_finger_mcp == iquat_identity(),
        spec_solve(body, left_hand, right_hand, face).left_pinky_finger_pip == iquat_identity(),
        spec_solve(body, left_hand, right_hand, face).left_pinky_finger_dip == iquat_identity(),
{
}

/// The body-joint fields depend on the body stream alone: the hand and
/// face streams never touch them.
pub proof fn lemma_body_fields_independent(
    body: Seq<Vec3>,
    left_hand: Seq<Vec3>,
    right_hand: Seq<Vec3>,
    face: Seq<Vec3>,
)
    requires
        body.len() != 0,
    ensures
        spec_solve(body, left_hand, right_hand, face).upper_body == spec_body_fields(
            body,
        ).upper_body,
        spec_solve(body, left_hand, right_hand, face).lower_body == spec_body_fields(
            body,
        ).lower_body,
        spec_solve(body, left_hand, right_hand, face).neck == spec_body_fields(body).neck,
        spec_solve(body, left_hand, right_hand, face).left_upper_arm == spec_body_fields(
            body,
        ).left_upper_arm,
        spec_solve(body, left_hand, right_hand, face).left_lower_arm == spec_body_fields(
            body,
        ).left_lower_arm,
        spec_solve(body, left_hand, right_hand, face).right_upper_arm == spec_body_fields(
            body,
        ).right_upper_arm,
        spec_solve(body, left_hand, right_hand, face).right_lower_arm == spec_body_fields(
            body,
        ).right_lower_arm,
        spec_solve(body, left_hand, right_hand, face).left_hip == spec_body_fields(body).left_hip,
        spec_solve(body, left_hand, right_hand, face).right_hip == spec_body_fields(
            body,
        ).right_hip,
        spec_solve(body, left_hand, right_hand, face).left_foot == spec_body_fields(
            body,
        ).left_foot,
        spec_solve(body, left_hand, right_hand, face).right_foot == spec_body_fields(
            body,
        ).right_foot,
{
}

/// The hip clamp: whenever the observed leg direction bends more than a
/// quarter turn away from straight down (its cosine against the default
/// turns negative), the solved rotation is exactly the quarter-turn
/// about the computed axis - the same rotation for every such leg
/// position, never the raw unclamped angle.
pub proof fn lemma_hip_clamp(hip: IVec3, knee: IVec3, lower_body: IQuat, local: IVec3)
    requires
        spec_joint_direction(hip, knee, lower_body) == Option::Some(local),
        vlen(local) > 0,
        tdiv(vdot_raw(spec_hip_default(), local), vlen(local)) < 0,
        spec_normalize(spec_vcross(spec_hip_default(), local)) is Some,
    ensures
        spec_hip_rotation(hip, knee, lower_body) == spec_qnormalize(
            spec_axis_angle(
                spec_normalize(spec_vcross(spec_hip_default(), local)).unwrap(),
                0,
            ),
        ),
        spec_axis_angle(
            spec_normalize(spec_vcross(spec_hip_default(), local)).unwrap(),
            0,
        ).w == spec_cos_half(0),
{
}

/// The cosine and sine of half a quarter turn agree: at the clamp the
/// solved quaternion's scalar component encodes exactly ninety degrees.
pub proof fn lemma_quarter_turn_half_angle()
    ensures
        spec_cos_half(0) == 707_106,
        spec_sin_half(0) == 707_106,
{
    assert((FX_ONE * (FX_ONE - 0)) / 2 == 500_000_000_000int);
    assert((FX_ONE * (FX_ONE + 0)) / 2 == 500_000_000_000int);
    assert(707_106int * 707_106 <= 500_000_000_000int && (707_106int + 1) * (707_106int + 1)
        > 500_000_000_000int) by (nonlinear_arith);
    crate::fixed::lemma_isqrt_unique(500_000_000_000int, 707_106int);
}

/// The eyelid-openness band: at or under the closed aspect ratio the
/// openness is exactly zero, at or over the open ratio exactly one, and
/// at the midpoint of the band exactly one half.
pub proof fn lemma_eye_openness_boundaries(h: int, w: int)
    requires
        h >= 0,
        w > 0,
    ensures
        100 * h <= 15 * w ==> spec_openness_band(h, w) == 0,
        100 * h >= 28 * w ==> spec_openness_band(h, w) == FX_ONE as int,
        200 * h == 43 * w ==> spec_openness_band(h, w) == (FX_ONE as int) / 2,
{
    if 200 * h == 43 * w {
        let e = 100 * h - 15 * w;
        assert(2 * e == 13 * w);
        assert((FX_ONE as int) / 2 == 500_000) by (nonlinear_arith);
        assert(e * FX_ONE == 500_000 * (13 * w)) by (nonlinear_arith)
            requires
                2 * e == 13 * w,
        ;
        lemma_tdiv_exact((FX_ONE as int) / 2, 13 * w);
    }
}


/// Every rotation field of a result model is a unit quaternion up to
/// the fixed-point tolerance.
pub open spec fn all_rotations_near_unit(m: ResultModel) -> bool {
    near_unit(m.upper_body)
    && near_unit(m.lower_body)
    && near_unit(m.neck)
    && near_unit(m.left_hip)
    && near_unit(m.right_hip)
    && near_unit(m.left_foot)
    && near_unit(m.right_foot)
    && near_unit(m.left_upper_arm)
    && near_unit(m.right_upper_arm)
    && near_unit(m.left_lower_arm)
    && near_unit(m.right_lower_arm)
    && near_unit(m.left_wrist)
    && near_unit(m.right_wrist)
    && near_unit(m.left_thumb_cmc)
    && near_unit(m.left_thumb_mcp)
    && near_unit(m.left_index_finger_mcp)
    && near_unit(m.left_index_finger_pip)
    && near_unit(m.left_index_finger_dip)
    && near_unit(m.left_middle_finger_mcp)
    && near_unit(m.left_middle_finger_pip)
    && near_unit(m.left_middle_finger_dip)
    && near_unit(m.left_ring_finger_mcp)
    && near_unit(m.left_ring_finger_pip)
    && near_unit(m.left_ring_finger_dip)
    && near_unit(m.left_pinky_finger_mcp)
    && near_unit(m.left_pinky_finger_pip)
    && near_unit(m.left_pinky_finger_dip)
    && near_unit(m.right_thumb_cmc)
    && near_unit(m.right_thumb_mcp)
    && near_unit(m.right_index_finger_mcp)
    && near_unit(m.right_index_finger_pip)
    && near_unit(m.right_index_finger_dip)
    && near_unit(m.right_middle_finger_mcp)
    && near_unit(m.right_middle_finger_pip)
    && near_unit(m.right_middle_finger_dip)
    && near_unit(m.right_ring_finger_mcp)
    && near_unit(m.right_ring_finger_pip)
    && near_unit(m.right_ring_finger_dip)
    && near_unit(m.right_pinky_finger_mcp)
    && near_unit(m.right_pinky_finger_pip)
    && near_unit(m.right_pinky_finger_dip)
    && near_unit(m.left_eye_rotation)
    && near_unit(m.right_eye_rotation)
}

/// A minimal-arc rotation is always a unit quaternion up to tolerance.
proof fn lemma_rb_near_unit(f: IVec3, t: IVec3)
    ensures
        near_unit(spec_rotation_between(f, t)),
{
    lemma_identity_near_unit();
    if spec_normalize(f) is Some && spec_normalize(t) is Some {
        let nf = spec_normalize(f).unwrap();
        let nt = spec_normalize(t).unwrap();
        let c = spec_vcross(nf, nt);
        let d = tdiv(vdot_raw(nf, nt), FX_ONE as int);
        lemma_qnormalize_near_unit(IQuat { x: c.x, y: c.y, z: c.z, w: FX_ONE + d });
    }
}

/// A directional joint solve is always a unit quaternion up to
/// tolerance.
proof fn lemma_solve_joint_near_unit(origin: IVec3, target: IVec3, parent: IQuat, dflt: IVec3)
    ensures
        near_unit(spec_solve_joint(origin, target, parent, dflt)),
{
    lemma_identity_near_unit();
    match spec_joint_direction(origin, target, parent) {
        Option::None => {},
        Option::Some(local) => {
            lemma_rb_near_unit(dflt, local);
        },
    }
}

/// The upper-body rotation is always a unit quaternion up to tolerance.
proof fn lemma_upper_body_near_unit(ls: IVec3, rs: IVec3)
    ensures
        near_unit(spec_upper_body_rotation(ls, rs)),
{
    let spine = spec_solve_joint(rs, ls, iquat_identity(), crate::solver::spec_body_line_default());
    let bend = crate::solver::spec_upper_body_bend(ls, rs);
    lemma_qnormalize_near_unit(crate::rotation::spec_ham(spine, bend));
}

/// The neck rotation is always a unit quaternion up to tolerance.
proof fn lemma_neck_near_unit(nose: IVec3, ls: IVec3, rs: IVec3, upper_body: IQuat)
    ensures
        near_unit(spec_neck_rotation(nose, ls, rs, upper_body)),
{
    lemma_identity_near_unit();
    let neck_pos = crate::vec3::spec_vmid(ls, rs);
    match spec_normalize(spec_vsub(nose, neck_pos)) {
        Option::None => {},
        Option::Some(d) => {
            let local = crate::rotation::spec_rotate(crate::rotation::spec_conj(upper_body), d);
            let fraw = IVec3 { x: -local.x, y: 0, z: -local.z };
            match spec_normalize(fraw) {
                Option::None => {},
                Option::Some(f) => {
                    let sh = spec_sin_half(f.z);
                    let ch = spec_cos_half(f.z);
                    let horiz = IQuat {
                        x: 0,
                        y: if f.x >= 0 {
                            sh
                        } else {
                            -sh
                        },
                        z: 0,
                        w: ch,
                    };
                    let h = isqrt_spec(local.x * local.x + local.z * local.z);
                    let rr = isqrt_spec(local.y * local.y + h * h);
                    let cphi = tdiv(h * FX_ONE, rr);
                    let shp_mag = spec_sin_half(cphi);
                    let chp = spec_cos_half(cphi);
                    let shp = if local.y <= 0 {
                        shp_mag
                    } else {
                        -shp_mag
                    };
                    let sa = tdiv(shp * crate::solver::TILT_OFF_COS - chp
                        * crate::solver::TILT_OFF_SIN, FX_ONE as int);
                    let ca = tdiv(chp * crate::solver::TILT_OFF_COS + shp
                        * crate::solver::TILT_OFF_SIN, FX_ONE as int);
                    let tilt = IQuat { x: sa, y: 0, z: 0, w: ca };
                    lemma_qnormalize_near_unit(crate::rotation::spec_ham(horiz, tilt));
                },
            }
        },
    }
}

/// The hip rotation is always a unit quaternion up to tolerance.
proof fn lemma_hip_near_unit(hip: IVec3, knee: IVec3, lower_body: IQuat)
    ensures
        near_unit(spec_hip_rotation(hip, knee, lower_body)),
{
    lemma_identity_near_unit();
    match spec_joint_direction(hip, knee, lower_body) {
        Option::None => {},
        Option::Some(local) => {
            let nb = isqrt_spec(vnorm_sq(local));
            if nb == 0 {
            } else {
                let cosv = tdiv(vdot_raw(spec_hip_default(), local), nb);
                let clamped = if cosv < 0 {
                    0
                } else {
                    cosv
                };
                match spec_normalize(spec_vcross(spec_hip_default(), local)) {
                    Option::None => {},
                    Option::Some(axis) => {
                        lemma_qnormalize_near_unit(spec_axis_angle(axis, clamped));
                    },
                }
            }
        },
    }
}

/// The eye rotation is always a unit quaternion up to tolerance.
proof fn lemma_eye_rotation_near_unit(gx: int, gy: int)
    ensures
        near_unit(spec_eye_rotation(gx, gy)),
{
    let tx = tdiv(gy * crate::solver::GAZE_HALF_VERTICAL, FX_ONE as int);
    let ty = tdiv((-gx) * crate::solver::GAZE_HALF_HORIZONTAL, FX_ONE as int);
    let qx = IQuat {
        x: crate::rotation::spec_sin_series(tx),
        y: 0,
        z: 0,
        w: crate::rotation::spec_cos_series(tx),
    };
    let qy = IQuat {
        x: 0,
        y: crate::rotation::spec_sin_series(ty),
        z: 0,
        w: crate::rotation::spec_cos_series(ty),
    };
    lemma_qnormalize_near_unit(crate::rotation::spec_ham(qy, qx));
}

/// Every output rotation of a solve - whatever the input frames hold -
/// is a unit quaternion up to the fixed-point tolerance.
#[verifier::rlimit(100)]
pub proof fn lemma_solve_near_unit(
    body: Seq<Vec3>,
    left_hand: Seq<Vec3>,
    right_hand: Seq<Vec3>,
    face: Seq<Vec3>,
)
    ensures
        all_rotations_near_unit(spec_solve(body, left_hand, right_hand, face)),
{
    lemma_identity_near_unit();
    if body.len() != 0 {
        let ls = body[11]@;
        let rs = body[12]@;
        let lh = body[23]@;
        let rh = body[24]@;
        let upper = spec_upper_body_rotation(ls, rs);
        let lower = spec_lower_body_rotation(lh, rh);
        lemma_upper_body_near_unit(ls, rs);
        lemma_solve_joint_near_unit(rh, lh, iquat_identity(),
            crate::solver::spec_body_line_default());
        lemma_neck_near_unit(body[0]@, ls, rs, upper);
        let lua = spec_solve_joint(ls, body[13]@, upper, crate::solver::spec_arm_default(Side::Left));
        let rua = spec_solve_joint(rs, body[14]@, upper, crate::solver::spec_arm_default(Side::Right));
        lemma_solve_joint_near_unit(ls, body[13]@, upper, crate::solver::spec_arm_default(Side::Left));
        lemma_solve_joint_near_unit(body[13]@, body[15]@, lua,
            crate::solver::spec_arm_default(Side::Left));
        lemma_solve_joint_near_unit(rs, body[14]@, upper,
            crate::solver::spec_arm_default(Side::Right));
        lemma_solve_joint_near_unit(body[14]@, body[16]@, rua,
            crate::solver::spec_arm_default(Side::Right));
        lemma_hip_near_unit(lh, body[25]@, lower);
        lemma_hip_near_unit(rh, body[26]@, lower);
        let m1 = spec_body_fields(body);
        assert(all_rotations_near_unit(m1));
        let m2 = if left_hand.len() == 0 {
            m1
        } else {
            lemma_hand_fields_near_unit_left(m1, left_hand);
            spec_left_hand_fields(m1, left_hand)
        };
        let m3 = if right_hand.len() == 0 {
            m2
        } else {
            lemma_hand_fields_near_unit_right(m2, right_hand);
            spec_right_hand_fields(m2, right_hand)
        };
        if face.len() != 0 {
            let lg = spec_eye_gaze(face[33]@, face[133]@, face[468]@);
            let rg = spec_eye_gaze(face[362]@, face[263]@, face[473]@);
            lemma_eye_rotation_near_unit(tdiv(lg.0 + rg.0, 2), tdiv(lg.1 + rg.1, 2));
            assert(all_rotations_near_unit(spec_face_fields(m3, face)));
        }
    }
}


/// The left-hand chain keeps every rotation a unit quaternion up to
/// tolerance.
proof fn lemma_hand_fields_near_unit_left(m: ResultModel, s: Seq<Vec3>)
    requires
        all_rotations_near_unit(m),
    ensures
        all_rotations_near_unit(spec_left_hand_fields(m, s)),
{
    let wrist = spec_solve_joint(s[0]@, s[17]@, m.left_lower_arm,
        crate::solver::spec_wrist_default(Side::Left));
    lemma_solve_joint_near_unit(s[0]@, s[17]@, m.left_lower_arm,
        crate::solver::spec_wrist_default(Side::Left));
    let thumb_cmc = spec_solve_joint(s[1]@, s[2]@, wrist,
        crate::solver::spec_thumb_default(Side::Left));
    lemma_solve_joint_near_unit(s[1]@, s[2]@, wrist,
        crate::solver::spec_thumb_default(Side::Left));
    let thumb_mcp = spec_solve_joint(s[2]@, s[3]@, thumb_cmc,
        crate::solver::spec_thumb_default(Side::Left));
    lemma_solve_joint_near_unit(s[2]@, s[3]@, thumb_cmc,
        crate::solver::spec_thumb_default(Side::Left));
    let index_finger_mcp = spec_solve_joint(s[5]@, s[6]@, wrist,
        crate::solver::spec_finger_default(Side::Left));
    lemma_solve_joint_near_unit(s[5]@, s[6]@, wrist,
        crate::solver::spec_finger_default(Side::Left));
    let index_finger_pip = spec_solve_joint(s[6]@, s[7]@, index_finger_mcp,
        crate::solver::spec_finger_default(Side::Left));
    lemma_solve_joint_near_unit(s[6]@, s[7]@, index_finger_mcp,
        crate::solver::spec_finger_default(Side::Left));
    let index_finger_dip = spec_solve_joint(s[7]@, s[8]@, index_finger_pip,
        crate::solver::spec_finger_default(Side::Left));
    lemma_solve_joint_near_unit(s[7]@, s[8]@, index_finger_pip,
        crate::solver::spec_finger_default(Side::Left));
    let middle_finger_mcp = spec_solve_joint(s[9]@, s[10]@, wrist,
        crate::solver::spec_finger_default(Side::Left));
    lemma_solve_joint_near_unit(s[9]@, s[10]@, wrist,
        crate::solver::spec_finger_default(Side::Left));
    let middle_finger_pip = spec_solve_joint(s[10]@, s[11]@, middle_finger_mcp,
        crate::solver::spec_finger_default(Side::Left));
    lemma_solve_joint_near_unit(s[10]@, s[11]@, middle_finger_mcp,
        crate::solver::spec_finger_default(Side::Left));
    let middle_finger_dip = spec_solve_joint(s[11]@, s[12]@, middle_finger_pip,
        crate::solver::spec_finger_default(Side::Left));
    lemma_solve_joint_near_unit(s[11]@, s[12]@, middle_finger_pip,
        crate::solver::spec_finger_default(Side::Left));
    let ring_finger_mcp = spec_solve_joint(s[13]@, s[14]@, wrist,
        crate::solver::spec_finger_default(Side::Left));
    lemma_solve_joint_near_unit(s[13]@, s[14]@, wrist,
        crate::solver::spec_finger_default(Side::Left));
    let ring_finger_pip = spec_solve_joint(s[14]@, s[15]@, ring_finger_mcp,
        crate::solver::spec_finger_default(Side::Left));
    lemma_solve_joint_near_unit(s[14]@, s[15]@, ring_finger_mcp,
        crate::solver::spec_finger_default(Side::Left));
    let ring_finger_dip = spec_solve_joint(s[15]@, s[16]@, ring_finger_pip,
        crate::solver::spec_finger_default(Side::Left));
    lemma_solve_joint_near_unit(s[15]@, s[16]@, ring_finger_pip,
        crate::solver::spec_finger_default(Side::Left));
    let pinky_finger_mcp = spec_solve_joint(s[17]@, s[18]@, wrist,
        crate::solver::spec_finger_default(Side::Left));
    lemma_solve_joint_near_unit(s[17]@, s[18]@, wrist,
        crate::solver::spec_finger_default(Side::Left));
    let pinky_finger_pip = spec_solve_joint(s[18]@, s[19]@, pinky_finger_mcp,
        crate::solver::spec_finger_default(Side::Left));
    lemma_solve_joint_near_unit(s[18]@, s[19]@, pinky_finger_mcp,
        crate::solver::spec_finger_default(Side::Left));
    let pinky_finger_dip = spec_solve_joint(s[19]@, s[20]@, pinky_finger_pip,
        crate::solver::spec_finger_default(Side::Left));
    lemma_solve_joint_near_unit(s[19]@, s[20]@, pinky_finger_pip,
        crate::solver::spec_finger_default(Side::Left));
}

/// The right-hand chain keeps every rotation a unit quaternion up to
/// tolerance.
proof fn lemma_hand_fields_near_unit_right(m: ResultModel, s: Seq<Vec3>)
    requires
        all_rotations_near_unit(m),
    ensures
        all_rotations_near_unit(spec_right_hand_fields(m, s)),
{
    let wrist = spec_solve_joint(s[0]@, s[17]@, m.right_lower_arm,
        crate::solver::spec_wrist_default(Side::Right));
    lemma_solve_joint_near_unit(s[0]@, s[17]@, m.right_lower_arm,
        crate::solver::spec_wrist_default(Side::Right));
    let thumb_cmc = spec_solve_joint(s[1]@, s[2]@, wrist,
        crate::solver::spec_thumb_default(Side::Right));
    lemma_solve_joint_near_unit(s[1]@, s[2]@, wrist,
        crate::solver::spec_thumb_default(Side::Right));
    let thumb_mcp = spec_solve_joint(s[2]@, s[3]@, thumb_cmc,
        crate::solver::spec_thumb_default(Side::Right));
    lemma_solve_joint_near_unit(s[2]@, s[3]@, thumb_cmc,
        crate::solver::spec_thumb_default(Side::Right));
    let index_finger_mcp = spec_solve_joint(s[5]@, s[6]@, wrist,
        crate::solver::spec_finger_default(Side::Right));
    lemma_solve_joint_near_unit(s[5]@, s[6]@, wrist,
        crate::solver::spec_finger_default(Side::Right));
    let index_finger_pip = spec_solve_joint(s[6]@, s[7]@, index_finger_mcp,
        crate::solver::spec_finger_default(Side::Right));
    lemma_solve_joint_near_unit(s[6]@, s[7]@, index_finger_mcp,
        crate::solver::spec_finger_default(Side::Right));
    let index_finger_dip = spec_solve_joint(s[7]@, s[8]@, index_finger_pip,
        crate::solver::spec_finger_default(Side::Right));
    lemma_solve_joint_near_unit(s[7]@, s[8]@, index_finger_pip,
        crate::solver::spec_finger_default(Side::Right));
    let middle_finger_mcp = spec_solve_joint(s[9]@, s[10]@, wrist,
        crate::solver::spec_finger_default(Side::Right));
    lemma_solve_joint_near_unit(s[9]@, s[10]@, wrist,
        crate::solver::spec_finger_default(Side::Right));
    let middle_finger_pip = spec_solve_joint(s[10]@, s[11]@, middle_finger_mcp,
        crate::solver::spec_finger_default(Side::Right));
    lemma_solve_joint_near_unit(s[10]@, s[11]@, middle_finger_mcp,
        crate::solver::spec_finger_default(Side::Right));
    let middle_finger_dip = spec_solve_joint(s[11]@, s[12]@, middle_finger_pip,
        crate::solver::spec_finger_default(Side::Right));
    lemma_solve_joint_near_unit(s[11]@, s[12]@, middle_finger_pip,
        crate::solver::spec_finger_default(Side::Right));
    let ring_finger_mcp = spec_solve_joint(s[13]@, s[14]@, wrist,
        crate::solver::spec_finger_default(Side::Right));
    lemma_solve_joint_near_unit(s[13]@, s[14]@, wrist,
        crate::solver::spec_finger_default(Side::Right));
    let ring_finger_pip = spec_solve_joint(s[14]@, s[15]@, ring_finger_mcp,
        crate::solver::spec_finger_default(Side::Right));
    lemma_solve_joint_near_unit(s[14]@, s[15]@, ring_finger_mcp,
        crate::solver::spec_finger_default(Side::Right));
    let ring_finger_dip = spec_solve_joint(s[15]@, s[16]@, ring_finger_pip,
        crate::solver::spec_finger_default(Side::Right));
    lemma_solve_joint_near_unit(s[15]@, s[16]@, ring_finger_pip,
        crate::solver::spec_finger_default(Side::Right));
    let pinky_finger_mcp = spec_solve_joint(s[17]@, s[18]@, wrist,
        crate::solver::spec_finger_default(Side::Right));
    lemma_solve_joint_near_unit(s[17]@, s[18]@, wrist,
        crate::solver::spec_finger_default(Side::Right));
    let pinky_finger_pip = spec_solve_joint(s[18]@, s[19]@, pinky_finger_mcp,
        crate::solver::spec_finger_default(Side::Right));
    lemma_solve_joint_near_unit(s[18]@, s[19]@, pinky_finger_mcp,
        crate::solver::spec_finger_default(Side::Right));
    let pinky_finger_dip = spec_solve_joint(s[19]@, s[20]@, pinky_finger_pip,
        crate::solver::spec_finger_default(Side::Right));
    lemma_solve_joint_near_unit(s[19]@, s[20]@, pinky_finger_pip,
        crate::solver::spec_finger_default(Side::Right));
}


/// The reflection of a rotation through the plane that mirrors the body:
/// the turn about the horizontal axis keeps its sense while the turns
/// about the vertical and depth axes reverse.
pub open spec fn spec_qmirror(q: IQuat) -> IQuat {
    IQuat { x: q.x, y: -q.y, z: -q.z, w: q.w }
}

/// The negated quaternion, which names the same rotation.
pub open spec fn spec_qneg(q: IQuat) -> IQuat {
    IQuat { x: -q.x, y: -q.y, z: -q.z, w: -q.w }
}

/// Mirroring keeps squared norms: every component is only negated.
proof fn lemma_vnorm_sq_mirror(v: IVec3)
    ensures
        vnorm_sq(spec_mirror_x(v)) == vnorm_sq(v),
        vnorm_sq(spec_vneg(v)) == vnorm_sq(v),
{
    lemma_neg_mul(v.x, v.x);
    lemma_neg_mul(v.y, v.y);
    lemma_neg_mul(v.z, v.z);
}

/// Normalization commutes with the mirror reflection.
proof fn lemma_normalize_mirror(v: IVec3)
    ensures
        spec_normalize(spec_mirror_x(v)) is Some <==> spec_normalize(v) is Some,
        spec_normalize(v) is Some ==> spec_normalize(spec_mirror_x(v)) == Option::Some(
            spec_mirror_x(spec_normalize(v).unwrap()),
        ),
{
    lemma_vnorm_sq_mirror(v);
    if vnorm_sq(v) != 0 {
        crate::vec3::lemma_vlen_pos(v);
        let n = vlen(v);
        lemma_neg_mul(v.x, FX_ONE as int);
        lemma_tdiv_neg(v.x * FX_ONE, n);
    }
}

/// Normalization commutes with negation.
proof fn lemma_normalize_neg(v: IVec3)
    ensures
        spec_normalize(spec_vneg(v)) is Some <==> spec_normalize(v) is Some,
        spec_normalize(v) is Some ==> spec_normalize(spec_vneg(v)) == Option::Some(
            spec_vneg(spec_normalize(v).unwrap()),
        ),
{
    lemma_vnorm_sq_mirror(v);
    if vnorm_sq(v) != 0 {
        crate::vec3::lemma_vlen_pos(v);
        let n = vlen(v);
        lemma_neg_mul(v.x, FX_ONE as int);
        lemma_neg_mul(v.y, FX_ONE as int);
        lemma_neg_mul(v.z, FX_ONE as int);
        lemma_tdiv_neg(v.x * FX_ONE, n);
        lemma_tdiv_neg(v.y * FX_ONE, n);
        lemma_tdiv_neg(v.z * FX_ONE, n);
    }
}

/// The dot product is invariant under mirroring both factors.
proof fn lemma_vdot_mirror(a: IVec3, b: IVec3)
    ensures
        vdot_raw(spec_mirror_x(a), spec_mirror_x(b)) == vdot_raw(a, b),
    {
    lemma_neg_mul(a.x, b.x);
}

/// The cross product of two mirrored vectors is the negated mirror of
/// the cross product: a reflection reverses orientation.
proof fn lemma_vcross_mirror(a: IVec3, b: IVec3)
    ensures
        spec_vcross(spec_mirror_x(a), spec_mirror_x(b)) == spec_vneg(
            spec_mirror_x(spec_vcross(a, b)),
        ),
{
    lemma_neg_mul(a.z, b.x);
    lemma_neg_mul(a.x, b.z);
    lemma_neg_mul(a.x, b.y);
    lemma_neg_mul(a.y, b.x);
    lemma_tdiv_neg(a.z * b.x - a.x * b.z, FX_ONE as int);
    lemma_tdiv_neg(a.x * b.y - a.y * b.x, FX_ONE as int);
}

/// The quaternion product commutes with the mirror reflection.
proof fn lemma_ham_mirror(a: IQuat, b: IQuat)
    ensures
        spec_ham(spec_qmirror(a), spec_qmirror(b)) == spec_qmirror(spec_ham(a, b)),
{
    lemma_neg_mul(a.y, b.z);
    lemma_neg_mul(a.z, b.y);
    lemma_neg_mul(a.w, b.y);
    lemma_neg_mul(a.y, b.w);
    lemma_neg_mul(a.z, b.x);
    lemma_neg_mul(a.x, b.z);
    lemma_neg_mul(a.w, b.z);
    lemma_neg_mul(a.z, b.w);
    lemma_neg_mul(a.x, b.y);
    lemma_neg_mul(a.y, b.x);
    lemma_neg_mul(a.y, b.y);
    lemma_neg_mul(a.z, b.z);
    lemma_tdiv_neg(a.w * b.y + a.y * b.w + a.z * b.x - a.x * b.z, FX_ONE as int);
    lemma_tdiv_neg(a.w * b.z + a.z * b.w + a.x * b.y - a.y * b.x, FX_ONE as int);
}

/// The quaternion product pulls negation out of its left factor.
proof fn lemma_ham_neg_left(a: IQuat, b: IQuat)
    ensures
        spec_ham(spec_qneg(a), b) == spec_qneg(spec_ham(a, b)),
{
    lemma_neg_mul(a.w, b.x);
    lemma_neg_mul(a.x, b.w);
    lemma_neg_mul(a.y, b.z);
    lemma_neg_mul(a.z, b.y);
    lemma_neg_mul(a.w, b.y);
    lemma_neg_mul(a.y, b.w);
    lemma_neg_mul(a.z, b.x);
    lemma_neg_mul(a.x, b.z);
    lemma_neg_mul(a.w, b.z);
    lemma_neg_mul(a.z, b.w);
    lemma_neg_mul(a.x, b.y);
    lemma_neg_mul(a.y, b.x);
    lemma_neg_mul(a.w, b.w);
    lemma_neg_mul(a.x, b.x);
    lemma_neg_mul(a.y, b.y);
    lemma_neg_mul(a.z, b.z);
    lemma_tdiv_neg(a.w * b.x + a.x * b.w + a.y * b.z - a.z * b.y, FX_ONE as int);
    lemma_tdiv_neg(a.w * b.y + a.y * b.w + a.z * b.x - a.x * b.z, FX_ONE as int);
    lemma_tdiv_neg(a.w * b.z + a.z * b.w + a.x * b.y - a.y * b.x, FX_ONE as int);
    lemma_tdiv_neg(a.w * b.w - a.x * b.x - a.y * b.y - a.z * b.z, FX_ONE as int);
}

/// The quaternion product pulls negation out of its right factor.
proof fn lemma_ham_neg_right(a: IQuat, b: IQuat)
    ensures
        spec_ham(a, spec_qneg(b)) == spec_qneg(spec_ham(a, b)),
{
    lemma_neg_mul(a.w, b.x);
    lemma_neg_mul(a.x, b.w);
    lemma_neg_mul(a.y, b.z);
    lemma_neg_mul(a.z, b.y);
    lemma_neg_mul(a.w, b.y);
    lemma_neg_mul(a.y, b.w);
    lemma_neg_mul(a.z, b.x);
    lemma_neg_mul(a.x, b.z);
    lemma_neg_mul(a.w, b.z);
    lemma_neg_mul(a.z, b.w);
    lemma_neg_mul(a.x, b.y);
    lemma_neg_mul(a.y, b.x);
    lemma_neg_mul(a.w, b.w);
    lemma_neg_mul(a.x, b.x);
    lemma_neg_mul(a.y, b.y);
    lemma_neg_mul(a.z, b.z);
    lemma_tdiv_neg(a.w * b.x + a.x * b.w + a.y * b.z - a.z * b.y, FX_ONE as int);
    lemma_tdiv_neg(a.w * b.y + a.y * b.w + a.z * b.x - a.x * b.z, FX_ONE as int);
    lemma_tdiv_neg(a.w * b.z + a.z * b.w + a.x * b.y - a.y * b.x, FX_ONE as int);
    lemma_tdiv_neg(a.w * b.w - a.x * b.x - a.y * b.y - a.z * b.z, FX_ONE as int);
}

/// Rotating a mirrored direction by a mirrored rotation mirrors the
/// rotated direction.
proof fn lemma_rotate_mirror(q: IQuat, v: IVec3)
    ensures
        spec_rotate(spec_qmirror(q), spec_mirror_x(v)) == spec_mirror_x(spec_rotate(q, v)),
{
    let pv = pure_quat(v);
    assert(pure_quat(spec_mirror_x(v)) == spec_qneg(spec_qmirror(pv)));
    let t = spec_ham(q, pv);
    lemma_ham_mirror(q, pv);
    lemma_ham_neg_right(spec_qmirror(q), spec_qmirror(pv));
    assert(spec_ham(spec_qmirror(q), pure_quat(spec_mirror_x(v))) == spec_qneg(spec_qmirror(t)));
    assert(spec_conj(spec_qmirror(q)) == spec_qmirror(spec_conj(q)));
    lemma_ham_mirror(t, spec_conj(q));
    lemma_ham_neg_left(spec_qmirror(t), spec_qmirror(spec_conj(q)));
}

/// Quaternion normalization commutes with the mirror reflection.
proof fn lemma_qnormalize_mirror(q: IQuat)
    ensures
        spec_qnormalize(spec_qmirror(q)) == spec_qmirror(spec_qnormalize(q)),
{
    lemma_neg_mul(q.y, q.y);
    lemma_neg_mul(q.z, q.z);
    assert(qnorm_sq(spec_qmirror(q)) == qnorm_sq(q));
    if qnorm_sq(q) < QEPS_SQ {
    } else {
        lemma_isqrt_at_least(qnorm_sq(q), 1);
        let n = qlen(q);
        lemma_neg_mul(q.y, FX_ONE as int);
        lemma_neg_mul(q.z, FX_ONE as int);
        lemma_tdiv_neg(q.y * FX_ONE, n);
        lemma_tdiv_neg(q.z * FX_ONE, n);
    }
}

/// The minimal-arc rotation between two mirrored directions is the
/// mirror of the minimal-arc rotation between the directions.
proof fn lemma_rotation_between_mirror(f: IVec3, t: IVec3)
    ensures
        spec_rotation_between(spec_mirror_x(f), spec_mirror_x(t)) == spec_qmirror(
            spec_rotation_between(f, t),
        ),
{
    lemma_normalize_mirror(f);
    lemma_normalize_mirror(t);
    if spec_normalize(f) is Some && spec_normalize(t) is Some {
        let nf = spec_normalize(f).unwrap();
        let nt = spec_normalize(t).unwrap();
        lemma_vcross_mirror(nf, nt);
        lemma_vdot_mirror(nf, nt);
        let c = spec_vcross(nf, nt);
        let d = tdiv(vdot_raw(nf, nt), FX_ONE as int);
        assert(IQuat {
            x: spec_vcross(spec_mirror_x(nf), spec_mirror_x(nt)).x,
            y: spec_vcross(spec_mirror_x(nf), spec_mirror_x(nt)).y,
            z: spec_vcross(spec_mirror_x(nf), spec_mirror_x(nt)).z,
            w: FX_ONE + d,
        } == spec_qmirror(IQuat { x: c.x, y: c.y, z: c.z, w: FX_ONE + d }));
        lemma_qnormalize_mirror(IQuat { x: c.x, y: c.y, z: c.z, w: FX_ONE + d });
    }
}

/// The local joint direction of mirrored landmarks under a mirrored
/// parent is the mirrored local direction.
proof fn lemma_joint_direction_mirror(origin: IVec3, target: IVec3, parent: IQuat)
    ensures
        spec_joint_direction(spec_mirror_x(origin), spec_mirror_x(target), spec_qmirror(parent))
            is Some <==> spec_joint_direction(origin, target, parent) is Some,
        spec_joint_direction(origin, target, parent) is Some ==> spec_joint_direction(
            spec_mirror_x(origin),
            spec_mirror_x(target),
            spec_qmirror(parent),
        ) == Option::Some(
            spec_mirror_x(spec_joint_direction(origin, target, parent).unwrap()),
        ),
{
    let seg = spec_vsub(target, origin);
    assert(spec_vsub(spec_mirror_x(target), spec_mirror_x(origin)) == spec_mirror_x(seg));
    lemma_normalize_mirror(seg);
    if spec_normalize(seg) is Some {
        let d = spec_normalize(seg).unwrap();
        assert(spec_flip_y(spec_mirror_x(d)) == spec_mirror_x(spec_flip_y(d)));
        assert(spec_conj(spec_qmirror(parent)) == spec_qmirror(spec_conj(parent)));
        lemma_rotate_mirror(spec_conj(parent), spec_flip_y(d));
    }
}

/// Mirrored symmetry of the directional limb chains: solving a joint
/// from mirrored landmarks, under the mirrored parent rotation and the
/// mirrored bind direction, yields exactly the mirrored rotation. Since
/// each right-side bind direction is the mirror of its left-side one,
/// swapping left and right landmark inputs mirrors every arm, wrist,
/// thumb and finger rotation.
pub proof fn lemma_solve_joint_mirror(origin: IVec3, target: IVec3, parent: IQuat, dflt: IVec3)
    ensures
        spec_solve_joint(
            spec_mirror_x(origin),
            spec_mirror_x(target),
            spec_qmirror(parent),
            spec_mirror_x(dflt),
        ) == spec_qmirror(spec_solve_joint(origin, target, parent, dflt)),
{
    lemma_joint_direction_mirror(origin, target, parent);
    assert(spec_qmirror(iquat_identity()) == iquat_identity());
    match spec_joint_direction(origin, target, parent) {
        Option::None => {},
        Option::Some(local) => {
            lemma_rotation_between_mirror(dflt, local);
        },
    }
}

/// Each right-side bind direction is the mirror of its left-side one,
/// and the leg default is its own mirror.
pub proof fn lemma_default_directions_mirror()
    ensures
        crate::solver::spec_arm_default(Side::Right) == spec_mirror_x(
            crate::solver::spec_arm_default(Side::Left),
        ),
        crate::solver::spec_finger_default(Side::Right) == spec_mirror_x(
            crate::solver::spec_finger_default(Side::Left),
        ),
        crate::solver::spec_wrist_default(Side::Right) == spec_mirror_x(
            crate::solver::spec_wrist_default(Side::Left),
        ),
        crate::solver::spec_thumb_default(Side::Right) == spec_mirror_x(
            crate::solver::spec_thumb_default(Side::Left),
        ),
        spec_hip_default() == spec_mirror_x(spec_hip_default()),
{
}

/// Mirrored symmetry of the leg chain: a hip solved from mirrored
/// landmarks under the mirrored lower-body rotation is exactly the
/// mirrored hip rotation, clamp included.
pub proof fn lemma_hip_mirror(hip: IVec3, knee: IVec3, lower_body: IQuat)
    ensures
        spec_hip_rotation(spec_mirror_x(hip), spec_mirror_x(knee), spec_qmirror(lower_body))
            == spec_qmirror(spec_hip_rotation(hip, knee, lower_body)),
{
    lemma_joint_direction_mirror(hip, knee, lower_body);
    assert(spec_qmirror(iquat_identity()) == iquat_identity());
    match spec_joint_direction(hip, knee, lower_body) {
        Option::None => {},
        Option::Some(local) => {
            let ml = spec_mirror_x(local);
            lemma_vnorm_sq_mirror(local);
            let nb = isqrt_spec(vnorm_sq(local));
            if nb == 0 {
            } else {
                let dflt = spec_hip_default();
                assert(spec_mirror_x(dflt) == dflt);
                lemma_vdot_mirror(dflt, local);
                assert(vdot_raw(dflt, ml) == vdot_raw(spec_mirror_x(dflt), spec_mirror_x(local)));
                let cosv = tdiv(vdot_raw(dflt, local), nb);
                let clamped = if cosv < 0 { 0int } else { cosv };
                lemma_vcross_mirror(dflt, local);
                assert(spec_vcross(dflt, ml) == spec_vneg(spec_mirror_x(spec_vcross(dflt, local))));
                let c = spec_vcross(dflt, local);
                lemma_normalize_mirror(c);
                lemma_normalize_neg(spec_mirror_x(c));
                match spec_normalize(c) {
                    Option::None => {},
                    Option::Some(axis) => {
                        let maxis = spec_vneg(spec_mirror_x(axis));
                        assert(spec_normalize(spec_vcross(dflt, ml)) == Option::Some(maxis));
                        lemma_axis_angle_mirror_pattern(axis, clamped);
                        lemma_qnormalize_mirror(spec_axis_angle(axis, clamped));
                    },
                }
            }
        },
    }
}

/// An axis-angle quaternion about the orientation-reversed mirrored axis
/// is the mirrored quaternion: the axis pattern `(x, -y, -z)` leaves the
/// x component and negates the other two, matching the reflection of the
/// rotation.
proof fn lemma_axis_angle_mirror_pattern(axis: IVec3, c: int)
    ensures
        spec_axis_angle(spec_vneg(spec_mirror_x(axis)), c) == spec_qmirror(
            spec_axis_angle(axis, c),
        ),
{
    let sh = spec_sin_half(c);
    lemma_neg_mul(axis.y, sh);
    lemma_neg_mul(axis.z, sh);
    lemma_tdiv_neg(axis.y * sh, FX_ONE as int);
    lemma_tdiv_neg(axis.z * sh, FX_ONE as int);
}

} // verus!
