use vstd::prelude::*;

use crate::fixed::{
    div_fx, iabs, isqrt_spec, isqrt_u64, lemma_isqrt_at_least, lemma_isqrt_bracket, lemma_tdiv_bound, lemma_tdiv_bound_by, lemma_tdiv_exact, lemma_tdiv_neg, tdiv, FX_ONE,
};
use crate::vec3::{
    lemma_mul_within, spec_normalize, spec_vcross, vbounded, vcross, vdot_raw, vdot_raw_exec, normalize, IVec3, Vec3, VEC_LIMIT,
};

verus! {

/// The square of the fixed-point unit: the squared norm of an exactly
/// unit quaternion.
pub const FX_ONE_SQ: i64 = 1_000_000_000_000;

/// Squared-norm threshold under which a quaternion is treated as
/// degenerate and normalization falls back to the identity.
pub const QEPS_SQ: i64 = 1_000_000;

/// Tolerance for the squared norm of an output rotation around the exact
/// unit square; about 0.2 percent of the unit in relative terms.
pub const UNIT_SLACK: i64 = 4_000_000_000;

/// Component bound that every near-unit rotation respects.
pub const ROT_LIMIT: i64 = 2_000_000;

/// Component bound accepted by the quaternion product.
pub const HAM_LIMIT: i64 = 300_000_000;

/// Component bound accepted by quaternion normalization.
pub const QNORM_LIMIT: i64 = 500_000_000;

/// A rotation as a quaternion `(x, y, z, w)` with components at the
/// fixed-point scale of [`FX_ONE`]; the identity is `(0, 0, 0, FX_ONE)`.
#[derive(Clone, Copy, PartialEq, Eq, Structural, Debug)]
pub struct Rotation {
    pub x: i64,
    pub y: i64,
    pub z: i64,
    pub w: i64,
}

/// The mathematical model of a rotation: the same four components as
/// unbounded integers.
pub ghost struct IQuat {
    pub x: int,
    pub y: int,
    pub z: int,
    pub w: int,
}

impl View for Rotation {
    type V = IQuat;

    open spec fn view(&self) -> IQuat {
        IQuat { x: self.x as int, y: self.y as int, z: self.z as int, w: self.w as int }
    }
}

/// The identity quaternion.
pub open spec fn iquat_identity() -> IQuat {
    IQuat { x: 0, y: 0, z: 0, w: FX_ONE as int }
}

/// All four components lie within `m` in magnitude.
pub open spec fn qbounded(q: IQuat, m: int) -> bool {
    iabs(q.x) <= m && iabs(q.y) <= m && iabs(q.z) <= m && iabs(q.w) <= m
}

/// Raw squared norm (carries a factor of the scale squared).
pub open spec fn qnorm_sq(q: IQuat) -> int {
    q.x * q.x + q.y * q.y + q.z * q.z + q.w * q.w
}

/// The squared norm sits within [`UNIT_SLACK`] of the exact unit square:
/// the quaternion is a unit quaternion up to the fixed-point tolerance.
pub open spec fn near_unit(q: IQuat) -> bool {
    iabs(qnorm_sq(q) - FX_ONE_SQ as int) <= UNIT_SLACK as int
}

/// The conjugate, which inverts a unit quaternion.
pub open spec fn spec_conj(q: IQuat) -> IQuat {
    IQuat { x: -q.x, y: -q.y, z: -q.z, w: q.w }
}

/// The Hamilton product at the fixed-point scale.
pub open spec fn spec_ham(a: IQuat, b: IQuat) -> IQuat {
    IQuat {
        x: tdiv(a.w * b.x + a.x * b.w + a.y * b.z - a.z * b.y, FX_ONE as int),
        y: tdiv(a.w * b.y + a.y * b.w + a.z * b.x - a.x * b.z, FX_ONE as int),
        z: tdiv(a.w * b.z + a.z * b.w + a.x * b.y - a.y * b.x, FX_ONE as int),
        w: tdiv(a.w * b.w - a.x * b.x - a.y * b.y - a.z * b.z, FX_ONE as int),
    }
}

/// A vector as a pure quaternion.
pub open spec fn pure_quat(v: IVec3) -> IQuat {
    IQuat { x: v.x, y: v.y, z: v.z, w: 0 }
}

/// A vector rotated by a quaternion: `q * v * conj(q)` at the fixed-point
/// scale.
pub open spec fn spec_rotate(q: IQuat, v: IVec3) -> IVec3 {
    let t = spec_ham(q, pure_quat(v));
    let r = spec_ham(t, spec_conj(q));
    IVec3 { x: r.x, y: r.y, z: r.z }
}

impl Rotation {
    /// A rotation from its four quaternion components.
    pub fn new(x: i64, y: i64, z: i64, w: i64) -> (r: Rotation)
        ensures
            r@ == (IQuat { x: x as int, y: y as int, z: z as int, w: w as int }),
    {
        Rotation { x, y, z, w }
    }

    /// The identity rotation.
    pub fn default() -> (r: Rotation)
        ensures
            r@ == iquat_identity(),
    {
        Rotation { x: 0, y: 0, z: 0, w: FX_ONE }
    }

    /// The x component.
    pub fn x(&self) -> (r: i64)
        ensures
            r == self@.x,
    {
        self.x
    }

    /// The y component.
    pub fn y(&self) -> (r: i64)
        ensures
            r == self@.y,
    {
        self.y
    }

    /// The z component.
    pub fn z(&self) -> (r: i64)
        ensures
            r == self@.z,
    {
        self.z
    }

    /// The w (scalar) component.
    pub fn w(&self) -> (r: i64)
        ensures
            r == self@.w,
    {
        self.w
    }
}

/// Bound propagation through the quaternion product: if the factors'
/// components lie within `ma` and `mb`, the product's lie within `mc`
/// whenever `4 * ma * mb <= FX_ONE * mc`.
pub proof fn lemma_ham_bounded(a: IQuat, b: IQuat, ma: int, mb: int, mc: int)
    requires
        qbounded(a, ma),
        qbounded(b, mb),
        0 <= ma,
        0 <= mb,
        0 <= mc,
        4 * ma * mb <= FX_ONE * mc,
    ensures
        qbounded(spec_ham(a, b), mc),
{
    lemma_ham_sum_bounded(a, b, ma, mb);
    assert(4 * (ma * mb) <= mc * (FX_ONE as int)) by (nonlinear_arith)
        requires
            4 * ma * mb <= FX_ONE * mc,
    ;
    lemma_tdiv_bound_by(a.w * b.x + a.x * b.w + a.y * b.z - a.z * b.y, FX_ONE as int, mc);
    lemma_tdiv_bound_by(a.w * b.y + a.y * b.w + a.z * b.x - a.x * b.z, FX_ONE as int, mc);
    lemma_tdiv_bound_by(a.w * b.z + a.z * b.w + a.x * b.y - a.y * b.x, FX_ONE as int, mc);
    lemma_tdiv_bound_by(a.w * b.w - a.x * b.x - a.y * b.y - a.z * b.z, FX_ONE as int, mc);
}

/// Each raw component sum of the product lies within `4 * ma * mb`.
proof fn lemma_ham_sum_bounded(a: IQuat, b: IQuat, ma: int, mb: int)
    requires
        qbounded(a, ma),
        qbounded(b, mb),
        0 <= ma,
        0 <= mb,
    ensures
        iabs(a.w * b.x + a.x * b.w + a.y * b.z - a.z * b.y) <= 4 * (ma * mb),
        iabs(a.w * b.y + a.y * b.w + a.z * b.x - a.x * b.z) <= 4 * (ma * mb),
        iabs(a.w * b.z + a.z * b.w + a.x * b.y - a.y * b.x) <= 4 * (ma * mb),
        iabs(a.w * b.w - a.x * b.x - a.y * b.y - a.z * b.z) <= 4 * (ma * mb),
{
    lemma_mul_within2(a.w, b.x, ma, mb);
    lemma_mul_within2(a.x, b.w, ma, mb);
    lemma_mul_within2(a.y, b.z, ma, mb);
    lemma_mul_within2(a.z, b.y, ma, mb);
    lemma_mul_within2(a.w, b.y, ma, mb);
    lemma_mul_within2(a.y, b.w, ma, mb);
    lemma_mul_within2(a.z, b.x, ma, mb);
    lemma_mul_within2(a.x, b.z, ma, mb);
    lemma_mul_within2(a.w, b.z, ma, mb);
    lemma_mul_within2(a.z, b.w, ma, mb);
    lemma_mul_within2(a.x, b.y, ma, mb);
    lemma_mul_within2(a.y, b.x, ma, mb);
    lemma_mul_within2(a.w, b.w, ma, mb);
    lemma_mul_within2(a.x, b.x, ma, mb);
    lemma_mul_within2(a.y, b.y, ma, mb);
    lemma_mul_within2(a.z, b.z, ma, mb);
}

/// The product of two values within `ma` and `mb` stays within `ma * mb`.
pub proof fn lemma_mul_within2(p: int, q: int, ma: int, mb: int)
    requires
        0 <= ma,
        0 <= mb,
        iabs(p) <= ma,
        iabs(q) <= mb,
    ensures
        iabs(p * q) <= ma * mb,
{
    assert(iabs(p * q) <= ma * mb) by (nonlinear_arith)
        requires
            0 <= ma,
            0 <= mb,
            iabs(p) <= ma,
            iabs(q) <= mb,
    ;
}

/// Executable Hamilton product.
pub fn ham(a: &Rotation, b: &Rotation) -> (r: Rotation)
    requires
        qbounded(a@, HAM_LIMIT as int),
        qbounded(b@, HAM_LIMIT as int),
    ensures
        r@ == spec_ham(a@, b@),
{
    proof {
        let m = HAM_LIMIT as int;
        lemma_mul_within2(a@.w, b@.x, m, m);
        lemma_mul_within2(a@.x, b@.w, m, m);
        lemma_mul_within2(a@.y, b@.z, m, m);
        lemma_mul_within2(a@.z, b@.y, m, m);
        lemma_mul_within2(a@.w, b@.y, m, m);
        lemma_mul_within2(a@.y, b@.w, m, m);
        lemma_mul_within2(a@.z, b@.x, m, m);
        lemma_mul_within2(a@.x, b@.z, m, m);
        lemma_mul_within2(a@.w, b@.z, m, m);
        lemma_mul_within2(a@.z, b@.w, m, m);
        lemma_mul_within2(a@.x, b@.y, m, m);
        lemma_mul_within2(a@.y, b@.x, m, m);
        lemma_mul_within2(a@.w, b@.w, m, m);
        lemma_mul_within2(a@.x, b@.x, m, m);
        lemma_mul_within2(a@.y, b@.y, m, m);
        lemma_mul_within2(a@.z, b@.z, m, m);
        lemma_tdiv_bound(a@.w * b@.x + a@.x * b@.w + a@.y * b@.z - a@.z * b@.y, FX_ONE as int);
        lemma_tdiv_bound(a@.w * b@.y + a@.y * b@.w + a@.z * b@.x - a@.x * b@.z, FX_ONE as int);
        lemma_tdiv_bound(a@.w * b@.z + a@.z * b@.w + a@.x * b@.y - a@.y * b@.x, FX_ONE as int);
        lemma_tdiv_bound(a@.w * b@.w - a@.x * b@.x - a@.y * b@.y - a@.z * b@.z, FX_ONE as int);
    }
    Rotation {
        x: div_fx(a.w * b.x + a.x * b.w + a.y * b.z - a.z * b.y, FX_ONE),
        y: div_fx(a.w * b.y + a.y * b.w + a.z * b.x - a.x * b.z, FX_ONE),
        z: div_fx(a.w * b.z + a.z * b.w + a.x * b.y - a.y * b.x, FX_ONE),
        w: div_fx(a.w * b.w - a.x * b.x - a.y * b.y - a.z * b.z, FX_ONE),
    }
}

/// Executable conjugate.
pub fn conj(q: &Rotation) -> (r: Rotation)
    requires
        qbounded(q@, QNORM_LIMIT as int),
    ensures
        r@ == spec_conj(q@),
{
    Rotation { x: -q.x, y: -q.y, z: -q.z, w: q.w }
}

/// Executable rotation of a direction by a quaternion.
pub fn rotate_vec(q: &Rotation, v: &Vec3) -> (r: Vec3)
    requires
        qbounded(q@, ROT_LIMIT as int),
        vbounded(v@, FX_ONE as int),
    ensures
        r@ == spec_rotate(q@, v@),
        vbounded(r@, 64_000_000),
{
    let p = Rotation { x: v.x, y: v.y, z: v.z, w: 0 };
    proof {
        lemma_ham_bounded(q@, p@, ROT_LIMIT as int, FX_ONE as int, 8_000_000);
    }
    let t = ham(q, &p);
    let c = conj(q);
    proof {
        lemma_ham_bounded(t@, c@, 8_000_000, ROT_LIMIT as int, 64_000_000);
    }
    let r = ham(&t, &c);
    Vec3 { x: r.x, y: r.y, z: r.z }
}

/// Length of a quaternion at the fixed-point scale.
pub open spec fn qlen(q: IQuat) -> int {
    isqrt_spec(qnorm_sq(q))
}

/// Normalization to a unit quaternion; a quaternion whose squared norm
/// falls under [`QEPS_SQ`] is degenerate and maps to the identity.
pub open spec fn spec_qnormalize(q: IQuat) -> IQuat {
    if qnorm_sq(q) < QEPS_SQ {
        iquat_identity()
    } else {
        IQuat {
            x: tdiv(q.x * FX_ONE, qlen(q)),
            y: tdiv(q.y * FX_ONE, qlen(q)),
            z: tdiv(q.z * FX_ONE, qlen(q)),
            w: tdiv(q.w * FX_ONE, qlen(q)),
        }
    }
}

/// Bracketing facts for one normalized component `r = tdiv(c * FX_ONE, n)`:
/// `(n r)^2` sits under `(c FX_ONE)^2`, which in turn sits under
/// `n^2 (|r| + 1)^2`, and `|r|` never exceeds one unit.
proof fn lemma_qnorm_comp(c: int, n: int)
    requires
        n >= 1,
        iabs(c) <= n,
    ensures
        n * n * (tdiv(c * FX_ONE, n) * tdiv(c * FX_ONE, n)) <= (c * c) * ((FX_ONE * FX_ONE) as int),
        (c * c) * ((FX_ONE * FX_ONE) as int) < n * n * (tdiv(c * FX_ONE, n) * tdiv(c * FX_ONE, n)
            + 2 * iabs(tdiv(c * FX_ONE, n)) + 1),
        iabs(tdiv(c * FX_ONE, n)) <= FX_ONE as int,
{
    let r = tdiv(c * FX_ONE, n);
    let a = iabs(c) * (FX_ONE as int);
    crate::fixed::lemma_abs_mul_pos(c, FX_ONE as int);
    crate::fixed::lemma_abs_sq(c);
    crate::fixed::lemma_abs_sq(r);
    lemma_tdiv_bound(c * FX_ONE, n);
    vstd::arithmetic::div_mod::lemma_fundamental_div_mod(a, n);
    assert(iabs(r) == a / n) by {
        if c * FX_ONE >= 0 {
        } else {
            lemma_tdiv_neg(-(c * FX_ONE), n);
        }
    }
    assert(n * iabs(r) <= a && a < n * (iabs(r) + 1)) by (nonlinear_arith)
        requires
            n >= 1,
            a >= 0,
            a == n * (a / n) + a % n,
            0 <= a % n < n,
            iabs(r) == a / n,
    ;
    assert(iabs(r) <= FX_ONE as int) by (nonlinear_arith)
        requires
            n >= 1,
            n * iabs(r) <= a,
            a == iabs(c) * (FX_ONE as int),
            iabs(c) <= n,
            iabs(r) >= 0,
    ;
    assert(n * n * (r * r) <= (c * c) * ((FX_ONE * FX_ONE) as int)) by (nonlinear_arith)
        requires
            n >= 1,
            n * iabs(r) <= a,
            a == iabs(c) * (FX_ONE as int),
            iabs(r) * iabs(r) == r * r,
            iabs(c) * iabs(c) == c * c,
            FX_ONE * FX_ONE == FX_ONE_SQ,
            iabs(r) >= 0,
            iabs(c) >= 0,
    ;
    assert((c * c) * ((FX_ONE * FX_ONE) as int) < n * n * (r * r + 2 * iabs(r) + 1))
        by (nonlinear_arith)
        requires
            n >= 1,
            a < n * (iabs(r) + 1),
            a == iabs(c) * (FX_ONE as int),
            iabs(r) * iabs(r) == r * r,
            iabs(c) * iabs(c) == c * c,
            iabs(r) >= 0,
            iabs(c) >= 0,
    ;
}

/// A component of a quaternion never outgrows the quaternion's measured
/// length.
proof fn lemma_qcomp_le_len(q: IQuat)
    ensures
        qnorm_sq(q) >= 0,
        iabs(q.x) <= qlen(q),
        iabs(q.y) <= qlen(q),
        iabs(q.z) <= qlen(q),
        iabs(q.w) <= qlen(q),
        qlen(q) >= 0,
{
    assert(q.x * q.x >= 0 && q.y * q.y >= 0 && q.z * q.z >= 0 && q.w * q.w >= 0)
        by (nonlinear_arith);
    crate::fixed::lemma_abs_sq(q.x);
    crate::fixed::lemma_abs_sq(q.y);
    crate::fixed::lemma_abs_sq(q.z);
    crate::fixed::lemma_abs_sq(q.w);
    lemma_isqrt_at_least(qnorm_sq(q), iabs(q.x));
    lemma_isqrt_at_least(qnorm_sq(q), iabs(q.y));
    lemma_isqrt_at_least(qnorm_sq(q), iabs(q.z));
    lemma_isqrt_at_least(qnorm_sq(q), iabs(q.w));
    lemma_isqrt_bracket(qnorm_sq(q));
}

/// Normalization always yields a quaternion of unit norm up to the
/// fixed-point tolerance, with components within one unit.
pub proof fn lemma_qnormalize_near_unit(q: IQuat)
    ensures
        near_unit(spec_qnormalize(q)),
        qbounded(spec_qnormalize(q), FX_ONE as int),
{
    if qnorm_sq(q) < QEPS_SQ {
        assert(qnorm_sq(iquat_identity()) == FX_ONE_SQ) by (nonlinear_arith)
            requires
                FX_ONE * FX_ONE == FX_ONE_SQ,
        ;
    } else {
        let m = qnorm_sq(q);
        let n = qlen(q);
        lemma_qcomp_le_len(q);
        assert(1000 * 1000 <= m) by (nonlinear_arith)
            requires
                m >= QEPS_SQ,
        ;
        lemma_isqrt_at_least(m, 1000);
        lemma_isqrt_bracket(m);
        lemma_qnorm_comp(q.x, n);
        lemma_qnorm_comp(q.y, n);
        lemma_qnorm_comp(q.z, n);
        lemma_qnorm_comp(q.w, n);
        let r = spec_qnormalize(q);
        let s = qnorm_sq(r);
        let fx2 = FX_ONE_SQ as int;
        assert(FX_ONE * FX_ONE == FX_ONE_SQ);
        // upper bound: n^2 s <= m fx2 <= (n^2 + 2n) fx2
        assert(n * n * s <= m * fx2) by (nonlinear_arith)
            requires
                n * n * (r.x * r.x) <= (q.x * q.x) * fx2,
                n * n * (r.y * r.y) <= (q.y * q.y) * fx2,
                n * n * (r.z * r.z) <= (q.z * q.z) * fx2,
                n * n * (r.w * r.w) <= (q.w * q.w) * fx2,
                s == r.x * r.x + r.y * r.y + r.z * r.z + r.w * r.w,
                m == q.x * q.x + q.y * q.y + q.z * q.z + q.w * q.w,
        ;
        assert(m <= n * n + 2 * n) by (nonlinear_arith)
            requires
                m < (n + 1) * (n + 1),
        ;
        assert(s - fx2 <= UNIT_SLACK) by (nonlinear_arith)
            requires
                n >= 1000,
                n * n * s <= m * fx2,
                m <= n * n + 2 * n,
                fx2 == FX_ONE_SQ,
        ;
        // lower bound: m fx2 < n^2 (s + 2 (|rx|+|ry|+|rz|+|rw|) + 4)
        let rsum = iabs(r.x) + iabs(r.y) + iabs(r.z) + iabs(r.w);
        assert(m * fx2 < n * n * (s + 2 * rsum + 4)) by (nonlinear_arith)
            requires
                (q.x * q.x) * fx2 < n * n * (r.x * r.x + 2 * iabs(r.x) + 1),
                (q.y * q.y) * fx2 < n * n * (r.y * r.y + 2 * iabs(r.y) + 1),
                (q.z * q.z) * fx2 < n * n * (r.z * r.z + 2 * iabs(r.z) + 1),
                (q.w * q.w) * fx2 < n * n * (r.w * r.w + 2 * iabs(r.w) + 1),
                s == r.x * r.x + r.y * r.y + r.z * r.z + r.w * r.w,
                m == q.x * q.x + q.y * q.y + q.z * q.z + q.w * q.w,
                rsum == iabs(r.x) + iabs(r.y) + iabs(r.z) + iabs(r.w),
        ;
        assert(fx2 - s <= UNIT_SLACK) by (nonlinear_arith)
            requires
                n >= 1000,
                n * n <= m,
                m * fx2 < n * n * (s + 2 * rsum + 4),
                rsum <= 4 * (FX_ONE as int),
                fx2 == FX_ONE_SQ,
        ;
    }
}

/// Executable quaternion normalization.
pub fn qnormalize(q: &Rotation) -> (r: Rotation)
    requires
        qbounded(q@, QNORM_LIMIT as int),
    ensures
        r@ == spec_qnormalize(q@),
        near_unit(r@),
        qbounded(r@, FX_ONE as int),
{
    proof {
        let m = QNORM_LIMIT as int;
        lemma_mul_within2(q@.x, q@.x, m, m);
        lemma_mul_within2(q@.y, q@.y, m, m);
        lemma_mul_within2(q@.z, q@.z, m, m);
        lemma_mul_within2(q@.w, q@.w, m, m);
        lemma_qcomp_le_len(q@);
        lemma_qnormalize_near_unit(q@);
    }
    let ns = q.x * q.x + q.y * q.y + q.z * q.z + q.w * q.w;
    if ns < QEPS_SQ {
        return Rotation::default();
    }
    proof {
        assert(1000 * 1000 <= ns as int) by (nonlinear_arith)
            requires
                ns as int >= QEPS_SQ,
        ;
        lemma_isqrt_at_least(ns as int, 1000);
        crate::vec3::lemma_mul_within(q@.x, FX_ONE as int, QNORM_LIMIT as int);
        crate::vec3::lemma_mul_within(q@.y, FX_ONE as int, QNORM_LIMIT as int);
        crate::vec3::lemma_mul_within(q@.z, FX_ONE as int, QNORM_LIMIT as int);
        crate::vec3::lemma_mul_within(q@.w, FX_ONE as int, QNORM_LIMIT as int);
    }
    let n_root = isqrt_u64(ns as u64);
    proof {
        lemma_isqrt_bracket(ns as int);
        assert(isqrt_spec(ns as int) * isqrt_spec(ns as int) <= ns as int);
        assert(isqrt_spec(ns as int) <= 1_100_000_000) by (nonlinear_arith)
            requires
                isqrt_spec(ns as int) >= 0,
                isqrt_spec(ns as int) * isqrt_spec(ns as int) <= ns as int,
                ns as int <= 4 * ((QNORM_LIMIT * QNORM_LIMIT) as int),
        ;
    }
    let n = n_root as i64;
    Rotation {
        x: div_fx(q.x * FX_ONE, n),
        y: div_fx(q.y * FX_ONE, n),
        z: div_fx(q.z * FX_ONE, n),
        w: div_fx(q.w * FX_ONE, n),
    }
}

/// The minimal-arc rotation carrying the direction of `from` onto the
/// direction of `to`: the quaternion `(from x to, 1 + from . to)`
/// normalized, built on the normalized directions. A zero vector on
/// either side, or a (near-)anti-parallel pair, has no well-defined arc
/// and yields the identity.
pub open spec fn spec_rotation_between(from: IVec3, to: IVec3) -> IQuat {
    let nf = spec_normalize(from);
    let nt = spec_normalize(to);
    if nf is None || nt is None {
        iquat_identity()
    } else {
        let f = nf.unwrap();
        let t = nt.unwrap();
        let c = spec_vcross(f, t);
        let d = tdiv(vdot_raw(f, t), FX_ONE as int);
        spec_qnormalize(IQuat { x: c.x, y: c.y, z: c.z, w: FX_ONE + d })
    }
}

/// The cross product of two unit directions stays within two units per
/// component, and their scaled dot product within three.
pub proof fn lemma_unit_cross_dot_bounded(f: IVec3, t: IVec3)
    requires
        vbounded(f, FX_ONE as int),
        vbounded(t, FX_ONE as int),
    ensures
        vbounded(spec_vcross(f, t), 2 * FX_ONE as int),
        iabs(vdot_raw(f, t)) <= 3 * ((FX_ONE * FX_ONE) as int),
        iabs(tdiv(vdot_raw(f, t), FX_ONE as int)) <= 3 * FX_ONE as int,
{
    let u = FX_ONE as int;
    lemma_mul_within2(f.x, t.x, u, u);
    lemma_mul_within2(f.y, t.y, u, u);
    lemma_mul_within2(f.z, t.z, u, u);
    lemma_mul_within2(f.y, t.z, u, u);
    lemma_mul_within2(f.z, t.y, u, u);
    lemma_mul_within2(f.z, t.x, u, u);
    lemma_mul_within2(f.x, t.z, u, u);
    lemma_mul_within2(f.x, t.y, u, u);
    lemma_mul_within2(f.y, t.x, u, u);
    assert(2 * (u * u) == (2 * u) * u && 3 * (u * u) == (3 * u) * u) by (nonlinear_arith);
    lemma_tdiv_bound_by(f.y * t.z - f.z * t.y, u, 2 * u);
    lemma_tdiv_bound_by(f.z * t.x - f.x * t.z, u, 2 * u);
    lemma_tdiv_bound_by(f.x * t.y - f.y * t.x, u, 2 * u);
    lemma_tdiv_bound_by(vdot_raw(f, t), u, 3 * u);
}

/// Executable minimal-arc rotation between two directions.
pub fn rotation_between(from: &Vec3, to: &Vec3) -> (r: Rotation)
    requires
        vbounded(from@, VEC_LIMIT as int),
        vbounded(to@, VEC_LIMIT as int),
    ensures
        r@ == spec_rotation_between(from@, to@),
        near_unit(r@),
        qbounded(r@, FX_ONE as int),
{
    let nf = normalize(from);
    let nt = normalize(to);
    match (nf, nt) {
        (Option::Some(f), Option::Some(t)) => {
            proof {
                lemma_unit_cross_dot_bounded(f@, t@);
            }
            let c = vcross(&f, &t);
            let d = div_fx(vdot_raw_exec(&f, &t), FX_ONE);
            let raw = Rotation { x: c.x, y: c.y, z: c.z, w: FX_ONE + d };
            qnormalize(&raw)
        },
        _ => {
            proof {
                lemma_identity_near_unit();
            }
            Rotation::default()
        },
    }
}

/// The sine of half the angle whose cosine is `c`, for `c` in the unit
/// band: `sqrt((1 - c) / 2)` at the fixed-point scale.
pub open spec fn spec_sin_half(c: int) -> int {
    isqrt_spec((FX_ONE * (FX_ONE - c)) / 2)
}

/// The cosine of half the angle whose cosine is `c`, for `c` in the unit
/// band: `sqrt((1 + c) / 2)` at the fixed-point scale.
pub open spec fn spec_cos_half(c: int) -> int {
    isqrt_spec((FX_ONE * (FX_ONE + c)) / 2)
}

/// Both half-angle values stay within the unit.
pub proof fn lemma_half_bounded(c: int)
    requires
        -FX_ONE <= c <= FX_ONE,
    ensures
        0 <= spec_sin_half(c) <= FX_ONE as int,
        0 <= spec_cos_half(c) <= FX_ONE as int,
{
    let u = FX_ONE as int;
    assert(0 <= u * (u - c) <= 2 * (u * u) && 0 <= u * (u + c) <= 2 * (u * u))
        by (nonlinear_arith)
        requires
            -u <= c <= u,
            u == FX_ONE as int,
    ;
    lemma_isqrt_bracket((u * (u - c)) / 2);
    lemma_isqrt_bracket((u * (u + c)) / 2);
    vstd::arithmetic::div_mod::lemma_div_is_ordered(u * (u - c), 2 * (u * u), 2);
    vstd::arithmetic::div_mod::lemma_div_is_ordered(u * (u + c), 2 * (u * u), 2);
    assert((2 * (u * u)) / 2 == u * u) by {
        lemma_tdiv_exact(u * u, 2);
        assert(2 * (u * u) == (u * u) * 2) by (nonlinear_arith);
    }
    lemma_isqrt_ordered_both((u * (u - c)) / 2, u);
    lemma_isqrt_ordered_both((u * (u + c)) / 2, u);
}

/// Anything no larger than the square of `k` has an integer square root
/// no larger than `k`.
proof fn lemma_isqrt_ordered_both(n: int, k: int)
    requires
        0 <= n,
        k >= 0,
        n <= k * k,
    ensures
        isqrt_spec(n) <= k,
{
    crate::fixed::lemma_isqrt_ordered(n, k * k);
    crate::fixed::lemma_isqrt_square(k);
}

/// The identity is a unit quaternion with components within one unit.
pub proof fn lemma_identity_near_unit()
    ensures
        near_unit(iquat_identity()),
        qbounded(iquat_identity(), FX_ONE as int),
{
    assert(qnorm_sq(iquat_identity()) == FX_ONE_SQ) by (nonlinear_arith)
        requires
            FX_ONE * FX_ONE == FX_ONE_SQ,
    ;
}

/// Executable sine of the half angle.
pub fn sin_half(c: i64) -> (r: i64)
    requires
        -FX_ONE <= c <= FX_ONE,
    ensures
        r == spec_sin_half(c as int),
        0 <= r <= FX_ONE,
{
    proof {
        let u = FX_ONE as int;
        lemma_half_bounded(c as int);
        assert(0 <= u * (u - c) <= 2 * (u * u)) by (nonlinear_arith)
            requires
                -u <= c as int <= u,
                u == FX_ONE as int,
        ;
    }
    isqrt_u64((FX_ONE * (FX_ONE - c) / 2) as u64) as i64
}

/// Executable cosine of the half angle.
pub fn cos_half(c: i64) -> (r: i64)
    requires
        -FX_ONE <= c <= FX_ONE,
    ensures
        r == spec_cos_half(c as int),
        0 <= r <= FX_ONE,
{
    proof {
        let u = FX_ONE as int;
        lemma_half_bounded(c as int);
        assert(0 <= u * (u + c) <= 2 * (u * u)) by (nonlinear_arith)
            requires
                -u <= c as int <= u,
                u == FX_ONE as int,
        ;
    }
    isqrt_u64((FX_ONE * (FX_ONE + c) / 2) as u64) as i64
}

/// The quaternion turning about the unit `axis` by the angle in `[0, pi]`
/// whose cosine is `c`: `(axis * sin(angle / 2), cos(angle / 2))`.
pub open spec fn spec_axis_angle(axis: IVec3, c: int) -> IQuat {
    IQuat {
        x: tdiv(axis.x * spec_sin_half(c), FX_ONE as int),
        y: tdiv(axis.y * spec_sin_half(c), FX_ONE as int),
        z: tdiv(axis.z * spec_sin_half(c), FX_ONE as int),
        w: spec_cos_half(c),
    }
}

/// Executable axis-angle quaternion from a unit axis and the cosine of
/// the angle.
pub fn axis_angle(axis: &Vec3, c: i64) -> (r: Rotation)
    requires
        vbounded(axis@, FX_ONE as int),
        -FX_ONE <= c <= FX_ONE,
    ensures
        r@ == spec_axis_angle(axis@, c as int),
        qbounded(r@, FX_ONE as int),
{
    proof {
        let u = FX_ONE as int;
        lemma_half_bounded(c as int);
        assert(0 <= u * (u - c) && 0 <= u * (u + c) && u * (u - c) <= 2 * (u * u)
            && u * (u + c) <= 2 * (u * u)) by (nonlinear_arith)
            requires
                -u <= c as int <= u,
                u == FX_ONE as int,
        ;
        lemma_mul_within2(axis@.x, spec_sin_half(c as int), u, u);
        lemma_mul_within2(axis@.y, spec_sin_half(c as int), u, u);
        lemma_mul_within2(axis@.z, spec_sin_half(c as int), u, u);
        assert(u * u == FX_ONE_SQ as int) by (nonlinear_arith)
            requires
                FX_ONE * FX_ONE == FX_ONE_SQ,
                u == FX_ONE as int,
        ;
        lemma_tdiv_bound_by(axis@.x * spec_sin_half(c as int), u, u);
        lemma_tdiv_bound_by(axis@.y * spec_sin_half(c as int), u, u);
        lemma_tdiv_bound_by(axis@.z * spec_sin_half(c as int), u, u);
    }
    let sh = isqrt_u64((FX_ONE * (FX_ONE - c) / 2) as u64) as i64;
    let ch = isqrt_u64((FX_ONE * (FX_ONE + c) / 2) as u64) as i64;
    Rotation {
        x: div_fx(axis.x * sh, FX_ONE),
        y: div_fx(axis.y * sh, FX_ONE),
        z: div_fx(axis.z * sh, FX_ONE),
        w: ch,
    }
}

/// Largest angle magnitude the series approximations accept.
pub const TRIG_LIMIT: i64 = 300_000;

/// Truncated series for the sine of a small angle `t`:
/// `t - t^3 / 6` at the fixed-point scale.
pub open spec fn spec_sin_series(t: int) -> int {
    t - tdiv(tdiv(tdiv(t * t, FX_ONE as int) * t, FX_ONE as int), 6)
}

/// Truncated series for the cosine of a small angle `t`:
/// `1 - t^2 / 2 + t^4 / 24` at the fixed-point scale.
pub open spec fn spec_cos_series(t: int) -> int {
    FX_ONE - tdiv(tdiv(t * t, FX_ONE as int), 2) + tdiv(
        tdiv(tdiv(t * t, FX_ONE as int) * tdiv(t * t, FX_ONE as int), FX_ONE as int),
        24,
    )
}

/// Bound facts shared by the two series.
proof fn lemma_series_bounds(t: int)
    requires
        iabs(t) <= TRIG_LIMIT as int,
    ensures
        iabs(t * t) <= 90_000_000_000,
        iabs(tdiv(t * t, FX_ONE as int)) <= 90_000,
        iabs(tdiv(t * t, FX_ONE as int) * t) <= 27_000_000_000,
        iabs(tdiv(tdiv(t * t, FX_ONE as int) * t, FX_ONE as int)) <= 27_000,
        iabs(tdiv(t * t, FX_ONE as int) * tdiv(t * t, FX_ONE as int)) <= 8_100_000_000,
        iabs(tdiv(tdiv(t * t, FX_ONE as int) * tdiv(t * t, FX_ONE as int), FX_ONE as int))
            <= 8_100,
{
    let u = FX_ONE as int;
    lemma_mul_within2(t, t, TRIG_LIMIT as int, TRIG_LIMIT as int);
    lemma_tdiv_bound_by(t * t, u, 90_000);
    let t2 = tdiv(t * t, u);
    lemma_mul_within2(t2, t, 90_000, TRIG_LIMIT as int);
    lemma_tdiv_bound_by(t2 * t, u, 27_000);
    lemma_mul_within2(t2, t2, 90_000, 90_000);
    lemma_tdiv_bound_by(t2 * t2, u, 8_100);
}

/// Executable small-angle sine.
pub fn sin_series(t: i64) -> (r: i64)
    requires
        iabs(t as int) <= TRIG_LIMIT as int,
    ensures
        r == spec_sin_series(t as int),
        iabs(r as int) <= 327_000,
{
    proof {
        lemma_series_bounds(t as int);
        lemma_tdiv_bound(tdiv((t * t) as int, FX_ONE as int) * t, FX_ONE as int);
        lemma_tdiv_bound(
            tdiv(tdiv((t * t) as int, FX_ONE as int) * t, FX_ONE as int),
            6,
        );
    }
    let t2 = div_fx(t * t, FX_ONE);
    let t3 = div_fx(t2 * t, FX_ONE);
    t - div_fx(t3, 6)
}

/// Executable small-angle cosine.
pub fn cos_series(t: i64) -> (r: i64)
    requires
        iabs(t as int) <= TRIG_LIMIT as int,
    ensures
        r == spec_cos_series(t as int),
        iabs(r as int) <= 1_100_000,
{
    proof {
        lemma_series_bounds(t as int);
        lemma_tdiv_bound(tdiv((t * t) as int, FX_ONE as int), 2);
        lemma_tdiv_bound(
            tdiv(tdiv((t * t) as int, FX_ONE as int) * tdiv((t * t) as int, FX_ONE as int),
                FX_ONE as int),
            24,
        );
    }
    let t2 = div_fx(t * t, FX_ONE);
    let t4 = div_fx(t2 * t2, FX_ONE);
    FX_ONE - div_fx(t2, 2) + div_fx(t4, 24)
}

} // verus!
