use vstd::prelude::*;

use crate::fixed::{
    div_fx, iabs, isqrt_spec, isqrt_u64, lemma_isqrt_at_least, lemma_isqrt_bracket, lemma_tdiv_bound_by, tdiv, FX_ONE,
};

verus! {

/// Largest component magnitude a vector may have when it is normalized or
/// measured; wide enough for every intermediate vector of the solver.
pub const VEC_LIMIT: i64 = 200_000_000;

/// A 3D point or direction in the fixed-point scale of [`FX_ONE`].
#[derive(Clone, Copy, PartialEq, Eq, Structural, Debug)]
pub struct Vec3 {
    pub x: i64,
    pub y: i64,
    pub z: i64,
}

/// The mathematical model of a vector: the same three components as
/// unbounded integers.
pub ghost struct IVec3 {
    pub x: int,
    pub y: int,
    pub z: int,
}

impl View for Vec3 {
    type V = IVec3;

    open spec fn view(&self) -> IVec3 {
        IVec3 { x: self.x as int, y: self.y as int, z: self.z as int }
    }
}

/// All three components lie within `m` in magnitude.
pub open spec fn vbounded(v: IVec3, m: int) -> bool {
    iabs(v.x) <= m && iabs(v.y) <= m && iabs(v.z) <= m
}

/// Componentwise difference.
pub open spec fn spec_vsub(a: IVec3, b: IVec3) -> IVec3 {
    IVec3 { x: a.x - b.x, y: a.y - b.y, z: a.z - b.z }
}

/// Componentwise midpoint, rounded toward zero.
pub open spec fn spec_vmid(a: IVec3, b: IVec3) -> IVec3 {
    IVec3 { x: tdiv(a.x + b.x, 2), y: tdiv(a.y + b.y, 2), z: tdiv(a.z + b.z, 2) }
}

/// The vertical-axis convention fix: the sign of the y component flipped.
pub open spec fn spec_flip_y(v: IVec3) -> IVec3 {
    IVec3 { x: v.x, y: -v.y, z: v.z }
}

/// Reflection through the plane `x == 0`.
pub open spec fn spec_mirror_x(v: IVec3) -> IVec3 {
    IVec3 { x: -v.x, y: v.y, z: v.z }
}

/// The negated vector.
pub open spec fn spec_vneg(v: IVec3) -> IVec3 {
    IVec3 { x: -v.x, y: -v.y, z: -v.z }
}

/// Raw dot product (carries a factor of the scale squared).
pub open spec fn vdot_raw(a: IVec3, b: IVec3) -> int {
    a.x * b.x + a.y * b.y + a.z * b.z
}

/// Raw squared length (carries a factor of the scale squared).
pub open spec fn vnorm_sq(v: IVec3) -> int {
    vdot_raw(v, v)
}

/// Length at the fixed-point scale.
pub open spec fn vlen(v: IVec3) -> int {
    isqrt_spec(vnorm_sq(v))
}

/// The unit vector of `v` at the fixed-point scale; meaningful only when
/// `v` is not the zero vector.
pub open spec fn vunit(v: IVec3) -> IVec3 {
    IVec3 {
        x: tdiv(v.x * FX_ONE, vlen(v)),
        y: tdiv(v.y * FX_ONE, vlen(v)),
        z: tdiv(v.z * FX_ONE, vlen(v)),
    }
}

/// Normalization: the unit vector, or nothing for the zero vector (a
/// degenerate segment has no direction).
pub open spec fn spec_normalize(v: IVec3) -> Option<IVec3> {
    if vnorm_sq(v) == 0 {
        Option::None
    } else {
        Option::Some(vunit(v))
    }
}

/// Cross product at the fixed-point scale.
pub open spec fn spec_vcross(a: IVec3, b: IVec3) -> IVec3 {
    IVec3 {
        x: tdiv(a.y * b.z - a.z * b.y, FX_ONE as int),
        y: tdiv(a.z * b.x - a.x * b.z, FX_ONE as int),
        z: tdiv(a.x * b.y - a.y * b.x, FX_ONE as int),
    }
}

/// A square never outweighs the full squared length.
proof fn lemma_component_sq_le(v: IVec3)
    ensures
        v.x * v.x <= vnorm_sq(v),
        v.y * v.y <= vnorm_sq(v),
        v.z * v.z <= vnorm_sq(v),
        vnorm_sq(v) >= 0,
{
    assert(v.x * v.x >= 0 && v.y * v.y >= 0 && v.z * v.z >= 0) by (nonlinear_arith);
}

/// Components never outgrow the measured length.
pub proof fn lemma_component_le_len(v: IVec3)
    ensures
        iabs(v.x) <= vlen(v),
        iabs(v.y) <= vlen(v),
        iabs(v.z) <= vlen(v),
        vlen(v) >= 0,
{
    lemma_component_sq_le(v);
    assert(iabs(v.x) * iabs(v.x) == v.x * v.x) by (nonlinear_arith);
    assert(iabs(v.y) * iabs(v.y) == v.y * v.y) by (nonlinear_arith);
    assert(iabs(v.z) * iabs(v.z) == v.z * v.z) by (nonlinear_arith);
    lemma_isqrt_at_least(vnorm_sq(v), iabs(v.x));
    lemma_isqrt_at_least(vnorm_sq(v), iabs(v.y));
    lemma_isqrt_at_least(vnorm_sq(v), iabs(v.z));
}

/// A vector with any nonzero component measures a positive length.
pub proof fn lemma_vlen_pos(v: IVec3)
    requires
        vnorm_sq(v) != 0,
    ensures
        vlen(v) >= 1,
        vnorm_sq(v) >= 1,
{
    lemma_component_sq_le(v);
    assert(1 * 1 <= vnorm_sq(v)) by (nonlinear_arith)
        requires
            vnorm_sq(v) >= 1,
    ;
    lemma_isqrt_at_least(vnorm_sq(v), 1);
}

/// One component of a normalization stays within one fixed-point unit.
proof fn lemma_unit_component(c: int, n: int)
    requires
        n >= 1,
        iabs(c) <= n,
    ensures
        iabs(tdiv(c * FX_ONE, n)) <= FX_ONE as int,
{
    assert(iabs(c * FX_ONE) <= (FX_ONE as int) * n) by (nonlinear_arith)
        requires
            iabs(c) <= n,
            n >= 1,
    ;
    lemma_tdiv_bound_by(c * FX_ONE, n, FX_ONE as int);
}

/// A vector with components within `m` measures at most `2 m`.
pub proof fn lemma_vlen_bounded(v: IVec3, m: int)
    requires
        m >= 0,
        vbounded(v, m),
    ensures
        vlen(v) <= 2 * m,
        vnorm_sq(v) >= 0,
{
    lemma_component_sq_le(v);
    assert(vnorm_sq(v) <= (2 * m) * (2 * m)) by (nonlinear_arith)
        requires
            m >= 0,
            iabs(v.x) <= m,
            iabs(v.y) <= m,
            iabs(v.z) <= m,
            vnorm_sq(v) == v.x * v.x + v.y * v.y + v.z * v.z,
    ;
    crate::fixed::lemma_isqrt_ordered(vnorm_sq(v), (2 * m) * (2 * m));
    crate::fixed::lemma_isqrt_square(2 * m);
}

/// Executable difference `a - b`.
pub fn vsub(a: &Vec3, b: &Vec3) -> (r: Vec3)
    requires
        vbounded(a@, VEC_LIMIT as int),
        vbounded(b@, VEC_LIMIT as int),
    ensures
        r@ == spec_vsub(a@, b@),
{
    Vec3 { x: a.x - b.x, y: a.y - b.y, z: a.z - b.z }
}

/// Executable midpoint.
pub fn vmid(a: &Vec3, b: &Vec3) -> (r: Vec3)
    requires
        vbounded(a@, VEC_LIMIT as int),
        vbounded(b@, VEC_LIMIT as int),
    ensures
        r@ == spec_vmid(a@, b@),
{
    Vec3 { x: div_fx(a.x + b.x, 2), y: div_fx(a.y + b.y, 2), z: div_fx(a.z + b.z, 2) }
}

/// Executable vertical flip.
pub fn flip_y(v: &Vec3) -> (r: Vec3)
    requires
        vbounded(v@, VEC_LIMIT as int),
    ensures
        r@ == spec_flip_y(v@),
{
    Vec3 { x: v.x, y: -v.y, z: v.z }
}

/// Executable raw dot product.
pub fn vdot_raw_exec(a: &Vec3, b: &Vec3) -> (r: i64)
    requires
        vbounded(a@, VEC_LIMIT as int),
        vbounded(b@, VEC_LIMIT as int),
    ensures
        r == vdot_raw(a@, b@),
{
    proof {
        lemma_mul_within(a@.x, b@.x, VEC_LIMIT as int);
        lemma_mul_within(a@.y, b@.y, VEC_LIMIT as int);
        lemma_mul_within(a@.z, b@.z, VEC_LIMIT as int);
    }
    a.x * b.x + a.y * b.y + a.z * b.z
}

/// The product of two values within `m` stays within `m * m`.
pub proof fn lemma_mul_within(a: int, b: int, m: int)
    requires
        m >= 0,
        iabs(a) <= m,
        iabs(b) <= m,
    ensures
        iabs(a * b) <= m * m,
{
    assert(iabs(a * b) <= m * m) by (nonlinear_arith)
        requires
            m >= 0,
            iabs(a) <= m,
            iabs(b) <= m,
    ;
}

/// Executable raw squared length.
pub fn vnorm_sq_exec(v: &Vec3) -> (r: i64)
    requires
        vbounded(v@, VEC_LIMIT as int),
    ensures
        r == vnorm_sq(v@),
        r >= 0,
{
    proof {
        lemma_component_sq_le(v@);
    }
    vdot_raw_exec(v, v)
}

/// Executable length at the fixed-point scale.
pub fn vlen_exec(v: &Vec3) -> (r: i64)
    requires
        vbounded(v@, VEC_LIMIT as int),
    ensures
        r == vlen(v@),
        0 <= r <= 4294967296,
{
    let ns = vnorm_sq_exec(v);
    let root = isqrt_u64(ns as u64);
    proof {
        lemma_isqrt_bracket(ns as int);
        lemma_isqrt_ordered_top(ns as int);
    }
    root as i64
}

/// The square root of anything a raw squared length can be stays within
/// the 32-bit range.
proof fn lemma_isqrt_ordered_top(n: int)
    requires
        0 <= n <= i64::MAX as int,
    ensures
        isqrt_spec(n) <= 4294967296,
{
    lemma_isqrt_bracket(n);
    let r = isqrt_spec(n);
    assert(r <= 4294967296) by (nonlinear_arith)
        requires
            r >= 0,
            r * r <= n,
            n <= i64::MAX as int,
    ;
}

/// Executable normalization.
pub fn normalize(v: &Vec3) -> (r: Option<Vec3>)
    requires
        vbounded(v@, VEC_LIMIT as int),
    ensures
        r is Some <==> spec_normalize(v@) is Some,
        r is Some ==> r.unwrap()@ == spec_normalize(v@).unwrap(),
        r is Some ==> vbounded(r.unwrap()@, FX_ONE as int),
{
    let ns = vnorm_sq_exec(v);
    if ns == 0 {
        return Option::None;
    }
    let n = vlen_exec(v);
    proof {
        lemma_vlen_pos(v@);
        lemma_component_le_len(v@);
        lemma_unit_component(v@.x, n as int);
        lemma_unit_component(v@.y, n as int);
        lemma_unit_component(v@.z, n as int);
        lemma_mul_within(v@.x, FX_ONE as int, VEC_LIMIT as int);
        lemma_mul_within(v@.y, FX_ONE as int, VEC_LIMIT as int);
        lemma_mul_within(v@.z, FX_ONE as int, VEC_LIMIT as int);
    }
    let r = Vec3 {
        x: div_fx(v.x * FX_ONE, n),
        y: div_fx(v.y * FX_ONE, n),
        z: div_fx(v.z * FX_ONE, n),
    };
    Option::Some(r)
}

/// Executable cross product at the fixed-point scale.
pub fn vcross(a: &Vec3, b: &Vec3) -> (r: Vec3)
    requires
        vbounded(a@, VEC_LIMIT as int),
        vbounded(b@, VEC_LIMIT as int),
    ensures
        r@ == spec_vcross(a@, b@),
{
    proof {
        lemma_mul_within(a@.y, b@.z, VEC_LIMIT as int);
        lemma_mul_within(a@.z, b@.y, VEC_LIMIT as int);
        lemma_mul_within(a@.z, b@.x, VEC_LIMIT as int);
        lemma_mul_within(a@.x, b@.z, VEC_LIMIT as int);
        lemma_mul_within(a@.x, b@.y, VEC_LIMIT as int);
        lemma_mul_within(a@.y, b@.x, VEC_LIMIT as int);
    }
    Vec3 {
        x: div_fx(a.y * b.z - a.z * b.y, FX_ONE),
        y: div_fx(a.z * b.x - a.x * b.z, FX_ONE),
        z: div_fx(a.x * b.y - a.y * b.x, FX_ONE),
    }
}

} // verus!
