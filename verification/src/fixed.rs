use vstd::prelude::*;

verus! {

/// Scale of the fixed-point representation: one unit of real distance
/// corresponds to this many integer ticks. All coordinates, direction
/// components and quaternion components of this crate are integers at
/// this scale.
pub const FX_ONE: i64 = 1_000_000;

/// Largest coordinate magnitude a landmark point may carry. Keeps every
/// intermediate product of the solver comfortably inside `i64`.
pub const COORD_LIMIT: i64 = 8_000_000;

/// Magnitude of an integer.
pub open spec fn iabs(a: int) -> int {
    if a >= 0 {
        a
    } else {
        -a
    }
}

/// Truncating division (rounding toward zero), the rounding used by all
/// fixed-point operations of this crate; meaningful for `b > 0`. This is
/// the rounding of the machine division on signed integers.
pub open spec fn tdiv(a: int, b: int) -> int {
    if a >= 0 {
        a / b
    } else {
        -((-a) / b)
    }
}

/// Magnitudes multiply: `|p * q| == |p| * q` for nonnegative `q`.
pub proof fn lemma_abs_mul_pos(p: int, q: int)
    requires
        q >= 0,
    ensures
        iabs(p * q) == iabs(p) * q,
{
    if p >= 0 {
        assert(p * q >= 0) by (nonlinear_arith)
            requires
                p >= 0,
                q >= 0,
        ;
    } else {
        assert(p * q <= 0 && -(p * q) == (-p) * q) by (nonlinear_arith)
            requires
                p < 0,
                q >= 0,
        ;
        if p * q == 0 {
            assert((-p) * q == 0);
        }
    }
}

/// Sign rules of multiplication.
pub proof fn lemma_neg_mul(p: int, q: int)
    ensures
        (-p) * q == -(p * q),
        p * (-q) == -(p * q),
        (-p) * (-q) == p * q,
{
    assert((-p) * q == -(p * q) && p * (-q) == -(p * q) && (-p) * (-q) == p * q)
        by (nonlinear_arith);
}

/// A square equals the square of the magnitude.
pub proof fn lemma_abs_sq(p: int)
    ensures
        iabs(p) * iabs(p) == p * p,
{
    if p >= 0 {
    } else {
        assert((-p) * (-p) == p * p) by (nonlinear_arith);
    }
}

/// Truncating division is an odd function of its dividend.
pub proof fn lemma_tdiv_neg(a: int, b: int)
    requires
        b > 0,
    ensures
        tdiv(-a, b) == -tdiv(a, b),
{
}

/// The quotient never grows past the dividend divided exactly:
/// `|tdiv(a, b)| * b <= |a|`, and the quotient magnitude is bounded by
/// the magnitude of the dividend.
pub proof fn lemma_tdiv_bound(a: int, b: int)
    requires
        b > 0,
    ensures
        iabs(tdiv(a, b)) * b <= iabs(a),
        iabs(tdiv(a, b)) <= iabs(a),
        a >= 0 ==> tdiv(a, b) >= 0,
        a <= 0 ==> tdiv(a, b) <= 0,
{
    let m = iabs(a);
    vstd::arithmetic::div_mod::lemma_fundamental_div_mod(m, b);
    vstd::arithmetic::div_mod::lemma_div_is_ordered_by_denominator(m, 1, b);
    vstd::arithmetic::div_mod::lemma_div_by_multiple(m, 1);
    assert((m / b) * b <= m) by (nonlinear_arith)
        requires
            b > 0,
            m >= 0,
            m == b * (m / b) + m % b,
            m % b >= 0,
    ;
}

/// A bound on the dividend gives the matching bound on the quotient:
/// if `|a| <= c * b` then `|tdiv(a, b)| <= c`.
pub proof fn lemma_tdiv_bound_by(a: int, b: int, c: int)
    requires
        b > 0,
        c >= 0,
        iabs(a) <= c * b,
    ensures
        iabs(tdiv(a, b)) <= c,
{
    lemma_tdiv_bound(a, b);
    assert(iabs(tdiv(a, b)) <= c) by (nonlinear_arith)
        requires
            b > 0,
            c >= 0,
            iabs(tdiv(a, b)) * b <= iabs(a),
            iabs(a) <= c * b,
            iabs(tdiv(a, b)) >= 0,
    ;
}

/// Dividing an exact multiple recovers the factor.
pub proof fn lemma_tdiv_exact(a: int, b: int)
    requires
        b > 0,
    ensures
        tdiv(a * b, b) == a,
{
    if a >= 0 {
        assert(a * b >= 0) by (nonlinear_arith)
            requires
                a >= 0,
                b > 0,
        ;
        vstd::arithmetic::div_mod::lemma_div_by_multiple(a, b);
    } else {
        assert(a * b < 0) by (nonlinear_arith)
            requires
                a < 0,
                b > 0,
        ;
        assert(-(a * b) == (-a) * b) by (nonlinear_arith);
        vstd::arithmetic::div_mod::lemma_div_by_multiple(-a, b);
    }
}

/// Truncating division is monotone in the dividend on each side of zero,
/// and monotone overall.
pub proof fn lemma_tdiv_ordered(a1: int, a2: int, b: int)
    requires
        b > 0,
        a1 <= a2,
    ensures
        tdiv(a1, b) <= tdiv(a2, b),
{
    if a1 >= 0 {
        vstd::arithmetic::div_mod::lemma_div_is_ordered(a1, a2, b);
    } else if a2 <= 0 {
        vstd::arithmetic::div_mod::lemma_div_is_ordered(-a2, -a1, b);
    } else {
        vstd::arithmetic::div_mod::lemma_div_pos_is_pos(a2, b);
        vstd::arithmetic::div_mod::lemma_div_pos_is_pos(-a1, b);
    }
}

/// Division at the fixed-point scale, the workhorse of every component
/// formula. The divisor must be positive and the dividend must not sit at
/// the very edge of the machine range.
pub fn div_fx(a: i64, b: i64) -> (r: i64)
    requires
        b > 0,
        a > i64::MIN,
    ensures
        r == tdiv(a as int, b as int),
{
    proof {
        lemma_tdiv_bound(a as int, b as int);
    }
    a / b
}

/// Clamps a value into the inclusive band `[lo, hi]`.
pub open spec fn spec_clamp(a: int, lo: int, hi: int) -> int {
    if a < lo {
        lo
    } else if a > hi {
        hi
    } else {
        a
    }
}

/// Executable clamping into `[lo, hi]`.
pub fn clamp_i64(a: i64, lo: i64, hi: i64) -> (r: i64)
    requires
        lo <= hi,
    ensures
        r == spec_clamp(a as int, lo as int, hi as int),
{
    if a < lo {
        lo
    } else if a > hi {
        hi
    } else {
        a
    }
}

/// The integer square root: the largest integer whose square does not
/// exceed `n` (zero for non-positive `n`).
pub open spec fn isqrt_spec(n: int) -> int
    decreases n,
{
    if n <= 0 {
        0
    } else {
        let r = isqrt_spec(n - 1);
        if (r + 1) * (r + 1) <= n {
            r + 1
        } else {
            r
        }
    }
}

/// The integer square root is bracketed by the two neighbouring squares.
pub proof fn lemma_isqrt_bracket(n: int)
    requires
        n >= 0,
    ensures
        isqrt_spec(n) >= 0,
        isqrt_spec(n) * isqrt_spec(n) <= n,
        (isqrt_spec(n) + 1) * (isqrt_spec(n) + 1) > n,
    decreases n,
{
    if n == 0 {
    } else {
        lemma_isqrt_bracket(n - 1);
        let r = isqrt_spec(n - 1);
        if (r + 1) * (r + 1) <= n {
            assert((r + 2) * (r + 2) > n) by (nonlinear_arith)
                requires
                    r >= 0,
                    (r + 1) * (r + 1) > n - 1,
            ;
        }
    }
}

/// Only one integer is bracketed that way, so any value with the bracket
/// property is the integer square root.
pub proof fn lemma_isqrt_unique(n: int, r: int)
    requires
        n >= 0,
        r >= 0,
        r * r <= n,
        (r + 1) * (r + 1) > n,
    ensures
        r == isqrt_spec(n),
{
    lemma_isqrt_bracket(n);
    let s = isqrt_spec(n);
    assert(r == s) by (nonlinear_arith)
        requires
            r >= 0,
            s >= 0,
            r * r <= n,
            (r + 1) * (r + 1) > n,
            s * s <= n,
            (s + 1) * (s + 1) > n,
    ;
}

/// The integer square root of a perfect square is its root.
pub proof fn lemma_isqrt_square(k: int)
    requires
        k >= 0,
    ensures
        isqrt_spec(k * k) == k,
{
    assert(k * k >= 0 && (k + 1) * (k + 1) > k * k) by (nonlinear_arith)
        requires
            k >= 0,
    ;
    lemma_isqrt_unique(k * k, k);
}

/// The integer square root is monotone.
pub proof fn lemma_isqrt_ordered(m: int, n: int)
    requires
        0 <= m <= n,
    ensures
        isqrt_spec(m) <= isqrt_spec(n),
{
    lemma_isqrt_bracket(m);
    lemma_isqrt_bracket(n);
    let a = isqrt_spec(m);
    let b = isqrt_spec(n);
    assert(a <= b) by (nonlinear_arith)
        requires
            a >= 0,
            b >= 0,
            a * a <= m,
            m <= n,
            (b + 1) * (b + 1) > n,
    ;
}

/// A square below `n` keeps its root below the integer square root of `n`.
pub proof fn lemma_isqrt_at_least(n: int, k: int)
    requires
        k >= 0,
        k * k <= n,
    ensures
        isqrt_spec(n) >= k,
{
    assert(k * k >= 0) by (nonlinear_arith)
        requires
            k >= 0,
    ;
    lemma_isqrt_square(k);
    lemma_isqrt_ordered(k * k, n);
}

/// Executable integer square root by bisection.
pub fn isqrt_u64(n: u64) -> (r: u64)
    ensures
        r == isqrt_spec(n as int),
        r * r <= n,
{
    proof {
        lemma_isqrt_bracket(n as int);
    }
    if n == 0 {
        proof {
            lemma_isqrt_unique(0, 0);
        }
        return 0;
    }
    let mut lo: u64 = 0;
    let mut hi: u64 = 4294967296;
    while lo + 1 < hi
        invariant
            lo < hi,
            hi <= 4294967296,
            (lo as int) * (lo as int) <= n as int,
            (hi as int) * (hi as int) > n as int,
        decreases hi - lo,
    {
        let mid = lo + (hi - lo) / 2;
        assert(mid < 4294967296);
        assert((mid as int) * (mid as int) <= u64::MAX as int) by (nonlinear_arith)
            requires
                0 <= mid as int <= 4294967295int,
        ;
        if mid * mid <= n {
            lo = mid;
        } else {
            hi = mid;
        }
    }
    proof {
        lemma_isqrt_unique(n as int, lo as int);
    }
    lo
}

} // verus!
