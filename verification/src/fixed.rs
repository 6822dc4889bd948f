//! Fixed-point arithmetic: real quantities are held as integers counted in
//! thousandths.

use vstd::prelude::*;

verus! {

/// `r` is the square root of `n`, rounded down.
pub open spec fn is_isqrt(n: int, r: int) -> bool {
    0 <= r && r * r <= n && n < (r + 1) * (r + 1)
}

/// The largest `r` with `r * r <= n`.
pub open spec fn spec_isqrt(n: int) -> int
    recommends
        n >= 0,
{
    choose|r: int| is_isqrt(n, r)
}

/// Any two non-negative integers whose squares bracket `n` in the same way
/// are equal: the integer square root is unique.
pub proof fn lemma_isqrt_unique(n: int, a: int, b: int)
    requires
        is_isqrt(n, a),
        is_isqrt(n, b),
    ensures
        a == b,
{
    if a < b {
        assert((a + 1) * (a + 1) <= b * b) by (nonlinear_arith)
            requires
                0 <= a,
                a + 1 <= b,
        ;
    } else if b < a {
        assert((b + 1) * (b + 1) <= a * a) by (nonlinear_arith)
            requires
                0 <= b,
                b + 1 <= a,
        ;
    }
}

/// Integer square root, rounded down.
pub fn isqrt(n: u64) -> (r: u64)
    ensures
        r * r <= n,
        n < (r + 1) * (r + 1),
        r == spec_isqrt(n as int),
        r < 0x1_0000_0000,
{
    let mut lo: u64 = 0;
    let mut hi: u64 = 0x1_0000_0000;
    while hi - lo > 1
        invariant
            lo < hi <= 0x1_0000_0000,
            lo * lo <= n,
            n < hi * hi,
        decreases hi - lo,
    {
        let mid: u64 = lo + (hi - lo) / 2;
        assert(mid * mid < 0x1_0000_0000 * 0x1_0000_0000) by (nonlinear_arith)
            requires
                mid < 0x1_0000_0000,
        ;
        if mid * mid <= n {
            lo = mid;
        } else {
            hi = mid;
        }
    }
    proof {
        assert(is_isqrt(n as int, lo as int));
        lemma_isqrt_unique(n as int, lo as int, spec_isqrt(n as int));
    }
    lo
}

/// Division rounded toward negative infinity, for a positive divisor.
pub fn floor_div(a: i64, d: i64) -> (q: i64)
    requires
        d > 0,
    ensures
        q == a / d,
{
    if a >= 0 {
        a / d
    } else {
        let m: i64 = -(a + 1);
        let k: i64 = m / d;
        assert(a / d == -k - 1) by (nonlinear_arith)
            requires
                d > 0,
                a < 0,
                m == -(a + 1),
                k == m / d,
        ;
        -k - 1
    }
}

/// Largest magnitude of a quantity that `scale` accepts.
pub const SCALE_LIMIT: i64 = 0x1_0000_0000;

/// Largest divisor that `scale` accepts.
pub const DIVISOR_LIMIT: i64 = 0x4000_0000;

/// The share `b / d` of `a`, rounded toward negative infinity.
pub open spec fn spec_scale(a: int, b: int, d: int) -> int {
    (a * b) / d
}

/// A share whose factor `b / d` lies in `[-1, 1]` is no larger in magnitude
/// than the whole.
pub proof fn lemma_scale_bounds(a: int, b: int, d: int)
    requires
        d > 0,
        -d <= b <= d,
    ensures
        a >= 0 ==> -a <= spec_scale(a, b, d) <= a,
        a <= 0 ==> a <= spec_scale(a, b, d) <= -a,
        a >= 0 && b >= 0 ==> spec_scale(a, b, d) >= 0,
{
    let n = a * b;
    let q = n / d;
    vstd::arithmetic::div_mod::lemma_fundamental_div_mod(n, d);
    vstd::arithmetic::div_mod::lemma_mod_bound(n, d);
    let r = n % d;
    assert(n == d * q + r);
    if a >= 0 {
        assert(-(a * d) <= n <= a * d) by (nonlinear_arith)
            requires
                a >= 0,
                -d <= b <= d,
                n == a * b,
        ;
        assert(-a <= q <= a) by (nonlinear_arith)
            requires
                d > 0,
                n == d * q + r,
                0 <= r < d,
                -(a * d) <= n <= a * d,
        ;
        if b >= 0 {
            assert(n >= 0) by (nonlinear_arith)
                requires
                    a >= 0,
                    b >= 0,
                    n == a * b,
            ;
            assert(q >= 0) by (nonlinear_arith)
                requires
                    d > 0,
                    n == d * q + r,
                    0 <= r < d,
                    n >= 0,
            ;
        }
    }
    if a <= 0 {
        assert(a * d <= n <= -(a * d)) by (nonlinear_arith)
            requires
                a <= 0,
                -d <= b <= d,
                n == a * b,
        ;
        assert(a <= q <= -a) by (nonlinear_arith)
            requires
                d > 0,
                n == d * q + r,
                0 <= r < d,
                a * d <= n <= -(a * d),
        ;
    }
}

/// The share `b / d` of `a`, rounded toward negative infinity.
pub fn scale(a: i64, b: i64, d: i64) -> (q: i64)
    requires
        0 < d <= DIVISOR_LIMIT,
        -d <= b <= d,
        -SCALE_LIMIT <= a <= SCALE_LIMIT,
    ensures
        q == spec_scale(a as int, b as int, d as int),
        a >= 0 ==> -a <= q <= a,
        a <= 0 ==> a <= q <= -a,
        a >= 0 && b >= 0 ==> q >= 0,
{
    proof {
        lemma_scale_bounds(a as int, b as int, d as int);
        assert(-0x4000_0000_0000_0000 <= a * b <= 0x4000_0000_0000_0000) by (nonlinear_arith)
            requires
                -0x1_0000_0000 <= a <= 0x1_0000_0000,
                -0x4000_0000 <= b <= 0x4000_0000,
        ;
    }
    floor_div(a * b, d)
}

/// The remainder of `v` on division by `extent`, in `[0, extent)`.
pub fn wrap(v: i64, extent: i64) -> (r: i64)
    requires
        extent > 0,
    ensures
        r == v % extent,
        0 <= r < extent,
{
    if v >= 0 {
        v % extent
    } else {
        let m: i64 = -(v + 1);
        let k: i64 = m % extent;
        proof {
            let e = extent as int;
            let q = (m as int) / e;
            vstd::arithmetic::div_mod::lemma_fundamental_div_mod(m as int, e);
            vstd::arithmetic::div_mod::lemma_mod_bound(m as int, e);
            assert(v == (-q - 1) * e + (e - 1 - k)) by (nonlinear_arith)
                requires
                    m == e * q + k,
                    v == -m - 1,
            ;
            vstd::arithmetic::div_mod::lemma_fundamental_div_mod_converse(
                v as int,
                e,
                -q - 1,
                e - 1 - k,
            );
        }
        extent - 1 - k
    }
}

/// Number of angle units in a full turn: angles are counted in thousandths
/// of a degree.
pub const FULL_TURN: u32 = 360_000;

/// Half a turn.
pub const HALF_TURN: u32 = 180_000;

/// A quarter of a turn.
pub const QUARTER_TURN: u32 = 90_000;

/// Largest magnitude of a coordinate difference that `distance` accepts.
pub const COORD_LIMIT: i64 = 0x8000_0000;

/// The sine of an angle `m` between zero and half a turn, in thousandths,
/// by the rational approximation `4p / (40500 - p)` with
/// `p = d * (180 - d)` for `d` in degrees.
pub open spec fn spec_arch(m: int) -> int {
    let p = m * (180_000 - m);
    4000 * p / (40_500_000_000 - p)
}

/// Sine of `angle` in thousandths: the arch on the first half turn, its
/// mirror image on the second.
pub open spec fn spec_sin_milli(angle: int) -> int {
    let a = angle % 360_000;
    if a <= 180_000 {
        spec_arch(a)
    } else {
        -spec_arch(a - 180_000)
    }
}

/// Cosine of `angle` in thousandths: the sine a quarter turn further on.
pub open spec fn spec_cos_milli(angle: int) -> int {
    spec_sin_milli(angle % 360_000 + 90_000)
}

/// The arch never leaves `[0, 1000]`.
pub proof fn lemma_arch_bounds(m: int)
    requires
        0 <= m <= 180_000,
    ensures
        0 <= m * (180_000 - m) <= 8_100_000_000,
        0 <= spec_arch(m) <= 1000,
{
    let p = m * (180_000 - m);
    assert(0 <= p <= 8_100_000_000) by (nonlinear_arith)
        requires
            0 <= m <= 180_000,
            p == m * (180_000 - m),
    ;
    let d = 40_500_000_000 - p;
    assert(0 <= 4000 * p / d <= 1000) by (nonlinear_arith)
        requires
            0 <= p <= 8_100_000_000,
            d == 40_500_000_000 - p,
    ;
}

fn arch(m: u32) -> (r: i64)
    requires
        m <= 180_000,
    ensures
        r == spec_arch(m as int),
        0 <= r <= 1000,
{
    proof {
        lemma_arch_bounds(m as int);
    }
    let a: i64 = m as i64;
    let p: i64 = a * (180_000 - a);
    (4000 * p) / (40_500_000_000 - p)
}

/// Sine of an angle given in thousandths of a degree, in thousandths.
pub fn sin_milli(angle: u32) -> (r: i64)
    ensures
        r == spec_sin_milli(angle as int),
        -1000 <= r <= 1000,
{
    let a: u32 = angle % FULL_TURN;
    if a <= HALF_TURN {
        arch(a)
    } else {
        -arch(a - HALF_TURN)
    }
}

/// Cosine of an angle given in thousandths of a degree, in thousandths.
pub fn cos_milli(angle: u32) -> (r: i64)
    ensures
        r == spec_cos_milli(angle as int),
        -1000 <= r <= 1000,
{
    sin_milli(angle % FULL_TURN + QUARTER_TURN)
}

/// Length of the vector `(dx, dy)`, rounded down.
pub open spec fn spec_distance(dx: int, dy: int) -> int {
    spec_isqrt(dx * dx + dy * dy)
}

/// Squares of bounded coordinates fit in 64 bits.
pub proof fn lemma_square_bound(d: int, limit: int)
    requires
        -limit <= d <= limit,
    ensures
        0 <= d * d <= limit * limit,
{
    assert(0 <= d * d <= limit * limit) by (nonlinear_arith)
        requires
            -limit <= d <= limit,
    ;
}

/// The absolute value of `d`.
pub fn magnitude(d: i64) -> (m: u64)
    requires
        d > i64::MIN,
    ensures
        m == if d >= 0 { d as int } else { -d },
{
    if d >= 0 {
        d as u64
    } else {
        (-d) as u64
    }
}

/// Length of the vector `(dx, dy)`, rounded down.
pub fn distance(dx: i64, dy: i64) -> (r: u64)
    requires
        -COORD_LIMIT <= dx <= COORD_LIMIT,
        -COORD_LIMIT <= dy <= COORD_LIMIT,
    ensures
        r == spec_distance(dx as int, dy as int),
        r * r <= dx * dx + dy * dy,
        dx * dx + dy * dy < (r + 1) * (r + 1),
        r <= 0xB504_F334,
{
    proof {
        lemma_square_bound(dx as int, COORD_LIMIT as int);
        lemma_square_bound(dy as int, COORD_LIMIT as int);
    }
    let ax: u64 = magnitude(dx);
    let ay: u64 = magnitude(dy);
    assert(ax * ax == dx * dx) by (nonlinear_arith)
        requires
            ax == dx || ax == -dx,
    ;
    assert(ay * ay == dy * dy) by (nonlinear_arith)
        requires
            ay == dy || ay == -dy,
    ;
    let n: u64 = ax * ax + ay * ay;
    let r: u64 = isqrt(n);
    assert(r <= 0xB504_F334) by (nonlinear_arith)
        requires
            r * r <= n,
            n <= 0x8000_0000_0000_0000,
    ;
    r
}

} // verus!
