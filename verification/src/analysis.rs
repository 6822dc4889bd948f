//! Structural analysis: an estimate of the fractal dimension of the cluster.
//! Occupied cells are counted within circles of doubling radius around the
//! centre of the grid, and a straight line is fitted to the logarithm of
//! the count against the logarithm of the radius. Its slope is the
//! dimension; the share of the variance that it explains is the confidence.
//! Everything is computed in integers, so the same grid always gives the
//! same estimate.

use crate::grid::{lemma_cell_index_bound, occupied_count, Grid};
use vstd::prelude::*;

verus! {

/// Fewest particles for which an estimate is made.
pub const MIN_FRACTAL_SAMPLES: usize = 10;

/// Most radii that are tried.
pub const MAX_RADII: usize = 24;

/// Largest count that the regression accepts.
pub const COUNT_LIMIT: u64 = 0x100_0000_0000;

/// Two to the power `k`.
pub open spec fn spec_pow2(k: int) -> int
    decreases k,
{
    if k <= 0 {
        1
    } else {
        2 * spec_pow2(k - 1)
    }
}

/// The whole part of the binary logarithm of `v`.
pub open spec fn spec_floor_log2(v: int) -> int
    decreases v,
{
    if v < 2 {
        0
    } else {
        1 + spec_floor_log2(v / 2)
    }
}

/// The fractional part of the binary logarithm of a mantissa `m`, which
/// stands for `m / 2^30` in `[1, 2)`: the mantissa is squared, and where
/// the square reaches two the bit of weight `weight` is set and the square
/// halved; the remaining bits follow in the same way at half the weight.
/// Squares are rounded down.
pub open spec fn spec_log2_frac(m: int, weight: int) -> int
    decreases weight,
{
    if weight <= 0 {
        0
    } else {
        let sq = m * m / 0x4000_0000;
        if sq >= 0x8000_0000 {
            weight + spec_log2_frac(sq / 2, weight / 2)
        } else {
            spec_log2_frac(sq, weight / 2)
        }
    }
}

/// The binary logarithm of `v` with sixteen fractional bits.
pub open spec fn spec_log2(v: int) -> int {
    let k = spec_floor_log2(v);
    k * 65536 + spec_log2_frac(v * 0x4000_0000 / spec_pow2(k), 32768)
}

/// The `k`-th radius: two, four, eight and so on.
pub open spec fn spec_radius(k: int) -> int {
    2 * spec_pow2(k)
}

/// Whether the cell `(x, y)` of a grid lies within `radius` of its centre.
pub open spec fn spec_inside(width: int, height: int, x: int, y: int, radius: int) -> bool {
    (2 * x - width) * (2 * x - width) + (2 * y - height) * (2 * y - height) <= 4 * (radius
        * radius)
}

/// How many of the first `n` cells of the grid are occupied and lie within
/// `radius` of its centre.
pub open spec fn spec_count_within_upto(grid: &Grid, radius: int, n: int) -> int
    decreases n,
{
    if n <= 0 {
        0
    } else {
        let w = grid.spec_width() as int;
        spec_count_within_upto(grid, radius, n - 1) + if grid@[n - 1].is_some() && spec_inside(
            w,
            grid.spec_height() as int,
            (n - 1) % w,
            (n - 1) / w,
            radius,
        ) {
            1int
        } else {
            0int
        }
    }
}

/// How many occupied cells lie within `radius` of the centre of the grid.
pub open spec fn spec_count_within(grid: &Grid, radius: int) -> int {
    spec_count_within_upto(grid, radius, grid@.len() as int)
}

/// The counts for the radii from the `k`-th on: radii are added until one
/// holds every occupied cell, or there are as many as are tried at most.
pub open spec fn spec_counts_from(grid: &Grid, k: int) -> Seq<u64>
    decreases MAX_RADII - k,
{
    if k >= MAX_RADII {
        Seq::<u64>::empty()
    } else {
        let c = spec_count_within(grid, spec_radius(k));
        if c >= occupied_count(grid@) {
            seq![c as u64]
        } else {
            seq![c as u64] + spec_counts_from(grid, k + 1)
        }
    }
}

/// The counts of occupied cells within the radii two, four, eight and so
/// on, up to the first radius that holds them all.
pub open spec fn spec_radial_counts(grid: &Grid) -> Seq<u64> {
    spec_counts_from(grid, 0)
}

/// The sums that a line fit needs, over the points `(i + 1, log2(c))` for
/// the counts `c` at index `i` that are not zero.
pub struct Moments {
    pub n: int,
    pub sx: int,
    pub sy: int,
    pub sxx: int,
    pub sxy: int,
    pub syy: int,
}

/// The sums over the first `n` counts.
pub open spec fn spec_moments(counts: Seq<u64>, n: int) -> Moments
    decreases n,
{
    if n <= 0 {
        Moments { n: 0, sx: 0, sy: 0, sxx: 0, sxy: 0, syy: 0 }
    } else {
        let m = spec_moments(counts, n - 1);
        if counts[n - 1] == 0 {
            m
        } else {
            let y = spec_log2(counts[n - 1] as int);
            Moments {
                n: m.n + 1,
                sx: m.sx + n,
                sy: m.sy + y,
                sxx: m.sxx + n * n,
                sxy: m.sxy + n * y,
                syy: m.syy + y * y,
            }
        }
    }
}

/// Slope and confidence of the line fitted to the logarithm of the counts
/// against the logarithm of their radii, both in thousandths. As the radii
/// double, the logarithm of the `i`-th radius is `i + 1`. Counts of zero
/// are left out. With fewer than two points there is no line, and both are
/// zero; counts that are all equal give a flat line of no confidence. The
/// confidence is at most one.
pub open spec fn spec_regression(counts: Seq<u64>) -> (int, int) {
    let m = spec_moments(counts, counts.len() as int);
    let den = m.n * m.sxx - m.sx * m.sx;
    let num = m.n * m.sxy - m.sx * m.sy;
    let vy = m.n * m.syy - m.sy * m.sy;
    if m.n < 2 || den <= 0 {
        (0, 0)
    } else if vy <= 0 {
        (num * 1000 / (den * 65536), 0)
    } else {
        let share = num * num * 1000 / (den * vy);
        (
            num * 1000 / (den * 65536),
            if share > 1000 {
                1000
            } else {
                share
            },
        )
    }
}

/// The estimate for a grid: nothing below the least number of particles,
/// else the line fitted to the radial counts.
pub open spec fn spec_fractal_dimension(grid: &Grid) -> (int, int) {
    if occupied_count(grid@) < MIN_FRACTAL_SAMPLES {
        (0, 0)
    } else {
        spec_regression(spec_radial_counts(grid))
    }
}

/// A number between two consecutive powers of two has the smaller one's
/// exponent as the whole part of its logarithm.
proof fn lemma_floor_log2(v: int, k: int)
    requires
        0 <= k,
        spec_pow2(k) <= v < spec_pow2(k + 1),
    ensures
        spec_floor_log2(v) == k,
    decreases k,
{
    if k == 0 {
        assert(spec_pow2(1) == 2 * spec_pow2(0));
    } else {
        lemma_floor_log2(v / 2, k - 1);
    }
}

/// The fraction stays below twice the weight it starts from.
proof fn lemma_log2_frac_bound(m: int, weight: int)
    requires
        0 <= weight,
    ensures
        0 <= spec_log2_frac(m, weight) <= 2 * weight,
    decreases weight,
{
    if weight > 0 {
        let sq = m * m / 0x4000_0000;
        if sq >= 0x8000_0000 {
            lemma_log2_frac_bound(sq / 2, weight / 2);
        } else {
            lemma_log2_frac_bound(sq, weight / 2);
        }
    }
}

/// Division rounded toward negative infinity, for a positive divisor.
fn floor_div_wide(a: i128, d: i128) -> (q: i128)
    requires
        d > 0,
        a > i128::MIN,
    ensures
        q == a / d,
{
    if a >= 0 {
        a / d
    } else {
        let m: i128 = -(a + 1);
        let k: i128 = m / d;
        proof {
            let r = (m as int) % (d as int);
            vstd::arithmetic::div_mod::lemma_fundamental_div_mod(m as int, d as int);
            vstd::arithmetic::div_mod::lemma_mod_bound(m as int, d as int);
            assert(a == (-k - 1) * d + (d - 1 - r)) by (nonlinear_arith)
                requires
                    m == d * k + r,
                    a == -m - 1,
            ;
            vstd::arithmetic::div_mod::lemma_fundamental_div_mod_converse(
                a as int,
                d as int,
                -k - 1,
                d - 1 - r,
            );
        }
        -k - 1
    }
}

/// The binary logarithm of `v` with sixteen fractional bits.
pub fn log2(v: u64) -> (r: u64)
    requires
        1 <= v <= COUNT_LIMIT,
    ensures
        r == spec_log2(v as int),
        r < 41 * 65536,
{
    let mut p: u64 = 1;
    let mut k: u64 = 0;
    proof {
        lemma_pow2_bounded(0);
    }
    while p <= v / 2
        invariant
            p == spec_pow2(k as int),
            1 <= p <= v <= COUNT_LIMIT,
            k <= 40,
            p <= 0x100_0000_0000,
            k == 40 ==> p == 0x100_0000_0000,
            spec_pow2(40) == 0x100_0000_0000,
        decreases v - p,
    {
        proof {
            reveal_with_fuel(spec_pow2, 41);
            if k >= 40 {
                assert(p == 0x100_0000_0000);
            }
        }
        p = p * 2;
        k = k + 1;
        proof {
            lemma_pow2_bounded(k as int);
        }
    }
    proof {
        assert(spec_pow2(k + 1) == 2 * spec_pow2(k as int));
        lemma_floor_log2(v as int, k as int);
    }
    let wide: u128 = (v as u128) * 0x4000_0000 / (p as u128);
    assert(0x4000_0000 <= wide < 0x8000_0000) by (nonlinear_arith)
        requires
            1 <= p <= v,
            v < 2 * p,
            wide == (v * 0x4000_0000) / (p as int),
    ;
    let mut m: u64 = wide as u64;
    let mut weight: u64 = 32768;
    let mut frac: u64 = 0;
    let ghost total = spec_log2_frac(m as int, 32768);
    while weight > 0
        invariant
            0x4000_0000 <= m < 0x8000_0000,
            weight <= 32768,
            total == frac + spec_log2_frac(m as int, weight as int),
            frac + 2 * weight <= 65536,
            weight == 0 ==> frac < 65536,
        decreases weight,
    {
        assert(m * m < 0x8000_0000 * 0x8000_0000) by (nonlinear_arith)
            requires
                m < 0x8000_0000,
        ;
        assert(m * m >= 0x4000_0000 * 0x4000_0000) by (nonlinear_arith)
            requires
                m >= 0x4000_0000,
        ;
        let sq: u64 = m * m / 0x4000_0000;
        if sq >= 0x8000_0000 {
            frac = frac + weight;
            m = sq / 2;
        } else {
            m = sq;
        }
        weight = weight / 2;
    }
    proof {
        lemma_log2_frac_bound(wide as int, 32768);
    }
    k * 65536 + frac
}

/// Powers of two up to the fortieth, which bounds every count.
proof fn lemma_pow2_bounded(k: int)
    requires
        0 <= k <= 40,
    ensures
        spec_pow2(k) <= 0x100_0000_0000,
        spec_pow2(40) == 0x100_0000_0000,
        k < 40 ==> spec_pow2(k) <= 0x80_0000_0000,
    decreases 40 - k,
{
    reveal_with_fuel(spec_pow2, 41);
    if k < 40 {
        lemma_pow2_bounded(k + 1);
    }
}

/// How many occupied cells lie within `radius` of the centre of the grid.
pub fn count_within(grid: &Grid, radius: u64) -> (count: u64)
    requires
        grid.wf(),
        radius <= 0x400_0000,
    ensures
        count == spec_count_within(grid, radius as int),
        count <= grid@.len(),
{
    let width: usize = grid.width();
    let height: usize = grid.height();
    assert(0 <= radius * radius <= 0x400_0000 * 0x400_0000) by (nonlinear_arith)
        requires
            radius <= 0x400_0000,
    ;
    let limit: i64 = 4 * ((radius as i64) * (radius as i64));
    let mut count: u64 = 0;
    let mut y: usize = 0;
    while y < height
        invariant
            y <= height,
            grid.wf(),
            width == grid.spec_width(),
            height == grid.spec_height(),
            limit == 4 * (radius * radius),
            count == spec_count_within_upto(grid, radius as int, y * width),
            count <= y * width,
        decreases height - y,
    {
        let mut x: usize = 0;
        while x < width
            invariant
                x <= width,
                y < height,
                grid.wf(),
                width == grid.spec_width(),
                height == grid.spec_height(),
                limit == 4 * (radius * radius),
                count == spec_count_within_upto(grid, radius as int, y * width + x),
                count <= y * width + x,
            decreases width - x,
        {
            proof {
                lemma_cell_index_bound(width as int, height as int, x as int, y as int);
            }
            let dx: i64 = 2 * (x as i64) - (width as i64);
            let dy: i64 = 2 * (y as i64) - (height as i64);
            assert(0 <= dx * dx <= 0x20_0000 * 0x20_0000 && 0 <= dy * dy <= 0x20_0000 * 0x20_0000)
                by (nonlinear_arith)
                requires
                    -0x20_0000 <= dx <= 0x20_0000,
                    -0x20_0000 <= dy <= 0x20_0000,
            ;
            if grid.get(x, y).is_some() && dx * dx + dy * dy <= limit {
                count = count + 1;
            }
            x += 1;
        }
        assert(y * width + width == (y + 1) * width) by (nonlinear_arith);
        y += 1;
    }
    assert(y * width == width * height) by (nonlinear_arith)
        requires
            y == height,
    ;
    count
}

/// The counts of occupied cells within the radii two, four, eight and so
/// on, up to the first radius that holds them all.
pub fn radial_counts(grid: &Grid) -> (counts: Vec<u64>)
    requires
        grid.wf(),
    ensures
        counts@ == spec_radial_counts(grid),
        1 <= counts@.len() <= MAX_RADII,
        forall|i: int| 0 <= i < counts@.len() ==> counts@[i] <= COUNT_LIMIT,
{
    let total: usize = grid.count_occupied();
    let mut counts: Vec<u64> = Vec::new();
    let mut radius: u64 = 2;
    let mut k: usize = 0;
    let mut covered: bool = false;
    proof {
        reveal_with_fuel(spec_pow2, 2);
    }
    while k < MAX_RADII && !covered
        invariant
            k <= MAX_RADII,
            grid.wf(),
            total == occupied_count(grid@),
            radius == spec_radius(k as int),
            k < MAX_RADII ==> radius <= 0x400_0000,
            counts@.len() == k,
            covered ==> k >= 1,
            forall|i: int| 0 <= i < counts@.len() ==> counts@[i] <= COUNT_LIMIT,
            !covered ==> spec_radial_counts(grid) == counts@ + spec_counts_from(grid, k as int),
            covered ==> spec_radial_counts(grid) == counts@,
        decreases MAX_RADII - k + (if covered { 0int } else { 1int }),
    {
        let c: u64 = count_within(grid, radius);
        proof {
            assert(grid@.len() <= 0x10_0000 * 0x10_0000) by (nonlinear_arith)
                requires
                    grid@.len() == grid.spec_width() * grid.spec_height(),
                    0 < grid.spec_width() <= 0x10_0000,
                    0 < grid.spec_height() <= 0x10_0000,
            ;
            if c >= total {
                assert(counts@ + seq![c] =~= counts@.push(c));
            } else {
                assert(counts@ + (seq![c] + spec_counts_from(grid, k + 1)) =~= counts@.push(c)
                    + spec_counts_from(grid, k + 1));
            }
            lemma_radius_doubles(k as int);
        }
        counts.push(c);
        if c >= total as u64 {
            covered = true;
        }
        k = k + 1;
        if k < MAX_RADII {
            radius = radius * 2;
        } else {
            radius = 2 * radius;
        }
    }
    proof {
        if !covered {
            assert(spec_counts_from(grid, MAX_RADII as int) =~= Seq::<u64>::empty());
            assert(counts@ + Seq::<u64>::empty() =~= counts@);
        }
    }
    counts
}

/// Each radius is twice the one before, and the last that is tried stays
/// within the reach of the counter.
proof fn lemma_radius_doubles(k: int)
    requires
        0 <= k < MAX_RADII,
    ensures
        spec_radius(k + 1) == 2 * spec_radius(k),
        spec_radius(k) <= 0x100_0000,
{
    reveal_with_fuel(spec_pow2, 26);
}

/// Slope and confidence of the line fitted to the logarithm of the counts
/// against the logarithm of their radii, both in thousandths.
pub fn regress(counts: &Vec<u64>) -> (fit: (i64, i64))
    requires
        counts@.len() <= MAX_RADII,
        forall|i: int| 0 <= i < counts@.len() ==> counts@[i] <= COUNT_LIMIT,
    ensures
        (fit.0 as int, fit.1 as int) == spec_regression(counts@),
{
    let len: usize = counts.len();
    let mut n: i128 = 0;
    let mut sx: i128 = 0;
    let mut sy: i128 = 0;
    let mut sxx: i128 = 0;
    let mut sxy: i128 = 0;
    let mut syy: i128 = 0;
    let mut i: usize = 0;
    while i < len
        invariant
            i <= len <= MAX_RADII,
            len == counts@.len(),
            forall|j: int| 0 <= j < counts@.len() ==> counts@[j] <= COUNT_LIMIT,
            spec_moments(counts@, i as int) == (Moments {
                n: n as int,
                sx: sx as int,
                sy: sy as int,
                sxx: sxx as int,
                sxy: sxy as int,
                syy: syy as int,
            }),
            0 <= n <= i,
            0 <= sx <= 32 * i,
            0 <= sy <= 0x40_0000 * i,
            0 <= sxx <= 1024 * i,
            0 <= sxy <= 0x800_0000 * i,
            0 <= syy <= 0x1000_0000_0000 * i,
        decreases len - i,
    {
        let c: u64 = counts[i];
        if c != 0 {
            let x: i128 = (i + 1) as i128;
            let y: i128 = log2(c) as i128;
            assert(x * x <= 1024 && x * y <= 0x800_0000 && y * y <= 0x1000_0000_0000 && x * y >= 0
                && y * y >= 0) by (nonlinear_arith)
                requires
                    1 <= x <= 24,
                    0 <= y <= 0x40_0000,
            ;
            n = n + 1;
            sx = sx + x;
            sy = sy + y;
            sxx = sxx + x * x;
            sxy = sxy + x * y;
            syy = syy + y * y;
        }
        i += 1;
    }
    assert(n * sxx <= 24 * 24576 && sx * sx <= 768 * 768 && n * sxy <= 24 * 0xC000_0000 && sx * sy
        <= 768 * 0x600_0000 && n * syy <= 24 * 0x1_8000_0000_0000 && sy * sy <= 0x600_0000
        * 0x600_0000 && n * sxx >= 0 && sx * sx >= 0 && n * sxy >= 0 && sx * sy >= 0 && n * syy
        >= 0 && sy * sy >= 0) by (nonlinear_arith)
        requires
            0 <= n <= 24,
            0 <= sx <= 768,
            0 <= sy <= 0x600_0000,
            0 <= sxx <= 24576,
            0 <= sxy <= 0xC000_0000,
            0 <= syy <= 0x1_8000_0000_0000,
    ;
    let den: i128 = n * sxx - sx * sx;
    let num: i128 = n * sxy - sx * sy;
    let vy: i128 = n * syy - sy * sy;
    if n < 2 || den <= 0 {
        return (0, 0);
    }
    assert(-0x4_8000_0000_0000 <= num * 1000 <= 0x4_8000_0000_0000 * 1000);
    assert(0 < den * 65536 <= 589824 * 65536);
    let slope: i128 = floor_div_wide(num * 1000, den * 65536);
    assert(-0x4_8000_0000_0000 * 1000 <= slope <= 0x4_8000_0000_0000 * 1000) by (nonlinear_arith)
        requires
            slope == (num * 1000) / (den * 65536),
            den * 65536 >= 1,
            -0x4_8000_0000_0000 * 1000 <= num * 1000 <= 0x4_8000_0000_0000 * 1000,
    ;
    if vy <= 0 {
        return (slope as i64, 0);
    }
    assert(0 <= num * num <= 0x4_8000_0000_0000 * 0x4_8000_0000_0000) by (nonlinear_arith)
        requires
            -0x4_8000_0000_0000 <= num <= 0x4_8000_0000_0000,
    ;
    assert(0 < den * vy <= 589824 * 0x24_0000_0000_0000) by (nonlinear_arith)
        requires
            0 < den <= 589824,
            0 < vy <= 0x24_0000_0000_0000,
    ;
    let share: i128 = floor_div_wide(num * num * 1000, den * vy);
    assert(0 <= share <= 0x4_8000_0000_0000 * 0x4_8000_0000_0000 * 1000) by (nonlinear_arith)
        requires
            share == (num * num * 1000) / (den * vy),
            den * vy >= 1,
            0 <= num * num * 1000 <= 0x4_8000_0000_0000 * 0x4_8000_0000_0000 * 1000,
    ;
    if share > 1000 {
        (slope as i64, 1000)
    } else {
        (slope as i64, share as i64)
    }
}

/// The estimate of the fractal dimension of the cluster on `grid`, and the
/// confidence of the estimate, both in thousandths. A grid with fewer than
/// the least number of particles gives zero for both.
pub fn fractal_dimension(grid: &Grid) -> (estimate: (i64, i64))
    requires
        grid.wf(),
    ensures
        (estimate.0 as int, estimate.1 as int) == spec_fractal_dimension(grid),
        occupied_count(grid@) < MIN_FRACTAL_SAMPLES ==> estimate == (0i64, 0i64),
{
    if grid.count_occupied() < MIN_FRACTAL_SAMPLES {
        (0, 0)
    } else {
        let counts: Vec<u64> = radial_counts(grid);
        regress(&counts)
    }
}

} // verus!
