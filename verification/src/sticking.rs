//! The sticking policy: how many occupied cells surround a particle, and
//! with what probability it attaches there.

use crate::grid::Grid;
use crate::settings::{Neighborhood, SimulationSettings};
use crate::walk::UNIT_DRAW;
use vstd::prelude::*;

verus! {

/// Number of cells in the window that holds every neighbourhood: five by
/// five, centred on the particle.
pub const WINDOW_CELLS: u32 = 25;

/// Horizontal displacement of the `k`-th cell of the window.
pub open spec fn spec_window_dx(k: int) -> int {
    k % 5 - 2
}

/// Vertical displacement of the `k`-th cell of the window.
pub open spec fn spec_window_dy(k: int) -> int {
    k / 5 - 2
}

/// Whether the `k`-th cell of the window around `(x, y)` belongs to the
/// neighbourhood, lies on the grid and is occupied.
pub open spec fn spec_contact_at(grid: &Grid, nb: Neighborhood, x: int, y: int, k: int) -> bool {
    &&& nb.spec_contains(spec_window_dx(k), spec_window_dy(k))
    &&& grid.spec_get(x + spec_window_dx(k), y + spec_window_dy(k)).is_some()
}

/// Number of contacts among the first `k` cells of the window.
pub open spec fn spec_contacts_upto(grid: &Grid, nb: Neighborhood, x: int, y: int, k: int) -> int
    decreases k,
{
    if k <= 0 {
        0
    } else {
        spec_contacts_upto(grid, nb, x, y, k - 1) + if spec_contact_at(grid, nb, x, y, k - 1) {
            1int
        } else {
            0int
        }
    }
}

/// Number of occupied cells in the neighbourhood of `(x, y)`.
pub open spec fn spec_contacts(grid: &Grid, nb: Neighborhood, x: int, y: int) -> int {
    spec_contacts_upto(grid, nb, x, y, 25)
}

/// Multiplier of the sticking probability at `dist` from the centre, in
/// thousandths: one, plus the gradient times the distance measured against
/// the reference radius (distances beyond it count as the reference
/// radius), and never below zero.
pub open spec fn spec_gradient_multiplier(gradient: int, dist: int, reference: int) -> int {
    let d = if dist > reference {
        reference
    } else {
        dist
    };
    let m = 1000 + (gradient * d) / reference;
    if m < 0 {
        0
    } else {
        m
    }
}

/// Multiplier of the sticking probability for the shape of the cluster
/// around the particle: a single contact is a tip, more are a side.
pub open spec fn spec_shape_multiplier(s: SimulationSettings, contacts: int) -> int {
    if contacts <= 1 {
        s.tip_stickiness as int
    } else {
        s.side_stickiness as int
    }
}

/// Probability in thousandths that a particle with `contacts` occupied
/// neighbours attaches at `dist` from the centre: nothing below the
/// required number of contacts; else the base stickiness times the gradient
/// multiplier times the shape multiplier, at most one.
pub open spec fn spec_sticking_chance(
    stickiness: int,
    s: SimulationSettings,
    contacts: int,
    dist: int,
    reference: int,
) -> int {
    if contacts < s.multi_contact_min {
        0
    } else {
        let graded = stickiness * spec_gradient_multiplier(
            s.stickiness_gradient as int,
            dist,
            reference,
        ) / 1000;
        let shaped = graded * spec_shape_multiplier(s, contacts) / 1000;
        if shaped > 1000 {
            1000
        } else {
            shaped
        }
    }
}

/// Whether a draw falls within a probability given in thousandths.
pub open spec fn spec_sticks(draw: int, chance: int) -> bool {
    draw % 1_000_000 < chance * 1000
}

/// The multiplier stays between nothing and two.
pub proof fn lemma_gradient_multiplier_bounds(gradient: int, dist: int, reference: int)
    requires
        -1000 <= gradient <= 1000,
        0 <= dist,
        0 < reference,
    ensures
        0 <= spec_gradient_multiplier(gradient, dist, reference) <= 2000,
{
    let d = if dist > reference {
        reference
    } else {
        dist
    };
    crate::fixed::lemma_scale_bounds(gradient, d, reference);
}

/// Number of occupied cells in the neighbourhood of `(x, y)`.
pub fn contact_count(grid: &Grid, nb: Neighborhood, x: usize, y: usize) -> (n: u32)
    requires
        grid.wf(),
        x < grid.spec_width(),
        y < grid.spec_height(),
    ensures
        n == spec_contacts(grid, nb, x as int, y as int),
        n <= 24,
{
    let mut n: u32 = 0;
    let mut k: u32 = 0;
    while k < WINDOW_CELLS
        invariant
            k <= 25,
            grid.wf(),
            x < grid.spec_width(),
            y < grid.spec_height(),
            n == spec_contacts_upto(grid, nb, x as int, y as int, k as int),
            n <= k,
            k > 12 ==> n < k,
        decreases 25 - k,
    {
        let dx: i64 = (k % 5) as i64 - 2;
        let dy: i64 = (k / 5) as i64 - 2;
        if nb.contains(dx, dy) {
            let nx: i64 = x as i64 + dx;
            let ny: i64 = y as i64 + dy;
            if nx >= 0 && ny >= 0 {
                if grid.get(nx as usize, ny as usize).is_some() {
                    n += 1;
                }
            }
        }
        k += 1;
    }
    n
}

/// Multiplier of the sticking probability at `dist` from the centre, in
/// thousandths.
pub fn gradient_multiplier(gradient: i32, dist: u64, reference: i64) -> (m: u32)
    requires
        -1000 <= gradient <= 1000,
        0 < reference <= 0x4000_0000,
    ensures
        m == spec_gradient_multiplier(gradient as int, dist as int, reference as int),
        m <= 2000,
{
    let d: i64 = if dist > reference as u64 {
        reference
    } else {
        dist as i64
    };
    proof {
        lemma_gradient_multiplier_bounds(gradient as int, dist as int, reference as int);
        crate::fixed::lemma_scale_bounds(gradient as int, d as int, reference as int);
    }
    let drift: i64 = crate::fixed::scale(gradient as i64, d, reference);
    let m: i64 = 1000 + drift;
    if m < 0 {
        0
    } else {
        m as u32
    }
}

/// Probability in thousandths that a particle attaches.
pub fn sticking_chance(
    stickiness: u32,
    settings: &SimulationSettings,
    contacts: u32,
    dist: u64,
    reference: i64,
) -> (chance: u32)
    requires
        stickiness <= 1000,
        settings.in_range(),
        0 < reference <= 0x4000_0000,
    ensures
        chance == spec_sticking_chance(
            stickiness as int,
            *settings,
            contacts as int,
            dist as int,
            reference as int,
        ),
        chance <= 1000,
{
    if contacts < settings.multi_contact_min {
        0
    } else {
        let grade: u64 = gradient_multiplier(settings.stickiness_gradient, dist, reference) as u64;
        assert(stickiness * grade <= 2_000_000) by (nonlinear_arith)
            requires
                stickiness <= 1000,
                grade <= 2000,
        ;
        let graded: u64 = (stickiness as u64) * grade / 1000;
        let shape: u64 = if contacts <= 1 {
            settings.tip_stickiness as u64
        } else {
            settings.side_stickiness as u64
        };
        assert(graded <= 2000) by (nonlinear_arith)
            requires
                stickiness <= 1000,
                grade <= 2000,
                graded == (stickiness * grade) / 1000,
        ;
        assert(graded * shape <= 6_000_000) by (nonlinear_arith)
            requires
                graded <= 2000,
                shape <= 3000,
        ;
        let shaped: u64 = graded * shape / 1000;
        if shaped > 1000 {
            1000
        } else {
            shaped as u32
        }
    }
}

/// Whether a draw falls within a probability given in thousandths.
pub fn sticks(draw: u32, chance: u32) -> (b: bool)
    ensures
        b == spec_sticks(draw as int, chance as int),
{
    ((draw % UNIT_DRAW) as u64) < (chance as u64) * 1000
}

} // verus!
