//! The walk policy: where a particle is released, how far and in which
//! direction one step carries it, what the edge of the grid does to it and
//! when it is given up. Every function here is a function of its arguments
//! alone; chance enters as draws that the caller supplies.

use crate::fixed::{
    cos_milli, distance, scale, sin_milli, spec_cos_milli, spec_distance, spec_scale,
    spec_sin_milli, wrap, FULL_TURN,
};
use crate::grid::MAX_GRID_SIDE;
use crate::settings::{spec_clamp, BoundaryBehavior, Neighborhood, SimulationSettings, SpawnMode};
use vstd::prelude::*;

verus! {

/// A draw is a fraction of one, counted in millionths: the draws that
/// matter lie in `0..UNIT_DRAW`, and larger ones are reduced into that
/// range.
pub const UNIT_DRAW: u32 = 1_000_000;

/// Largest cluster radius that the policy accepts, in thousandths of a
/// cell.
pub const RADIUS_LIMIT: u64 = 0xC000_0000;

/// A point of the plane, in thousandths of a cell. The cell that holds it is
/// found by rounding both coordinates down to whole cells.
#[derive(Clone, Copy, Debug, PartialEq, Eq, Structural)]
pub struct Position {
    pub x: i64,
    pub y: i64,
}

/// What the edge of the grid made of a step.
#[derive(Clone, Copy, Debug, PartialEq, Eq, Structural)]
pub enum BoundaryOutcome {
    /// The particle walks on from this point of the grid.
    Inside(Position),
    /// The particle hit the edge and is to attach at this point.
    Stuck(Position),
    /// The particle left the grid and is gone.
    Absorbed,
}

/// The dimensions are those of a grid.
pub open spec fn spec_valid_extent(width: int, height: int) -> bool {
    0 < width <= MAX_GRID_SIDE && 0 < height <= MAX_GRID_SIDE
}

/// The point lies on the grid.
pub open spec fn spec_in_grid(width: int, height: int, p: Position) -> bool {
    0 <= p.x < 1000 * width && 0 <= p.y < 1000 * height
}

/// Distance of a point from the centre of the grid.
pub open spec fn spec_center_distance(width: int, height: int, p: Position) -> int {
    spec_distance(p.x - 500 * width, p.y - 500 * height)
}

/// Distance of the corner of cell `(x, y)` from the centre of the grid.
pub open spec fn spec_cell_distance(width: int, height: int, x: int, y: int) -> int {
    spec_distance(1000 * x - 500 * width, 1000 * y - 500 * height)
}

/// Half the longer side of the grid: the length against which the radial
/// bias and the stickiness gradient measure distances.
pub open spec fn spec_reference_radius(width: int, height: int) -> int {
    if width >= height {
        500 * width
    } else {
        500 * height
    }
}

/// Radius of the release ring: the cluster's radius plus the offset, but no
/// less than the floor.
pub open spec fn spec_spawn_radius(max_radius: int, s: SimulationSettings) -> int {
    if max_radius + s.spawn_radius_offset >= s.min_spawn_radius {
        max_radius + s.spawn_radius_offset
    } else {
        s.min_spawn_radius as int
    }
}

/// The angle that a draw stands for, in thousandths of a degree.
pub open spec fn spec_unit_angle(draw: int) -> int {
    (draw % 1_000_000) * 9 / 25
}

/// Which of four equal parts of the unit interval a draw falls into.
pub open spec fn spec_quarter(draw: int) -> int {
    (draw % 1_000_000) * 4 / 1_000_000
}

/// The point of the grid nearest to `p`.
pub open spec fn spec_clamp_to_grid(width: int, height: int, p: Position) -> Position {
    Position {
        x: spec_clamp(p.x as int, 0, 1000 * width - 1) as i64,
        y: spec_clamp(p.y as int, 0, 1000 * height - 1) as i64,
    }
}

/// The point at `radius` from the centre of the grid in direction `angle`.
pub open spec fn spec_ring_point(width: int, height: int, radius: int, angle: int) -> Position {
    Position {
        x: (500 * width + spec_scale(radius, spec_cos_milli(angle), 1000)) as i64,
        y: (500 * height + spec_scale(radius, spec_sin_milli(angle), 1000)) as i64,
    }
}

/// Where a particle is released, before it is brought onto the grid.
pub open spec fn spec_release_point(
    width: int,
    height: int,
    max_radius: int,
    s: SimulationSettings,
    a: int,
    b: int,
) -> Position {
    let along_x = spec_scale(1000 * width, b % 1_000_000, 1_000_000);
    let along_y = spec_scale(1000 * height, b % 1_000_000, 1_000_000);
    let right = 1000 * width - 1;
    let bottom = 1000 * height - 1;
    let q = spec_quarter(a);
    match s.spawn_mode {
        SpawnMode::Circle => spec_ring_point(
            width,
            height,
            spec_spawn_radius(max_radius, s),
            spec_unit_angle(a),
        ),
        SpawnMode::Edges => if q == 0 {
            Position { x: along_x as i64, y: 0 }
        } else if q == 1 {
            Position { x: along_x as i64, y: bottom as i64 }
        } else if q == 2 {
            Position { x: 0, y: along_y as i64 }
        } else {
            Position { x: right as i64, y: along_y as i64 }
        },
        SpawnMode::Corners => Position {
            x: (if q == 1 || q == 3 {
                right
            } else {
                0
            }) as i64,
            y: (if q >= 2 {
                bottom
            } else {
                0
            }) as i64,
        },
        SpawnMode::Random => Position {
            x: spec_scale(1000 * width, a % 1_000_000, 1_000_000) as i64,
            y: along_y as i64,
        },
        SpawnMode::Directional => spec_ring_point(
            width,
            height,
            spec_spawn_radius(max_radius, s),
            s.walk_bias_angle * 1000 + 135_000 + spec_scale(90_000, a % 1_000_000, 1_000_000),
        ),
    }
}

/// Where a particle starts its walk: the release point, brought onto the
/// grid.
pub open spec fn spec_spawn_position(
    width: int,
    height: int,
    max_radius: int,
    s: SimulationSettings,
    a: int,
    b: int,
) -> Position {
    spec_clamp_to_grid(width, height, spec_release_point(width, height, max_radius, s, a, b))
}

/// Length of one step: the configured length, or with adaptive steps the
/// configured share of the gap to the cluster where that is longer.
pub open spec fn spec_step_length(s: SimulationSettings, gap: int) -> int {
    let share = spec_scale(gap, s.adaptive_step_factor as int, 1000);
    if s.adaptive_step && share > s.walk_step_size {
        share
    } else {
        s.walk_step_size as int
    }
}

/// Number of lattice directions: four where only edge neighbours count,
/// eight otherwise.
pub open spec fn spec_lattice_count(s: SimulationSettings) -> int {
    if s.neighborhood == Neighborhood::VonNeumann {
        4
    } else {
        8
    }
}

/// The lattice direction nearest to `heading`, as an index into the eight
/// compass directions counted from the positive x axis.
pub open spec fn spec_compass(s: SimulationSettings, heading: int) -> int {
    let h = heading % 360_000;
    if spec_lattice_count(s) == 4 {
        (((h + 45_000) / 90_000) % 4) * 2
    } else {
        ((h + 22_500) / 45_000) % 8
    }
}

/// The x component of compass direction `k`, in whole cells.
pub open spec fn spec_compass_x(k: int) -> int {
    if k == 0 || k == 1 || k == 7 {
        1
    } else if k == 3 || k == 4 || k == 5 {
        -1
    } else {
        0
    }
}

/// The y component of compass direction `k`, in whole cells.
pub open spec fn spec_compass_y(k: int) -> int {
    if k == 1 || k == 2 || k == 3 {
        1
    } else if k == 5 || k == 6 || k == 7 {
        -1
    } else {
        0
    }
}

/// The direction of a step in thousandths: the heading itself, or on the
/// lattice the compass direction nearest to it.
pub open spec fn spec_direction(s: SimulationSettings, heading: int) -> (int, int) {
    if s.lattice_walk {
        let k = spec_compass(s, heading);
        (1000 * spec_compass_x(k), 1000 * spec_compass_y(k))
    } else {
        (spec_cos_milli(heading), spec_sin_milli(heading))
    }
}

/// One component of a step: the step along its direction, the pull of the
/// walk bias, and the radial drift in proportion to the offset from the
/// centre.
pub open spec fn spec_component(
    s: SimulationSettings,
    step: int,
    unit: int,
    bias_unit: int,
    offset: int,
    reference: int,
) -> int {
    spec_scale(step, unit, 1000) + spec_scale(
        spec_scale(step, s.walk_bias_strength as int, 1000),
        bias_unit,
        1000,
    ) + spec_scale(spec_scale(step, s.radial_bias as int, 1000), offset, reference)
}

/// Where one step carries a particle that stands at `p`, before the edge of
/// the grid is looked at.
pub open spec fn spec_moved(
    width: int,
    height: int,
    max_radius: int,
    s: SimulationSettings,
    p: Position,
    heading_draw: int,
) -> Position {
    let dist = spec_center_distance(width, height, p);
    let gap = if dist > max_radius {
        dist - max_radius
    } else {
        0
    };
    let step = spec_step_length(s, gap);
    let (ux, uy) = spec_direction(s, spec_unit_angle(heading_draw));
    let bias = s.walk_bias_angle * 1000;
    let reference = spec_reference_radius(width, height);
    Position {
        x: (p.x + spec_component(
            s,
            step,
            ux,
            spec_cos_milli(bias),
            p.x - 500 * width,
            reference,
        )) as i64,
        y: (p.y + spec_component(
            s,
            step,
            uy,
            spec_sin_milli(bias),
            p.y - 500 * height,
            reference,
        )) as i64,
    }
}

/// A coordinate mirrored at the edge it crossed, and put on the nearest
/// cell if it still lies outside.
pub open spec fn spec_bounce(v: int, extent: int) -> int {
    if v < 0 {
        spec_clamp(-v, 0, extent - 1)
    } else if v >= extent {
        spec_clamp(2 * (extent - 1) - v, 0, extent - 1)
    } else {
        v
    }
}

/// What the edge of the grid makes of a particle that a step carried to
/// `p`. A point on the grid is left alone.
pub open spec fn spec_apply_boundary(
    width: int,
    height: int,
    behavior: BoundaryBehavior,
    p: Position,
) -> BoundaryOutcome {
    if spec_in_grid(width, height, p) {
        BoundaryOutcome::Inside(p)
    } else {
        match behavior {
            BoundaryBehavior::Clamp => BoundaryOutcome::Inside(
                spec_clamp_to_grid(width, height, p),
            ),
            BoundaryBehavior::Wrap => BoundaryOutcome::Inside(
                Position {
                    x: ((p.x as int) % (1000 * width)) as i64,
                    y: ((p.y as int) % (1000 * height)) as i64,
                },
            ),
            BoundaryBehavior::Bounce => BoundaryOutcome::Inside(
                Position {
                    x: spec_bounce(p.x as int, 1000 * width) as i64,
                    y: spec_bounce(p.y as int, 1000 * height) as i64,
                },
            ),
            BoundaryBehavior::Stick => BoundaryOutcome::Stuck(spec_clamp_to_grid(width, height, p)),
            BoundaryBehavior::Absorb => BoundaryOutcome::Absorbed,
        }
    }
}

/// Whether a particle at `dist` from the centre is beyond reach: strictly
/// further than the release radius times the escape multiplier.
pub open spec fn spec_has_escaped(dist: int, spawn_radius: int, multiplier: int) -> bool {
    dist * 1000 > spawn_radius * multiplier
}

/// Radius of the release ring.
pub fn spawn_radius(max_radius: u64, settings: &SimulationSettings) -> (r: u64)
    requires
        max_radius <= RADIUS_LIMIT,
    ensures
        r == spec_spawn_radius(max_radius as int, *settings),
        r >= settings.min_spawn_radius,
        r >= max_radius,
{
    let ring: u64 = max_radius + settings.spawn_radius_offset as u64;
    if ring >= settings.min_spawn_radius as u64 {
        ring
    } else {
        settings.min_spawn_radius as u64
    }
}

/// Half the longer side of the grid, in thousandths of a cell.
pub fn reference_radius(width: usize, height: usize) -> (r: i64)
    requires
        spec_valid_extent(width as int, height as int),
    ensures
        r == spec_reference_radius(width as int, height as int),
        500 <= r <= 0x2000_0000,
        -r <= -500 * width,
        -r <= -500 * height,
{
    if width >= height {
        500 * (width as i64)
    } else {
        500 * (height as i64)
    }
}

/// The angle that a draw stands for, in thousandths of a degree.
pub fn unit_angle(draw: u32) -> (angle: u32)
    ensures
        angle == spec_unit_angle(draw as int),
        angle < FULL_TURN,
{
    let d: u64 = (draw % UNIT_DRAW) as u64;
    (d * 9 / 25) as u32
}

/// Which of four equal parts of the unit interval a draw falls into.
pub fn quarter(draw: u32) -> (q: u32)
    ensures
        q == spec_quarter(draw as int),
        q < 4,
{
    let d: u64 = (draw % UNIT_DRAW) as u64;
    (d * 4 / 1_000_000) as u32
}

/// Whether the point lies on the grid.
pub fn in_grid(width: usize, height: usize, p: Position) -> (inside: bool)
    requires
        spec_valid_extent(width as int, height as int),
    ensures
        inside == spec_in_grid(width as int, height as int, p),
{
    0 <= p.x && p.x < 1000 * (width as i64) && 0 <= p.y && p.y < 1000 * (height as i64)
}

/// Distance of a point of the grid from the centre of the grid.
pub fn center_distance(width: usize, height: usize, p: Position) -> (d: u64)
    requires
        spec_valid_extent(width as int, height as int),
        spec_in_grid(width as int, height as int, p),
    ensures
        d == spec_center_distance(width as int, height as int, p),
        d <= 0xB504_F334,
{
    distance(p.x - 500 * (width as i64), p.y - 500 * (height as i64))
}

/// Distance of the corner of cell `(x, y)` from the centre of the grid.
pub fn cell_distance(width: usize, height: usize, x: usize, y: usize) -> (d: u64)
    requires
        spec_valid_extent(width as int, height as int),
        x < width,
        y < height,
    ensures
        d == spec_cell_distance(width as int, height as int, x as int, y as int),
        d <= 0xB504_F334,
{
    distance(
        1000 * (x as i64) - 500 * (width as i64),
        1000 * (y as i64) - 500 * (height as i64),
    )
}

/// The point of the grid nearest to `p`.
pub fn clamp_to_grid(width: usize, height: usize, p: Position) -> (q: Position)
    requires
        spec_valid_extent(width as int, height as int),
    ensures
        q == spec_clamp_to_grid(width as int, height as int, p),
        spec_in_grid(width as int, height as int, q),
        spec_in_grid(width as int, height as int, p) ==> q == p,
{
    let right: i64 = 1000 * (width as i64) - 1;
    let bottom: i64 = 1000 * (height as i64) - 1;
    let x: i64 = if p.x < 0 {
        0
    } else if p.x > right {
        right
    } else {
        p.x
    };
    let y: i64 = if p.y < 0 {
        0
    } else if p.y > bottom {
        bottom
    } else {
        p.y
    };
    Position { x, y }
}

/// The point at `radius` from the centre of the grid in direction `angle`.
pub fn ring_point(width: usize, height: usize, radius: u64, angle: u32) -> (p: Position)
    requires
        spec_valid_extent(width as int, height as int),
        radius <= 0x1_0000_0000,
    ensures
        p == spec_ring_point(width as int, height as int, radius as int, angle as int),
{
    let r: i64 = radius as i64;
    let dx: i64 = scale(r, cos_milli(angle), 1000);
    let dy: i64 = scale(r, sin_milli(angle), 1000);
    Position { x: 500 * (width as i64) + dx, y: 500 * (height as i64) + dy }
}

/// Where a particle starts its walk. The two draws choose the place within
/// what the release mode allows: on the ring the first is the angle; on the
/// edges the first picks the edge and the second the place along it; in the
/// corners the first picks the corner; anywhere, the first is the column
/// and the second the row.
pub fn spawn_position(
    width: usize,
    height: usize,
    max_radius: u64,
    settings: &SimulationSettings,
    a: u32,
    b: u32,
) -> (p: Position)
    requires
        spec_valid_extent(width as int, height as int),
        max_radius <= RADIUS_LIMIT,
        settings.in_range(),
    ensures
        p == spec_spawn_position(
            width as int,
            height as int,
            max_radius as int,
            *settings,
            a as int,
            b as int,
        ),
        spec_in_grid(width as int, height as int, p),
{
    let w: i64 = 1000 * (width as i64);
    let h: i64 = 1000 * (height as i64);
    let ua: i64 = (a % UNIT_DRAW) as i64;
    let ub: i64 = (b % UNIT_DRAW) as i64;
    let q: u32 = quarter(a);
    let release: Position = match settings.spawn_mode {
        SpawnMode::Circle => ring_point(
            width,
            height,
            spawn_radius(max_radius, settings),
            unit_angle(a),
        ),
        SpawnMode::Edges => {
            if q == 0 {
                Position { x: scale(w, ub, 1_000_000), y: 0 }
            } else if q == 1 {
                Position { x: scale(w, ub, 1_000_000), y: h - 1 }
            } else if q == 2 {
                Position { x: 0, y: scale(h, ub, 1_000_000) }
            } else {
                Position { x: w - 1, y: scale(h, ub, 1_000_000) }
            }
        },
        SpawnMode::Corners => Position {
            x: if q == 1 || q == 3 {
                w - 1
            } else {
                0
            },
            y: if q >= 2 {
                h - 1
            } else {
                0
            },
        },
        SpawnMode::Random => Position {
            x: scale(w, ua, 1_000_000),
            y: scale(h, ub, 1_000_000),
        },
        SpawnMode::Directional => {
            let arc: i64 = scale(90_000, ua, 1_000_000);
            let angle: u32 = settings.walk_bias_angle * 1000 + 135_000 + (arc as u32);
            ring_point(width, height, spawn_radius(max_radius, settings), angle)
        },
    };
    clamp_to_grid(width, height, release)
}

/// Length of one step for a particle `gap` away from the cluster.
pub fn step_length(settings: &SimulationSettings, gap: u64) -> (step: i64)
    requires
        settings.in_range(),
        gap <= 0x1_0000_0000,
    ensures
        step == spec_step_length(*settings, gap as int),
        settings.walk_step_size <= step <= 0x1_0000_0000,
{
    let share: i64 = scale(gap as i64, settings.adaptive_step_factor as i64, 1000);
    if settings.adaptive_step && share > settings.walk_step_size as i64 {
        share
    } else {
        settings.walk_step_size as i64
    }
}

/// The direction of a step, in thousandths.
pub fn direction(settings: &SimulationSettings, heading: u32) -> (unit: (i64, i64))
    ensures
        (unit.0 as int, unit.1 as int) == spec_direction(*settings, heading as int),
        -1000 <= unit.0 <= 1000,
        -1000 <= unit.1 <= 1000,
{
    if settings.lattice_walk {
        let h: u32 = heading % FULL_TURN;
        let k: u32 = match settings.neighborhood {
            Neighborhood::VonNeumann => (((h + 45_000) / 90_000) % 4) * 2,
            _ => ((h + 22_500) / 45_000) % 8,
        };
        let x: i64 = if k == 0 || k == 1 || k == 7 {
            1000
        } else if k == 3 || k == 4 || k == 5 {
            -1000
        } else {
            0
        };
        let y: i64 = if k == 1 || k == 2 || k == 3 {
            1000
        } else if k == 5 || k == 6 || k == 7 {
            -1000
        } else {
            0
        };
        (x, y)
    } else {
        (cos_milli(heading), sin_milli(heading))
    }
}

/// One component of a step.
fn component(
    settings: &SimulationSettings,
    step: i64,
    unit: i64,
    bias_unit: i64,
    offset: i64,
    reference: i64,
) -> (d: i64)
    requires
        settings.in_range(),
        0 <= step <= 0x1_0000_0000,
        -1000 <= unit <= 1000,
        -1000 <= bias_unit <= 1000,
        0 < reference <= 0x4000_0000,
        -reference <= offset <= reference,
    ensures
        d == spec_component(
            *settings,
            step as int,
            unit as int,
            bias_unit as int,
            offset as int,
            reference as int,
        ),
        -3 * step <= d <= 3 * step,
{
    let along: i64 = scale(step, unit, 1000);
    let pull: i64 = scale(scale(step, settings.walk_bias_strength as i64, 1000), bias_unit, 1000);
    let drift: i64 = scale(scale(step, settings.radial_bias as i64, 1000), offset, reference);
    along + pull + drift
}

/// Where one step carries a particle that stands at `walker`, before the
/// edge of the grid is looked at. The draw chooses the heading.
pub fn propose_move(
    width: usize,
    height: usize,
    max_radius: u64,
    settings: &SimulationSettings,
    walker: Position,
    heading_draw: u32,
) -> (p: Position)
    requires
        spec_valid_extent(width as int, height as int),
        spec_in_grid(width as int, height as int, walker),
        settings.in_range(),
    ensures
        p == spec_moved(
            width as int,
            height as int,
            max_radius as int,
            *settings,
            walker,
            heading_draw as int,
        ),
{
    let dist: u64 = center_distance(width, height, walker);
    let gap: u64 = if dist > max_radius {
        dist - max_radius
    } else {
        0
    };
    let step: i64 = step_length(settings, gap);
    let unit: (i64, i64) = direction(settings, unit_angle(heading_draw));
    let bias: u32 = settings.walk_bias_angle * 1000;
    let reference: i64 = reference_radius(width, height);
    let dx: i64 = component(
        settings,
        step,
        unit.0,
        cos_milli(bias),
        walker.x - 500 * (width as i64),
        reference,
    );
    let dy: i64 = component(
        settings,
        step,
        unit.1,
        sin_milli(bias),
        walker.y - 500 * (height as i64),
        reference,
    );
    Position { x: walker.x + dx, y: walker.y + dy }
}

/// A coordinate mirrored at the edge it crossed.
fn bounce(v: i64, extent: i64) -> (r: i64)
    requires
        0 < extent <= 0x4000_0000,
    ensures
        r == spec_bounce(v as int, extent as int),
        0 <= r < extent,
{
    if v < 0 {
        if v <= -(extent - 1) {
            extent - 1
        } else {
            -v
        }
    } else if v >= extent {
        let mirrored: i64 = 2 * (extent - 1) - v;
        if mirrored < 0 {
            0
        } else {
            mirrored
        }
    } else {
        v
    }
}

/// What the edge of the grid makes of a particle that a step carried to
/// `p`.
pub fn apply_boundary(
    width: usize,
    height: usize,
    behavior: BoundaryBehavior,
    p: Position,
) -> (outcome: BoundaryOutcome)
    requires
        spec_valid_extent(width as int, height as int),
    ensures
        outcome == spec_apply_boundary(width as int, height as int, behavior, p),
        match outcome {
            BoundaryOutcome::Inside(q) => spec_in_grid(width as int, height as int, q),
            BoundaryOutcome::Stuck(q) => spec_in_grid(width as int, height as int, q),
            BoundaryOutcome::Absorbed => true,
        },
{
    let w: i64 = 1000 * (width as i64);
    let h: i64 = 1000 * (height as i64);
    if 0 <= p.x && p.x < w && 0 <= p.y && p.y < h {
        BoundaryOutcome::Inside(p)
    } else {
        match behavior {
            BoundaryBehavior::Clamp => BoundaryOutcome::Inside(clamp_to_grid(width, height, p)),
            BoundaryBehavior::Wrap => BoundaryOutcome::Inside(
                Position { x: wrap(p.x, w), y: wrap(p.y, h) },
            ),
            BoundaryBehavior::Bounce => BoundaryOutcome::Inside(
                Position { x: bounce(p.x, w), y: bounce(p.y, h) },
            ),
            BoundaryBehavior::Stick => BoundaryOutcome::Stuck(clamp_to_grid(width, height, p)),
            BoundaryBehavior::Absorb => BoundaryOutcome::Absorbed,
        }
    }
}

/// Whether a particle at `dist` from the centre is beyond reach.
pub fn has_escaped(dist: u64, spawn_radius: u64, multiplier: u32) -> (gone: bool)
    ensures
        gone == spec_has_escaped(dist as int, spawn_radius as int, multiplier as int),
{
    assert(spawn_radius * multiplier <= 0xFFFF_FFFF_FFFF_FFFF * 0xFFFF_FFFF) by (nonlinear_arith)
        requires
            0 <= spawn_radius <= 0xFFFF_FFFF_FFFF_FFFF,
            0 <= multiplier <= 0xFFFF_FFFF,
    ;
    let reach: u128 = (spawn_radius as u128) * (multiplier as u128);
    (dist as u128) * 1000 > reach
}

/// A particle that leaves the grid through its right edge by less than the
/// width of the grid comes back in, under `Wrap`, exactly one grid width to
/// the left, and keeps its row.
pub proof fn lemma_wrap_right_edge(width: int, height: int, p: Position)
    requires
        spec_valid_extent(width, height),
        1000 * width <= p.x < 2000 * width,
        0 <= p.y < 1000 * height,
    ensures
        spec_apply_boundary(width, height, BoundaryBehavior::Wrap, p) == BoundaryOutcome::Inside(
            Position { x: (p.x - 1000 * width) as i64, y: p.y },
        ),
{
    let w = 1000 * width;
    vstd::arithmetic::div_mod::lemma_fundamental_div_mod_converse(p.x as int, w, 1, p.x - w);
    vstd::arithmetic::div_mod::lemma_small_mod(p.y as nat, (1000 * height) as nat);
}

/// Under `Wrap` a particle always comes back onto the grid, at the point
/// whose coordinates are the remainders of its own by the sides of the grid.
pub proof fn lemma_wrap_stays_inside(width: int, height: int, p: Position)
    requires
        spec_valid_extent(width, height),
    ensures
        spec_apply_boundary(width, height, BoundaryBehavior::Wrap, p) == BoundaryOutcome::Inside(
            Position { x: ((p.x as int) % (1000 * width)) as i64, y: ((p.y as int) % (1000 * height)) as i64 },
        ),
        0 <= (p.x as int) % (1000 * width) < 1000 * width,
        0 <= (p.y as int) % (1000 * height) < 1000 * height,
{
    vstd::arithmetic::div_mod::lemma_mod_bound(p.x as int, 1000 * width);
    vstd::arithmetic::div_mod::lemma_mod_bound(p.y as int, 1000 * height);
    if spec_in_grid(width, height, p) {
        vstd::arithmetic::div_mod::lemma_small_mod(p.x as nat, (1000 * width) as nat);
        vstd::arithmetic::div_mod::lemma_small_mod(p.y as nat, (1000 * height) as nat);
    }
}

} // verus!
