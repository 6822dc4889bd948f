//! The configuration record of a run: how particles are released, how they
//! walk, where they may stick and what happens at the edge of the grid.
//! Real quantities are counted in thousandths; lengths in thousandths of a
//! cell.

use vstd::prelude::*;

verus! {

/// `v` brought into `[lo, hi]`.
pub open spec fn spec_clamp(v: int, lo: int, hi: int) -> int {
    if v < lo {
        lo
    } else if v > hi {
        hi
    } else {
        v
    }
}

/// `value + delta`, brought into `[lo, hi]`.
pub fn adjust_u32(value: u32, delta: i32, lo: u32, hi: u32) -> (r: u32)
    requires
        lo <= hi,
    ensures
        r == spec_clamp(value + delta, lo as int, hi as int),
        lo <= r <= hi,
{
    let sum: i64 = value as i64 + delta as i64;
    if sum < lo as i64 {
        lo
    } else if sum > hi as i64 {
        hi
    } else {
        sum as u32
    }
}

/// `value + delta`, brought into `[lo, hi]`.
pub fn adjust_i32(value: i32, delta: i32, lo: i32, hi: i32) -> (r: i32)
    requires
        lo <= hi,
    ensures
        r == spec_clamp(value + delta, lo as int, hi as int),
        lo <= r <= hi,
{
    let sum: i64 = value as i64 + delta as i64;
    if sum < lo as i64 {
        lo
    } else if sum > hi as i64 {
        hi
    } else {
        sum as i32
    }
}

/// Which surrounding cells count as adjacent when a particle looks for the
/// cluster.
#[derive(Clone, Copy, Debug, PartialEq, Eq, Structural)]
pub enum Neighborhood {
    /// The four cells that share an edge.
    VonNeumann,
    /// The eight cells that share an edge or a corner.
    Moore,
    /// The twenty-four cells at most two steps away along either axis.
    Extended,
}

impl Default for Neighborhood {
    /// Eight neighbours.
    fn default() -> (d: Neighborhood)
        ensures
            d == Neighborhood::Moore,
    {
        Neighborhood::Moore
    }
}

impl Neighborhood {
    pub open spec fn spec_name(&self) -> Seq<char> {
        match self {
            Neighborhood::VonNeumann => "Von Neumann"@,
            Neighborhood::Moore => "Moore"@,
            Neighborhood::Extended => "Extended"@,
        }
    }

    pub open spec fn spec_short_name(&self) -> Seq<char> {
        match self {
            Neighborhood::VonNeumann => "VonNeu"@,
            Neighborhood::Moore => "Moore"@,
            Neighborhood::Extended => "Extend"@,
        }
    }

    pub open spec fn spec_next(&self) -> Neighborhood {
        match self {
            Neighborhood::VonNeumann => Neighborhood::Moore,
            Neighborhood::Moore => Neighborhood::Extended,
            Neighborhood::Extended => Neighborhood::VonNeumann,
        }
    }

    pub open spec fn spec_prev(&self) -> Neighborhood {
        match self {
            Neighborhood::VonNeumann => Neighborhood::Extended,
            Neighborhood::Moore => Neighborhood::VonNeumann,
            Neighborhood::Extended => Neighborhood::Moore,
        }
    }

    /// How far, along each axis, the neighbourhood reaches.
    pub open spec fn spec_reach(&self) -> int {
        match self {
            Neighborhood::VonNeumann => 1,
            Neighborhood::Moore => 1,
            Neighborhood::Extended => 2,
        }
    }

    /// Whether the cell displaced by `(dx, dy)` belongs to the neighbourhood.
    pub open spec fn spec_contains(&self, dx: int, dy: int) -> bool {
        &&& !(dx == 0 && dy == 0)
        &&& -self.spec_reach() <= dx <= self.spec_reach()
        &&& -self.spec_reach() <= dy <= self.spec_reach()
        &&& (*self == Neighborhood::VonNeumann ==> dx == 0 || dy == 0)
    }

    pub fn name(&self) -> (s: &'static str)
        ensures
            s@ == self.spec_name(),
    {
        match self {
            Neighborhood::VonNeumann => "Von Neumann",
            Neighborhood::Moore => "Moore",
            Neighborhood::Extended => "Extended",
        }
    }

    pub fn short_name(&self) -> (s: &'static str)
        ensures
            s@ == self.spec_short_name(),
    {
        match self {
            Neighborhood::VonNeumann => "VonNeu",
            Neighborhood::Moore => "Moore",
            Neighborhood::Extended => "Extend",
        }
    }

    pub fn next(&self) -> (n: Neighborhood)
        ensures
            n == self.spec_next(),
    {
        match self {
            Neighborhood::VonNeumann => Neighborhood::Moore,
            Neighborhood::Moore => Neighborhood::Extended,
            Neighborhood::Extended => Neighborhood::VonNeumann,
        }
    }

    pub fn prev(&self) -> (n: Neighborhood)
        ensures
            n == self.spec_prev(),
    {
        match self {
            Neighborhood::VonNeumann => Neighborhood::Extended,
            Neighborhood::Moore => Neighborhood::VonNeumann,
            Neighborhood::Extended => Neighborhood::Moore,
        }
    }

    /// How far, along each axis, the neighbourhood reaches.
    pub fn reach(&self) -> (r: i64)
        ensures
            r == self.spec_reach(),
    {
        match self {
            Neighborhood::VonNeumann => 1,
            Neighborhood::Moore => 1,
            Neighborhood::Extended => 2,
        }
    }

    /// Whether the cell displaced by `(dx, dy)` belongs to the neighbourhood.
    pub fn contains(&self, dx: i64, dy: i64) -> (b: bool)
        ensures
            b == self.spec_contains(dx as int, dy as int),
    {
        let r: i64 = self.reach();
        if dx == 0 && dy == 0 {
            false
        } else if dx < -r || dx > r || dy < -r || dy > r {
            false
        } else {
            match self {
                Neighborhood::VonNeumann => dx == 0 || dy == 0,
                _ => true,
            }
        }
    }
}

/// Where a new particle is released.
#[derive(Clone, Copy, Debug, PartialEq, Eq, Structural)]
pub enum SpawnMode {
    /// On a ring around the cluster.
    Circle,
    /// On one of the four edges of the grid.
    Edges,
    /// In one of the four corners of the grid.
    Corners,
    /// Anywhere on the grid.
    Random,
    /// On the arc of the ring that faces against the walk bias.
    Directional,
}

impl Default for SpawnMode {
    /// Release on the ring.
    fn default() -> (d: SpawnMode)
        ensures
            d == SpawnMode::Circle,
    {
        SpawnMode::Circle
    }
}

impl SpawnMode {
    pub open spec fn spec_name(&self) -> Seq<char> {
        match self {
            SpawnMode::Circle => "Circle"@,
            SpawnMode::Edges => "Edges"@,
            SpawnMode::Corners => "Corners"@,
            SpawnMode::Random => "Random"@,
            SpawnMode::Directional => "Directional"@,
        }
    }

    pub open spec fn spec_next(&self) -> SpawnMode {
        match self {
            SpawnMode::Circle => SpawnMode::Edges,
            SpawnMode::Edges => SpawnMode::Corners,
            SpawnMode::Corners => SpawnMode::Random,
            SpawnMode::Random => SpawnMode::Directional,
            SpawnMode::Directional => SpawnMode::Circle,
        }
    }

    pub open spec fn spec_prev(&self) -> SpawnMode {
        match self {
            SpawnMode::Circle => SpawnMode::Directional,
            SpawnMode::Edges => SpawnMode::Circle,
            SpawnMode::Corners => SpawnMode::Edges,
            SpawnMode::Random => SpawnMode::Corners,
            SpawnMode::Directional => SpawnMode::Random,
        }
    }

    pub fn name(&self) -> (s: &'static str)
        ensures
            s@ == self.spec_name(),
    {
        match self {
            SpawnMode::Circle => "Circle",
            SpawnMode::Edges => "Edges",
            SpawnMode::Corners => "Corners",
            SpawnMode::Random => "Random",
            SpawnMode::Directional => "Directional",
        }
    }

    pub fn next(&self) -> (n: SpawnMode)
        ensures
            n == self.spec_next(),
    {
        match self {
            SpawnMode::Circle => SpawnMode::Edges,
            SpawnMode::Edges => SpawnMode::Corners,
            SpawnMode::Corners => SpawnMode::Random,
            SpawnMode::Random => SpawnMode::Directional,
            SpawnMode::Directional => SpawnMode::Circle,
        }
    }

    pub fn prev(&self) -> (n: SpawnMode)
        ensures
            n == self.spec_prev(),
    {
        match self {
            SpawnMode::Circle => SpawnMode::Directional,
            SpawnMode::Edges => SpawnMode::Circle,
            SpawnMode::Corners => SpawnMode::Edges,
            SpawnMode::Random => SpawnMode::Corners,
            SpawnMode::Directional => SpawnMode::Random,
        }
    }
}

/// What happens to a particle whose step carries it off the grid.
#[derive(Clone, Copy, Debug, PartialEq, Eq, Structural)]
pub enum BoundaryBehavior {
    /// It is put back on the nearest cell of the grid.
    Clamp,
    /// It comes back in at the opposite edge.
    Wrap,
    /// The offending component is mirrored at the edge.
    Bounce,
    /// It attaches where it hit the edge.
    Stick,
    /// It is discarded.
    Absorb,
}

impl Default for BoundaryBehavior {
    /// Particles are kept on the grid.
    fn default() -> (d: BoundaryBehavior)
        ensures
            d == BoundaryBehavior::Clamp,
    {
        BoundaryBehavior::Clamp
    }
}

impl BoundaryBehavior {
    pub open spec fn spec_name(&self) -> Seq<char> {
        match self {
            BoundaryBehavior::Clamp => "Clamp"@,
            BoundaryBehavior::Wrap => "Wrap"@,
            BoundaryBehavior::Bounce => "Bounce"@,
            BoundaryBehavior::Stick => "Stick"@,
            BoundaryBehavior::Absorb => "Absorb"@,
        }
    }

    pub open spec fn spec_next(&self) -> BoundaryBehavior {
        match self {
            BoundaryBehavior::Clamp => BoundaryBehavior::Wrap,
            BoundaryBehavior::Wrap => BoundaryBehavior::Bounce,
            BoundaryBehavior::Bounce => BoundaryBehavior::Stick,
            BoundaryBehavior::Stick => BoundaryBehavior::Absorb,
            BoundaryBehavior::Absorb => BoundaryBehavior::Clamp,
        }
    }

    pub open spec fn spec_prev(&self) -> BoundaryBehavior {
        match self {
            BoundaryBehavior::Clamp => BoundaryBehavior::Absorb,
            BoundaryBehavior::Wrap => BoundaryBehavior::Clamp,
            BoundaryBehavior::Bounce => BoundaryBehavior::Wrap,
            BoundaryBehavior::Stick => BoundaryBehavior::Bounce,
            BoundaryBehavior::Absorb => BoundaryBehavior::Stick,
        }
    }

    pub fn name(&self) -> (s: &'static str)
        ensures
            s@ == self.spec_name(),
    {
        match self {
            BoundaryBehavior::Clamp => "Clamp",
            BoundaryBehavior::Wrap => "Wrap",
            BoundaryBehavior::Bounce => "Bounce",
            BoundaryBehavior::Stick => "Stick",
            BoundaryBehavior::Absorb => "Absorb",
        }
    }

    pub fn next(&self) -> (n: BoundaryBehavior)
        ensures
            n == self.spec_next(),
    {
        match self {
            BoundaryBehavior::Clamp => BoundaryBehavior::Wrap,
            BoundaryBehavior::Wrap => BoundaryBehavior::Bounce,
            BoundaryBehavior::Bounce => BoundaryBehavior::Stick,
            BoundaryBehavior::Stick => BoundaryBehavior::Absorb,
            BoundaryBehavior::Absorb => BoundaryBehavior::Clamp,
        }
    }

    pub fn prev(&self) -> (n: BoundaryBehavior)
        ensures
            n == self.spec_prev(),
    {
        match self {
            BoundaryBehavior::Clamp => BoundaryBehavior::Absorb,
            BoundaryBehavior::Wrap => BoundaryBehavior::Clamp,
            BoundaryBehavior::Bounce => BoundaryBehavior::Wrap,
            BoundaryBehavior::Stick => BoundaryBehavior::Bounce,
            BoundaryBehavior::Absorb => BoundaryBehavior::Stick,
        }
    }
}

/// Fewest and most particles a run may aim for.
pub const MIN_PARTICLES: usize = 100;

pub const MAX_PARTICLES: usize = 10000;

/// Bounds of the base sticking probability, in thousandths.
pub const MIN_STICKINESS: u32 = 100;

pub const MAX_STICKINESS: u32 = 1000;

/// Bounds of the length of one walk step, in thousandths of a cell.
pub const MIN_WALK_STEP: u32 = 500;

pub const MAX_WALK_STEP: u32 = 5000;

/// Bounds of the share of the distance to the cluster that an adaptive step
/// covers, in thousandths.
pub const MIN_ADAPTIVE_FACTOR: u32 = 100;

pub const MAX_ADAPTIVE_FACTOR: u32 = 1000;

/// Largest walk-bias angle, in degrees.
pub const MAX_BIAS_ANGLE: u32 = 360;

/// Largest walk-bias strength, in thousandths.
pub const MAX_BIAS_STRENGTH: u32 = 500;

/// Largest magnitude of the radial bias, in thousandths.
pub const MAX_RADIAL_BIAS: i32 = 300;

/// Bounds of the number of occupied neighbours that sticking asks for.
pub const MIN_CONTACTS: u32 = 1;

pub const MAX_CONTACTS: u32 = 4;

/// Bounds of the tip and side multipliers, in thousandths.
pub const MIN_SHAPE_STICKINESS: u32 = 100;

pub const MAX_SHAPE_STICKINESS: u32 = 3000;

/// Largest magnitude of the stickiness gradient, in thousandths.
pub const MAX_STICKINESS_GRADIENT: i32 = 1000;

/// Bounds of the gap between cluster and release ring, in thousandths of a
/// cell.
pub const MIN_SPAWN_OFFSET: u32 = 5_000;

pub const MAX_SPAWN_OFFSET: u32 = 50_000;

/// Bounds of the smallest release radius, in thousandths of a cell.
pub const MIN_SPAWN_RADIUS_FLOOR: u32 = 20_000;

pub const MAX_SPAWN_RADIUS_FLOOR: u32 = 200_000;

/// Bounds of the escape multiplier, in thousandths.
pub const MIN_ESCAPE_MULTIPLIER: u32 = 1_500;

pub const MAX_ESCAPE_MULTIPLIER: u32 = 5_000;

/// Bounds of the number of walk steps granted to one particle.
pub const MIN_WALK_ITERATIONS: u32 = 1_000;

pub const MAX_WALK_ITERATIONS: u32 = 50_000;

/// The physics of a run.
#[derive(Clone, Copy, Debug, PartialEq, Eq, Structural)]
pub struct SimulationSettings {
    /// Length of one walk step, in thousandths of a cell.
    pub walk_step_size: u32,
    /// Whether steps lengthen with the distance to the cluster.
    pub adaptive_step: bool,
    /// Share of the distance to the cluster that an adaptive step covers, in
    /// thousandths.
    pub adaptive_step_factor: u32,
    /// Direction of the walk bias, in degrees.
    pub walk_bias_angle: u32,
    /// Strength of the walk bias, in thousandths of the step length.
    pub walk_bias_strength: u32,
    /// Drift away from the centre (positive) or toward it (negative), in
    /// thousandths.
    pub radial_bias: i32,
    /// Whether steps follow the lattice directions only.
    pub lattice_walk: bool,
    /// Which cells count as adjacent.
    pub neighborhood: Neighborhood,
    /// Fewest occupied neighbours for sticking to be considered.
    pub multi_contact_min: u32,
    /// Multiplier of the sticking probability at a tip, in thousandths.
    pub tip_stickiness: u32,
    /// Multiplier of the sticking probability at a side, in thousandths.
    pub side_stickiness: u32,
    /// Growth (positive) or decay (negative) of the sticking probability
    /// with the distance from the centre, in thousandths.
    pub stickiness_gradient: i32,
    /// Where particles are released.
    pub spawn_mode: SpawnMode,
    /// Gap between the cluster and the release ring, in thousandths of a
    /// cell.
    pub spawn_radius_offset: u32,
    /// Smallest radius of the release ring, in thousandths of a cell.
    pub min_spawn_radius: u32,
    /// How many release radii from the centre a particle is given up, in
    /// thousandths.
    pub escape_multiplier: u32,
    /// Most walk steps granted to one particle.
    pub max_walk_iterations: u32,
    /// What happens at the edge of the grid.
    pub boundary_behavior: BoundaryBehavior,
}

impl Default for SimulationSettings {
    /// The settings of a plain run.
    fn default() -> (s: SimulationSettings)
        ensures
            s == SimulationSettings::spec_standard(),
    {
        SimulationSettings::standard()
    }
}

impl SimulationSettings {
    /// Every bounded field lies within its bounds.
    pub open spec fn in_range(&self) -> bool {
        &&& MIN_WALK_STEP <= self.walk_step_size <= MAX_WALK_STEP
        &&& MIN_ADAPTIVE_FACTOR <= self.adaptive_step_factor <= MAX_ADAPTIVE_FACTOR
        &&& self.walk_bias_angle <= MAX_BIAS_ANGLE
        &&& self.walk_bias_strength <= MAX_BIAS_STRENGTH
        &&& -MAX_RADIAL_BIAS <= self.radial_bias <= MAX_RADIAL_BIAS
        &&& MIN_CONTACTS <= self.multi_contact_min <= MAX_CONTACTS
        &&& MIN_SHAPE_STICKINESS <= self.tip_stickiness <= MAX_SHAPE_STICKINESS
        &&& MIN_SHAPE_STICKINESS <= self.side_stickiness <= MAX_SHAPE_STICKINESS
        &&& -MAX_STICKINESS_GRADIENT <= self.stickiness_gradient <= MAX_STICKINESS_GRADIENT
        &&& MIN_SPAWN_OFFSET <= self.spawn_radius_offset <= MAX_SPAWN_OFFSET
        &&& MIN_SPAWN_RADIUS_FLOOR <= self.min_spawn_radius <= MAX_SPAWN_RADIUS_FLOOR
        &&& MIN_ESCAPE_MULTIPLIER <= self.escape_multiplier <= MAX_ESCAPE_MULTIPLIER
        &&& MIN_WALK_ITERATIONS <= self.max_walk_iterations <= MAX_WALK_ITERATIONS
    }

    /// The settings of a plain run: unbiased steps of two cells, release on
    /// a ring, eight neighbours, particles kept on the grid.
    pub open spec fn spec_standard() -> SimulationSettings {
        SimulationSettings {
            walk_step_size: 2000,
            adaptive_step: false,
            adaptive_step_factor: 500,
            walk_bias_angle: 0,
            walk_bias_strength: 0,
            radial_bias: 0,
            lattice_walk: false,
            neighborhood: Neighborhood::Moore,
            multi_contact_min: 1,
            tip_stickiness: 1000,
            side_stickiness: 1000,
            stickiness_gradient: 0,
            spawn_mode: SpawnMode::Circle,
            spawn_radius_offset: 10_000,
            min_spawn_radius: 50_000,
            escape_multiplier: 2000,
            max_walk_iterations: 10_000,
            boundary_behavior: BoundaryBehavior::Clamp,
        }
    }

    /// These settings with every bounded field brought into its bounds.
    pub open spec fn spec_clamped(&self) -> SimulationSettings {
        SimulationSettings {
            walk_step_size: spec_clamp(
                self.walk_step_size as int,
                MIN_WALK_STEP as int,
                MAX_WALK_STEP as int,
            ) as u32,
            adaptive_step_factor: spec_clamp(
                self.adaptive_step_factor as int,
                MIN_ADAPTIVE_FACTOR as int,
                MAX_ADAPTIVE_FACTOR as int,
            ) as u32,
            walk_bias_angle: spec_clamp(self.walk_bias_angle as int, 0, MAX_BIAS_ANGLE as int) as u32,
            walk_bias_strength: spec_clamp(
                self.walk_bias_strength as int,
                0,
                MAX_BIAS_STRENGTH as int,
            ) as u32,
            radial_bias: spec_clamp(
                self.radial_bias as int,
                -MAX_RADIAL_BIAS as int,
                MAX_RADIAL_BIAS as int,
            ) as i32,
            multi_contact_min: spec_clamp(
                self.multi_contact_min as int,
                MIN_CONTACTS as int,
                MAX_CONTACTS as int,
            ) as u32,
            tip_stickiness: spec_clamp(
                self.tip_stickiness as int,
                MIN_SHAPE_STICKINESS as int,
                MAX_SHAPE_STICKINESS as int,
            ) as u32,
            side_stickiness: spec_clamp(
                self.side_stickiness as int,
                MIN_SHAPE_STICKINESS as int,
                MAX_SHAPE_STICKINESS as int,
            ) as u32,
            stickiness_gradient: spec_clamp(
                self.stickiness_gradient as int,
                -MAX_STICKINESS_GRADIENT as int,
                MAX_STICKINESS_GRADIENT as int,
            ) as i32,
            spawn_radius_offset: spec_clamp(
                self.spawn_radius_offset as int,
                MIN_SPAWN_OFFSET as int,
                MAX_SPAWN_OFFSET as int,
            ) as u32,
            min_spawn_radius: spec_clamp(
                self.min_spawn_radius as int,
                MIN_SPAWN_RADIUS_FLOOR as int,
                MAX_SPAWN_RADIUS_FLOOR as int,
            ) as u32,
            escape_multiplier: spec_clamp(
                self.escape_multiplier as int,
                MIN_ESCAPE_MULTIPLIER as int,
                MAX_ESCAPE_MULTIPLIER as int,
            ) as u32,
            max_walk_iterations: spec_clamp(
                self.max_walk_iterations as int,
                MIN_WALK_ITERATIONS as int,
                MAX_WALK_ITERATIONS as int,
            ) as u32,
            ..*self
        }
    }

    /// The settings of a plain run.
    pub fn standard() -> (s: SimulationSettings)
        ensures
            s == Self::spec_standard(),
            s.in_range(),
    {
        SimulationSettings {
            walk_step_size: 2000,
            adaptive_step: false,
            adaptive_step_factor: 500,
            walk_bias_angle: 0,
            walk_bias_strength: 0,
            radial_bias: 0,
            lattice_walk: false,
            neighborhood: Neighborhood::Moore,
            multi_contact_min: 1,
            tip_stickiness: 1000,
            side_stickiness: 1000,
            stickiness_gradient: 0,
            spawn_mode: SpawnMode::Circle,
            spawn_radius_offset: 10_000,
            min_spawn_radius: 50_000,
            escape_multiplier: 2000,
            max_walk_iterations: 10_000,
            boundary_behavior: BoundaryBehavior::Clamp,
        }
    }

    /// These settings with every bounded field brought into its bounds;
    /// settings already in range come back unchanged.
    pub fn clamped(&self) -> (s: SimulationSettings)
        ensures
            s == self.spec_clamped(),
            s.in_range(),
            self.in_range() ==> s == *self,
    {
        SimulationSettings {
            walk_step_size: adjust_u32(self.walk_step_size, 0, MIN_WALK_STEP, MAX_WALK_STEP),
            adaptive_step: self.adaptive_step,
            adaptive_step_factor: adjust_u32(
                self.adaptive_step_factor,
                0,
                MIN_ADAPTIVE_FACTOR,
                MAX_ADAPTIVE_FACTOR,
            ),
            walk_bias_angle: adjust_u32(self.walk_bias_angle, 0, 0, MAX_BIAS_ANGLE),
            walk_bias_strength: adjust_u32(self.walk_bias_strength, 0, 0, MAX_BIAS_STRENGTH),
            radial_bias: adjust_i32(self.radial_bias, 0, -MAX_RADIAL_BIAS, MAX_RADIAL_BIAS),
            lattice_walk: self.lattice_walk,
            neighborhood: self.neighborhood,
            multi_contact_min: adjust_u32(self.multi_contact_min, 0, MIN_CONTACTS, MAX_CONTACTS),
            tip_stickiness: adjust_u32(
                self.tip_stickiness,
                0,
                MIN_SHAPE_STICKINESS,
                MAX_SHAPE_STICKINESS,
            ),
            side_stickiness: adjust_u32(
                self.side_stickiness,
                0,
                MIN_SHAPE_STICKINESS,
                MAX_SHAPE_STICKINESS,
            ),
            stickiness_gradient: adjust_i32(
                self.stickiness_gradient,
                0,
                -MAX_STICKINESS_GRADIENT,
                MAX_STICKINESS_GRADIENT,
            ),
            spawn_mode: self.spawn_mode,
            spawn_radius_offset: adjust_u32(
                self.spawn_radius_offset,
                0,
                MIN_SPAWN_OFFSET,
                MAX_SPAWN_OFFSET,
            ),
            min_spawn_radius: adjust_u32(
                self.min_spawn_radius,
                0,
                MIN_SPAWN_RADIUS_FLOOR,
                MAX_SPAWN_RADIUS_FLOOR,
            ),
            escape_multiplier: adjust_u32(
                self.escape_multiplier,
                0,
                MIN_ESCAPE_MULTIPLIER,
                MAX_ESCAPE_MULTIPLIER,
            ),
            max_walk_iterations: adjust_u32(
                self.max_walk_iterations,
                0,
                MIN_WALK_ITERATIONS,
                MAX_WALK_ITERATIONS,
            ),
            boundary_behavior: self.boundary_behavior,
        }
    }
}

} // verus!
