//! The aggregation engine: it owns the grid, releases one particle per step,
//! walks it until it sticks or is given up, and offers the operations that
//! reset, resize and tune a run.

use crate::analysis::{fractal_dimension, spec_fractal_dimension, MIN_FRACTAL_SAMPLES};
use crate::grid::{
    cell_index, lemma_cell_index_bound, lemma_count_bound, lemma_count_empty,
    lemma_count_update, occupied_count, Grid,
};
use crate::seed::{
    lemma_cross_seed, lemma_line_seed, lemma_point_seed, seed_len, seed_point, seed_radius,
    spec_cross_count, spec_eighth, spec_line_half, spec_place, spec_seed_cells, spec_seed_len,
    spec_seed_radius, spec_seed_upto,
};
use crate::random::random_below;
use crate::settings::{
    adjust_i32, adjust_u32, spec_clamp, BoundaryBehavior, Neighborhood, SimulationSettings,
    SpawnMode, MAX_ADAPTIVE_FACTOR, MAX_BIAS_ANGLE, MAX_BIAS_STRENGTH, MAX_CONTACTS,
    MAX_ESCAPE_MULTIPLIER, MAX_PARTICLES, MAX_RADIAL_BIAS, MAX_SHAPE_STICKINESS,
    MAX_SPAWN_OFFSET, MAX_SPAWN_RADIUS_FLOOR, MAX_STICKINESS, MAX_STICKINESS_GRADIENT,
    MAX_WALK_ITERATIONS, MAX_WALK_STEP, MIN_ADAPTIVE_FACTOR, MIN_CONTACTS,
    MIN_ESCAPE_MULTIPLIER, MIN_PARTICLES, MIN_SHAPE_STICKINESS, MIN_SPAWN_OFFSET,
    MIN_SPAWN_RADIUS_FLOOR, MIN_STICKINESS, MIN_WALK_ITERATIONS, MIN_WALK_STEP,
};
use crate::sticking::{
    contact_count, spec_contacts, spec_sticking_chance, spec_sticks, sticking_chance, sticks,
};
use crate::walk::{
    apply_boundary, cell_distance, center_distance, has_escaped, propose_move, reference_radius,
    spawn_position, spawn_radius, spec_apply_boundary, spec_cell_distance,
    spec_center_distance, spec_has_escaped, spec_in_grid, spec_moved, spec_reference_radius,
    spec_spawn_position, spec_spawn_radius, spec_valid_extent, BoundaryOutcome, Position,
    RADIUS_LIMIT, UNIT_DRAW,
};
use vstd::prelude::*;

pub use crate::seed::SeedPattern;

verus! {

/// The cell that holds a point of the grid.
pub open spec fn spec_cell_of(p: Position) -> (int, int) {
    (p.x / 1000, p.y / 1000)
}

/// What one iteration of the walk decided.
#[derive(Clone, Copy, Debug, PartialEq, Eq, Structural)]
pub enum WalkEvent {
    /// The particle walks on from this point.
    Continue(Position),
    /// The particle attaches at this cell.
    Attach { x: usize, y: usize },
    /// The particle is given up.
    Discard,
}

/// A run of diffusion-limited aggregation.
pub struct DlaSimulation {
    grid: Grid,
    num_particles: usize,
    stickiness: u32,
    particles_stuck: usize,
    max_radius: u64,
    paused: bool,
    seed_pattern: SeedPattern,
    settings: SimulationSettings,
}

impl DlaSimulation {
    /// The grid.
    pub closed spec fn spec_grid(&self) -> Grid {
        self.grid
    }

    /// The cells of the grid, row by row.
    pub open spec fn spec_cells(&self) -> Seq<Option<usize>> {
        self.spec_grid()@
    }

    pub open spec fn spec_grid_width(&self) -> usize {
        self.spec_grid().spec_width()
    }

    pub open spec fn spec_grid_height(&self) -> usize {
        self.spec_grid().spec_height()
    }

    pub closed spec fn spec_num_particles(&self) -> usize {
        self.num_particles
    }

    pub closed spec fn spec_stickiness(&self) -> u32 {
        self.stickiness
    }

    pub closed spec fn spec_particles_stuck(&self) -> usize {
        self.particles_stuck
    }

    pub closed spec fn spec_max_radius(&self) -> u64 {
        self.max_radius
    }

    pub closed spec fn spec_paused(&self) -> bool {
        self.paused
    }

    pub closed spec fn spec_seed_pattern(&self) -> SeedPattern {
        self.seed_pattern
    }

    pub closed spec fn spec_settings(&self) -> SimulationSettings {
        self.settings
    }

    /// What the cell at `(x, y)` holds; nothing outside the grid.
    pub open spec fn spec_get_cell(&self, x: int, y: int) -> Option<usize> {
        self.spec_grid().spec_get(x, y)
    }

    /// Whether the run has reached its target.
    pub open spec fn spec_is_complete(&self) -> bool {
        self.spec_particles_stuck() >= self.spec_num_particles()
    }

    /// The share of the target that has stuck, in thousandths, rounded down.
    pub open spec fn spec_progress(&self) -> int {
        self.spec_particles_stuck() * 1000 / (self.spec_num_particles() as int)
    }

    /// The invariant of a run: the grid is well formed; every bounded
    /// parameter lies in its range; the number of occupied cells is the
    /// number of stuck particles; attachment orders are below that number
    /// and no two cells share one.
    pub open spec fn wf(&self) -> bool {
        &&& self.spec_grid().wf()
        &&& MIN_PARTICLES <= self.spec_num_particles() <= MAX_PARTICLES
        &&& MIN_STICKINESS <= self.spec_stickiness() <= MAX_STICKINESS
        &&& self.spec_settings().in_range()
        &&& self.spec_max_radius() <= RADIUS_LIMIT
        &&& occupied_count(self.spec_cells()) == self.spec_particles_stuck()
        &&& forall|i: int|
            0 <= i < self.spec_cells().len() && (#[trigger] self.spec_cells()[i]).is_some()
                ==> self.spec_cells()[i].unwrap() < self.spec_particles_stuck()
        &&& forall|i: int, j: int|
            0 <= i < self.spec_cells().len() && 0 <= j < self.spec_cells().len() && i != j && (
            #[trigger] self.spec_cells()[i]).is_some() && (#[trigger] self.spec_cells()[
                j
            ]).is_some() ==> self.spec_cells()[i].unwrap() != self.spec_cells()[j].unwrap()
    }

    /// The two runs have the same parameters.
    pub open spec fn same_parameters(&self, other: &DlaSimulation) -> bool {
        &&& self.spec_num_particles() == other.spec_num_particles()
        &&& self.spec_stickiness() == other.spec_stickiness()
        &&& self.spec_settings() == other.spec_settings()
    }

    /// The two runs are in the same state: same grid, same counters, same
    /// flags.
    pub open spec fn same_run(&self, other: &DlaSimulation) -> bool {
        &&& self.spec_cells() == other.spec_cells()
        &&& self.spec_grid_width() == other.spec_grid_width()
        &&& self.spec_grid_height() == other.spec_grid_height()
        &&& self.spec_particles_stuck() == other.spec_particles_stuck()
        &&& self.spec_max_radius() == other.spec_max_radius()
        &&& self.spec_paused() == other.spec_paused()
        &&& self.spec_seed_pattern() == other.spec_seed_pattern()
    }

    /// This run is `before` with one more particle, attached at the cell
    /// `(x, y)`, which was empty: the cell holds the order that was next,
    /// the count is one higher, and the radius is the larger of the old
    /// radius and the distance of the new cell from the centre.
    pub open spec fn grew_at(&self, before: &DlaSimulation, x: int, y: int) -> bool {
        let w = before.spec_grid_width() as int;
        let h = before.spec_grid_height() as int;
        let d = spec_cell_distance(w, h, x, y);
        &&& 0 <= x < w
        &&& 0 <= y < h
        &&& before.spec_cells()[cell_index(w, x, y)].is_none()
        &&& self.spec_cells() == before.spec_cells().update(
            cell_index(w, x, y),
            Some(before.spec_particles_stuck()),
        )
        &&& self.spec_particles_stuck() == before.spec_particles_stuck() + 1
        &&& self.spec_max_radius() == if d > before.spec_max_radius() {
            d
        } else {
            before.spec_max_radius() as int
        }
        &&& self.spec_grid_width() == before.spec_grid_width()
        &&& self.spec_grid_height() == before.spec_grid_height()
        &&& self.spec_paused() == before.spec_paused()
        &&& self.spec_seed_pattern() == before.spec_seed_pattern()
    }

    /// This run has just been seeded with `pattern`: the grid holds the seed
    /// and nothing else, the count is the number of seed cells, the radius
    /// is the size of the seed, and the run is not paused.
    pub open spec fn is_fresh(&self, pattern: SeedPattern) -> bool {
        let w = self.spec_grid_width() as int;
        let h = self.spec_grid_height() as int;
        &&& self.spec_cells() == spec_seed_cells(pattern, w, h)
        &&& self.spec_particles_stuck() == occupied_count(spec_seed_cells(pattern, w, h))
        &&& self.spec_max_radius() == spec_seed_radius(pattern, w, h)
        &&& !self.spec_paused()
        &&& self.spec_seed_pattern() == pattern
    }

    /// What one iteration of the walk decides for a particle at `walker`.
    /// The step is taken and the edge of the grid applied: an absorbed
    /// particle is given up, and one that the edge holds attaches there if
    /// the cell is free. Else a particle beyond the escape radius is given
    /// up; one on an occupied cell walks on; and one on a free cell attaches
    /// if the draw falls within the sticking probability of that cell.
    #[verifier::opaque]
    pub open spec fn spec_evaluate(
        &self,
        walker: Position,
        heading_draw: int,
        stick_draw: int,
    ) -> WalkEvent {
        let w = self.spec_grid_width() as int;
        let h = self.spec_grid_height() as int;
        let s = self.spec_settings();
        let moved = spec_moved(w, h, self.spec_max_radius() as int, s, walker, heading_draw);
        match spec_apply_boundary(w, h, s.boundary_behavior, moved) {
            BoundaryOutcome::Absorbed => WalkEvent::Discard,
            BoundaryOutcome::Stuck(p) => {
                let (cx, cy) = spec_cell_of(p);
                if self.spec_get_cell(cx, cy).is_none() {
                    WalkEvent::Attach { x: cx as usize, y: cy as usize }
                } else {
                    WalkEvent::Continue(p)
                }
            },
            BoundaryOutcome::Inside(p) => {
                let (cx, cy) = spec_cell_of(p);
                let dist = spec_center_distance(w, h, p);
                let chance = spec_sticking_chance(
                    self.spec_stickiness() as int,
                    s,
                    spec_contacts(&self.spec_grid(), s.neighborhood, cx, cy),
                    dist,
                    spec_reference_radius(w, h),
                );
                if spec_has_escaped(
                    dist,
                    spec_spawn_radius(self.spec_max_radius() as int, s),
                    s.escape_multiplier as int,
                ) {
                    WalkEvent::Discard
                } else if self.spec_get_cell(cx, cy).is_some() {
                    WalkEvent::Continue(p)
                } else if spec_sticks(stick_draw, chance) {
                    WalkEvent::Attach { x: cx as usize, y: cy as usize }
                } else {
                    WalkEvent::Continue(p)
                }
            },
        }
    }

    /// What becomes of a particle that walks from `walker` with the given
    /// draws, two for each iteration, and at most `budget` iterations. The
    /// walk ends when an iteration attaches the particle or gives it up;
    /// a particle that is still walking when the draws or the iterations
    /// run out is reported as walking on from where it stands.
    pub open spec fn spec_walk(&self, walker: Position, draws: Seq<u32>, budget: int) -> WalkEvent
        decreases draws.len(),
    {
        if budget <= 0 || draws.len() < 2 {
            WalkEvent::Continue(walker)
        } else {
            match self.spec_evaluate(walker, draws[0] as int, draws[1] as int) {
                WalkEvent::Continue(p) => self.spec_walk(p, draws.skip(2), budget - 1),
                event => event,
            }
        }
    }

    /// What becomes of the particle of one step: it is released where the
    /// first two draws say and walks with the rest, for no more iterations
    /// than the settings allow.
    pub open spec fn spec_step_event(&self, draws: Seq<u32>) -> WalkEvent {
        if draws.len() < 2 {
            WalkEvent::Discard
        } else {
            self.spec_walk(
                spec_spawn_position(
                    self.spec_grid_width() as int,
                    self.spec_grid_height() as int,
                    self.spec_max_radius() as int,
                    self.spec_settings(),
                    draws[0] as int,
                    draws[1] as int,
                ),
                draws.skip(2),
                self.spec_settings().max_walk_iterations as int,
            )
        }
    }

    /// This run is `before` after one step with the given draws: where the
    /// particle attached, the run has grown at that cell; else it is in the
    /// state it was in. The parameters are the same.
    pub open spec fn stepped_with(&self, before: &DlaSimulation, draws: Seq<u32>) -> bool {
        &&& self.same_parameters(before)
        &&& match before.spec_step_event(draws) {
            WalkEvent::Attach { x, y } => self.grew_at(before, x as int, y as int),
            _ => self.same_run(before),
        }
    }

    /// Number of columns of the grid.
    #[verifier::when_used_as_spec(spec_grid_width)]
    pub fn grid_width(&self) -> (w: usize)
        ensures
            w == self.spec_grid_width(),
    {
        self.grid.width()
    }

    /// Number of rows of the grid.
    #[verifier::when_used_as_spec(spec_grid_height)]
    pub fn grid_height(&self) -> (h: usize)
        ensures
            h == self.spec_grid_height(),
    {
        self.grid.height()
    }

    /// Number of particles the run aims for.
    #[verifier::when_used_as_spec(spec_num_particles)]
    pub fn num_particles(&self) -> (n: usize)
        ensures
            n == self.spec_num_particles(),
    {
        self.num_particles
    }

    /// Base sticking probability, in thousandths.
    #[verifier::when_used_as_spec(spec_stickiness)]
    pub fn stickiness(&self) -> (s: u32)
        ensures
            s == self.spec_stickiness(),
    {
        self.stickiness
    }

    /// Number of particles that have stuck, the seed included.
    #[verifier::when_used_as_spec(spec_particles_stuck)]
    pub fn particles_stuck(&self) -> (n: usize)
        ensures
            n == self.spec_particles_stuck(),
    {
        self.particles_stuck
    }

    /// Radius of the cluster, in thousandths of a cell.
    #[verifier::when_used_as_spec(spec_max_radius)]
    pub fn max_radius(&self) -> (r: u64)
        ensures
            r == self.spec_max_radius(),
    {
        self.max_radius
    }

    /// Whether the run is paused.
    #[verifier::when_used_as_spec(spec_paused)]
    pub fn paused(&self) -> (p: bool)
        ensures
            p == self.spec_paused(),
    {
        self.paused
    }

    /// The pattern that the run was last seeded with.
    #[verifier::when_used_as_spec(spec_seed_pattern)]
    pub fn seed_pattern(&self) -> (p: SeedPattern)
        ensures
            p == self.spec_seed_pattern(),
    {
        self.seed_pattern
    }

    /// A snapshot of the physics of the run.
    #[verifier::when_used_as_spec(spec_settings)]
    pub fn settings(&self) -> (s: SimulationSettings)
        ensures
            s == self.spec_settings(),
    {
        self.settings
    }

    /// The grid, to look at.
    pub fn grid(&self) -> (grid: &Grid)
        ensures
            *grid == self.spec_grid(),
    {
        &self.grid
    }

    /// The attachment order of the particle at `(x, y)`; nothing for an
    /// empty cell or a position outside the grid.
    pub fn get_cell(&self, x: usize, y: usize) -> (cell: Option<usize>)
        requires
            self.wf(),
        ensures
            cell == self.spec_get_cell(x as int, y as int),
    {
        self.grid.get(x, y)
    }

    /// How far the particle at `(x, y)` lies from the centre of the grid, in
    /// thousandths of a cell; nothing for an empty cell or a position
    /// outside the grid.
    pub fn get_cell_distance(&self, x: usize, y: usize) -> (distance: Option<u64>)
        requires
            self.wf(),
        ensures
            distance == if self.spec_get_cell(x as int, y as int).is_some() {
                Some(
                    spec_cell_distance(
                        self.spec_grid_width() as int,
                        self.spec_grid_height() as int,
                        x as int,
                        y as int,
                    ) as u64,
                )
            } else {
                None
            },
    {
        if self.grid.get(x, y).is_some() {
            Some(cell_distance(self.grid.width(), self.grid.height(), x, y))
        } else {
            None
        }
    }

    /// Number of occupied cells of the grid.
    pub fn occupied_cells(&self) -> (n: usize)
        requires
            self.wf(),
        ensures
            n == occupied_count(self.spec_cells()),
            n == self.spec_particles_stuck(),
    {
        self.grid.count_occupied()
    }

    /// Whether the run has reached its target.
    pub fn is_complete(&self) -> (done: bool)
        ensures
            done == self.spec_is_complete(),
    {
        self.particles_stuck >= self.num_particles
    }

    /// The share of the target that has stuck, in thousandths, rounded
    /// down. It passes one thousand where the target was lowered below the
    /// number already stuck.
    pub fn progress(&self) -> (share: u64)
        requires
            self.wf(),
        ensures
            share == self.spec_progress(),
    {
        proof {
            lemma_count_bound(self.spec_cells());
            assert(self.spec_grid_width() * self.spec_grid_height() <= 0x10_0000 * 0x10_0000)
                by (nonlinear_arith)
                requires
                    0 < self.spec_grid_width() <= 0x10_0000,
                    0 < self.spec_grid_height() <= 0x10_0000,
            ;
        }
        (self.particles_stuck as u64) * 1000 / (self.num_particles as u64)
    }

    /// The estimate of the fractal dimension of the cluster and the
    /// confidence of the estimate, both in thousandths; zero for both while
    /// fewer than the least number of particles have stuck.
    pub fn calculate_fractal_dimension(&self) -> (estimate: (i64, i64))
        requires
            self.wf(),
        ensures
            (estimate.0 as int, estimate.1 as int) == spec_fractal_dimension(&self.spec_grid()),
            self.spec_particles_stuck() < MIN_FRACTAL_SAMPLES ==> estimate == (0i64, 0i64),
    {
        fractal_dimension(&self.grid)
    }

    /// Pauses a running simulation and resumes a paused one.
    pub fn toggle_pause(&mut self)
        ensures
            final(self).spec_paused() == !old(self).spec_paused(),
            final(self).spec_cells() == old(self).spec_cells(),
            final(self).spec_grid() == old(self).spec_grid(),
            final(self).spec_particles_stuck() == old(self).spec_particles_stuck(),
            final(self).spec_max_radius() == old(self).spec_max_radius(),
            final(self).spec_seed_pattern() == old(self).spec_seed_pattern(),
            final(self).same_parameters(old(self)),
            old(self).wf() ==> final(self).wf(),
    {
        self.paused = !self.paused;
    }

    /// Places a particle at `(x, y)` if that is an empty cell of the grid.
    fn place(&mut self, x: i64, y: i64) -> (placed: bool)
        requires
            old(self).wf(),
        ensures
            final(self).wf(),
            final(self).spec_cells() == spec_place(
                old(self).spec_cells(),
                old(self).spec_grid_width() as int,
                old(self).spec_grid_height() as int,
                x as int,
                y as int,
            ),
            placed == (0 <= x < old(self).spec_grid_width() && 0 <= y < old(
                self,
            ).spec_grid_height() && old(self).spec_get_cell(x as int, y as int).is_none()),
            placed ==> final(self).spec_cells() == old(self).spec_cells().update(
                cell_index(old(self).spec_grid_width() as int, x as int, y as int),
                Some(old(self).spec_particles_stuck()),
            ),
            placed ==> final(self).spec_particles_stuck() == old(self).spec_particles_stuck() + 1,
            !placed ==> final(self).spec_particles_stuck() == old(self).spec_particles_stuck(),
            !placed ==> final(self).spec_cells() == old(self).spec_cells(),
            final(self).spec_grid_width() == old(self).spec_grid_width(),
            final(self).spec_grid_height() == old(self).spec_grid_height(),
            final(self).spec_max_radius() == old(self).spec_max_radius(),
            final(self).spec_paused() == old(self).spec_paused(),
            final(self).spec_seed_pattern() == old(self).spec_seed_pattern(),
            final(self).same_parameters(old(self)),
    {
        if x < 0 || y < 0 || x >= self.grid.width() as i64 || y >= self.grid.height() as i64 {
            return false;
        }
        let ux: usize = x as usize;
        let uy: usize = y as usize;
        if self.grid.get(ux, uy).is_some() {
            return false;
        }
        proof {
            let w = self.spec_grid_width() as int;
            let h = self.spec_grid_height() as int;
            lemma_cell_index_bound(w, h, x as int, y as int);
            lemma_count_update(
                self.spec_cells(),
                cell_index(w, x as int, y as int),
                Some(self.particles_stuck),
            );
            lemma_count_bound(
                self.spec_cells().update(
                    cell_index(w, x as int, y as int),
                    Some(self.particles_stuck),
                ),
            );
        }
        self.grid.occupy(ux, uy, self.particles_stuck);
        self.particles_stuck = self.particles_stuck + 1;
        true
    }

    /// Commits a particle to the cell `(x, y)`. An empty cell of the grid
    /// receives the next attachment order, the count goes up by one and the
    /// cluster's radius grows to reach the cell. For any other position
    /// nothing changes.
    pub fn attach(&mut self, x: usize, y: usize) -> (attached: bool)
        requires
            old(self).wf(),
        ensures
            final(self).wf(),
            attached == (x < old(self).spec_grid_width() && y < old(self).spec_grid_height()
                && old(self).spec_get_cell(x as int, y as int).is_none()),
            attached ==> final(self).grew_at(old(self), x as int, y as int),
            !attached ==> final(self).same_run(old(self)),
            final(self).same_parameters(old(self)),
    {
        if x >= self.grid.width() || y >= self.grid.height() {
            return false;
        }
        if self.place(x as i64, y as i64) {
            let d: u64 = cell_distance(self.grid.width(), self.grid.height(), x, y);
            if d > self.max_radius {
                self.max_radius = d;
            }
            true
        } else {
            false
        }
    }

    /// What one iteration of the walk decides for a particle at `walker`,
    /// given the draw that chooses the heading and the draw that is held
    /// against the sticking probability.
    pub fn evaluate(&self, walker: Position, heading_draw: u32, stick_draw: u32) -> (event:
        WalkEvent)
        requires
            self.wf(),
            spec_in_grid(self.spec_grid_width() as int, self.spec_grid_height() as int, walker),
        ensures
            event == self.spec_evaluate(walker, heading_draw as int, stick_draw as int),
            match event {
                WalkEvent::Continue(p) => spec_in_grid(
                    self.spec_grid_width() as int,
                    self.spec_grid_height() as int,
                    p,
                ),
                WalkEvent::Attach { x, y } => x < self.spec_grid_width() && y
                    < self.spec_grid_height() && self.spec_get_cell(x as int, y as int).is_none(),
                WalkEvent::Discard => true,
            },
    {
        reveal(DlaSimulation::spec_evaluate);
        let w: usize = self.grid.width();
        let h: usize = self.grid.height();
        let moved: Position = propose_move(
            w,
            h,
            self.max_radius,
            &self.settings,
            walker,
            heading_draw,
        );
        match apply_boundary(w, h, self.settings.boundary_behavior, moved) {
            BoundaryOutcome::Absorbed => WalkEvent::Discard,
            BoundaryOutcome::Stuck(p) => {
                let cx: usize = (p.x / 1000) as usize;
                let cy: usize = (p.y / 1000) as usize;
                if self.grid.get(cx, cy).is_none() {
                    WalkEvent::Attach { x: cx, y: cy }
                } else {
                    WalkEvent::Continue(p)
                }
            },
            BoundaryOutcome::Inside(p) => {
                let cx: usize = (p.x / 1000) as usize;
                let cy: usize = (p.y / 1000) as usize;
                let dist: u64 = center_distance(w, h, p);
                if has_escaped(
                    dist,
                    spawn_radius(self.max_radius, &self.settings),
                    self.settings.escape_multiplier,
                ) {
                    WalkEvent::Discard
                } else if self.grid.get(cx, cy).is_some() {
                    WalkEvent::Continue(p)
                } else {
                    let contacts: u32 = contact_count(&self.grid, self.settings.neighborhood, cx, cy);
                    let chance: u32 = sticking_chance(
                        self.stickiness,
                        &self.settings,
                        contacts,
                        dist,
                        reference_radius(w, h),
                    );
                    if sticks(stick_draw, chance) {
                        WalkEvent::Attach { x: cx, y: cy }
                    } else {
                        WalkEvent::Continue(p)
                    }
                }
            },
        }
    }

    /// One step with draws given in place of chance. The first two draws
    /// choose where the particle is released; each iteration of the walk
    /// takes two more, one for the heading and one to hold against the
    /// sticking probability. The walk ends when the particle attaches or is
    /// given up, when the draws run out, or after as many iterations as the
    /// settings allow. A paused or complete run is left alone and reports
    /// that it is not active.
    #[verifier::loop_isolation(false)]
    pub fn step_with(&mut self, draws: &Vec<u32>) -> (active: bool)
        requires
            old(self).wf(),
        ensures
            final(self).wf(),
            active == !(old(self).spec_paused() || old(self).spec_is_complete()),
            active ==> final(self).stepped_with(old(self), draws@),
            !active ==> final(self).same_run(old(self)),
            final(self).same_parameters(old(self)),
    {
        if self.paused || self.is_complete() {
            return false;
        }
        if draws.len() < 2 {
            return true;
        }
        let ghost before = *self;
        let ghost start = spec_spawn_position(
            self.spec_grid_width() as int,
            self.spec_grid_height() as int,
            self.spec_max_radius() as int,
            self.spec_settings(),
            draws@[0] as int,
            draws@[1] as int,
        );
        let mut walker: Position = spawn_position(
            self.grid.width(),
            self.grid.height(),
            self.max_radius,
            &self.settings,
            draws[0],
            draws[1],
        );
        let limit: u32 = self.settings.max_walk_iterations;
        let len: usize = draws.len();
        let mut i: u32 = 0;
        let mut j: usize = 2;
        while i < limit && j < len - 1
            invariant
                self.wf(),
                *self == before,
                len == draws@.len(),
                2 <= j <= len,
                i <= limit,
                limit == before.spec_settings().max_walk_iterations,
                spec_in_grid(self.spec_grid_width() as int, self.spec_grid_height() as int, walker),
                before.spec_walk(start, draws@.skip(2), limit as int) == before.spec_walk(
                    walker,
                    draws@.skip(j as int),
                    limit - i,
                ),
            decreases len - j,
        {
            let ghost rest = draws@.skip(j as int);
            proof {
                assert(rest[0] == draws@[j as int]);
                assert(rest[1] == draws@[j + 1]);
                assert(rest.skip(2) =~= draws@.skip(j + 2));
            }
            match self.evaluate(walker, draws[j], draws[j + 1]) {
                WalkEvent::Continue(p) => {
                    walker = p;
                },
                WalkEvent::Attach { x, y } => {
                    self.attach(x, y);
                    return true;
                },
                WalkEvent::Discard => {
                    return true;
                },
            }
            i += 1;
            j += 2;
        }
        true
    }

    /// Releases one particle and walks it until it sticks, is given up or
    /// has used up its steps. A paused or complete run is left alone and
    /// reports that it is not active. Chance decides the rest: the run ends
    /// up as one step leaves it for some sequence of draws. So, whatever
    /// the draws, the parameters stay as they were; the run is either
    /// unchanged or has grown by exactly one particle on a cell that was
    /// empty; the grid holds as many occupied cells as particles are
    /// counted; and neither the progress nor the radius has fallen.
    #[verifier::loop_isolation(false)]
    pub fn step(&mut self) -> (active: bool)
        requires
            old(self).wf(),
        ensures
            final(self).wf(),
            active == !(old(self).spec_paused() || old(self).spec_is_complete()),
            active ==> exists|draws: Seq<u32>|
                draws.len() >= 2 && #[trigger] final(self).stepped_with(old(self), draws),
            final(self).same_parameters(old(self)),
            final(self).same_run(old(self)) || exists|x: int, y: int| #[trigger]
                final(self).grew_at(old(self), x, y),
            !active ==> final(self).same_run(old(self)),
            occupied_count(final(self).spec_cells()) == final(self).spec_particles_stuck(),
            final(self).spec_particles_stuck() >= old(self).spec_particles_stuck(),
            final(self).spec_max_radius() >= old(self).spec_max_radius(),
            final(self).spec_progress() >= old(self).spec_progress(),
    {
        if self.paused || self.is_complete() {
            return false;
        }
        let ghost before = *self;
        let mut rng = rand::thread_rng();
        let a: u32 = random_below(&mut rng, UNIT_DRAW);
        let b: u32 = random_below(&mut rng, UNIT_DRAW);
        let mut walker: Position = spawn_position(
            self.grid.width(),
            self.grid.height(),
            self.max_radius,
            &self.settings,
            a,
            b,
        );
        let ghost start = walker;
        let ghost mut drawn: Seq<u32> = Seq::empty();
        let limit: u32 = self.settings.max_walk_iterations;
        let mut i: u32 = 0;
        while i < limit
            invariant
                self.wf(),
                *self == before,
                spec_in_grid(self.spec_grid_width() as int, self.spec_grid_height() as int, walker),
                drawn.len() == 2 * i,
                before.spec_walk(start, drawn, limit as int) == WalkEvent::Continue(walker),
            decreases limit - i,
        {
            let heading: u32 = random_below(&mut rng, UNIT_DRAW);
            let sample: u32 = random_below(&mut rng, UNIT_DRAW);
            let event: WalkEvent = self.evaluate(walker, heading, sample);
            proof {
                lemma_walk_extends(before, start, drawn, limit as int, heading, sample);
                drawn = drawn + seq![heading, sample];
            }
            match event {
                WalkEvent::Continue(p) => {
                    walker = p;
                },
                WalkEvent::Attach { x, y } => {
                    let attached: bool = self.attach(x, y);
                    proof {
                        assert(self.grew_at(&before, x as int, y as int));
                        lemma_progress_monotonic(
                            before.spec_particles_stuck() as int,
                            self.spec_particles_stuck() as int,
                            self.spec_num_particles() as int,
                        );
                        let draws = seq![a, b] + drawn;
                        assert(draws.skip(2) =~= drawn);
                        assert(self.stepped_with(&before, draws));
                    }
                    return true;
                },
                WalkEvent::Discard => {
                    proof {
                        let draws = seq![a, b] + drawn;
                        assert(draws.skip(2) =~= drawn);
                        assert(self.stepped_with(&before, draws));
                    }
                    return true;
                },
            }
            i += 1;
        }
        proof {
            let draws = seq![a, b] + drawn;
            assert(draws.skip(2) =~= drawn);
            assert(self.stepped_with(&before, draws));
        }
        true
    }
}

impl DlaSimulation {
    /// A run on a grid of the given size, seeded with a single particle at
    /// the centre, aiming for five thousand particles that always stick.
    pub fn new(width: usize, height: usize) -> (sim: DlaSimulation)
        requires
            spec_valid_extent(width as int, height as int),
            width * height <= usize::MAX,
        ensures
            sim.wf(),
            sim.spec_grid_width() == width,
            sim.spec_grid_height() == height,
            sim.is_fresh(SeedPattern::Point),
            sim.spec_particles_stuck() == 1,
            sim.spec_num_particles() == 5000,
            sim.spec_stickiness() == 1000,
            sim.spec_settings() == SimulationSettings::spec_standard(),
    {
        let mut sim = DlaSimulation {
            grid: Grid::new(width, height),
            num_particles: 5000,
            stickiness: 1000,
            particles_stuck: 0,
            max_radius: 1000,
            paused: false,
            seed_pattern: SeedPattern::Point,
            settings: SimulationSettings::standard(),
        };
        proof {
            lemma_count_empty((width * height) as nat);
            lemma_point_seed(width as int, height as int);
        }
        sim.reset();
        sim
    }

    /// Starts the run again from the pattern it was last seeded with.
    pub fn reset(&mut self)
        requires
            old(self).wf(),
        ensures
            final(self).wf(),
            final(self).is_fresh(old(self).spec_seed_pattern()),
            final(self).spec_grid_width() == old(self).spec_grid_width(),
            final(self).spec_grid_height() == old(self).spec_grid_height(),
            final(self).same_parameters(old(self)),
    {
        self.reset_with_seed(self.seed_pattern);
    }

    /// Starts the run again from `pattern`: the grid is emptied, the seed is
    /// placed cell by cell, the count is the number of cells that the seed
    /// occupies, the radius is the size of the seed, and the run is not
    /// paused. The size of the grid and the parameters stay.
    pub fn reset_with_seed(&mut self, pattern: SeedPattern)
        requires
            old(self).wf(),
        ensures
            final(self).wf(),
            final(self).is_fresh(pattern),
            final(self).spec_grid_width() == old(self).spec_grid_width(),
            final(self).spec_grid_height() == old(self).spec_grid_height(),
            final(self).same_parameters(old(self)),
            pattern == SeedPattern::Point ==> final(self).spec_particles_stuck() == 1,
            pattern == SeedPattern::Line ==> final(self).spec_particles_stuck() == 2
                * spec_line_half(old(self).spec_grid_width() as int),
            pattern == SeedPattern::Cross ==> final(self).spec_particles_stuck()
                == spec_cross_count(
                4 * spec_eighth(
                    old(self).spec_grid_width() as int,
                    old(self).spec_grid_height() as int,
                    10,
                ),
            ),
    {
        let ghost w = self.spec_grid_width() as int;
        let ghost h = self.spec_grid_height() as int;
        self.grid.clear();
        self.particles_stuck = 0;
        proof {
            lemma_count_empty((w * h) as nat);
        }
        let width: usize = self.grid.width();
        let height: usize = self.grid.height();
        let n: u32 = seed_len(pattern, width, height);
        let mut k: u32 = 0;
        while k < n
            invariant
                k <= n <= 360,
                n == spec_seed_len(pattern, w, h),
                self.wf(),
                width == w,
                height == h,
                self.spec_grid_width() == w,
                self.spec_grid_height() == h,
                self.spec_cells() == spec_seed_upto(pattern, w, h, k as int),
                self.same_parameters(old(self)),
            decreases n - k,
        {
            let cell: (i64, i64) = seed_point(pattern, width, height, k);
            self.place(cell.0, cell.1);
            k += 1;
        }
        proof {
            lemma_point_seed(w, h);
            lemma_line_seed(w, h);
            lemma_cross_seed(w, h);
        }
        self.max_radius = seed_radius(pattern, width, height);
        self.paused = false;
        self.seed_pattern = pattern;
    }

    /// Gives the grid a new size. Where the size is the one it has, nothing
    /// changes; else the grid is made anew and seeded with the pattern that
    /// the run was last seeded with.
    pub fn resize(&mut self, new_width: usize, new_height: usize)
        requires
            old(self).wf(),
            spec_valid_extent(new_width as int, new_height as int),
            new_width * new_height <= usize::MAX,
        ensures
            final(self).wf(),
            final(self).same_parameters(old(self)),
            final(self).spec_grid_width() == new_width,
            final(self).spec_grid_height() == new_height,
            new_width == old(self).spec_grid_width() && new_height == old(self).spec_grid_height()
                ==> final(self).same_run(old(self)),
            !(new_width == old(self).spec_grid_width() && new_height == old(
                self,
            ).spec_grid_height()) ==> final(self).is_fresh(old(self).spec_seed_pattern()),
    {
        if new_width != self.grid.width() || new_height != self.grid.height() {
            self.grid = Grid::new(new_width, new_height);
            self.particles_stuck = 0;
            proof {
                lemma_count_empty((new_width * new_height) as nat);
            }
            self.reset();
        }
    }
}

impl DlaSimulation {
    /// The run is `before` with other parameters: grid, counters and flags
    /// are those of `before`.
    pub open spec fn retuned(&self, before: &DlaSimulation) -> bool {
        &&& self.same_run(before)
        &&& self.spec_grid() == before.spec_grid()
    }

    /// Changes the target number of particles by `delta` and brings it into
    /// its range.
    pub fn adjust_particles(&mut self, delta: i32)
        requires
            old(self).wf(),
        ensures
            final(self).wf(),
            final(self).retuned(old(self)),
            final(self).spec_num_particles() == spec_clamp(
                old(self).spec_num_particles() + delta,
                MIN_PARTICLES as int,
                MAX_PARTICLES as int,
            ),
            final(self).spec_stickiness() == old(self).spec_stickiness(),
            final(self).spec_settings() == old(self).spec_settings(),
    {
        let sum: i64 = self.num_particles as i64 + delta as i64;
        if sum < MIN_PARTICLES as i64 {
            self.num_particles = MIN_PARTICLES;
        } else if sum > MAX_PARTICLES as i64 {
            self.num_particles = MAX_PARTICLES;
        } else {
            self.num_particles = sum as usize;
        }
    }

    /// Changes the base sticking probability by `delta` thousandths and
    /// brings it into its range.
    pub fn adjust_stickiness(&mut self, delta: i32)
        requires
            old(self).wf(),
        ensures
            final(self).wf(),
            final(self).retuned(old(self)),
            final(self).spec_stickiness() == spec_clamp(
                old(self).spec_stickiness() + delta,
                MIN_STICKINESS as int,
                MAX_STICKINESS as int,
            ),
            final(self).spec_num_particles() == old(self).spec_num_particles(),
            final(self).spec_settings() == old(self).spec_settings(),
    {
        self.stickiness = adjust_u32(self.stickiness, delta, MIN_STICKINESS, MAX_STICKINESS);
    }

    /// Replaces the physics of the run by `settings`, each bounded field
    /// brought into its range.
    pub fn apply_settings(&mut self, settings: SimulationSettings)
        requires
            old(self).wf(),
        ensures
            final(self).wf(),
            final(self).retuned(old(self)),
            final(self).spec_settings() == settings.spec_clamped(),
            final(self).spec_num_particles() == old(self).spec_num_particles(),
            final(self).spec_stickiness() == old(self).spec_stickiness(),
    {
        self.settings = settings.clamped();
    }

    /// Changes the length of one walk step, in thousandths of a cell, by `delta` and brings it into its range.
    pub fn adjust_walk_step(&mut self, delta: i32)
        requires
            old(self).wf(),
        ensures
            final(self).wf(),
            final(self).retuned(old(self)),
            final(self).spec_settings() == (SimulationSettings {
                walk_step_size: spec_clamp(
                    old(self).spec_settings().walk_step_size + delta,
                    MIN_WALK_STEP as int,
                    MAX_WALK_STEP as int,
                ) as u32,
                ..old(self).spec_settings()
            }),
            final(self).spec_num_particles() == old(self).spec_num_particles(),
            final(self).spec_stickiness() == old(self).spec_stickiness(),
    {
        self.settings.walk_step_size = adjust_u32(self.settings.walk_step_size, delta, MIN_WALK_STEP, MAX_WALK_STEP);
    }

    /// Changes the share of the gap that an adaptive step covers, in thousandths, by `delta` and brings it into its range.
    pub fn adjust_adaptive_factor(&mut self, delta: i32)
        requires
            old(self).wf(),
        ensures
            final(self).wf(),
            final(self).retuned(old(self)),
            final(self).spec_settings() == (SimulationSettings {
                adaptive_step_factor: spec_clamp(
                    old(self).spec_settings().adaptive_step_factor + delta,
                    MIN_ADAPTIVE_FACTOR as int,
                    MAX_ADAPTIVE_FACTOR as int,
                ) as u32,
                ..old(self).spec_settings()
            }),
            final(self).spec_num_particles() == old(self).spec_num_particles(),
            final(self).spec_stickiness() == old(self).spec_stickiness(),
    {
        self.settings.adaptive_step_factor = adjust_u32(self.settings.adaptive_step_factor, delta, MIN_ADAPTIVE_FACTOR, MAX_ADAPTIVE_FACTOR);
    }

    /// Changes the direction of the walk bias, in degrees, by `delta` and brings it into its range.
    pub fn adjust_bias_angle(&mut self, delta: i32)
        requires
            old(self).wf(),
        ensures
            final(self).wf(),
            final(self).retuned(old(self)),
            final(self).spec_settings() == (SimulationSettings {
                walk_bias_angle: spec_clamp(
                    old(self).spec_settings().walk_bias_angle + delta,
                    0,
                    MAX_BIAS_ANGLE as int,
                ) as u32,
                ..old(self).spec_settings()
            }),
            final(self).spec_num_particles() == old(self).spec_num_particles(),
            final(self).spec_stickiness() == old(self).spec_stickiness(),
    {
        self.settings.walk_bias_angle = adjust_u32(self.settings.walk_bias_angle, delta, 0, MAX_BIAS_ANGLE);
    }

    /// Changes the strength of the walk bias, in thousandths, by `delta` and brings it into its range.
    pub fn adjust_bias_strength(&mut self, delta: i32)
        requires
            old(self).wf(),
        ensures
            final(self).wf(),
            final(self).retuned(old(self)),
            final(self).spec_settings() == (SimulationSettings {
                walk_bias_strength: spec_clamp(
                    old(self).spec_settings().walk_bias_strength + delta,
                    0,
                    MAX_BIAS_STRENGTH as int,
                ) as u32,
                ..old(self).spec_settings()
            }),
            final(self).spec_num_particles() == old(self).spec_num_particles(),
            final(self).spec_stickiness() == old(self).spec_stickiness(),
    {
        self.settings.walk_bias_strength = adjust_u32(self.settings.walk_bias_strength, delta, 0, MAX_BIAS_STRENGTH);
    }

    /// Changes the radial bias, in thousandths, by `delta` and brings it into its range.
    pub fn adjust_radial_bias(&mut self, delta: i32)
        requires
            old(self).wf(),
        ensures
            final(self).wf(),
            final(self).retuned(old(self)),
            final(self).spec_settings() == (SimulationSettings {
                radial_bias: spec_clamp(
                    old(self).spec_settings().radial_bias + delta,
                    -MAX_RADIAL_BIAS as int,
                    MAX_RADIAL_BIAS as int,
                ) as i32,
                ..old(self).spec_settings()
            }),
            final(self).spec_num_particles() == old(self).spec_num_particles(),
            final(self).spec_stickiness() == old(self).spec_stickiness(),
    {
        self.settings.radial_bias = adjust_i32(self.settings.radial_bias, delta, -MAX_RADIAL_BIAS, MAX_RADIAL_BIAS);
    }

    /// Changes the number of occupied neighbours that sticking asks for, by `delta` and brings it into its range.
    pub fn adjust_contacts(&mut self, delta: i32)
        requires
            old(self).wf(),
        ensures
            final(self).wf(),
            final(self).retuned(old(self)),
            final(self).spec_settings() == (SimulationSettings {
                multi_contact_min: spec_clamp(
                    old(self).spec_settings().multi_contact_min + delta,
                    MIN_CONTACTS as int,
                    MAX_CONTACTS as int,
                ) as u32,
                ..old(self).spec_settings()
            }),
            final(self).spec_num_particles() == old(self).spec_num_particles(),
            final(self).spec_stickiness() == old(self).spec_stickiness(),
    {
        self.settings.multi_contact_min = adjust_u32(self.settings.multi_contact_min, delta, MIN_CONTACTS, MAX_CONTACTS);
    }

    /// Changes the multiplier of the sticking probability at a tip, in thousandths, by `delta` and brings it into its range.
    pub fn adjust_tip_stickiness(&mut self, delta: i32)
        requires
            old(self).wf(),
        ensures
            final(self).wf(),
            final(self).retuned(old(self)),
            final(self).spec_settings() == (SimulationSettings {
                tip_stickiness: spec_clamp(
                    old(self).spec_settings().tip_stickiness + delta,
                    MIN_SHAPE_STICKINESS as int,
                    MAX_SHAPE_STICKINESS as int,
                ) as u32,
                ..old(self).spec_settings()
            }),
            final(self).spec_num_particles() == old(self).spec_num_particles(),
            final(self).spec_stickiness() == old(self).spec_stickiness(),
    {
        self.settings.tip_stickiness = adjust_u32(self.settings.tip_stickiness, delta, MIN_SHAPE_STICKINESS, MAX_SHAPE_STICKINESS);
    }

    /// Changes the multiplier of the sticking probability at a side, in thousandths, by `delta` and brings it into its range.
    pub fn adjust_side_stickiness(&mut self, delta: i32)
        requires
            old(self).wf(),
        ensures
            final(self).wf(),
            final(self).retuned(old(self)),
            final(self).spec_settings() == (SimulationSettings {
                side_stickiness: spec_clamp(
                    old(self).spec_settings().side_stickiness + delta,
                    MIN_SHAPE_STICKINESS as int,
                    MAX_SHAPE_STICKINESS as int,
                ) as u32,
                ..old(self).spec_settings()
            }),
            final(self).spec_num_particles() == old(self).spec_num_particles(),
            final(self).spec_stickiness() == old(self).spec_stickiness(),
    {
        self.settings.side_stickiness = adjust_u32(self.settings.side_stickiness, delta, MIN_SHAPE_STICKINESS, MAX_SHAPE_STICKINESS);
    }

    /// Changes the stickiness gradient, in thousandths, by `delta` and brings it into its range.
    pub fn adjust_stickiness_gradient(&mut self, delta: i32)
        requires
            old(self).wf(),
        ensures
            final(self).wf(),
            final(self).retuned(old(self)),
            final(self).spec_settings() == (SimulationSettings {
                stickiness_gradient: spec_clamp(
                    old(self).spec_settings().stickiness_gradient + delta,
                    -MAX_STICKINESS_GRADIENT as int,
                    MAX_STICKINESS_GRADIENT as int,
                ) as i32,
                ..old(self).spec_settings()
            }),
            final(self).spec_num_particles() == old(self).spec_num_particles(),
            final(self).spec_stickiness() == old(self).spec_stickiness(),
    {
        self.settings.stickiness_gradient = adjust_i32(self.settings.stickiness_gradient, delta, -MAX_STICKINESS_GRADIENT, MAX_STICKINESS_GRADIENT);
    }

    /// Changes the gap between cluster and release ring, in thousandths of a cell, by `delta` and brings it into its range.
    pub fn adjust_spawn_offset(&mut self, delta: i32)
        requires
            old(self).wf(),
        ensures
            final(self).wf(),
            final(self).retuned(old(self)),
            final(self).spec_settings() == (SimulationSettings {
                spawn_radius_offset: spec_clamp(
                    old(self).spec_settings().spawn_radius_offset + delta,
                    MIN_SPAWN_OFFSET as int,
                    MAX_SPAWN_OFFSET as int,
                ) as u32,
                ..old(self).spec_settings()
            }),
            final(self).spec_num_particles() == old(self).spec_num_particles(),
            final(self).spec_stickiness() == old(self).spec_stickiness(),
    {
        self.settings.spawn_radius_offset = adjust_u32(self.settings.spawn_radius_offset, delta, MIN_SPAWN_OFFSET, MAX_SPAWN_OFFSET);
    }

    /// Changes the smallest release radius, in thousandths of a cell, by `delta` and brings it into its range.
    pub fn adjust_min_spawn_radius(&mut self, delta: i32)
        requires
            old(self).wf(),
        ensures
            final(self).wf(),
            final(self).retuned(old(self)),
            final(self).spec_settings() == (SimulationSettings {
                min_spawn_radius: spec_clamp(
                    old(self).spec_settings().min_spawn_radius + delta,
                    MIN_SPAWN_RADIUS_FLOOR as int,
                    MAX_SPAWN_RADIUS_FLOOR as int,
                ) as u32,
                ..old(self).spec_settings()
            }),
            final(self).spec_num_particles() == old(self).spec_num_particles(),
            final(self).spec_stickiness() == old(self).spec_stickiness(),
    {
        self.settings.min_spawn_radius = adjust_u32(self.settings.min_spawn_radius, delta, MIN_SPAWN_RADIUS_FLOOR, MAX_SPAWN_RADIUS_FLOOR);
    }

    /// Changes the escape multiplier, in thousandths, by `delta` and brings it into its range.
    pub fn adjust_escape_multiplier(&mut self, delta: i32)
        requires
            old(self).wf(),
        ensures
            final(self).wf(),
            final(self).retuned(old(self)),
            final(self).spec_settings() == (SimulationSettings {
                escape_multiplier: spec_clamp(
                    old(self).spec_settings().escape_multiplier + delta,
                    MIN_ESCAPE_MULTIPLIER as int,
                    MAX_ESCAPE_MULTIPLIER as int,
                ) as u32,
                ..old(self).spec_settings()
            }),
            final(self).spec_num_particles() == old(self).spec_num_particles(),
            final(self).spec_stickiness() == old(self).spec_stickiness(),
    {
        self.settings.escape_multiplier = adjust_u32(self.settings.escape_multiplier, delta, MIN_ESCAPE_MULTIPLIER, MAX_ESCAPE_MULTIPLIER);
    }

    /// Changes the number of walk steps granted to one particle, by `delta` and brings it into its range.
    pub fn adjust_max_iterations(&mut self, delta: i32)
        requires
            old(self).wf(),
        ensures
            final(self).wf(),
            final(self).retuned(old(self)),
            final(self).spec_settings() == (SimulationSettings {
                max_walk_iterations: spec_clamp(
                    old(self).spec_settings().max_walk_iterations + delta,
                    MIN_WALK_ITERATIONS as int,
                    MAX_WALK_ITERATIONS as int,
                ) as u32,
                ..old(self).spec_settings()
            }),
            final(self).spec_num_particles() == old(self).spec_num_particles(),
            final(self).spec_stickiness() == old(self).spec_stickiness(),
    {
        self.settings.max_walk_iterations = adjust_u32(self.settings.max_walk_iterations, delta, MIN_WALK_ITERATIONS, MAX_WALK_ITERATIONS);
    }

    /// Switches adaptive steps on or off.
    pub fn toggle_adaptive_step(&mut self)
        requires
            old(self).wf(),
        ensures
            final(self).wf(),
            final(self).retuned(old(self)),
            final(self).spec_settings() == (SimulationSettings {
                adaptive_step: !old(self).spec_settings().adaptive_step,
                ..old(self).spec_settings()
            }),
            final(self).spec_num_particles() == old(self).spec_num_particles(),
            final(self).spec_stickiness() == old(self).spec_stickiness(),
    {
        self.settings.adaptive_step = !self.settings.adaptive_step;
    }

    /// Switches the lattice walk on or off.
    pub fn toggle_lattice_walk(&mut self)
        requires
            old(self).wf(),
        ensures
            final(self).wf(),
            final(self).retuned(old(self)),
            final(self).spec_settings() == (SimulationSettings {
                lattice_walk: !old(self).spec_settings().lattice_walk,
                ..old(self).spec_settings()
            }),
            final(self).spec_num_particles() == old(self).spec_num_particles(),
            final(self).spec_stickiness() == old(self).spec_stickiness(),
    {
        self.settings.lattice_walk = !self.settings.lattice_walk;
    }

    /// Chooses which cells count as adjacent.
    pub fn set_neighborhood(&mut self, value: Neighborhood)
        requires
            old(self).wf(),
        ensures
            final(self).wf(),
            final(self).retuned(old(self)),
            final(self).spec_settings() == (SimulationSettings {
                neighborhood: value,
                ..old(self).spec_settings()
            }),
            final(self).spec_num_particles() == old(self).spec_num_particles(),
            final(self).spec_stickiness() == old(self).spec_stickiness(),
    {
        self.settings.neighborhood = value;
    }

    /// Chooses where particles are released.
    pub fn set_spawn_mode(&mut self, value: SpawnMode)
        requires
            old(self).wf(),
        ensures
            final(self).wf(),
            final(self).retuned(old(self)),
            final(self).spec_settings() == (SimulationSettings {
                spawn_mode: value,
                ..old(self).spec_settings()
            }),
            final(self).spec_num_particles() == old(self).spec_num_particles(),
            final(self).spec_stickiness() == old(self).spec_stickiness(),
    {
        self.settings.spawn_mode = value;
    }

    /// Chooses what happens at the edge of the grid.
    pub fn set_boundary_behavior(&mut self, value: BoundaryBehavior)
        requires
            old(self).wf(),
        ensures
            final(self).wf(),
            final(self).retuned(old(self)),
            final(self).spec_settings() == (SimulationSettings {
                boundary_behavior: value,
                ..old(self).spec_settings()
            }),
            final(self).spec_num_particles() == old(self).spec_num_particles(),
            final(self).spec_stickiness() == old(self).spec_stickiness(),
    {
        self.settings.boundary_behavior = value;
    }

}

/// Two more draws carry a walk one iteration further: a particle that is
/// still walking when the draws run out, with iterations to spare, meets
/// what the next iteration decides where it stands; a walk that has ended
/// stays as it ended.
pub proof fn lemma_walk_extends(
    sim: DlaSimulation,
    start: Position,
    draws: Seq<u32>,
    budget: int,
    heading: u32,
    sample: u32,
)
    requires
        draws.len() % 2 == 0,
    ensures
        sim.spec_walk(start, draws + seq![heading, sample], budget) == match sim.spec_walk(
            start,
            draws,
            budget,
        ) {
            WalkEvent::Continue(w) => if draws.len() / 2 < budget {
                sim.spec_evaluate(w, heading as int, sample as int)
            } else {
                WalkEvent::Continue(w)
            },
            event => event,
        },
    decreases draws.len(),
{
    let more = draws + seq![heading, sample];
    reveal_with_fuel(DlaSimulation::spec_walk, 2);
    if budget <= 0 {
    } else if draws.len() == 0 {
        assert(more[0] == heading && more[1] == sample);
        assert(more.skip(2).len() == 0);
    } else {
        assert(draws.len() >= 2);
        assert(more[0] == draws[0] && more[1] == draws[1]);
        let rest = draws.skip(2);
        assert(more.skip(2) =~= rest + seq![heading, sample]);
        assert(rest.len() == draws.len() - 2);
        assert((rest.len() / 2 < budget - 1) == (draws.len() / 2 < budget));
        match sim.spec_evaluate(start, draws[0] as int, draws[1] as int) {
            WalkEvent::Continue(p) => {
                lemma_walk_extends(sim, p, rest, budget - 1, heading, sample);
                assert(sim.spec_walk(start, draws, budget) == sim.spec_walk(p, rest, budget - 1));
                assert(sim.spec_walk(start, more, budget) == sim.spec_walk(
                    p,
                    rest + seq![heading, sample],
                    budget - 1,
                ));
            },
            event => {
                assert(sim.spec_walk(start, draws, budget) == event);
                assert(sim.spec_walk(start, more, budget) == event);
            },
        }
    }
}

/// With the target unchanged, more stuck particles never mean less
/// progress.
pub proof fn lemma_progress_monotonic(before: int, after: int, target: int)
    requires
        0 <= before <= after,
        0 < target,
    ensures
        before * 1000 / target <= after * 1000 / target,
{
    vstd::arithmetic::div_mod::lemma_div_is_ordered(before * 1000, after * 1000, target);
}

/// Seeding is a function of the pattern and the size of the grid alone: two
/// runs on grids of one size that have both just been seeded with one
/// pattern are in the same state. So a second reset changes nothing that
/// the first left.
pub proof fn lemma_reset_is_idempotent(once: DlaSimulation, twice: DlaSimulation, pattern: SeedPattern)
    requires
        once.is_fresh(pattern),
        twice.is_fresh(pattern),
        once.spec_grid_width() == twice.spec_grid_width(),
        once.spec_grid_height() == twice.spec_grid_height(),
    ensures
        twice.same_run(&once),
{
}

/// Whatever a step did, the grid holds as many occupied cells as the run
/// counts stuck particles, the share of the target that has stuck has not
/// fallen, and the cluster's radius has not shrunk.
pub proof fn lemma_growth_is_monotonic(before: DlaSimulation, after: DlaSimulation)
    requires
        before.wf(),
        after.same_parameters(&before),
        after.same_run(&before) || exists|x: int, y: int| #[trigger] after.grew_at(&before, x, y),
    ensures
        occupied_count(after.spec_cells()) == after.spec_particles_stuck(),
        after.spec_progress() >= before.spec_progress(),
        after.spec_max_radius() >= before.spec_max_radius(),
{
    if !after.same_run(&before) {
        let (x, y) = choose|x: int, y: int| #[trigger] after.grew_at(&before, x, y);
        let w = before.spec_grid_width() as int;
        let h = before.spec_grid_height() as int;
        lemma_cell_index_bound(w, h, x, y);
        lemma_count_update(
            before.spec_cells(),
            cell_index(w, x, y),
            Some(before.spec_particles_stuck()),
        );
        lemma_progress_monotonic(
            before.spec_particles_stuck() as int,
            after.spec_particles_stuck() as int,
            before.spec_num_particles() as int,
        );
    }
}

} // verus!
