use dla_sim::settings::{BoundaryBehavior, SimulationSettings, SpawnMode};
use dla_sim::simulation::{DlaSimulation, SeedPattern, WalkEvent};
use dla_sim::walk::Position;

fn occupied(sim: &DlaSimulation) -> Vec<(usize, usize, usize)> {
    let mut cells = Vec::new();
    for y in 0..sim.grid_height() {
        for x in 0..sim.grid_width() {
            if let Some(order) = sim.get_cell(x, y) {
                cells.push((x, y, order));
            }
        }
    }
    cells
}

#[test]
fn new_run_has_the_standard_parameters() {
    let sim = DlaSimulation::new(100, 80);
    assert_eq!(sim.grid_width(), 100);
    assert_eq!(sim.grid_height(), 80);
    assert_eq!(sim.num_particles(), 5000);
    assert_eq!(sim.stickiness(), 1000);
    assert_eq!(sim.particles_stuck(), 1);
    assert_eq!(sim.max_radius(), 1000);
    assert!(!sim.paused());
    assert!(!sim.is_complete());
    assert_eq!(sim.seed_pattern(), SeedPattern::Point);
    assert_eq!(sim.settings(), SimulationSettings::standard());
}

#[test]
fn point_seed_is_the_centre_cell() {
    let mut sim = DlaSimulation::new(100, 100);
    sim.reset_with_seed(SeedPattern::Point);
    assert_eq!(sim.particles_stuck(), 1);
    assert_eq!(occupied(&sim), vec![(50, 50, 0)]);
    let odd = DlaSimulation::new(101, 75);
    assert_eq!(occupied(&odd), vec![(50, 37, 0)]);
}

#[test]
fn line_seed_is_a_centred_horizontal_run() {
    let mut sim = DlaSimulation::new(100, 100);
    sim.reset_with_seed(SeedPattern::Line);
    assert_eq!(sim.particles_stuck(), 40);
    assert_eq!(sim.max_radius(), 20_000);
    let cells = occupied(&sim);
    assert_eq!(cells.len(), 40);
    for (i, cell) in cells.iter().enumerate() {
        assert_eq!(*cell, (30 + i, 50, i));
    }
}

#[test]
fn line_seed_is_bounded_by_the_width() {
    let mut sim = DlaSimulation::new(40, 100);
    sim.reset_with_seed(SeedPattern::Line);
    assert_eq!(sim.particles_stuck(), 20);
    assert_eq!(sim.max_radius(), 10_000);
    let cells = occupied(&sim);
    assert_eq!(cells.first(), Some(&(10, 50, 0)));
    assert_eq!(cells.last(), Some(&(29, 50, 19)));
    let mut narrow = DlaSimulation::new(3, 3);
    narrow.reset_with_seed(SeedPattern::Line);
    assert_eq!(narrow.particles_stuck(), 0);
    assert!(occupied(&narrow).is_empty());
}

#[test]
fn cross_seed_counts_each_cell_once() {
    let mut sim = DlaSimulation::new(100, 100);
    sim.reset_with_seed(SeedPattern::Cross);
    assert_eq!(sim.particles_stuck(), 37);
    assert_eq!(sim.occupied_cells(), 37);
    assert_eq!(sim.max_radius(), 10_000);
    assert_eq!(sim.get_cell(50, 50), Some(0));
    assert_eq!(sim.get_cell(49, 50), Some(1));
    assert_eq!(sim.get_cell(51, 50), Some(2));
    assert_eq!(sim.get_cell(50, 49), Some(3));
    assert_eq!(sim.get_cell(50, 51), Some(4));
    assert_eq!(sim.get_cell(41, 50), Some(33));
    assert_eq!(sim.get_cell(50, 59), Some(36));
    assert_eq!(sim.get_cell(40, 50), None);
    assert_eq!(sim.get_cell(51, 51), None);
}

#[test]
fn circle_seed_is_an_outline() {
    let mut sim = DlaSimulation::new(100, 100);
    sim.reset_with_seed(SeedPattern::Circle);
    assert_eq!(sim.particles_stuck(), 86);
    assert_eq!(sim.occupied_cells(), 86);
    assert_eq!(sim.max_radius(), 12_000);
    assert_eq!(sim.get_cell(62, 50), Some(0));
    assert_eq!(sim.get_cell(61, 50), Some(1));
    assert_eq!(sim.get_cell(61, 51), Some(2));
    assert_eq!(sim.get_cell(50, 50), None);
    // Every cell of the outline lies about twelve cells from the centre.
    for (x, y, _) in occupied(&sim) {
        let dx = x as i64 - 50;
        let dy = y as i64 - 50;
        let d2 = dx * dx + dy * dy;
        assert!((100..=170).contains(&d2), "({x}, {y})");
    }
    let mut large = DlaSimulation::new(200, 200);
    large.reset_with_seed(SeedPattern::Circle);
    assert_eq!(large.particles_stuck(), 110);
    assert_eq!(large.max_radius(), 15_000);
}

#[test]
fn seed_orders_are_distinct_and_below_the_count() {
    for &pattern in SeedPattern::all() {
        let mut sim = DlaSimulation::new(100, 100);
        sim.reset_with_seed(pattern);
        let mut orders: Vec<usize> = occupied(&sim).iter().map(|c| c.2).collect();
        orders.sort();
        let expected: Vec<usize> = (0..sim.particles_stuck()).collect();
        assert_eq!(orders, expected);
    }
}

#[test]
fn reset_is_idempotent() {
    for &pattern in SeedPattern::all() {
        let mut sim = DlaSimulation::new(100, 100);
        sim.reset_with_seed(pattern);
        let once = (occupied(&sim), sim.particles_stuck(), sim.max_radius(), sim.paused());
        sim.reset_with_seed(pattern);
        let twice = (occupied(&sim), sim.particles_stuck(), sim.max_radius(), sim.paused());
        assert_eq!(once, twice);
        assert_eq!(sim.seed_pattern(), pattern);
    }
}

#[test]
fn reset_clears_what_has_grown_and_unpauses() {
    let mut sim = DlaSimulation::new(100, 100);
    assert!(sim.attach(51, 50));
    assert!(sim.attach(70, 50));
    sim.toggle_pause();
    sim.adjust_particles(-1000);
    sim.reset();
    assert_eq!(occupied(&sim), vec![(50, 50, 0)]);
    assert_eq!(sim.particles_stuck(), 1);
    assert_eq!(sim.max_radius(), 1000);
    assert!(!sim.paused());
    assert_eq!(sim.num_particles(), 4000);
}

#[test]
fn get_cell_outside_the_grid_is_empty() {
    let sim = DlaSimulation::new(100, 100);
    assert_eq!(sim.get_cell(100, 50), None);
    assert_eq!(sim.get_cell(50, 100), None);
    assert_eq!(sim.get_cell(usize::MAX, usize::MAX), None);
    assert_eq!(sim.get_cell(0, 0), None);
    assert_eq!(sim.get_cell(50, 50), Some(0));
}

#[test]
fn attach_commits_to_an_empty_cell_only() {
    let mut sim = DlaSimulation::new(100, 100);
    assert!(sim.attach(53, 54));
    assert_eq!(sim.get_cell(53, 54), Some(1));
    assert_eq!(sim.particles_stuck(), 2);
    assert_eq!(sim.max_radius(), 5000);
    // An occupied cell and a cell off the grid change nothing.
    assert!(!sim.attach(53, 54));
    assert!(!sim.attach(100, 0));
    assert_eq!(sim.particles_stuck(), 2);
    assert_eq!(sim.occupied_cells(), 2);
    // A nearer cell leaves the radius as it is.
    assert!(sim.attach(51, 50));
    assert_eq!(sim.get_cell(51, 50), Some(2));
    assert_eq!(sim.max_radius(), 5000);
}

#[test]
fn progress_is_the_share_of_the_target() {
    let mut sim = DlaSimulation::new(100, 100);
    sim.reset_with_seed(SeedPattern::Line);
    assert_eq!(sim.progress(), 8);
    sim.adjust_particles(-4900);
    assert_eq!(sim.num_particles(), 100);
    assert_eq!(sim.progress(), 400);
    assert!(!sim.is_complete());
    // Lowering the target below what has stuck carries the share past one.
    let mut cross = DlaSimulation::new(200, 200);
    cross.reset_with_seed(SeedPattern::Circle);
    cross.adjust_particles(-4900);
    assert_eq!(cross.progress(), 1100);
    assert!(cross.is_complete());
}

#[test]
fn toggle_pause_flips_the_flag() {
    let mut sim = DlaSimulation::new(100, 100);
    sim.toggle_pause();
    assert!(sim.paused());
    sim.toggle_pause();
    assert!(!sim.paused());
}

#[test]
fn paused_run_does_not_step() {
    let mut sim = DlaSimulation::new(100, 100);
    sim.toggle_pause();
    for _ in 0..20 {
        assert!(!sim.step());
    }
    assert_eq!(occupied(&sim), vec![(50, 50, 0)]);
    assert_eq!(sim.max_radius(), 1000);
}

#[test]
fn complete_run_does_not_step() {
    let mut sim = DlaSimulation::new(200, 200);
    sim.reset_with_seed(SeedPattern::Circle);
    sim.adjust_particles(-4900);
    let before = occupied(&sim);
    assert!(sim.is_complete());
    assert!(!sim.step());
    assert_eq!(occupied(&sim), before);
}

#[test]
fn resize_to_the_same_size_changes_nothing() {
    let mut sim = DlaSimulation::new(100, 100);
    assert!(sim.attach(51, 50));
    sim.toggle_pause();
    let before = (occupied(&sim), sim.particles_stuck(), sim.max_radius());
    sim.resize(100, 100);
    assert_eq!((occupied(&sim), sim.particles_stuck(), sim.max_radius()), before);
    assert!(sim.paused());
}

#[test]
fn resize_to_another_size_reseeds() {
    let mut sim = DlaSimulation::new(100, 100);
    sim.reset_with_seed(SeedPattern::Line);
    assert!(sim.attach(51, 51));
    sim.toggle_pause();
    sim.adjust_stickiness(-300);
    sim.resize(80, 60);
    let mut fresh = DlaSimulation::new(80, 60);
    fresh.reset_with_seed(SeedPattern::Line);
    assert_eq!(sim.grid_width(), 80);
    assert_eq!(sim.grid_height(), 60);
    assert_eq!(occupied(&sim), occupied(&fresh));
    assert_eq!(sim.particles_stuck(), fresh.particles_stuck());
    assert_eq!(sim.max_radius(), fresh.max_radius());
    assert_eq!(sim.seed_pattern(), SeedPattern::Line);
    assert!(!sim.paused());
    assert_eq!(sim.stickiness(), 700);
}

#[test]
fn a_particle_beside_the_cluster_attaches() {
    let sim = DlaSimulation::new(100, 100);
    // One step of two cells to the left ends beside the seed.
    assert_eq!(
        sim.evaluate(Position { x: 53_500, y: 50_500 }, 500_000, 999_999),
        WalkEvent::Attach { x: 51, y: 50 }
    );
}

#[test]
fn a_particle_away_from_the_cluster_walks_on() {
    let sim = DlaSimulation::new(100, 100);
    assert_eq!(
        sim.evaluate(Position { x: 60_500, y: 50_500 }, 500_000, 0),
        WalkEvent::Continue(Position { x: 58_500, y: 50_500 })
    );
}

#[test]
fn a_particle_on_the_cluster_walks_on() {
    let sim = DlaSimulation::new(100, 100);
    assert_eq!(
        sim.evaluate(Position { x: 52_500, y: 50_500 }, 500_000, 0),
        WalkEvent::Continue(Position { x: 50_500, y: 50_500 })
    );
}

#[test]
fn the_draw_decides_at_partial_stickiness() {
    let mut sim = DlaSimulation::new(100, 100);
    sim.adjust_stickiness(-500);
    let walker = Position { x: 53_500, y: 50_500 };
    assert_eq!(sim.evaluate(walker, 500_000, 499_999), WalkEvent::Attach { x: 51, y: 50 });
    assert_eq!(
        sim.evaluate(walker, 500_000, 500_000),
        WalkEvent::Continue(Position { x: 51_500, y: 50_500 })
    );
}

#[test]
fn a_particle_beyond_the_escape_radius_is_given_up() {
    let mut sim = DlaSimulation::new(400, 400);
    sim.adjust_escape_multiplier(-500);
    // The release radius is fifty cells and the multiplier one and a half.
    assert_eq!(
        sim.evaluate(Position { x: 273_000, y: 200_000 }, 0, 0),
        WalkEvent::Continue(Position { x: 275_000, y: 200_000 })
    );
    assert_eq!(sim.evaluate(Position { x: 273_001, y: 200_000 }, 0, 0), WalkEvent::Discard);
}

#[test]
fn the_edge_acts_as_configured() {
    let mut sim = DlaSimulation::new(100, 100);
    let walker = Position { x: 99_500, y: 40_000 };
    assert_eq!(
        sim.evaluate(walker, 0, 0),
        WalkEvent::Continue(Position { x: 99_999, y: 40_000 })
    );
    sim.set_boundary_behavior(BoundaryBehavior::Wrap);
    assert_eq!(sim.evaluate(walker, 0, 0), WalkEvent::Continue(Position { x: 1_500, y: 40_000 }));
    sim.set_boundary_behavior(BoundaryBehavior::Bounce);
    assert_eq!(
        sim.evaluate(walker, 0, 0),
        WalkEvent::Continue(Position { x: 98_498, y: 40_000 })
    );
    sim.set_boundary_behavior(BoundaryBehavior::Absorb);
    assert_eq!(sim.evaluate(walker, 0, 0), WalkEvent::Discard);
    sim.set_boundary_behavior(BoundaryBehavior::Stick);
    assert_eq!(sim.evaluate(walker, 0, 0), WalkEvent::Attach { x: 99, y: 40 });
    assert!(sim.attach(99, 40));
    assert_eq!(
        sim.evaluate(walker, 0, 0),
        WalkEvent::Continue(Position { x: 99_999, y: 40_000 })
    );
}

#[test]
fn steps_keep_count_progress_and_radius_in_order() {
    let mut sim = DlaSimulation::new(64, 64);
    sim.reset_with_seed(SeedPattern::Cross);
    let mut stuck = sim.particles_stuck();
    let mut radius = sim.max_radius();
    let mut progress = sim.progress();
    for _ in 0..150 {
        let before = occupied(&sim);
        assert!(sim.step());
        assert_eq!(sim.occupied_cells(), sim.particles_stuck());
        assert!(sim.particles_stuck() == stuck || sim.particles_stuck() == stuck + 1);
        assert!(sim.max_radius() >= radius);
        assert!(sim.progress() >= progress);
        let after = occupied(&sim);
        if sim.particles_stuck() == stuck {
            assert_eq!(after, before);
        } else {
            // Exactly one cell is new, and it holds the order that was next.
            let new: Vec<_> = after.iter().filter(|c| !before.contains(c)).collect();
            assert_eq!(new.len(), 1);
            assert_eq!(new[0].2, stuck);
            assert_eq!(after.len(), before.len() + 1);
        }
        stuck = sim.particles_stuck();
        radius = sim.max_radius();
        progress = sim.progress();
    }
}

#[test]
fn the_cluster_grows_from_every_side() {
    let mut sim = DlaSimulation::new(64, 64);
    sim.reset_with_seed(SeedPattern::Circle);
    let seed = sim.particles_stuck();
    for _ in 0..300 {
        sim.step();
    }
    // Draws that never changed would walk every particle along one line.
    assert!(sim.particles_stuck() > seed + 20);
    let grown: Vec<_> = occupied(&sim).into_iter().filter(|c| c.2 >= seed).collect();
    assert!(grown.iter().any(|c| c.0 < 32));
    assert!(grown.iter().any(|c| c.0 > 32));
    assert!(grown.iter().any(|c| c.1 < 32));
    assert!(grown.iter().any(|c| c.1 > 32));
}

#[test]
fn steps_stop_at_the_target() {
    let mut sim = DlaSimulation::new(64, 64);
    sim.reset_with_seed(SeedPattern::Circle);
    sim.adjust_particles(-4900);
    let mut calls = 0;
    while sim.step() {
        calls += 1;
        assert!(calls < 5000);
    }
    assert_eq!(sim.particles_stuck(), 100);
    assert_eq!(sim.occupied_cells(), 100);
    assert!(sim.is_complete());
    assert_eq!(sim.progress(), 1000);
}

#[test]
fn every_spawn_mode_and_boundary_keeps_the_count() {
    for mode in [
        SpawnMode::Circle,
        SpawnMode::Edges,
        SpawnMode::Corners,
        SpawnMode::Random,
        SpawnMode::Directional,
    ] {
        for boundary in [
            BoundaryBehavior::Clamp,
            BoundaryBehavior::Wrap,
            BoundaryBehavior::Bounce,
            BoundaryBehavior::Stick,
            BoundaryBehavior::Absorb,
        ] {
            let mut sim = DlaSimulation::new(64, 64);
            sim.reset_with_seed(SeedPattern::Cross);
            sim.set_spawn_mode(mode);
            sim.set_boundary_behavior(boundary);
            sim.adjust_max_iterations(-9000);
            for _ in 0..40 {
                sim.step();
                assert_eq!(sim.occupied_cells(), sim.particles_stuck());
            }
        }
    }
}

fn toward_the_left(pairs: usize) -> Vec<u32> {
    // Released at the right end of the ring, then straight to the left.
    let mut draws = vec![0, 0];
    for _ in 0..pairs {
        draws.push(500_000);
        draws.push(0);
    }
    draws
}

#[test]
fn given_draws_walk_the_particle_to_the_cluster() {
    let mut sim = DlaSimulation::new(100, 100);
    // From x = 99.999 in steps of two cells: after 24 steps the particle
    // stands in column 51, beside the seed.
    assert!(sim.step_with(&toward_the_left(24)));
    assert_eq!(occupied(&sim), vec![(50, 50, 0), (51, 50, 1)]);
    assert_eq!(sim.particles_stuck(), 2);
    assert_eq!(sim.max_radius(), 1000);
}

#[test]
fn draws_beyond_the_end_of_the_walk_are_not_used() {
    let mut sim = DlaSimulation::new(100, 100);
    assert!(sim.step_with(&toward_the_left(60)));
    assert_eq!(occupied(&sim), vec![(50, 50, 0), (51, 50, 1)]);
}

#[test]
fn a_walk_that_runs_out_of_draws_changes_nothing() {
    let mut sim = DlaSimulation::new(100, 100);
    assert!(sim.step_with(&toward_the_left(23)));
    assert_eq!(occupied(&sim), vec![(50, 50, 0)]);
    assert!(sim.step_with(&vec![]));
    assert!(sim.step_with(&vec![7]));
    assert!(sim.step_with(&vec![7, 8, 9]));
    assert_eq!(occupied(&sim), vec![(50, 50, 0)]);
    assert_eq!(sim.particles_stuck(), 1);
}

#[test]
fn a_walk_ends_after_the_granted_iterations() {
    let mut sim = DlaSimulation::new(200, 200);
    sim.adjust_walk_step(-1000);
    sim.adjust_max_iterations(-9000);
    assert_eq!(sim.settings().max_walk_iterations, 1000);
    // A thousand steps to and fro on the ring, then 49 steps of one cell to
    // the left, which end beside the seed.
    let mut draws = vec![0, 0];
    for _ in 0..500 {
        draws.extend([0, 0, 500_000, 0]);
    }
    for _ in 0..49 {
        draws.extend([500_000, 0]);
    }
    assert!(sim.step_with(&draws));
    assert_eq!(occupied(&sim), vec![(100, 100, 0)]);
    sim.adjust_max_iterations(1000);
    assert!(sim.step_with(&draws));
    assert_eq!(occupied(&sim), vec![(100, 100, 0), (101, 100, 1)]);
}

#[test]
fn given_draws_respect_pause_and_target() {
    let mut sim = DlaSimulation::new(100, 100);
    sim.toggle_pause();
    assert!(!sim.step_with(&toward_the_left(24)));
    assert_eq!(occupied(&sim), vec![(50, 50, 0)]);
    sim.toggle_pause();
    sim.reset_with_seed(SeedPattern::Circle);
    sim.adjust_particles(-4950);
    let before = occupied(&sim);
    assert!(sim.is_complete() == (sim.particles_stuck() >= 100));
    let active = sim.step_with(&toward_the_left(24));
    assert_eq!(active, !sim.is_complete() || occupied(&sim) != before);
}

#[test]
fn the_same_draws_give_the_same_run() {
    let draws: Vec<u32> = (0..4000u32).map(|k| k.wrapping_mul(2_654_435_761) % 1_000_000).collect();
    let mut first = DlaSimulation::new(64, 64);
    let mut second = DlaSimulation::new(64, 64);
    first.reset_with_seed(SeedPattern::Cross);
    second.reset_with_seed(SeedPattern::Cross);
    for round in 0..30 {
        let from = (round * 97) % 1000;
        let slice = draws[from..].to_vec();
        assert_eq!(first.step_with(&slice), second.step_with(&slice));
        assert_eq!(occupied(&first), occupied(&second));
        assert_eq!(first.max_radius(), second.max_radius());
        assert_eq!(first.occupied_cells(), first.particles_stuck());
    }
}

#[test]
fn occupied_cells_know_their_distance_from_the_centre() {
    let mut sim = DlaSimulation::new(100, 100);
    assert!(sim.attach(53, 54));
    assert_eq!(sim.get_cell_distance(50, 50), Some(0));
    assert_eq!(sim.get_cell_distance(53, 54), Some(5000));
    assert_eq!(sim.get_cell_distance(54, 53), None);
    assert_eq!(sim.get_cell_distance(100, 100), None);
}

#[test]
fn the_grid_of_a_run_can_be_looked_at() {
    let mut sim = DlaSimulation::new(100, 80);
    sim.reset_with_seed(SeedPattern::Line);
    let grid = sim.grid();
    assert_eq!((grid.width(), grid.height()), (100, 80));
    assert_eq!(grid.count_occupied(), 40);
    assert_eq!(grid.get(30, 40), Some(0));
}
