use dla_sim::settings::{
    adjust_i32, adjust_u32, BoundaryBehavior, Neighborhood, SimulationSettings, SpawnMode,
};
use dla_sim::simulation::{DlaSimulation, SeedPattern};

#[test]
fn particles_are_clamped_to_their_range() {
    let mut sim = DlaSimulation::new(100, 100);
    sim.adjust_particles(100_000);
    assert_eq!(sim.num_particles(), 10_000);
    sim.adjust_particles(-100_000);
    assert_eq!(sim.num_particles(), 100);
    sim.adjust_particles(250);
    assert_eq!(sim.num_particles(), 350);
    sim.adjust_particles(i32::MAX);
    assert_eq!(sim.num_particles(), 10_000);
    sim.adjust_particles(i32::MIN);
    assert_eq!(sim.num_particles(), 100);
}

#[test]
fn stickiness_is_clamped_to_its_range() {
    let mut sim = DlaSimulation::new(100, 100);
    sim.adjust_stickiness(-5000);
    assert_eq!(sim.stickiness(), 100);
    sim.adjust_stickiness(5000);
    assert_eq!(sim.stickiness(), 1000);
    sim.adjust_stickiness(-50);
    assert_eq!(sim.stickiness(), 950);
}

#[test]
fn adjusting_leaves_the_run_alone() {
    let mut sim = DlaSimulation::new(100, 100);
    sim.reset_with_seed(SeedPattern::Line);
    sim.toggle_pause();
    sim.adjust_particles(-1);
    sim.adjust_stickiness(-1);
    sim.adjust_walk_step(1);
    sim.toggle_lattice_walk();
    assert_eq!(sim.particles_stuck(), 40);
    assert_eq!(sim.occupied_cells(), 40);
    assert_eq!(sim.max_radius(), 20_000);
    assert!(sim.paused());
    assert_eq!(sim.seed_pattern(), SeedPattern::Line);
}

#[test]
fn every_setting_is_clamped_at_both_ends() {
    let mut sim = DlaSimulation::new(100, 100);
    sim.adjust_walk_step(i32::MAX);
    sim.adjust_adaptive_factor(i32::MAX);
    sim.adjust_bias_angle(i32::MAX);
    sim.adjust_bias_strength(i32::MAX);
    sim.adjust_radial_bias(i32::MAX);
    sim.adjust_contacts(i32::MAX);
    sim.adjust_tip_stickiness(i32::MAX);
    sim.adjust_side_stickiness(i32::MAX);
    sim.adjust_stickiness_gradient(i32::MAX);
    sim.adjust_spawn_offset(i32::MAX);
    sim.adjust_min_spawn_radius(i32::MAX);
    sim.adjust_escape_multiplier(i32::MAX);
    sim.adjust_max_iterations(i32::MAX);
    let s = sim.settings();
    assert_eq!(s.walk_step_size, 5000);
    assert_eq!(s.adaptive_step_factor, 1000);
    assert_eq!(s.walk_bias_angle, 360);
    assert_eq!(s.walk_bias_strength, 500);
    assert_eq!(s.radial_bias, 300);
    assert_eq!(s.multi_contact_min, 4);
    assert_eq!(s.tip_stickiness, 3000);
    assert_eq!(s.side_stickiness, 3000);
    assert_eq!(s.stickiness_gradient, 1000);
    assert_eq!(s.spawn_radius_offset, 50_000);
    assert_eq!(s.min_spawn_radius, 200_000);
    assert_eq!(s.escape_multiplier, 5000);
    assert_eq!(s.max_walk_iterations, 50_000);
    sim.adjust_walk_step(i32::MIN);
    sim.adjust_adaptive_factor(i32::MIN);
    sim.adjust_bias_angle(i32::MIN);
    sim.adjust_bias_strength(i32::MIN);
    sim.adjust_radial_bias(i32::MIN);
    sim.adjust_contacts(i32::MIN);
    sim.adjust_tip_stickiness(i32::MIN);
    sim.adjust_side_stickiness(i32::MIN);
    sim.adjust_stickiness_gradient(i32::MIN);
    sim.adjust_spawn_offset(i32::MIN);
    sim.adjust_min_spawn_radius(i32::MIN);
    sim.adjust_escape_multiplier(i32::MIN);
    sim.adjust_max_iterations(i32::MIN);
    let s = sim.settings();
    assert_eq!(s.walk_step_size, 500);
    assert_eq!(s.adaptive_step_factor, 100);
    assert_eq!(s.walk_bias_angle, 0);
    assert_eq!(s.walk_bias_strength, 0);
    assert_eq!(s.radial_bias, -300);
    assert_eq!(s.multi_contact_min, 1);
    assert_eq!(s.tip_stickiness, 100);
    assert_eq!(s.side_stickiness, 100);
    assert_eq!(s.stickiness_gradient, -1000);
    assert_eq!(s.spawn_radius_offset, 5000);
    assert_eq!(s.min_spawn_radius, 20_000);
    assert_eq!(s.escape_multiplier, 1500);
    assert_eq!(s.max_walk_iterations, 1000);
}

#[test]
fn small_adjustments_add_up() {
    let mut sim = DlaSimulation::new(100, 100);
    sim.adjust_walk_step(500);
    sim.adjust_radial_bias(-50);
    sim.adjust_contacts(2);
    let s = sim.settings();
    assert_eq!(s.walk_step_size, 2500);
    assert_eq!(s.radial_bias, -50);
    assert_eq!(s.multi_contact_min, 3);
    let rest = SimulationSettings {
        walk_step_size: 2000,
        radial_bias: 0,
        multi_contact_min: 1,
        ..s
    };
    assert_eq!(rest, SimulationSettings::standard());
}

#[test]
fn toggles_and_choices_are_stored() {
    let mut sim = DlaSimulation::new(100, 100);
    sim.toggle_adaptive_step();
    sim.toggle_lattice_walk();
    sim.set_neighborhood(Neighborhood::Extended);
    sim.set_spawn_mode(SpawnMode::Edges);
    sim.set_boundary_behavior(BoundaryBehavior::Absorb);
    let s = sim.settings();
    assert!(s.adaptive_step);
    assert!(s.lattice_walk);
    assert_eq!(s.neighborhood, Neighborhood::Extended);
    assert_eq!(s.spawn_mode, SpawnMode::Edges);
    assert_eq!(s.boundary_behavior, BoundaryBehavior::Absorb);
    sim.toggle_adaptive_step();
    assert!(!sim.settings().adaptive_step);
}

#[test]
fn a_restored_snapshot_is_clamped() {
    let mut wild = SimulationSettings::standard();
    wild.walk_step_size = 9;
    wild.walk_bias_angle = 720;
    wild.radial_bias = -4000;
    wild.multi_contact_min = 0;
    wild.max_walk_iterations = u32::MAX;
    wild.spawn_mode = SpawnMode::Corners;
    let mut sim = DlaSimulation::new(100, 100);
    sim.apply_settings(wild);
    let s = sim.settings();
    assert_eq!(s.walk_step_size, 500);
    assert_eq!(s.walk_bias_angle, 360);
    assert_eq!(s.radial_bias, -300);
    assert_eq!(s.multi_contact_min, 1);
    assert_eq!(s.max_walk_iterations, 50_000);
    assert_eq!(s.spawn_mode, SpawnMode::Corners);
    assert_eq!(s, wild.clamped());
}

#[test]
fn a_snapshot_in_range_is_restored_as_it_is() {
    let mut sim = DlaSimulation::new(100, 100);
    sim.adjust_walk_step(700);
    sim.set_neighborhood(Neighborhood::VonNeumann);
    let snapshot = sim.settings();
    let mut other = DlaSimulation::new(50, 50);
    other.apply_settings(snapshot);
    assert_eq!(other.settings(), snapshot);
    assert_eq!(snapshot.clamped(), snapshot);
}

#[test]
fn adjust_helpers_clamp() {
    assert_eq!(adjust_u32(5, -10, 2, 9), 2);
    assert_eq!(adjust_u32(5, 10, 2, 9), 9);
    assert_eq!(adjust_u32(5, 2, 2, 9), 7);
    assert_eq!(adjust_u32(u32::MAX, i32::MAX, 0, u32::MAX), u32::MAX);
    assert_eq!(adjust_i32(0, -7, -5, 5), -5);
    assert_eq!(adjust_i32(i32::MIN, i32::MIN, -5, 5), -5);
    assert_eq!(adjust_i32(3, 1, -5, 5), 4);
}

#[test]
fn neighbourhoods_cycle_and_have_names() {
    assert_eq!(Neighborhood::VonNeumann.next(), Neighborhood::Moore);
    assert_eq!(Neighborhood::Moore.next(), Neighborhood::Extended);
    assert_eq!(Neighborhood::Extended.next(), Neighborhood::VonNeumann);
    assert_eq!(Neighborhood::VonNeumann.prev(), Neighborhood::Extended);
    assert_eq!(Neighborhood::Moore.name(), "Moore");
    assert_eq!(Neighborhood::VonNeumann.name(), "Von Neumann");
    assert_eq!(Neighborhood::Extended.short_name(), "Extend");
    assert_eq!(Neighborhood::Extended.reach(), 2);
    assert!(Neighborhood::Moore.contains(1, -1));
    assert!(!Neighborhood::VonNeumann.contains(1, -1));
    assert!(!Neighborhood::Moore.contains(0, 0));
    assert!(!Neighborhood::Moore.contains(2, 0));
    assert!(Neighborhood::Extended.contains(2, -2));
}

#[test]
fn spawn_modes_and_boundaries_cycle_and_have_names() {
    let mut mode = SpawnMode::Circle;
    let mut names = Vec::new();
    for _ in 0..5 {
        names.push(mode.name());
        assert_eq!(mode.next().prev(), mode);
        mode = mode.next();
    }
    assert_eq!(mode, SpawnMode::Circle);
    assert_eq!(names, vec!["Circle", "Edges", "Corners", "Random", "Directional"]);
    let mut boundary = BoundaryBehavior::Clamp;
    let mut names = Vec::new();
    for _ in 0..5 {
        names.push(boundary.name());
        assert_eq!(boundary.next().prev(), boundary);
        boundary = boundary.next();
    }
    assert_eq!(boundary, BoundaryBehavior::Clamp);
    assert_eq!(names, vec!["Clamp", "Wrap", "Bounce", "Stick", "Absorb"]);
}

#[test]
fn seed_patterns_cycle_and_have_names() {
    assert_eq!(
        SeedPattern::all().to_vec(),
        vec![SeedPattern::Point, SeedPattern::Line, SeedPattern::Cross, SeedPattern::Circle]
    );
    assert_eq!(SeedPattern::Point.next(), SeedPattern::Line);
    assert_eq!(SeedPattern::Circle.next(), SeedPattern::Point);
    assert_eq!(SeedPattern::Point.prev(), SeedPattern::Circle);
    assert_eq!(SeedPattern::Cross.prev(), SeedPattern::Line);
    assert_eq!(SeedPattern::Point.name(), "Point");
    assert_eq!(SeedPattern::Line.name(), "Line");
    assert_eq!(SeedPattern::Cross.name(), "Cross");
    assert_eq!(SeedPattern::Circle.name(), "Circle");
}
