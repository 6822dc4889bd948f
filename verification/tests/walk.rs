use dla_sim::settings::{BoundaryBehavior, Neighborhood, SimulationSettings, SpawnMode};
use dla_sim::walk::{
    apply_boundary, cell_distance, center_distance, clamp_to_grid, direction, has_escaped,
    in_grid, propose_move, quarter, reference_radius, ring_point, spawn_position, spawn_radius,
    step_length, unit_angle, BoundaryOutcome, Position,
};

fn at(x: i64, y: i64) -> Position {
    Position { x, y }
}

#[test]
fn spawn_radius_is_offset_from_the_cluster_but_not_below_the_floor() {
    let s = SimulationSettings::standard();
    assert_eq!(spawn_radius(1_000, &s), 50_000);
    assert_eq!(spawn_radius(40_000, &s), 50_000);
    assert_eq!(spawn_radius(40_001, &s), 50_001);
    assert_eq!(spawn_radius(75_000, &s), 85_000);
}

#[test]
fn draws_map_onto_angles_and_quarters() {
    assert_eq!(unit_angle(0), 0);
    assert_eq!(unit_angle(250_000), 90_000);
    assert_eq!(unit_angle(500_000), 180_000);
    assert_eq!(unit_angle(999_999), 359_999);
    assert_eq!(unit_angle(1_000_000), 0);
    assert_eq!(quarter(0), 0);
    assert_eq!(quarter(249_999), 0);
    assert_eq!(quarter(250_000), 1);
    assert_eq!(quarter(600_000), 2);
    assert_eq!(quarter(999_999), 3);
}

#[test]
fn reference_radius_is_half_the_longer_side() {
    assert_eq!(reference_radius(100, 100), 50_000);
    assert_eq!(reference_radius(200, 100), 100_000);
    assert_eq!(reference_radius(64, 128), 64_000);
}

#[test]
fn distances_are_measured_from_the_centre() {
    assert_eq!(center_distance(100, 100, at(53_500, 50_500)), 3535);
    assert_eq!(center_distance(100, 100, at(50_000, 50_000)), 0);
    assert_eq!(cell_distance(100, 100, 50, 50), 0);
    assert_eq!(cell_distance(100, 100, 53, 54), 5000);
    assert_eq!(cell_distance(101, 101, 50, 50), 707);
}

#[test]
fn ring_point_lies_on_the_ring() {
    assert_eq!(ring_point(100, 100, 50_000, 0), at(100_000, 50_000));
    assert_eq!(ring_point(100, 100, 50_000, 90_000), at(50_000, 100_000));
    assert_eq!(ring_point(100, 100, 50_000, 180_000), at(0, 50_000));
    assert_eq!(ring_point(100, 100, 12_000, 30_000), at(60_368, 56_000));
}

#[test]
fn circle_spawn_is_on_the_ring_brought_onto_the_grid() {
    let s = SimulationSettings::standard();
    assert_eq!(spawn_position(100, 100, 1000, &s, 0, 0), at(99_999, 50_000));
    assert_eq!(spawn_position(100, 100, 1000, &s, 250_000, 7), at(50_000, 99_999));
    assert_eq!(spawn_position(100, 100, 1000, &s, 500_000, 7), at(0, 50_000));
    // On a larger grid the ring lies inside it.
    assert_eq!(spawn_position(200, 200, 1000, &s, 0, 0), at(150_000, 100_000));
}

#[test]
fn edge_spawn_picks_an_edge_and_a_place_along_it() {
    let mut s = SimulationSettings::standard();
    s.spawn_mode = SpawnMode::Edges;
    assert_eq!(spawn_position(100, 100, 1000, &s, 0, 500_000), at(50_000, 0));
    assert_eq!(spawn_position(100, 100, 1000, &s, 300_000, 500_000), at(50_000, 99_999));
    assert_eq!(spawn_position(100, 100, 1000, &s, 600_000, 250_000), at(0, 25_000));
    assert_eq!(spawn_position(100, 100, 1000, &s, 900_000, 999_999), at(99_999, 99_999));
}

#[test]
fn corner_spawn_picks_a_corner() {
    let mut s = SimulationSettings::standard();
    s.spawn_mode = SpawnMode::Corners;
    assert_eq!(spawn_position(100, 80, 1000, &s, 0, 0), at(0, 0));
    assert_eq!(spawn_position(100, 80, 1000, &s, 300_000, 0), at(99_999, 0));
    assert_eq!(spawn_position(100, 80, 1000, &s, 600_000, 0), at(0, 79_999));
    assert_eq!(spawn_position(100, 80, 1000, &s, 999_999, 0), at(99_999, 79_999));
}

#[test]
fn random_spawn_covers_the_grid() {
    let mut s = SimulationSettings::standard();
    s.spawn_mode = SpawnMode::Random;
    assert_eq!(spawn_position(100, 100, 1000, &s, 123_456, 654_321), at(12_345, 65_432));
    assert_eq!(spawn_position(100, 100, 1000, &s, 0, 999_999), at(0, 99_999));
}

#[test]
fn directional_spawn_faces_against_the_bias() {
    let mut s = SimulationSettings::standard();
    s.spawn_mode = SpawnMode::Directional;
    s.walk_bias_angle = 0;
    // The middle of the arc lies opposite the bias.
    assert_eq!(spawn_position(200, 200, 1000, &s, 500_000, 0), at(50_000, 100_000));
    s.walk_bias_angle = 90;
    assert_eq!(spawn_position(200, 200, 1000, &s, 500_000, 0), at(100_000, 50_000));
    // The arc starts an eighth of a turn before the middle.
    s.walk_bias_angle = 45;
    assert_eq!(spawn_position(200, 200, 1000, &s, 0, 0), at(50_000, 100_000));
}

#[test]
fn step_length_is_the_configured_length_unless_adaptive() {
    let mut s = SimulationSettings::standard();
    assert_eq!(step_length(&s, 39_000), 2000);
    s.adaptive_step = true;
    assert_eq!(step_length(&s, 39_000), 19_500);
    assert_eq!(step_length(&s, 4_000), 2000);
    assert_eq!(step_length(&s, 4_002), 2001);
    s.adaptive_step_factor = 1000;
    assert_eq!(step_length(&s, 39_000), 39_000);
}

#[test]
fn direction_is_the_heading_or_the_nearest_lattice_direction() {
    let mut s = SimulationSettings::standard();
    assert_eq!(direction(&s, 0), (1000, 0));
    assert_eq!(direction(&s, 90_000), (0, 1000));
    assert_eq!(direction(&s, 30_000), (864, 500));
    s.lattice_walk = true;
    assert_eq!(direction(&s, 36_000), (1000, 1000));
    assert_eq!(direction(&s, 22_499), (1000, 0));
    assert_eq!(direction(&s, 22_500), (1000, 1000));
    assert_eq!(direction(&s, 180_000), (-1000, 0));
    assert_eq!(direction(&s, 270_000), (0, -1000));
    assert_eq!(direction(&s, 350_000), (1000, 0));
    s.neighborhood = Neighborhood::VonNeumann;
    assert_eq!(direction(&s, 36_000), (1000, 0));
    assert_eq!(direction(&s, 45_000), (0, 1000));
    assert_eq!(direction(&s, 200_000), (-1000, 0));
    assert_eq!(direction(&s, 330_000), (1000, 0));
}

#[test]
fn plain_move_follows_the_heading() {
    let s = SimulationSettings::standard();
    assert_eq!(propose_move(100, 100, 1000, &s, at(53_500, 50_500), 500_000), at(51_500, 50_500));
    assert_eq!(propose_move(100, 100, 1000, &s, at(53_500, 50_500), 250_000), at(53_500, 52_500));
    assert_eq!(propose_move(100, 100, 1000, &s, at(99_999, 50_000), 0), at(101_999, 50_000));
}

#[test]
fn walk_bias_pulls_along_its_angle() {
    let mut s = SimulationSettings::standard();
    s.walk_bias_strength = 500;
    s.walk_bias_angle = 90;
    assert_eq!(propose_move(100, 100, 1000, &s, at(53_500, 50_500), 500_000), at(51_500, 51_500));
    s.walk_bias_angle = 180;
    assert_eq!(propose_move(100, 100, 1000, &s, at(53_500, 50_500), 500_000), at(50_500, 50_500));
}

#[test]
fn radial_bias_drifts_in_proportion_to_the_offset() {
    let mut s = SimulationSettings::standard();
    s.radial_bias = 300;
    assert_eq!(propose_move(100, 100, 1000, &s, at(53_500, 50_500), 500_000), at(51_542, 50_506));
    s.radial_bias = -300;
    assert_eq!(propose_move(100, 100, 1000, &s, at(53_500, 50_500), 500_000), at(51_458, 50_494));
}

#[test]
fn adaptive_move_covers_a_share_of_the_gap() {
    let mut s = SimulationSettings::standard();
    s.adaptive_step = true;
    assert_eq!(propose_move(100, 100, 1000, &s, at(90_000, 50_000), 500_000), at(70_500, 50_000));
}

#[test]
fn clamp_puts_a_point_on_the_nearest_cell() {
    assert_eq!(clamp_to_grid(100, 100, at(100_250, 40_000)), at(99_999, 40_000));
    assert_eq!(clamp_to_grid(100, 100, at(-300, -1)), at(0, 0));
    assert_eq!(clamp_to_grid(100, 100, at(5, 6)), at(5, 6));
}

#[test]
fn a_point_on_the_grid_is_left_alone_by_every_boundary() {
    let p = at(12_345, 99_999);
    for b in [
        BoundaryBehavior::Clamp,
        BoundaryBehavior::Wrap,
        BoundaryBehavior::Bounce,
        BoundaryBehavior::Stick,
        BoundaryBehavior::Absorb,
    ] {
        assert_eq!(apply_boundary(100, 100, b, p), BoundaryOutcome::Inside(p));
    }
}

#[test]
fn wrap_reenters_at_the_opposite_edge() {
    // Leaving through the right edge at x = width + 0.250 re-enters at
    // x = 0.250, in the same row.
    assert_eq!(
        apply_boundary(100, 100, BoundaryBehavior::Wrap, at(100_250, 40_000)),
        BoundaryOutcome::Inside(at(250, 40_000))
    );
    assert_eq!(
        apply_boundary(100, 100, BoundaryBehavior::Wrap, at(100_000, 0)),
        BoundaryOutcome::Inside(at(0, 0))
    );
    assert_eq!(
        apply_boundary(100, 100, BoundaryBehavior::Wrap, at(-300, 40_000)),
        BoundaryOutcome::Inside(at(99_700, 40_000))
    );
    assert_eq!(
        apply_boundary(100, 80, BoundaryBehavior::Wrap, at(50_000, 81_000)),
        BoundaryOutcome::Inside(at(50_000, 1_000))
    );
    assert_eq!(
        apply_boundary(100, 100, BoundaryBehavior::Wrap, at(250_250, -100_001)),
        BoundaryOutcome::Inside(at(50_250, 99_999))
    );
}

#[test]
fn clamp_bounce_stick_and_absorb_at_the_edge() {
    let p = at(100_250, 40_000);
    assert_eq!(
        apply_boundary(100, 100, BoundaryBehavior::Clamp, p),
        BoundaryOutcome::Inside(at(99_999, 40_000))
    );
    assert_eq!(
        apply_boundary(100, 100, BoundaryBehavior::Bounce, p),
        BoundaryOutcome::Inside(at(99_748, 40_000))
    );
    assert_eq!(
        apply_boundary(100, 100, BoundaryBehavior::Stick, p),
        BoundaryOutcome::Stuck(at(99_999, 40_000))
    );
    assert_eq!(apply_boundary(100, 100, BoundaryBehavior::Absorb, p), BoundaryOutcome::Absorbed);
    assert_eq!(
        apply_boundary(100, 100, BoundaryBehavior::Bounce, at(-300, 40_000)),
        BoundaryOutcome::Inside(at(300, 40_000))
    );
    assert_eq!(
        apply_boundary(100, 100, BoundaryBehavior::Bounce, at(-300_000, 500_000)),
        BoundaryOutcome::Inside(at(99_999, 0))
    );
}

#[test]
fn escape_needs_strictly_more_than_the_radius() {
    assert!(!has_escaped(100_000, 50_000, 2000));
    assert!(has_escaped(100_001, 50_000, 2000));
    assert!(!has_escaped(74_999, 50_000, 1500));
    assert!(has_escaped(75_001, 50_000, 1500));
    assert!(!has_escaped(u64::MAX / 1000, u64::MAX, u32::MAX));
}

#[test]
fn the_grid_ends_just_before_its_extent() {
    assert!(in_grid(100, 80, at(0, 0)));
    assert!(in_grid(100, 80, at(99_999, 79_999)));
    assert!(!in_grid(100, 80, at(100_000, 0)));
    assert!(!in_grid(100, 80, at(0, 80_000)));
    assert!(!in_grid(100, 80, at(-1, 0)));
}
