use dla_sim::braille::{
    calculate_simulation_size, dot_bit, render_to_braille, BRAILLE_BASE, BRAILLE_DOTS,
};
use dla_sim::simulation::{DlaSimulation, SeedPattern};

#[test]
fn test_braille_pattern() {
    // Test that single dot patterns work correctly
    assert_eq!(BRAILLE_DOTS[0][0], 0x01); // Top-left
    assert_eq!(BRAILLE_DOTS[1][0], 0x08); // Top-right
    assert_eq!(BRAILLE_DOTS[0][3], 0x40); // Bottom-left
    assert_eq!(BRAILLE_DOTS[1][3], 0x80); // Bottom-right

    // All dots should give 0xFF
    let all_dots: u8 = BRAILLE_DOTS[0].iter().sum::<u8>() + BRAILLE_DOTS[1].iter().sum::<u8>();
    assert_eq!(all_dots, 0xFF);
}

#[test]
fn test_braille_char_generation() {
    // Empty pattern
    let empty = char::from_u32(BRAILLE_BASE).unwrap();
    assert_eq!(empty, '\u{2800}');

    // Full pattern (all 8 dots)
    let full = char::from_u32(BRAILLE_BASE + 0xFF).unwrap();
    assert_eq!(full, '\u{28FF}');
}

#[test]
fn dot_bits_follow_the_table() {
    for dx in 0..2 {
        for dy in 0..4 {
            assert_eq!(dot_bit(dx, dy), BRAILLE_DOTS[dx][dy]);
        }
    }
    assert_eq!(dot_bit(0, 2), 0x04);
    assert_eq!(dot_bit(1, 1), 0x10);
}

#[test]
fn simulation_size_matches_the_dots_of_the_canvas() {
    assert_eq!(calculate_simulation_size(100, 40), (200, 160));
    assert_eq!(calculate_simulation_size(33, 17), (66, 68));
}

#[test]
fn simulation_size_is_at_least_sixty_four() {
    assert_eq!(calculate_simulation_size(10, 10), (64, 64));
    assert_eq!(calculate_simulation_size(0, 0), (64, 64));
    assert_eq!(calculate_simulation_size(32, 16), (64, 64));
    assert_eq!(calculate_simulation_size(65535, 65535), (131_070, 262_140));
}

#[test]
fn point_seed_renders_one_dot() {
    let sim = DlaSimulation::new(64, 64);
    let cells = render_to_braille(&sim, 32, 16);
    assert_eq!(cells.len(), 1);
    let cell = cells[0];
    assert_eq!((cell.x, cell.y), (16, 8));
    assert_eq!(cell.pattern, 0x01);
    assert_eq!(cell.char, '\u{2801}');
    assert_eq!(cell.dot_count, 1);
    assert_eq!(cell.age_total, 0);
}

#[test]
fn line_seed_renders_a_row_of_top_dots() {
    let mut sim = DlaSimulation::new(64, 64);
    sim.reset_with_seed(SeedPattern::Line);
    // The line covers the columns 16..48 of row 32: both top dots of the
    // characters 8..24 in character row 8.
    let cells = render_to_braille(&sim, 32, 16);
    assert_eq!(cells.len(), 16);
    for (i, cell) in cells.iter().enumerate() {
        assert_eq!((cell.x as usize, cell.y), (8 + i, 8));
        assert_eq!(cell.pattern, 0x01 + 0x08);
        assert_eq!(cell.char, '\u{2809}');
        assert_eq!(cell.dot_count, 2);
        assert_eq!(cell.age_total, (2 * i + 2 * i + 1) as u64);
    }
}

#[test]
fn coarse_canvas_samples_the_grid() {
    let sim = DlaSimulation::new(64, 64);
    // One character for the whole grid: its dots sample the columns 0 and 32
    // and the rows 0, 16, 32 and 48; the seed at (32, 32) is the third dot
    // of the right column.
    let cells = render_to_braille(&sim, 1, 1);
    assert_eq!(cells.len(), 1);
    assert_eq!(cells[0].pattern, 0x20);
    assert_eq!(cells[0].char, '\u{2820}');
}

#[test]
fn empty_canvas_renders_nothing() {
    let sim = DlaSimulation::new(64, 64);
    assert!(render_to_braille(&sim, 0, 16).is_empty());
    assert!(render_to_braille(&sim, 32, 0).is_empty());
}
