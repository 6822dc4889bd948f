//! Braille rendering: each character of the canvas shows a block of two by
//! four dots, and each dot samples one cell of the grid.
//!
//! Dot positions and their bits:
//!
//! ```text
//! (0,0)=0x01  (1,0)=0x08
//! (0,1)=0x02  (1,1)=0x10
//! (0,2)=0x04  (1,2)=0x20
//! (0,3)=0x40  (1,3)=0x80
//! ```

use crate::grid::lemma_cell_index_bound;
use crate::simulation::DlaSimulation;
use vstd::prelude::*;

verus! {

/// Code point of the Braille pattern with no dot; the pattern with the dots
/// of `bits` follows `bits` places later.
pub const BRAILLE_BASE: u32 = 0x2800;

/// The bit of each dot, by column and row.
pub const BRAILLE_DOTS: [[u8; 4]; 2] = [[0x01, 0x02, 0x04, 0x40], [0x08, 0x10, 0x20, 0x80]];

/// One character of the rendered canvas: where it stands, the glyph, and
/// what the colour of the glyph is made from, the number of its dots and
/// the sum of the attachment orders that they show.
#[derive(Clone, Copy, Debug, PartialEq, Eq, Structural)]
pub struct BrailleCell {
    pub x: u16,
    pub y: u16,
    pub char: char,
    pub pattern: u8,
    pub dot_count: u8,
    pub age_total: u64,
}

/// The bit of the dot in column `dx` and row `dy`.
pub open spec fn spec_dot_bit(dx: int, dy: int) -> int {
    if dx == 0 {
        if dy == 0 {
            0x01
        } else if dy == 1 {
            0x02
        } else if dy == 2 {
            0x04
        } else {
            0x40
        }
    } else {
        if dy == 0 {
            0x08
        } else if dy == 1 {
            0x10
        } else if dy == 2 {
            0x20
        } else {
            0x80
        }
    }
}

/// The size of the grid that gives every dot of the canvas a cell of its
/// own, at least sixty-four cells either way.
pub open spec fn spec_simulation_size(canvas_width: int, canvas_height: int) -> (int, int) {
    (
        if canvas_width * 2 > 64 {
            canvas_width * 2
        } else {
            64
        },
        if canvas_height * 4 > 64 {
            canvas_height * 4
        } else {
            64
        },
    )
}

/// What the `k`-th dot of the character at `(cx, cy)` shows: the cell of
/// the grid that lies as far across the grid as the dot lies across the
/// canvas. Dots are counted down the left column, then down the right.
pub open spec fn spec_dot_age(
    sim: &DlaSimulation,
    canvas_width: int,
    canvas_height: int,
    cx: int,
    cy: int,
    k: int,
) -> Option<usize> {
    let bx = cx * 2 + k / 4;
    let by = cy * 4 + k % 4;
    sim.spec_get_cell(
        bx * sim.spec_grid_width() / (canvas_width * 2),
        by * sim.spec_grid_height() / (canvas_height * 4),
    )
}

/// The bits of those among the first `k` dots that show a particle.
pub open spec fn spec_pattern_upto(
    sim: &DlaSimulation,
    canvas_width: int,
    canvas_height: int,
    cx: int,
    cy: int,
    k: int,
) -> int
    decreases k,
{
    if k <= 0 {
        0
    } else {
        spec_pattern_upto(sim, canvas_width, canvas_height, cx, cy, k - 1) + if spec_dot_age(
            sim,
            canvas_width,
            canvas_height,
            cx,
            cy,
            k - 1,
        ).is_some() {
            spec_dot_bit((k - 1) / 4, (k - 1) % 4)
        } else {
            0
        }
    }
}

/// How many of the first `k` dots show a particle.
pub open spec fn spec_dots_upto(
    sim: &DlaSimulation,
    canvas_width: int,
    canvas_height: int,
    cx: int,
    cy: int,
    k: int,
) -> int
    decreases k,
{
    if k <= 0 {
        0
    } else {
        spec_dots_upto(sim, canvas_width, canvas_height, cx, cy, k - 1) + if spec_dot_age(
            sim,
            canvas_width,
            canvas_height,
            cx,
            cy,
            k - 1,
        ).is_some() {
            1int
        } else {
            0int
        }
    }
}

/// The sum of the attachment orders that the first `k` dots show.
pub open spec fn spec_ages_upto(
    sim: &DlaSimulation,
    canvas_width: int,
    canvas_height: int,
    cx: int,
    cy: int,
    k: int,
) -> int
    decreases k,
{
    if k <= 0 {
        0
    } else {
        spec_ages_upto(sim, canvas_width, canvas_height, cx, cy, k - 1) + match spec_dot_age(
            sim,
            canvas_width,
            canvas_height,
            cx,
            cy,
            k - 1,
        ) {
            Some(age) => age as int,
            None => 0,
        }
    }
}

/// The character at `(cx, cy)` of the canvas.
pub open spec fn spec_braille_cell(
    sim: &DlaSimulation,
    canvas_width: int,
    canvas_height: int,
    cx: int,
    cy: int,
) -> BrailleCell {
    let bits = spec_pattern_upto(sim, canvas_width, canvas_height, cx, cy, 8);
    BrailleCell {
        x: cx as u16,
        y: cy as u16,
        char: (0x2800 + bits) as char,
        pattern: bits as u8,
        dot_count: spec_dots_upto(sim, canvas_width, canvas_height, cx, cy, 8) as u8,
        age_total: spec_ages_upto(sim, canvas_width, canvas_height, cx, cy, 8) as u64,
    }
}

/// The characters with at least one dot among the first `n` of the canvas,
/// counted row by row.
pub open spec fn spec_render_upto(
    sim: &DlaSimulation,
    canvas_width: int,
    canvas_height: int,
    n: int,
) -> Seq<BrailleCell>
    decreases n,
{
    if n <= 0 {
        Seq::<BrailleCell>::empty()
    } else {
        let before = spec_render_upto(sim, canvas_width, canvas_height, n - 1);
        let cell = spec_braille_cell(
            sim,
            canvas_width,
            canvas_height,
            (n - 1) % canvas_width,
            (n - 1) / canvas_width,
        );
        if cell.pattern != 0 {
            before.push(cell)
        } else {
            before
        }
    }
}

/// The bits of the first `k` dots together.
pub open spec fn spec_bits_upto(k: int) -> int
    decreases k,
{
    if k <= 0 {
        0
    } else {
        spec_bits_upto(k - 1) + spec_dot_bit((k - 1) / 4, (k - 1) % 4)
    }
}

/// The dots that show a particle carry no more bits than all dots do, and
/// all eight dots together fill one byte.
proof fn lemma_pattern_bound(
    sim: &DlaSimulation,
    canvas_width: int,
    canvas_height: int,
    cx: int,
    cy: int,
    k: int,
)
    requires
        0 <= k <= 8,
    ensures
        0 <= spec_pattern_upto(sim, canvas_width, canvas_height, cx, cy, k) <= spec_bits_upto(k),
        spec_bits_upto(k) <= 255,
        0 <= spec_dots_upto(sim, canvas_width, canvas_height, cx, cy, k) <= k,
        (spec_pattern_upto(sim, canvas_width, canvas_height, cx, cy, k) == 0) == (spec_dots_upto(
            sim,
            canvas_width,
            canvas_height,
            cx,
            cy,
            k,
        ) == 0),
    decreases k,
{
    reveal_with_fuel(spec_bits_upto, 9);
    if k > 0 {
        lemma_pattern_bound(sim, canvas_width, canvas_height, cx, cy, k - 1);
    }
}

/// `char::from_u32`: a code point below the surrogates is a character, and
/// the character that comes back is the one with that code point.
#[verifier::external_body]
fn char_of(code: u32) -> (c: Option<char>)
    ensures
        code < 0xD800 ==> c == Some(code as char),
        c.is_some() ==> c.unwrap() as u32 == code,
{
    char::from_u32(code)
}

/// The bit of the dot in column `dx` and row `dy`.
pub fn dot_bit(dx: usize, dy: usize) -> (bit: u8)
    requires
        dx < 2,
        dy < 4,
    ensures
        bit == spec_dot_bit(dx as int, dy as int),
{
    BRAILLE_DOTS[dx][dy]
}

/// The character at `(cx, cy)` of the canvas.
fn braille_cell(
    simulation: &DlaSimulation,
    canvas_width: u16,
    canvas_height: u16,
    cx: u16,
    cy: u16,
) -> (cell: BrailleCell)
    requires
        simulation.wf(),
        cx < canvas_width,
        cy < canvas_height,
    ensures
        cell == spec_braille_cell(
            simulation,
            canvas_width as int,
            canvas_height as int,
            cx as int,
            cy as int,
        ),
{
    let sim_width: u64 = simulation.grid_width() as u64;
    let sim_height: u64 = simulation.grid_height() as u64;
    let mut pattern: u8 = 0;
    let mut total_age: u64 = 0;
    let mut dot_count: u8 = 0;
    let mut k: usize = 0;
    while k < 8
        invariant
            k <= 8,
            simulation.wf(),
            cx < canvas_width,
            cy < canvas_height,
            sim_width == simulation.spec_grid_width(),
            sim_height == simulation.spec_grid_height(),
            pattern == spec_pattern_upto(
                simulation,
                canvas_width as int,
                canvas_height as int,
                cx as int,
                cy as int,
                k as int,
            ),
            dot_count == spec_dots_upto(
                simulation,
                canvas_width as int,
                canvas_height as int,
                cx as int,
                cy as int,
                k as int,
            ),
            total_age == spec_ages_upto(
                simulation,
                canvas_width as int,
                canvas_height as int,
                cx as int,
                cy as int,
                k as int,
            ),
            total_age <= k * 0xFFFF_FFFF_FFFF,
        decreases 8 - k,
    {
        let dx: usize = k / 4;
        let dy: usize = k % 4;
        let braille_x: u64 = (cx as u64) * 2 + dx as u64;
        let braille_y: u64 = (cy as u64) * 4 + dy as u64;
        assert(braille_x * sim_width <= 0x2_0000 * 0x10_0000) by (nonlinear_arith)
            requires
                braille_x <= 0x2_0000,
                sim_width <= 0x10_0000,
        ;
        assert(braille_y * sim_height <= 0x4_0000 * 0x10_0000) by (nonlinear_arith)
            requires
                braille_y <= 0x4_0000,
                sim_height <= 0x10_0000,
        ;
        let sim_x: u64 = braille_x * sim_width / ((canvas_width as u64) * 2);
        let sim_y: u64 = braille_y * sim_height / ((canvas_height as u64) * 4);
        proof {
            lemma_pattern_bound(
                simulation,
                canvas_width as int,
                canvas_height as int,
                cx as int,
                cy as int,
                k as int + 1,
            );
            crate::grid::lemma_count_bound(simulation.spec_cells());
            assert(simulation.spec_grid_width() * simulation.spec_grid_height() <= 0x10_0000
                * 0x10_0000) by (nonlinear_arith)
                requires
                    0 < simulation.spec_grid_width() <= 0x10_0000,
                    0 < simulation.spec_grid_height() <= 0x10_0000,
            ;
        }
        if sim_x <= usize::MAX as u64 && sim_y <= usize::MAX as u64 {
            match simulation.get_cell(sim_x as usize, sim_y as usize) {
                Some(age) => {
                    proof {
                        if sim_x < sim_width && sim_y < sim_height {
                            lemma_cell_index_bound(
                                sim_width as int,
                                sim_height as int,
                                sim_x as int,
                                sim_y as int,
                            );
                        }
                    }
                    pattern = pattern + dot_bit(dx, dy);
                    total_age = total_age + age as u64;
                    dot_count = dot_count + 1;
                },
                None => {},
            }
        }
        k += 1;
    }
    proof {
        lemma_pattern_bound(
            simulation,
            canvas_width as int,
            canvas_height as int,
            cx as int,
            cy as int,
            8,
        );
    }
    let glyph: char = match char_of(BRAILLE_BASE + pattern as u32) {
        Some(c) => c,
        None => ' ',
    };
    BrailleCell { x: cx, y: cy, char: glyph, pattern, dot_count, age_total: total_age }
}

/// Renders the grid onto a canvas of the given size, row by row. Only
/// characters with at least one dot are listed.
pub fn render_to_braille(simulation: &DlaSimulation, canvas_width: u16, canvas_height: u16) -> (cells:
    Vec<BrailleCell>)
    requires
        simulation.wf(),
    ensures
        cells@ == spec_render_upto(
            simulation,
            canvas_width as int,
            canvas_height as int,
            canvas_width * canvas_height,
        ),
{
    let mut cells: Vec<BrailleCell> = Vec::new();
    let mut cy: u16 = 0;
    while cy < canvas_height
        invariant
            cy <= canvas_height,
            simulation.wf(),
            cells@ == spec_render_upto(
                simulation,
                canvas_width as int,
                canvas_height as int,
                cy * canvas_width,
            ),
        decreases canvas_height - cy,
    {
        let mut cx: u16 = 0;
        while cx < canvas_width
            invariant
                cx <= canvas_width,
                cy < canvas_height,
                simulation.wf(),
                cells@ == spec_render_upto(
                    simulation,
                    canvas_width as int,
                    canvas_height as int,
                    cy * canvas_width + cx,
                ),
            decreases canvas_width - cx,
        {
            let cell: BrailleCell = braille_cell(simulation, canvas_width, canvas_height, cx, cy);
            proof {
                lemma_cell_index_bound(
                    canvas_width as int,
                    canvas_height as int,
                    cx as int,
                    cy as int,
                );
            }
            if cell.pattern != 0 {
                cells.push(cell);
            }
            cx += 1;
        }
        assert(cy * canvas_width + canvas_width == (cy + 1) * canvas_width) by (nonlinear_arith);
        cy += 1;
    }
    assert(cy * canvas_width == canvas_width * canvas_height) by (nonlinear_arith)
        requires
            cy == canvas_height,
    ;
    cells
}

/// The size of the grid that suits a canvas of the given size.
pub fn calculate_simulation_size(canvas_width: u16, canvas_height: u16) -> (size: (usize, usize))
    ensures
        (size.0 as int, size.1 as int) == spec_simulation_size(
            canvas_width as int,
            canvas_height as int,
        ),
        64 <= size.0 <= 131_070,
        64 <= size.1 <= 262_140,
{
    let width: usize = if canvas_width as usize * 2 > 64 {
        canvas_width as usize * 2
    } else {
        64
    };
    let height: usize = if canvas_height as usize * 4 > 64 {
        canvas_height as usize * 4
    } else {
        64
    };
    (width, height)
}

} // verus!
