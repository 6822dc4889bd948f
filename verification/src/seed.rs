//! Seeds: the structures that a run starts from, cell by cell, and what
//! each of them leaves on an empty grid.

use crate::fixed::floor_div;
use crate::grid::{
    cell_index, empty_cells, lemma_cell_index_bound, lemma_cell_of_index, lemma_count_empty,
    lemma_count_update, occupied_count,
};
use crate::walk::{ring_point, spec_ring_point, spec_valid_extent, Position};
use vstd::prelude::*;

verus! {

/// The structure that a run starts from.
#[derive(Clone, Copy, Debug, PartialEq, Eq, Structural)]
pub enum SeedPattern {
    /// One particle at the centre of the grid.
    Point,
    /// A horizontal line through the centre.
    Line,
    /// A cross of four arms around the centre.
    Cross,
    /// The outline of a circle around the centre.
    Circle,
}

impl Default for SeedPattern {
    /// A run starts from a single particle.
    fn default() -> (d: SeedPattern)
        ensures
            d == SeedPattern::Point,
    {
        SeedPattern::Point
    }
}

impl SeedPattern {
    pub open spec fn spec_name(&self) -> Seq<char> {
        match self {
            SeedPattern::Point => "Point"@,
            SeedPattern::Line => "Line"@,
            SeedPattern::Cross => "Cross"@,
            SeedPattern::Circle => "Circle"@,
        }
    }

    pub open spec fn spec_all() -> Seq<SeedPattern> {
        seq![SeedPattern::Point, SeedPattern::Line, SeedPattern::Cross, SeedPattern::Circle]
    }

    pub open spec fn spec_next(&self) -> SeedPattern {
        match self {
            SeedPattern::Point => SeedPattern::Line,
            SeedPattern::Line => SeedPattern::Cross,
            SeedPattern::Cross => SeedPattern::Circle,
            SeedPattern::Circle => SeedPattern::Point,
        }
    }

    pub open spec fn spec_prev(&self) -> SeedPattern {
        match self {
            SeedPattern::Point => SeedPattern::Circle,
            SeedPattern::Line => SeedPattern::Point,
            SeedPattern::Cross => SeedPattern::Line,
            SeedPattern::Circle => SeedPattern::Cross,
        }
    }

    pub fn name(&self) -> (s: &'static str)
        ensures
            s@ == self.spec_name(),
    {
        match self {
            SeedPattern::Point => "Point",
            SeedPattern::Line => "Line",
            SeedPattern::Cross => "Cross",
            SeedPattern::Circle => "Circle",
        }
    }

    /// Every pattern, in the order in which `next` walks them.
    pub fn all() -> (patterns: &'static [SeedPattern])
        ensures
            patterns@ == Self::spec_all(),
    {
        &[SeedPattern::Point, SeedPattern::Line, SeedPattern::Cross, SeedPattern::Circle]
    }

    pub fn next(&self) -> (p: SeedPattern)
        ensures
            p == self.spec_next(),
    {
        match self {
            SeedPattern::Point => SeedPattern::Line,
            SeedPattern::Line => SeedPattern::Cross,
            SeedPattern::Cross => SeedPattern::Circle,
            SeedPattern::Circle => SeedPattern::Point,
        }
    }

    pub fn prev(&self) -> (p: SeedPattern)
        ensures
            p == self.spec_prev(),
    {
        match self {
            SeedPattern::Point => SeedPattern::Circle,
            SeedPattern::Line => SeedPattern::Point,
            SeedPattern::Cross => SeedPattern::Line,
            SeedPattern::Circle => SeedPattern::Cross,
        }
    }
}

/// Walking the patterns forward and then back, or back and then forward,
/// returns to where one started.
pub proof fn lemma_seed_pattern_cycle(p: SeedPattern)
    ensures
        p.spec_next().spec_prev() == p,
        p.spec_prev().spec_next() == p,
{
}

/// Half the length of the line seed, in cells.
pub open spec fn spec_line_half(width: int) -> int {
    if width / 4 < 20 {
        width / 4
    } else {
        20
    }
}

/// The smaller of an eighth of either side and `cap`.
pub open spec fn spec_eighth(width: int, height: int, cap: int) -> int {
    let e = if width / 8 < height / 8 {
        width / 8
    } else {
        height / 8
    };
    if e < cap {
        e
    } else {
        cap
    }
}

/// Number of placements that build the seed. Placements that fall on a cell
/// already occupied add nothing.
pub open spec fn spec_seed_len(pattern: SeedPattern, width: int, height: int) -> int {
    match pattern {
        SeedPattern::Point => 1,
        SeedPattern::Line => 2 * spec_line_half(width),
        SeedPattern::Cross => 4 * spec_eighth(width, height, 10),
        SeedPattern::Circle => 360,
    }
}

/// The cell of the `k`-th placement of the seed.
pub open spec fn spec_seed_point(pattern: SeedPattern, width: int, height: int, k: int) -> (
    int,
    int,
) {
    let cx = width / 2;
    let cy = height / 2;
    match pattern {
        SeedPattern::Point => (cx, cy),
        SeedPattern::Line => (cx - spec_line_half(width) + k, cy),
        SeedPattern::Cross => {
            let i = k / 4;
            if k % 4 == 0 {
                (cx - i, cy)
            } else if k % 4 == 1 {
                (cx + i, cy)
            } else if k % 4 == 2 {
                (cx, cy - i)
            } else {
                (cx, cy + i)
            }
        },
        SeedPattern::Circle => {
            let p = spec_ring_point(width, height, 1000 * spec_eighth(width, height, 15), 1000 * k);
            (p.x / 1000, p.y / 1000)
        },
    }
}

/// The size of the seed, in thousandths of a cell, from which the cluster's
/// radius starts.
pub open spec fn spec_seed_radius(pattern: SeedPattern, width: int, height: int) -> int {
    match pattern {
        SeedPattern::Point => 1000,
        SeedPattern::Line => 1000 * spec_line_half(width),
        SeedPattern::Cross => 1000 * spec_eighth(width, height, 10),
        SeedPattern::Circle => 1000 * spec_eighth(width, height, 15),
    }
}

/// The cells after a particle is placed at `(x, y)`: an empty cell of the
/// grid receives the next attachment order, which is the number of cells
/// occupied so far; any other placement changes nothing.
pub open spec fn spec_place(
    cells: Seq<Option<usize>>,
    width: int,
    height: int,
    x: int,
    y: int,
) -> Seq<Option<usize>> {
    if 0 <= x < width && 0 <= y < height && cells[cell_index(width, x, y)].is_none() {
        cells.update(cell_index(width, x, y), Some(occupied_count(cells) as usize))
    } else {
        cells
    }
}

/// The cells after the first `k` placements of the seed on an empty grid.
pub open spec fn spec_seed_upto(pattern: SeedPattern, width: int, height: int, k: int) -> Seq<
    Option<usize>,
>
    decreases k,
{
    if k <= 0 {
        empty_cells((width * height) as nat)
    } else {
        let (x, y) = spec_seed_point(pattern, width, height, k - 1);
        spec_place(spec_seed_upto(pattern, width, height, k - 1), width, height, x, y)
    }
}

/// The cells of a freshly seeded grid.
pub open spec fn spec_seed_cells(pattern: SeedPattern, width: int, height: int) -> Seq<
    Option<usize>,
> {
    spec_seed_upto(pattern, width, height, spec_seed_len(pattern, width, height))
}

/// Half the length of the line seed, in cells.
pub(crate) fn line_half(width: usize) -> (half: usize)
    ensures
        half == spec_line_half(width as int),
        half <= 20,
        half <= width / 4,
{
    if width / 4 < 20 {
        width / 4
    } else {
        20
    }
}

/// The smaller of an eighth of either side and `cap`.
pub(crate) fn eighth(width: usize, height: usize, cap: usize) -> (e: usize)
    ensures
        e == spec_eighth(width as int, height as int, cap as int),
        e <= cap,
        e <= width / 8,
        e <= height / 8,
{
    let e: usize = if width / 8 < height / 8 {
        width / 8
    } else {
        height / 8
    };
    if e < cap {
        e
    } else {
        cap
    }
}

/// Number of placements that build the seed.
pub(crate) fn seed_len(pattern: SeedPattern, width: usize, height: usize) -> (n: u32)
    ensures
        n == spec_seed_len(pattern, width as int, height as int),
        n <= 360,
{
    match pattern {
        SeedPattern::Point => 1,
        SeedPattern::Line => (2 * line_half(width)) as u32,
        SeedPattern::Cross => (4 * eighth(width, height, 10)) as u32,
        SeedPattern::Circle => 360,
    }
}

/// The cell of the `k`-th placement of the seed.
pub(crate) fn seed_point(pattern: SeedPattern, width: usize, height: usize, k: u32) -> (cell: (i64, i64))
    requires
        spec_valid_extent(width as int, height as int),
        k < 360,
    ensures
        (cell.0 as int, cell.1 as int) == spec_seed_point(
            pattern,
            width as int,
            height as int,
            k as int,
        ),
{
    let cx: i64 = (width / 2) as i64;
    let cy: i64 = (height / 2) as i64;
    let i: i64 = k as i64;
    match pattern {
        SeedPattern::Point => (cx, cy),
        SeedPattern::Line => (cx - line_half(width) as i64 + i, cy),
        SeedPattern::Cross => {
            let arm: i64 = i / 4;
            if k % 4 == 0 {
                (cx - arm, cy)
            } else if k % 4 == 1 {
                (cx + arm, cy)
            } else if k % 4 == 2 {
                (cx, cy - arm)
            } else {
                (cx, cy + arm)
            }
        },
        SeedPattern::Circle => {
            let radius: u64 = 1000 * (eighth(width, height, 15) as u64);
            let p: Position = ring_point(width, height, radius, 1000 * k);
            (floor_div(p.x, 1000), floor_div(p.y, 1000))
        },
    }
}

/// The size of the seed, in thousandths of a cell.
pub(crate) fn seed_radius(pattern: SeedPattern, width: usize, height: usize) -> (r: u64)
    ensures
        r == spec_seed_radius(pattern, width as int, height as int),
        r <= 20_000,
{
    match pattern {
        SeedPattern::Point => 1000,
        SeedPattern::Line => 1000 * (line_half(width) as u64),
        SeedPattern::Cross => 1000 * (eighth(width, height, 10) as u64),
        SeedPattern::Circle => 1000 * (eighth(width, height, 15) as u64),
    }
}

/// The point seed occupies exactly one cell, the centre of the grid, with
/// attachment order zero.
pub proof fn lemma_point_seed(width: int, height: int)
    requires
        spec_valid_extent(width, height),
    ensures
        spec_seed_cells(SeedPattern::Point, width, height) == empty_cells(
            (width * height) as nat,
        ).update(cell_index(width, width / 2, height / 2), Some(0usize)),
        occupied_count(spec_seed_cells(SeedPattern::Point, width, height)) == 1,
        forall|x: int, y: int|
            0 <= x < width && 0 <= y < height ==> (#[trigger] spec_seed_cells(
                SeedPattern::Point,
                width,
                height,
            )[cell_index(width, x, y)]).is_some() == (x == width / 2 && y == height / 2),
{
    let empty = empty_cells((width * height) as nat);
    let c = cell_index(width, width / 2, height / 2);
    lemma_cell_index_bound(width, height, width / 2, height / 2);
    lemma_count_empty((width * height) as nat);
    assert(spec_seed_upto(SeedPattern::Point, width, height, 0) == empty);
    assert(spec_seed_cells(SeedPattern::Point, width, height) == spec_place(
        spec_seed_upto(SeedPattern::Point, width, height, 0),
        width,
        height,
        width / 2,
        height / 2,
    ));
    lemma_count_update(empty, c, Some(0usize));
    assert forall|x: int, y: int| 0 <= x < width && 0 <= y < height implies (
    #[trigger] spec_seed_cells(SeedPattern::Point, width, height)[cell_index(
        width,
        x,
        y,
    )]).is_some() == (x == width / 2 && y == height / 2) by {
        lemma_cell_index_bound(width, height, x, y);
    }
}

/// The cells of a grid that holds the first `k` cells of the line seed and
/// nothing else.
pub open spec fn spec_line_cells(width: int, height: int, k: int) -> Seq<Option<usize>> {
    let start = width / 2 - spec_line_half(width);
    Seq::new(
        (width * height) as nat,
        |i: int|
            if i / width == height / 2 && start <= i % width < start + k {
                Some((i % width - start) as usize)
            } else {
                None
            },
    )
}

/// After `k` placements the line seed holds `k` cells in a row.
proof fn lemma_line_seed_upto(width: int, height: int, k: int)
    requires
        spec_valid_extent(width, height),
        0 <= k <= 2 * spec_line_half(width),
    ensures
        spec_seed_upto(SeedPattern::Line, width, height, k) == spec_line_cells(width, height, k),
        occupied_count(spec_line_cells(width, height, k)) == k,
    decreases k,
{
    let start = width / 2 - spec_line_half(width);
    if k == 0 {
        lemma_count_empty((width * height) as nat);
        assert(spec_line_cells(width, height, 0) =~= empty_cells((width * height) as nat));
    } else {
        lemma_line_seed_upto(width, height, k - 1);
        let prev = spec_line_cells(width, height, k - 1);
        let x = start + k - 1;
        let y = height / 2;
        let idx = cell_index(width, x, y);
        lemma_cell_index_bound(width, height, x, y);
        assert(prev[idx].is_none());
        lemma_count_update(prev, idx, Some((k - 1) as usize));
        assert(spec_seed_point(SeedPattern::Line, width, height, k - 1) == (x, y));
        let next = prev.update(idx, Some((k - 1) as usize));
        assert(spec_seed_upto(SeedPattern::Line, width, height, k) == next);
        assert forall|i: int| 0 <= i < width * height implies next[i] == spec_line_cells(
            width,
            height,
            k,
        )[i] by {
            lemma_cell_of_index(width, height, i);
        }
        assert(next =~= spec_line_cells(width, height, k));
    }
}

/// The line seed occupies a contiguous horizontal run of cells in the
/// middle row, centred on the middle column: twice the smaller of twenty
/// and a quarter of the width, numbered from left to right. Every other
/// cell is empty.
pub proof fn lemma_line_seed(width: int, height: int)
    requires
        spec_valid_extent(width, height),
    ensures
        occupied_count(spec_seed_cells(SeedPattern::Line, width, height)) == 2 * spec_line_half(
            width,
        ),
        forall|x: int, y: int|
            0 <= x < width && 0 <= y < height ==> #[trigger] spec_seed_cells(
                SeedPattern::Line,
                width,
                height,
            )[cell_index(width, x, y)] == if y == height / 2 && width / 2 - spec_line_half(width)
                <= x < width / 2 + spec_line_half(width) {
                Some((x - (width / 2 - spec_line_half(width))) as usize)
            } else {
                None
            },
{
    let n = 2 * spec_line_half(width);
    lemma_line_seed_upto(width, height, n);
    assert forall|x: int, y: int| 0 <= x < width && 0 <= y < height implies #[trigger] spec_seed_cells(
        SeedPattern::Line,
        width,
        height,
    )[cell_index(width, x, y)] == if y == height / 2 && width / 2 - spec_line_half(width) <= x
        < width / 2 + spec_line_half(width) {
        Some((x - (width / 2 - spec_line_half(width))) as usize)
    } else {
        None
    } by {
        lemma_cell_index_bound(width, height, x, y);
    }
}

/// The attachment order of the cell displaced by `(dx, dy)` from the centre
/// after `k` placements of the cross seed, if it is occupied by then. The
/// centre comes first; then, further out with each round, the cells to the
/// left, to the right, above and below.
pub open spec fn spec_cross_order(dx: int, dy: int, k: int) -> Option<usize> {
    if dx == 0 && dy == 0 {
        if k >= 1 {
            Some(0usize)
        } else {
            None
        }
    } else if dy == 0 && dx < 0 {
        if 4 * (-dx) < k {
            Some((4 * (-dx) - 3) as usize)
        } else {
            None
        }
    } else if dy == 0 && dx > 0 {
        if 4 * dx + 1 < k {
            Some((4 * dx - 2) as usize)
        } else {
            None
        }
    } else if dx == 0 && dy < 0 {
        if 4 * (-dy) + 2 < k {
            Some((4 * (-dy) - 1) as usize)
        } else {
            None
        }
    } else if dx == 0 && dy > 0 {
        if 4 * dy + 3 < k {
            Some((4 * dy) as usize)
        } else {
            None
        }
    } else {
        None
    }
}

/// The cells of a grid that holds what the first `k` placements of the
/// cross seed leave, and nothing else.
pub open spec fn spec_cross_cells(width: int, height: int, k: int) -> Seq<Option<usize>> {
    Seq::new(
        (width * height) as nat,
        |i: int| spec_cross_order(i % width - width / 2, i / width - height / 2, k),
    )
}

/// Number of cells that the first `k` placements of the cross seed occupy:
/// the first four all fall on the centre.
pub open spec fn spec_cross_count(k: int) -> int {
    if k <= 0 {
        0
    } else if k <= 4 {
        1
    } else {
        k - 3
    }
}

/// Where, from the centre, the `p`-th placement of the cross seed falls.
pub open spec fn spec_cross_offset(p: int) -> (int, int) {
    let i = p / 4;
    if p % 4 == 0 {
        (-i, 0)
    } else if p % 4 == 1 {
        (i, 0)
    } else if p % 4 == 2 {
        (0, -i)
    } else {
        (0, i)
    }
}

/// What the `p`-th placement of the cross seed does to a cell: the first
/// placement and every placement from the fifth on occupies the cell it
/// falls on, with the count so far as its order, and leaves every other
/// cell alone; the second, third and fourth fall on the centre again and
/// change nothing.
proof fn lemma_cross_order_step(dx: int, dy: int, p: int)
    requires
        0 <= p,
    ensures
        1 <= p <= 3 ==> spec_cross_order(dx, dy, p + 1) == spec_cross_order(dx, dy, p),
        1 <= p <= 3 ==> spec_cross_offset(p) == (0int, 0int),
        !(1 <= p <= 3) ==> spec_cross_order(dx, dy, p + 1) == if (dx, dy) == spec_cross_offset(p) {
            Some(spec_cross_count(p) as usize)
        } else {
            spec_cross_order(dx, dy, p)
        },
        !(1 <= p <= 3) ==> spec_cross_order(spec_cross_offset(p).0, spec_cross_offset(p).1, p)
            == None::<usize>,
{
}

/// One more placement of the cross seed.
proof fn lemma_cross_step(width: int, height: int, p: int)
    requires
        spec_valid_extent(width, height),
        0 <= p < 4 * spec_eighth(width, height, 10),
        occupied_count(spec_cross_cells(width, height, p)) == spec_cross_count(p),
    ensures
        spec_place(
            spec_cross_cells(width, height, p),
            width,
            height,
            spec_seed_point(SeedPattern::Cross, width, height, p).0,
            spec_seed_point(SeedPattern::Cross, width, height, p).1,
        ) == spec_cross_cells(width, height, p + 1),
        occupied_count(spec_cross_cells(width, height, p + 1)) == spec_cross_count(p + 1),
{
    let prev = spec_cross_cells(width, height, p);
    let target = spec_cross_cells(width, height, p + 1);
    let (x, y) = spec_seed_point(SeedPattern::Cross, width, height, p);
    let (dx, dy) = spec_cross_offset(p);
    assert(x == width / 2 + dx && y == height / 2 + dy);
    assert(0 <= x < width && 0 <= y < height);
    let idx = cell_index(width, x, y);
    lemma_cell_index_bound(width, height, x, y);
    lemma_cross_order_step(dx, dy, p);
    assert(prev[idx] == spec_cross_order(dx, dy, p));
    if 1 <= p <= 3 {
        assert(prev[idx].is_some());
        assert forall|i: int| 0 <= i < width * height implies prev[i] == target[i] by {
            lemma_cross_order_step(i % width - width / 2, i / width - height / 2, p);
        }
        assert(prev =~= target);
    } else {
        assert(prev[idx].is_none());
        let order = spec_cross_count(p) as usize;
        lemma_count_update(prev, idx, Some(order));
        let next = prev.update(idx, Some(order));
        assert forall|i: int| 0 <= i < width * height implies next[i] == target[i] by {
            lemma_cell_of_index(width, height, i);
            lemma_cross_order_step(i % width - width / 2, i / width - height / 2, p);
            if i != idx {
                assert(!(i % width == x && i / width == y));
            }
        }
        assert(next =~= target);
    }
}

/// After `k` placements the cross seed holds the centre and the arms as far
/// as they have been laid.
proof fn lemma_cross_seed_upto(width: int, height: int, k: int)
    requires
        spec_valid_extent(width, height),
        0 <= k <= 4 * spec_eighth(width, height, 10),
    ensures
        spec_seed_upto(SeedPattern::Cross, width, height, k) == spec_cross_cells(width, height, k),
        occupied_count(spec_cross_cells(width, height, k)) == spec_cross_count(k),
    decreases k,
{
    if k == 0 {
        lemma_count_empty((width * height) as nat);
        assert(spec_cross_cells(width, height, 0) =~= empty_cells((width * height) as nat));
    } else {
        lemma_cross_seed_upto(width, height, k - 1);
        lemma_cross_step(width, height, k - 1);
    }
}

/// The cross seed occupies the centre and, with arms of `a` cells counted
/// from the centre, `a - 1` further cells in each of the four directions:
/// `4a - 3` cells in all, each counted once, and none where the grid is too
/// small for an arm.
pub proof fn lemma_cross_seed(width: int, height: int)
    requires
        spec_valid_extent(width, height),
    ensures
        occupied_count(spec_seed_cells(SeedPattern::Cross, width, height)) == spec_cross_count(
            4 * spec_eighth(width, height, 10),
        ),
        forall|x: int, y: int|
            0 <= x < width && 0 <= y < height ==> #[trigger] spec_seed_cells(
                SeedPattern::Cross,
                width,
                height,
            )[cell_index(width, x, y)] == spec_cross_order(
                x - width / 2,
                y - height / 2,
                4 * spec_eighth(width, height, 10),
            ),
{
    let n = 4 * spec_eighth(width, height, 10);
    lemma_cross_seed_upto(width, height, n);
    assert forall|x: int, y: int| 0 <= x < width && 0 <= y < height implies #[trigger] spec_seed_cells(
        SeedPattern::Cross,
        width,
        height,
    )[cell_index(width, x, y)] == spec_cross_order(x - width / 2, y - height / 2, n) by {
        lemma_cell_index_bound(width, height, x, y);
    }
}

} // verus!
