//! The occupancy grid: a dense array of cells, each empty or holding the
//! attachment order of the particle that stuck there.

use vstd::prelude::*;

verus! {

/// Largest number of cells along one side of a grid.
pub const MAX_GRID_SIDE: usize = 0x10_0000;

/// Number of occupied cells in `cells`.
pub open spec fn occupied_count(cells: Seq<Option<usize>>) -> nat
    decreases cells.len(),
{
    if cells.len() == 0 {
        0
    } else {
        occupied_count(cells.drop_last()) + if cells.last().is_some() {
            1nat
        } else {
            0nat
        }
    }
}

/// A grid of `n` empty cells.
pub open spec fn empty_cells(n: nat) -> Seq<Option<usize>> {
    Seq::new(n, |i: int| None::<usize>)
}

/// Position of cell `(x, y)` in the row-major array of a grid `width` wide.
pub open spec fn cell_index(width: int, x: int, y: int) -> int {
    y * width + x
}

/// A cell inside a `width` by `height` grid has its index inside the array.
pub proof fn lemma_cell_index_bound(width: int, height: int, x: int, y: int)
    requires
        0 <= x < width,
        0 <= y < height,
    ensures
        0 <= y * width <= cell_index(width, x, y) < width * height,
        cell_index(width, x, y) % width == x,
        cell_index(width, x, y) / width == y,
{
    assert(0 <= y * width <= y * width + x < width * height) by (nonlinear_arith)
        requires
            0 <= x < width,
            0 <= y < height,
    ;
    vstd::arithmetic::div_mod::lemma_fundamental_div_mod_converse(y * width + x, width, y, x);
}

/// Every index of the array is the index of exactly one cell.
pub proof fn lemma_cell_of_index(width: int, height: int, i: int)
    requires
        0 < width,
        0 <= i < width * height,
    ensures
        0 <= i % width < width,
        0 <= i / width < height,
        cell_index(width, i % width, i / width) == i,
{
    vstd::arithmetic::div_mod::lemma_fundamental_div_mod(i, width);
    vstd::arithmetic::div_mod::lemma_mod_bound(i, width);
    let q = i / width;
    let r = i % width;
    assert(i == width * q + r);
    assert(0 <= q < height) by (nonlinear_arith)
        requires
            0 < width,
            0 <= i < width * height,
            i == width * q + r,
            0 <= r < width,
    ;
    assert(width * q == q * width) by (nonlinear_arith);
}

/// No cell is occupied in a grid of empty cells.
pub proof fn lemma_count_empty(n: nat)
    ensures
        occupied_count(empty_cells(n)) == 0,
    decreases n,
{
    if n > 0 {
        assert(empty_cells(n).drop_last() =~= empty_cells((n - 1) as nat));
        lemma_count_empty((n - 1) as nat);
    }
}

/// There are no more occupied cells than cells.
pub proof fn lemma_count_bound(cells: Seq<Option<usize>>)
    ensures
        occupied_count(cells) <= cells.len(),
    decreases cells.len(),
{
    if cells.len() > 0 {
        lemma_count_bound(cells.drop_last());
    }
}

/// Writing one cell changes the count by what that cell gained or lost.
pub proof fn lemma_count_update(cells: Seq<Option<usize>>, i: int, v: Option<usize>)
    requires
        0 <= i < cells.len(),
    ensures
        occupied_count(cells.update(i, v)) + (if cells[i].is_some() {
            1nat
        } else {
            0nat
        }) == occupied_count(cells) + (if v.is_some() {
            1nat
        } else {
            0nat
        }),
    decreases cells.len(),
{
    let after = cells.update(i, v);
    if i == cells.len() - 1 {
        assert(after.drop_last() =~= cells.drop_last());
    } else {
        assert(after.drop_last() =~= cells.drop_last().update(i, v));
        lemma_count_update(cells.drop_last(), i, v);
    }
}

/// A fixed-size grid of cells in row-major order.
pub struct Grid {
    width: usize,
    height: usize,
    cells: Vec<Option<usize>>,
}

impl View for Grid {
    type V = Seq<Option<usize>>;

    closed spec fn view(&self) -> Seq<Option<usize>> {
        self.cells@
    }
}

impl Grid {
    /// Number of columns.
    pub closed spec fn spec_width(&self) -> usize {
        self.width
    }

    /// Number of rows.
    pub closed spec fn spec_height(&self) -> usize {
        self.height
    }

    /// The array holds exactly one cell for each position.
    pub open spec fn wf(&self) -> bool {
        &&& 0 < self.spec_width() <= MAX_GRID_SIDE
        &&& 0 < self.spec_height() <= MAX_GRID_SIDE
        &&& self@.len() == self.spec_width() * self.spec_height()
        &&& self@.len() <= usize::MAX
    }

    /// What the cell at `(x, y)` holds; nothing outside the grid.
    pub open spec fn spec_get(&self, x: int, y: int) -> Option<usize> {
        if 0 <= x < self.spec_width() && 0 <= y < self.spec_height() {
            self@[cell_index(self.spec_width() as int, x, y)]
        } else {
            None
        }
    }

    /// A grid of empty cells.
    pub fn new(width: usize, height: usize) -> (grid: Grid)
        requires
            0 < width <= MAX_GRID_SIDE,
            0 < height <= MAX_GRID_SIDE,
            width * height <= usize::MAX,
        ensures
            grid.wf(),
            grid.spec_width() == width,
            grid.spec_height() == height,
            grid@ == empty_cells((width * height) as nat),
    {
        let n: usize = width * height;
        let mut cells: Vec<Option<usize>> = Vec::new();
        let mut i: usize = 0;
        while i < n
            invariant
                i <= n,
                cells@ == empty_cells(i as nat),
            decreases n - i,
        {
            cells.push(None);
            i += 1;
        }
        Grid { width, height, cells }
    }

    /// Number of columns.
    pub fn width(&self) -> (w: usize)
        ensures
            w == self.spec_width(),
    {
        self.width
    }

    /// Number of rows.
    pub fn height(&self) -> (h: usize)
        ensures
            h == self.spec_height(),
    {
        self.height
    }

    /// What the cell at `(x, y)` holds; nothing for a position outside the
    /// grid.
    pub fn get(&self, x: usize, y: usize) -> (cell: Option<usize>)
        requires
            self.wf(),
        ensures
            cell == self.spec_get(x as int, y as int),
    {
        if x < self.width && y < self.height {
            proof {
                lemma_cell_index_bound(self.width as int, self.height as int, x as int, y as int);
                assert(self.cells.len() == self.cells@.len());
            }
            self.cells[y * self.width + x]
        } else {
            None
        }
    }

    /// Marks the cell at `(x, y)` as holding the particle that stuck as
    /// number `order`.
    pub fn occupy(&mut self, x: usize, y: usize, order: usize)
        requires
            old(self).wf(),
            x < old(self).spec_width(),
            y < old(self).spec_height(),
        ensures
            final(self).wf(),
            final(self).spec_width() == old(self).spec_width(),
            final(self).spec_height() == old(self).spec_height(),
            final(self)@ == old(self)@.update(
                cell_index(old(self).spec_width() as int, x as int, y as int),
                Some(order),
            ),
    {
        proof {
            lemma_cell_index_bound(self.width as int, self.height as int, x as int, y as int);
            assert(self.cells.len() == self.cells@.len());
        }
        let i: usize = y * self.width + x;
        self.cells.set(i, Some(order));
    }

    /// Empties every cell.
    pub fn clear(&mut self)
        requires
            old(self).wf(),
        ensures
            final(self).wf(),
            final(self).spec_width() == old(self).spec_width(),
            final(self).spec_height() == old(self).spec_height(),
            final(self)@ == empty_cells(old(self)@.len()),
    {
        let n: usize = self.cells.len();
        let mut i: usize = 0;
        while i < n
            invariant
                i <= n,
                self.cells@.len() == n,
                self.width == old(self).width,
                self.height == old(self).height,
                forall|j: int| 0 <= j < i ==> self.cells@[j].is_none(),
            decreases n - i,
        {
            self.cells.set(i, None);
            i += 1;
        }
        assert(self.cells@ =~= empty_cells(n as nat));
    }

    /// Number of occupied cells.
    pub fn count_occupied(&self) -> (n: usize)
        requires
            self.wf(),
        ensures
            n == occupied_count(self@),
    {
        let len: usize = self.cells.len();
        let mut n: usize = 0;
        let mut i: usize = 0;
        while i < len
            invariant
                i <= len,
                len == self.cells@.len(),
                n == occupied_count(self.cells@.subrange(0, i as int)),
                n <= i,
            decreases len - i,
        {
            proof {
                assert(self.cells@.subrange(0, i + 1).drop_last() =~= self.cells@.subrange(
                    0,
                    i as int,
                ));
            }
            if self.cells[i].is_some() {
                n += 1;
            }
            i += 1;
        }
        assert(self.cells@.subrange(0, len as int) =~= self.cells@);
        n
    }
}

} // verus!
