//! The grid data model: a fixed-dimension boolean matrix of cells.
//!
//! Dimensions are chosen at construction and never change afterwards.
//! Cell `(x, y)` is live (`true`) or dead (`false`); a grid starts with
//! every cell dead.

use vstd::arithmetic::div_mod::{lemma_fundamental_div_mod, lemma_mod_bound};
use vstd::pervasive::VecAdditionalExecFns;
use vstd::prelude::*;

verus! {

/// Mathematical model of a grid: a `width` x `height` matrix of cells,
/// stored as one flat column-major sequence, cell `(x, y)` at index
/// `x * height + y`.
#[verifier::ext_equal]
pub ghost struct GridView {
    pub width: int,
    pub height: int,
    pub cells: Seq<bool>,
}

/// The model of a grid of the given dimensions with every cell dead.
pub open spec fn empty_grid(width: int, height: int) -> GridView {
    GridView { width, height, cells: Seq::new((width * height) as nat, |i: int| false) }
}

impl GridView {
    /// Dimensions are positive, small enough to index with `isize`,
    /// and the flat cell sequence has exactly one entry per coordinate.
    pub open spec fn wf(self) -> bool {
        &&& 1 <= self.width <= isize::MAX as int
        &&& 1 <= self.height <= isize::MAX as int
        &&& self.width * self.height <= usize::MAX as int
        &&& self.cells.len() == self.width * self.height
    }

    pub open spec fn in_bounds(self, x: int, y: int) -> bool {
        0 <= x < self.width && 0 <= y < self.height
    }

    /// Flat index of cell `(x, y)`.
    pub open spec fn idx(self, x: int, y: int) -> int {
        x * self.height + y
    }

    pub open spec fn live(self, x: int, y: int) -> bool {
        self.cells[self.idx(x, y)]
    }

    /// The same grid with cell `(x, y)` set to `v`.
    pub open spec fn updated(self, x: int, y: int, v: bool) -> GridView {
        GridView { cells: self.cells.update(self.idx(x, y), v), ..self }
    }

    /// The same grid with cell `(x, y)` flipped between live and dead.
    pub open spec fn toggled(self, x: int, y: int) -> GridView {
        self.updated(x, y, !self.live(x, y))
    }

    /// The same dimensions with every cell dead.
    pub open spec fn cleared(self) -> GridView {
        empty_grid(self.width, self.height)
    }

    pub open spec fn all_dead(self) -> bool {
        forall|x: int, y: int| self.in_bounds(x, y) ==> !self.live(x, y)
    }
}

/// A coordinate inside the grid maps to a flat index inside the cell
/// sequence.
pub proof fn lemma_idx_bounds(w: int, h: int, x: int, y: int)
    requires
        0 <= x < w,
        0 <= y < h,
    ensures
        0 <= x * h + y < w * h,
{
    assert(0 <= x * h + y < w * h) by (nonlinear_arith)
        requires
            0 <= x < w,
            0 <= y < h,
    ;
}

/// Distinct coordinates map to distinct flat indices.
pub proof fn lemma_idx_injective(h: int, x1: int, y1: int, x2: int, y2: int)
    requires
        0 <= y1 < h,
        0 <= y2 < h,
        x1 * h + y1 == x2 * h + y2,
    ensures
        x1 == x2,
        y1 == y2,
{
    assert(x1 == x2 && y1 == y2) by (nonlinear_arith)
        requires
            0 <= y1 < h,
            0 <= y2 < h,
            x1 * h + y1 == x2 * h + y2,
    ;
}

/// Two well-formed grid models of the same dimensions whose cells agree
/// at every in-bounds coordinate are equal.
pub proof fn lemma_grid_view_ext(a: GridView, b: GridView)
    requires
        a.wf(),
        b.wf(),
        a.width == b.width,
        a.height == b.height,
        forall|x: int, y: int| a.in_bounds(x, y) ==> a.live(x, y) == b.live(x, y),
    ensures
        a == b,
{
    assert forall|i: int| 0 <= i < a.cells.len() implies a.cells[i] == b.cells[i] by {
        let w = a.width;
        let h = a.height;
        let x = i / h;
        let y = i % h;
        lemma_fundamental_div_mod(i, h);
        lemma_mod_bound(i, h);
        assert(0 <= x < w) by (nonlinear_arith)
            requires
                0 < h,
                0 <= y < h,
                i == h * x + y,
                0 <= i < w * h,
        ;
        assert(a.in_bounds(x, y));
        assert(a.cells[i] == a.live(x, y));
        assert(b.cells[i] == b.live(x, y));
    }
    assert(a.cells =~= b.cells);
    assert(a =~= b);
}

/// An empty grid model is well formed and entirely dead.
pub proof fn lemma_empty_grid_all_dead(width: int, height: int)
    requires
        1 <= width <= isize::MAX as int,
        1 <= height <= isize::MAX as int,
        width * height <= usize::MAX as int,
    ensures
        empty_grid(width, height).wf(),
        empty_grid(width, height).all_dead(),
{
    let g = empty_grid(width, height);
    lemma_idx_bounds(width, height, 0, 0);
    assert(g.cells.len() == width * height);
    assert forall|x: int, y: int| g.in_bounds(x, y) implies !g.live(x, y) by {
        lemma_idx_bounds(width, height, x, y);
    }
}

/// Setting one cell changes that cell and no other.
pub proof fn lemma_updated_cells(g: GridView, x: int, y: int, v: bool)
    requires
        g.wf(),
        g.in_bounds(x, y),
    ensures
        g.updated(x, y, v).wf(),
        g.updated(x, y, v).live(x, y) == v,
        forall|i: int, j: int|
            g.in_bounds(i, j) && !(i == x && j == y) ==> g.updated(x, y, v).live(i, j) == g.live(
                i,
                j,
            ),
{
    lemma_idx_bounds(g.width, g.height, x, y);
    assert forall|i: int, j: int| g.in_bounds(i, j) && !(i == x && j == y) implies g.updated(
        x,
        y,
        v,
    ).live(i, j) == g.live(i, j) by {
        lemma_idx_bounds(g.width, g.height, i, j);
        if g.idx(i, j) == g.idx(x, y) {
            lemma_idx_injective(g.height, i, j, x, y);
        }
    }
}

/// The grid a session edits and the generation stepper replaces.
pub struct Grid {
    width: usize,
    height: usize,
    cells: Vec<bool>,
}

impl View for Grid {
    type V = GridView;

    closed spec fn view(&self) -> GridView {
        GridView { width: self.width as int, height: self.height as int, cells: self.cells@ }
    }
}

impl Grid {
    /// Create a grid of the given dimensions with every cell dead.
    pub fn new(width: usize, height: usize) -> (g: Grid)
        requires
            1 <= width as int <= isize::MAX as int,
            1 <= height as int <= isize::MAX as int,
            width as int * height as int <= usize::MAX as int,
        ensures
            g@ == empty_grid(width as int, height as int),
            g@.wf(),
    {
        let n: usize = width * height;
        let mut cells: Vec<bool> = Vec::new();
        let mut i: usize = 0;
        while i < n
            invariant
                i <= n,
                cells@.len() == i,
                forall|k: int| 0 <= k < i ==> !cells@[k],
            decreases n - i,
        {
            cells.push(false);
            i = i + 1;
        }
        let g = Grid { width, height, cells };
        proof {
            assert(g@.cells =~= empty_grid(width as int, height as int).cells);
            assert(g@ =~= empty_grid(width as int, height as int));
        }
        g
    }

    pub fn width(&self) -> (w: usize)
        ensures
            w as int == self@.width,
    {
        self.width
    }

    pub fn height(&self) -> (h: usize)
        ensures
            h as int == self@.height,
    {
        self.height
    }

    /// A coordinate is inside the grid exactly when `0 <= x < width`
    /// and `0 <= y < height`; anything else is outside, never an error.
    pub fn in_bounds(&self, x: isize, y: isize) -> (r: bool)
        ensures
            r == self@.in_bounds(x as int, y as int),
    {
        x >= 0 && (x as usize) < self.width && y >= 0 && (y as usize) < self.height
    }

    fn cell_index(&self, x: usize, y: usize) -> (i: usize)
        requires
            self@.wf(),
            self@.in_bounds(x as int, y as int),
        ensures
            i as int == self@.idx(x as int, y as int),
            (i as int) < self@.cells.len(),
    {
        proof {
            lemma_idx_bounds(self@.width, self@.height, x as int, y as int);
        }
        x * self.height + y
    }

    pub fn is_live(&self, x: usize, y: usize) -> (r: bool)
        requires
            self@.wf(),
            self@.in_bounds(x as int, y as int),
        ensures
            r == self@.live(x as int, y as int),
    {
        let i = self.cell_index(x, y);
        self.cells[i]
    }

    /// Set cell `(x, y)` to `v`, leaving every other cell as it was.
    pub fn set_live(&mut self, x: usize, y: usize, v: bool)
        requires
            old(self)@.wf(),
            old(self)@.in_bounds(x as int, y as int),
        ensures
            final(self)@ == old(self)@.updated(x as int, y as int, v),
            final(self)@.wf(),
    {
        let i = self.cell_index(x, y);
        self.cells.set(i, v);
        proof {
            assert(self@ =~= old(self)@.updated(x as int, y as int, v));
        }
    }

    /// Flip cell `(x, y)` between live and dead.
    pub fn toggle(&mut self, x: usize, y: usize)
        requires
            old(self)@.wf(),
            old(self)@.in_bounds(x as int, y as int),
        ensures
            final(self)@ == old(self)@.toggled(x as int, y as int),
            final(self)@.wf(),
    {
        let i = self.cell_index(x, y);
        let cur = self.cells[i];
        self.cells.set(i, !cur);
        proof {
            assert(self@ =~= old(self)@.toggled(x as int, y as int));
        }
    }

    /// Whether two grids have the same dimensions and the same live
    /// cells everywhere.
    pub fn same_as(&self, other: &Grid) -> (r: bool)
        requires
            self@.wf(),
            other@.wf(),
        ensures
            r == (self@ == other@),
    {
        if self.width != other.width || self.height != other.height {
            return false;
        }
        let w: usize = self.width;
        let h: usize = self.height;
        let mut x: usize = 0;
        while x < w
            invariant
                self@.wf(),
                other@.wf(),
                w as int == self@.width,
                h as int == self@.height,
                other@.width == self@.width,
                other@.height == self@.height,
                x <= w,
                forall|i: int, j: int|
                    0 <= i < x && 0 <= j < h ==> self@.live(i, j) == other@.live(i, j),
            decreases w - x,
        {
            let mut y: usize = 0;
            while y < h
                invariant
                    self@.wf(),
                    other@.wf(),
                    w as int == self@.width,
                    h as int == self@.height,
                    other@.width == self@.width,
                    other@.height == self@.height,
                    x < w,
                    y <= h,
                    forall|i: int, j: int|
                        0 <= i < x && 0 <= j < h ==> self@.live(i, j) == other@.live(i, j),
                    forall|j: int| 0 <= j < y ==> self@.live(x as int, j) == other@.live(x as int, j),
                decreases h - y,
            {
                if self.is_live(x, y) != other.is_live(x, y) {
                    return false;
                }
                y = y + 1;
            }
            x = x + 1;
        }
        proof {
            lemma_grid_view_ext(self@, other@);
        }
        true
    }

    /// Kill every cell, keeping the dimensions.
    pub fn clear_stage(&mut self)
        requires
            old(self)@.wf(),
        ensures
            final(self)@ == old(self)@.cleared(),
            final(self)@.wf(),
            final(self)@.all_dead(),
    {
        let n: usize = self.cells.len();
        let mut i: usize = 0;
        while i < n
            invariant
                i <= n,
                n == self.cells@.len(),
                self.width == old(self).width,
                self.height == old(self).height,
                forall|k: int| 0 <= k < i ==> !self.cells@[k],
            decreases n - i,
        {
            self.cells.set(i, false);
            i = i + 1;
        }
        proof {
            lemma_empty_grid_all_dead(old(self)@.width, old(self)@.height);
            assert(self@.cells =~= old(self)@.cleared().cells);
            assert(self@ =~= old(self)@.cleared());
        }
    }
}

} // verus!
