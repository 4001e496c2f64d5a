//! Conway's Game of Life rules: neighbor counting and the generation
//! stepper that computes the next grid from the current one.

use crate::grid::{lemma_grid_view_ext, lemma_idx_bounds, lemma_updated_cells, Grid, GridView};
use vstd::arithmetic::div_mod::lemma_fundamental_div_mod_converse;
use vstd::prelude::*;

verus! {

/// 1 if `(x, y)` is inside the grid and live, else 0. A coordinate
/// outside the grid never counts as live: no wraparound, no error.
pub open spec fn live_at(g: GridView, x: int, y: int) -> int {
    if g.in_bounds(x, y) && g.live(x, y) {
        1
    } else {
        0
    }
}

/// Number of live cells among the 8 compass neighbors of `(x, y)`;
/// neighbors outside the grid are skipped.
pub open spec fn neighbor_count(g: GridView, x: int, y: int) -> int {
    live_at(g, x - 1, y - 1) + live_at(g, x - 1, y) + live_at(g, x - 1, y + 1) + live_at(
        g,
        x,
        y - 1,
    ) + live_at(g, x, y + 1) + live_at(g, x + 1, y - 1) + live_at(g, x + 1, y) + live_at(
        g,
        x + 1,
        y + 1,
    )
}

/// The Life rule table, exhaustive over every neighbor count: a live
/// cell survives exactly when it has 2 or 3 live neighbors; a dead cell
/// is born exactly when it has 3; every other count leaves the cell dead.
pub open spec fn cell_next(alive: bool, neighbors: int) -> bool {
    if alive {
        neighbors == 2 || neighbors == 3
    } else {
        neighbors == 3
    }
}

/// The next generation of a whole grid: every cell follows the rule
/// table on its neighbor count in the old grid.
pub open spec fn stepped(g: GridView) -> GridView {
    GridView {
        width: g.width,
        height: g.height,
        cells: Seq::new(
            g.cells.len(),
            |i: int| cell_next(g.cells[i], neighbor_count(g, i / g.height, i % g.height)),
        ),
    }
}

/// What `stepped` says of one cell: the rule table applied to the old
/// cell and its old neighbor count.
pub proof fn lemma_stepped_live(g: GridView, x: int, y: int)
    requires
        g.wf(),
        g.in_bounds(x, y),
    ensures
        stepped(g).wf(),
        stepped(g).live(x, y) == cell_next(g.live(x, y), neighbor_count(g, x, y)),
{
    lemma_idx_bounds(g.width, g.height, x, y);
    lemma_fundamental_div_mod_converse(g.idx(x, y), g.height, x, y);
}

impl Grid {
    /// Count the live cells among the 8 neighbors of `(x, y)`,
    /// skipping neighbors that fall outside the grid.
    pub fn get_live_neighbors(&self, x: isize, y: isize) -> (n: u8)
        requires
            self@.wf(),
            self@.in_bounds(x as int, y as int),
        ensures
            n as int == neighbor_count(self@, x as int, y as int),
            n <= 8,
    {
        let xu: usize = x as usize;
        let yu: usize = y as usize;
        let w: usize = self.width();
        let h: usize = self.height();
        let mut n: u8 = 0;
        if xu >= 1 && yu >= 1 && self.is_live(xu - 1, yu - 1) {
            n = n + 1;
        }
        if xu >= 1 && self.is_live(xu - 1, yu) {
            n = n + 1;
        }
        if xu >= 1 && yu + 1 < h && self.is_live(xu - 1, yu + 1) {
            n = n + 1;
        }
        if yu >= 1 && self.is_live(xu, yu - 1) {
            n = n + 1;
        }
        if yu + 1 < h && self.is_live(xu, yu + 1) {
            n = n + 1;
        }
        if xu + 1 < w && yu >= 1 && self.is_live(xu + 1, yu - 1) {
            n = n + 1;
        }
        if xu + 1 < w && self.is_live(xu + 1, yu) {
            n = n + 1;
        }
        if xu + 1 < w && yu + 1 < h && self.is_live(xu + 1, yu + 1) {
            n = n + 1;
        }
        n
    }
}

/// Compute the next generation. The new grid is built independently of
/// the old one, so the order of cell evaluation cannot affect the
/// result, and identical input grids give identical output grids.
pub fn step(g: &Grid) -> (r: Grid)
    requires
        g@.wf(),
    ensures
        r@ == stepped(g@),
        r@.wf(),
{
    let w: usize = g.width();
    let h: usize = g.height();
    let mut r = Grid::new(w, h);
    proof {
        crate::grid::lemma_empty_grid_all_dead(g@.width, g@.height);
    }
    let mut x: usize = 0;
    while x < w
        invariant
            g@.wf(),
            r@.wf(),
            w as int == g@.width,
            h as int == g@.height,
            r@.width == g@.width,
            r@.height == g@.height,
            x <= w,
            forall|i: int, j: int|
                g@.in_bounds(i, j) ==> r@.live(i, j) == (if i < x {
                    cell_next(g@.live(i, j), neighbor_count(g@, i, j))
                } else {
                    false
                }),
        decreases w - x,
    {
        let mut y: usize = 0;
        while y < h
            invariant
                g@.wf(),
                r@.wf(),
                w as int == g@.width,
                h as int == g@.height,
                r@.width == g@.width,
                r@.height == g@.height,
                x < w,
                y <= h,
                forall|i: int, j: int|
                    g@.in_bounds(i, j) ==> r@.live(i, j) == (if i < x || (i == x && j < y) {
                        cell_next(g@.live(i, j), neighbor_count(g@, i, j))
                    } else {
                        false
                    }),
            decreases h - y,
        {
            let alive = g.is_live(x, y);
            let nb = g.get_live_neighbors(x as isize, y as isize);
            let next = if alive {
                nb == 2 || nb == 3
            } else {
                nb == 3
            };
            if next {
                let ghost prev = r@;
                r.set_live(x, y, true);
                proof {
                    lemma_updated_cells(prev, x as int, y as int, true);
                }
            }
            y = y + 1;
        }
        x = x + 1;
    }
    proof {
        lemma_stepped_live(g@, 0, 0);
        assert forall|i: int, j: int| r@.in_bounds(i, j) implies r@.live(i, j) == stepped(g@).live(
            i,
            j,
        ) by {
            lemma_stepped_live(g@, i, j);
        }
        lemma_grid_view_ext(r@, stepped(g@));
    }
    r
}

} // verus!
