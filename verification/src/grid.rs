//! The fixed-size grid and its bounds-clamped cursor.
//!
//! A movement request that would leave the grid is ignored on that axis
//! (clamp, not wrap, not an error), so the cursor always stays inside
//! the dimensions.

use vstd::prelude::*;

verus! {

/// A unit movement request for the cursor.
#[derive(Clone, Copy, Debug, PartialEq, Eq, Structural)]
pub enum Direction {
    Up,
    Down,
    Left,
    Right,
}

/// Fixed dimensions plus the current cursor position, both zero-based.
#[derive(Clone, Copy, Debug, PartialEq, Eq, Structural)]
pub struct Grid {
    pub cols: usize,
    pub rows: usize,
    pub col: usize,
    pub row: usize,
}

impl Grid {
    /// Dimensions are positive, small enough to render a bordered frame,
    /// and the cursor lies strictly inside them.
    pub open spec fn wf(self) -> bool {
        &&& 1 <= self.cols
        &&& 1 <= self.rows
        &&& self.cols + 2 <= usize::MAX
        &&& self.rows + 2 <= usize::MAX
        &&& self.col < self.cols
        &&& self.row < self.rows
    }

    /// The position after one movement request: a unit step, except that a
    /// step out of the grid leaves the position unchanged on that axis.
    pub open spec fn spec_step(self, d: Direction) -> Grid {
        match d {
            Direction::Left => if self.col > 0 {
                Grid { col: (self.col - 1) as usize, ..self }
            } else {
                self
            },
            Direction::Right => if self.col < self.cols - 1 {
                Grid { col: (self.col + 1) as usize, ..self }
            } else {
                self
            },
            Direction::Up => if self.row > 0 {
                Grid { row: (self.row - 1) as usize, ..self }
            } else {
                self
            },
            Direction::Down => if self.row < self.rows - 1 {
                Grid { row: (self.row + 1) as usize, ..self }
            } else {
                self
            },
        }
    }

    /// A fresh grid with the cursor at the centre cell.
    pub fn new(cols: usize, rows: usize) -> (g: Grid)
        requires
            1 <= cols,
            1 <= rows,
            cols + 2 <= usize::MAX,
            rows + 2 <= usize::MAX,
        ensures
            g.wf(),
            g.cols == cols,
            g.rows == rows,
            g.col == cols / 2,
            g.row == rows / 2,
    {
        Grid { cols, rows, col: cols / 2, row: rows / 2 }
    }

    /// Applies one movement request, clamping at the boundaries.
    pub fn step(&mut self, d: Direction)
        requires
            old(self).wf(),
        ensures
            *final(self) == old(self).spec_step(d),
            final(self).wf(),
    {
        match d {
            Direction::Left => if self.col > 0 {
                self.col = self.col - 1;
            },
            Direction::Right => if self.col < self.cols - 1 {
                self.col = self.col + 1;
            },
            Direction::Up => if self.row > 0 {
                self.row = self.row - 1;
            },
            Direction::Down => if self.row < self.rows - 1 {
                self.row = self.row + 1;
            },
        }
    }
}

/// One movement request keeps the cursor inside the grid.
pub proof fn lemma_step_in_bounds(g: Grid, d: Direction)
    requires
        g.wf(),
    ensures
        g.spec_step(d).wf(),
{
}

/// The grid reached after a whole sequence of movement requests,
/// applied in order.
pub open spec fn steps(g: Grid, ds: Seq<Direction>) -> Grid
    decreases ds.len(),
{
    if ds.len() == 0 {
        g
    } else {
        steps(g, ds.drop_last()).spec_step(ds.last())
    }
}

/// Every sequence of movement requests keeps the cursor inside the grid:
/// after any number of steps the position still satisfies
/// `col < cols` and `row < rows`, and the dimensions never change.
pub proof fn lemma_steps_in_bounds(g: Grid, ds: Seq<Direction>)
    requires
        g.wf(),
    ensures
        steps(g, ds).wf(),
        steps(g, ds).cols == g.cols,
        steps(g, ds).rows == g.rows,
    decreases ds.len(),
{
    if ds.len() > 0 {
        lemma_steps_in_bounds(g, ds.drop_last());
    }
}

/// Movement clamps at each boundary: a step towards an edge the cursor
/// already sits on leaves the position unchanged, and a step never
/// changes the other axis.
pub proof fn lemma_step_clamps(g: Grid, d: Direction)
    requires
        g.wf(),
    ensures
        g.col == 0 ==> g.spec_step(Direction::Left) == g,
        g.col == g.cols - 1 ==> g.spec_step(Direction::Right) == g,
        g.row == 0 ==> g.spec_step(Direction::Up) == g,
        g.row == g.rows - 1 ==> g.spec_step(Direction::Down) == g,
        g.spec_step(d).row == g.row || d is Up || d is Down,
        g.spec_step(d).col == g.col || d is Left || d is Right,
{
}

} // verus!
