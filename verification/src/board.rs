//! The mathematical model of the game: a bounded board of cells, the
//! neighbourhood of a cell, and the step from one generation to the next.
//!
//! Coordinates are unbounded integers here. A position off the board holds no
//! cell and counts as dead, so a cell on the border simply has fewer
//! neighbours; nothing wraps round to the opposite side.

use vstd::prelude::*;

verus! {

/// The rule of the game for a single cell: a live cell stays alive with two
/// or three live neighbours, a dead cell comes alive with exactly three.
pub open spec fn survives(alive: bool, neighbors: int) -> bool {
    if alive {
        neighbors == 2 || neighbors == 3
    } else {
        neighbors == 3
    }
}

/// One generation: `width * height` cells in row-major order, the cell at
/// `(x, y)` at position `y * width + x`.
pub struct Board {
    pub width: nat,
    pub height: nat,
    pub cells: Seq<bool>,
}

impl Board {
    /// The board holds exactly one state for each of its cells.
    pub open spec fn wf(self) -> bool {
        self.cells.len() == self.width * self.height
    }

    /// Whether `(x, y)` names a cell of the board.
    pub open spec fn contains(self, x: int, y: int) -> bool {
        0 <= x < self.width && 0 <= y < self.height
    }

    /// Where the cell at `(x, y)` stands in `cells`.
    pub open spec fn offset(self, x: int, y: int) -> int {
        y * self.width + x
    }

    /// Whether there is a live cell at `(x, y)`. Off the board there is none.
    pub open spec fn alive(self, x: int, y: int) -> bool {
        self.contains(x, y) && self.cells[self.offset(x, y)]
    }

    /// 1 for a live cell at `(x, y)`, 0 otherwise.
    pub open spec fn population(self, x: int, y: int) -> int {
        if self.alive(x, y) {
            1
        } else {
            0
        }
    }

    /// The number of live cells among the eight positions round `(x, y)`.
    pub open spec fn live_neighbors(self, x: int, y: int) -> int {
        self.population(x - 1, y - 1) + self.population(x - 1, y) + self.population(x - 1, y + 1)
            + self.population(x, y - 1) + self.population(x, y + 1)
            + self.population(x + 1, y - 1) + self.population(x + 1, y) + self.population(
            x + 1,
            y + 1,
        )
    }

    /// Whether there is a live cell at `(x, y)` in the following generation.
    pub open spec fn next_alive(self, x: int, y: int) -> bool {
        self.contains(x, y) && survives(self.alive(x, y), self.live_neighbors(x, y))
    }

    /// The board of the given size on which every cell is dead.
    pub open spec fn empty(width: nat, height: nat) -> Board {
        Board { width, height, cells: Seq::new(width * height, |i: int| false) }
    }

    /// Whether no cell of the board is alive.
    pub open spec fn is_empty(self) -> bool {
        forall|x: int, y: int| !#[trigger] self.alive(x, y)
    }

    /// The board with the cell at `(x, y)` set to `value`. For a position off
    /// the board this is the board itself.
    pub open spec fn with_cell(self, x: int, y: int, value: bool) -> Board {
        if self.contains(x, y) {
            Board { cells: self.cells.update(self.offset(x, y), value), ..self }
        } else {
            self
        }
    }

    /// The following generation: every cell decided by the rule from the
    /// cells of this one.
    pub open spec fn step(self) -> Board {
        Board {
            cells: Seq::new(
                self.cells.len(),
                |i: int| self.next_alive(i % (self.width as int), i / (self.width as int)),
            ),
            ..self
        }
    }

    /// The generation reached after `n` steps.
    pub open spec fn steps(self, n: nat) -> Board
        decreases n,
    {
        if n == 0 {
            self
        } else {
            self.step().steps((n - 1) as nat)
        }
    }
}

/// A cell of a `width` by `height` board stands inside the row-major
/// sequence of its cells.
pub proof fn lemma_offset_in_range(width: int, height: int, x: int, y: int)
    requires
        0 <= x < width,
        0 <= y < height,
    ensures
        0 <= y * width + x < width * height,
{
    assert(0 <= y * width) by (nonlinear_arith)
        requires
            0 <= y,
            0 <= width,
    ;
    assert((y + 1) * width <= height * width) by (nonlinear_arith)
        requires
            y + 1 <= height,
            0 <= width,
    ;
    assert((y + 1) * width == y * width + width) by (nonlinear_arith);
    assert(height * width == width * height) by (nonlinear_arith);
}

/// The row-major position determines the cell: column and row are its
/// remainder and quotient by the width.
pub proof fn lemma_offset_splits(width: int, x: int, y: int)
    requires
        0 <= x < width,
        0 <= y,
    ensures
        (y * width + x) % width == x,
        (y * width + x) / width == y,
{
    vstd::arithmetic::div_mod::lemma_fundamental_div_mod_converse(y * width + x, width, y, x);
}

/// Every position of the row-major sequence is that of one cell.
pub proof fn lemma_position_is_cell(width: int, height: int, i: int)
    requires
        0 <= width,
        0 <= i < width * height,
    ensures
        0 < width,
        0 <= i % width < width,
        0 <= i / width < height,
        (i / width) * width + i % width == i,
{
    assert(0 < width) by (nonlinear_arith)
        requires
            0 <= width,
            0 <= i < width * height,
    ;
    vstd::arithmetic::div_mod::lemma_fundamental_div_mod(i, width);
    let q = i / width;
    let r = i % width;
    assert(width * q == q * width) by (nonlinear_arith);
    assert(0 <= r < width);
    assert(0 <= q) by (nonlinear_arith)
        requires
            0 <= q * width + r,
            0 <= r < width,
    ;
    assert(q < height) by (nonlinear_arith)
        requires
            q * width + r < width * height,
            0 <= r,
            0 < width,
    ;
}

} // verus!
