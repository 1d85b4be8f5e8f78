//! The simulation grid: the current generation, a scratch buffer for the one
//! being computed, and the operations that read, edit and advance it.

use vstd::prelude::*;
use crate::board::{Board, lemma_offset_in_range, lemma_offset_splits, lemma_position_is_cell};

verus! {

/// A fixed-size grid of cells, each alive or dead.
pub struct Grid {
    foreground: Vec<bool>,
    background: Vec<bool>,
    width: usize,
    height: usize,
}

impl View for Grid {
    type V = Board;

    /// The generation that callers can see. The scratch buffer is no part of
    /// it.
    closed spec fn view(&self) -> Board {
        Board { width: self.width as nat, height: self.height as nat, cells: self.foreground@ }
    }
}

/// Whether the scratch buffer holds, at the place of the cell at `(x, y)`,
/// the state that the cell has in the generation after `before`.
spec fn decided(scratch: Seq<bool>, before: Board, x: int, y: int) -> bool {
    scratch[before.offset(x, y)] == before.next_alive(x, y)
}

impl Grid {
    /// Both buffers hold one state for each cell of the grid.
    #[verifier::type_invariant]
    spec fn inv(&self) -> bool {
        &&& self.foreground.len() == self.width * self.height
        &&& self.background.len() == self.width * self.height
    }

    /// A grid of `width` by `height` cells, all dead. The number of cells
    /// has to fit in `usize`. A grid without columns or without rows has no
    /// cell at all.
    pub fn new(width: usize, height: usize) -> (grid: Grid)
        requires
            width * height <= usize::MAX,
        ensures
            grid@ == Board::empty(width as nat, height as nat),
            grid@.wf(),
    {
        let grid = Grid {
            foreground: vec![false; width * height],
            background: vec![false; width * height],
            width,
            height,
        };
        assert(grid@.cells =~= Board::empty(width as nat, height as nat).cells);
        grid
    }

    /// Where the cell at `(x, y)` stands in a buffer.
    fn position_to_index(&self, x: usize, y: usize) -> (index: usize)
        requires
            self@.contains(x as int, y as int),
        ensures
            index == self@.offset(x as int, y as int),
            index < self@.cells.len(),
    {
        proof {
            use_type_invariant(self);
            lemma_offset_in_range(self.width as int, self.height as int, x as int, y as int);
        }
        y * self.width + x
    }

    /// Whether `(x, y)` names a cell of the grid.
    fn position_valid(&self, x: usize, y: usize) -> (valid: bool)
        ensures
            valid == self@.contains(x as int, y as int),
    {
        x < self.width && y < self.height
    }

    /// Whether the cell at `(x, y)` is alive in the current generation. A
    /// position off the grid holds no cell, and the answer is `false`. The
    /// grid is left as it is, so the same question gets the same answer
    /// until a cell is set or the grid is advanced.
    pub fn is_cell_full(&self, x: usize, y: usize) -> (full: bool)
        ensures
            full == self@.alive(x as int, y as int),
            self@.wf(),
    {
        proof {
            use_type_invariant(self);
        }
        if !self.position_valid(x, y) {
            return false;
        }
        self.foreground[self.position_to_index(x, y)]
    }

    /// The number of live cells among the eight neighbours of the cell at
    /// `(x, y)`. A coordinate below zero wraps to the largest value there is,
    /// which no grid contains, so a neighbour off the grid is never counted.
    fn count_neighbors(&self, x: usize, y: usize) -> (neighbors: u32)
        requires
            self@.contains(x as int, y as int),
        ensures
            neighbors == self@.live_neighbors(x as int, y as int),
    {
        let mut neighbors: u32 = 0;

        if self.is_cell_full(x.wrapping_sub(1), y.wrapping_sub(1)) {
            neighbors += 1;
        }

        if self.is_cell_full(x.wrapping_sub(1), y) {
            neighbors += 1;
        }

        if self.is_cell_full(x.wrapping_sub(1), y.wrapping_add(1)) {
            neighbors += 1;
        }

        if self.is_cell_full(x, y.wrapping_sub(1)) {
            neighbors += 1;
        }

        if self.is_cell_full(x, y.wrapping_add(1)) {
            neighbors += 1;
        }

        if self.is_cell_full(x.wrapping_add(1), y.wrapping_sub(1)) {
            neighbors += 1;
        }

        if self.is_cell_full(x.wrapping_add(1), y) {
            neighbors += 1;
        }

        if self.is_cell_full(x.wrapping_add(1), y.wrapping_add(1)) {
            neighbors += 1;
        }

        neighbors
    }

    /// Advances the grid by one generation. Every cell is decided from the
    /// generation before the call; the new one replaces it as a whole.
    pub fn update(&mut self)
        ensures
            final(self)@ == old(self)@.step(),
            final(self)@.wf(),
    {
        proof {
            use_type_invariant(&*self);
        }
        let ghost before = self@;
        let width = self.width;
        let height = self.height;
        for x in 0..width
            invariant
                self@ == before,
                before.wf(),
                width == before.width,
                height == before.height,
                self.background.len() == before.cells.len(),
                forall|cx: int, cy: int|
                    0 <= cx < x && 0 <= cy < height ==> #[trigger] decided(
                        self.background@,
                        before,
                        cx,
                        cy,
                    ),
        {
            for y in 0..height
                invariant
                    self@ == before,
                    before.wf(),
                    x < width == before.width,
                    height == before.height,
                    self.background.len() == before.cells.len(),
                    forall|cx: int, cy: int|
                        0 <= cx < x && 0 <= cy < height ==> #[trigger] decided(
                            self.background@,
                            before,
                            cx,
                            cy,
                        ),
                    forall|cy: int|
                        0 <= cy < y ==> #[trigger] decided(
                            self.background@,
                            before,
                            x as int,
                            cy,
                        ),
            {
                let index = self.position_to_index(x, y);
                let neighbors = self.count_neighbors(x, y);

                let state = self.foreground[index];
                let mut new_state = false;

                if state {
                    if neighbors == 2 || neighbors == 3 {
                        new_state = true;
                    }
                } else if neighbors == 3 {
                    new_state = true;
                }

                let ghost scratch = self.background@;
                self.background[index] = new_state;

                proof {
                    lemma_offset_splits(width as int, x as int, y as int);
                    assert forall|cx: int, cy: int|
                        before.contains(cx, cy) && (cx != x || cy != y) && decided(
                            scratch,
                            before,
                            cx,
                            cy,
                        ) implies #[trigger] decided(self.background@, before, cx, cy) by {
                        lemma_offset_splits(width as int, cx, cy);
                        lemma_offset_in_range(width as int, height as int, cx, cy);
                    }
                    assert(decided(self.background@, before, x as int, y as int));
                }
            }
        }

        proof {
            assert forall|i: int| 0 <= i < before.cells.len() implies self.background@[i]
                == before.step().cells[i] by {
                lemma_position_is_cell(width as int, height as int, i);
                assert(decided(self.background@, before, i % (width as int), i / (width as int)));
            }
            assert(self.background@ =~= before.step().cells);
        }
        std::mem::swap(&mut self.foreground, &mut self.background);
    }

    /// Sets the cell at `(x, y)` to `value`. A position off the grid is
    /// ignored.
    pub fn set_cell(&mut self, x: usize, y: usize, value: bool)
        ensures
            final(self)@ == old(self)@.with_cell(x as int, y as int, value),
            final(self)@.wf(),
    {
        proof {
            use_type_invariant(&*self);
        }
        if self.position_valid(x, y) {
            let index = self.position_to_index(x, y);
            self.foreground[index] = value;
        }
    }
}

} // verus!
