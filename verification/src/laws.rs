//! What holds of every board: how reading and writing a cell relate, what a
//! step does to each cell, and how the border of the board behaves.
//!
//! `Grid` states its operations over its view, a `Board`, so each of these
//! holds of what `Grid::is_cell_full` returns after the matching calls of
//! `Grid::set_cell` and `Grid::update`.

use vstd::prelude::*;
use crate::board::{Board, survives, lemma_offset_in_range, lemma_offset_splits};

verus! {

/// A cell that was written reads back as written: after setting the cell at
/// a position on the board, asking for it gives the value that was set.
pub proof fn written_cell_reads_back(b: Board, x: int, y: int, value: bool)
    requires
        b.wf(),
        b.contains(x, y),
    ensures
        b.with_cell(x, y, value).alive(x, y) == value,
{
    lemma_offset_in_range(b.width as int, b.height as int, x, y);
}

/// Writing one cell changes no other: every other position reads as before,
/// and the board keeps its size.
pub proof fn other_cells_keep_state(b: Board, x: int, y: int, value: bool, ox: int, oy: int)
    requires
        b.wf(),
        ox != x || oy != y,
    ensures
        b.with_cell(x, y, value).alive(ox, oy) == b.alive(ox, oy),
        b.with_cell(x, y, value).width == b.width,
        b.with_cell(x, y, value).height == b.height,
        b.with_cell(x, y, value).wf(),
{
    if b.contains(x, y) {
        lemma_offset_in_range(b.width as int, b.height as int, x, y);
        if b.contains(ox, oy) {
            lemma_offset_in_range(b.width as int, b.height as int, ox, oy);
            lemma_offset_splits(b.width as int, x, y);
            lemma_offset_splits(b.width as int, ox, oy);
        }
    }
}

/// A position off the board, be it past the last column or row or before
/// the first, always reads as dead, and writing to it changes nothing.
pub proof fn off_board_is_dead_and_ignored(b: Board, x: int, y: int, value: bool)
    requires
        !b.contains(x, y),
    ensures
        !b.alive(x, y),
        b.with_cell(x, y, value) == b,
{
}

/// What a step does to one position: on the board the rule decides from the
/// cell and its neighbours in the generation before, off the board there is
/// still no cell. The step keeps the size of the board.
pub proof fn step_decides_each_cell(b: Board, x: int, y: int)
    requires
        b.wf(),
    ensures
        b.step().alive(x, y) == b.next_alive(x, y),
        b.step().width == b.width,
        b.step().height == b.height,
        b.step().wf(),
{
    if b.contains(x, y) {
        lemma_offset_in_range(b.width as int, b.height as int, x, y);
        lemma_offset_splits(b.width as int, x, y);
    }
}

/// A live cell stays alive through a step if it has two or three live
/// neighbours, and dies with any other number.
pub proof fn live_cell_survives_with_two_or_three(b: Board, x: int, y: int)
    requires
        b.wf(),
        b.alive(x, y),
    ensures
        b.step().alive(x, y) <==> (b.live_neighbors(x, y) == 2 || b.live_neighbors(x, y) == 3),
{
    step_decides_each_cell(b, x, y);
}

/// A dead cell comes alive through a step if it has exactly three live
/// neighbours, and stays dead with any other number.
pub proof fn dead_cell_is_born_with_three(b: Board, x: int, y: int)
    requires
        b.wf(),
        b.contains(x, y),
        !b.alive(x, y),
    ensures
        b.step().alive(x, y) <==> b.live_neighbors(x, y) == 3,
{
    step_decides_each_cell(b, x, y);
}

/// No cell has more than eight live neighbours, a cell in the first or last
/// column or row no more than five, and a cell in a corner no more than
/// three: the positions past the border count for nothing.
pub proof fn border_cells_have_fewer_neighbors(b: Board, x: int, y: int)
    requires
        b.contains(x, y),
    ensures
        0 <= b.live_neighbors(x, y) <= 8,
        (x == 0 || x == b.width - 1 || y == 0 || y == b.height - 1) ==> b.live_neighbors(x, y)
            <= 5,
        (x == 0 || x == b.width - 1) && (y == 0 || y == b.height - 1) ==> b.live_neighbors(x, y)
            <= 3,
{
}

/// Only the eight adjacent cells count as neighbours: the state of a cell
/// further away, such as one on the opposite border, has no part in the
/// number of live neighbours.
pub proof fn distant_cells_do_not_count(b: Board, x: int, y: int, ox: int, oy: int, value: bool)
    requires
        b.wf(),
        ox < x - 1 || ox > x + 1 || oy < y - 1 || oy > y + 1,
    ensures
        b.with_cell(ox, oy, value).live_neighbors(x, y) == b.live_neighbors(x, y),
{
    let c = b.with_cell(ox, oy, value);
    other_cells_keep_state(b, ox, oy, value, x - 1, y - 1);
    other_cells_keep_state(b, ox, oy, value, x - 1, y);
    other_cells_keep_state(b, ox, oy, value, x - 1, y + 1);
    other_cells_keep_state(b, ox, oy, value, x, y - 1);
    other_cells_keep_state(b, ox, oy, value, x, y + 1);
    other_cells_keep_state(b, ox, oy, value, x + 1, y - 1);
    other_cells_keep_state(b, ox, oy, value, x + 1, y);
    other_cells_keep_state(b, ox, oy, value, x + 1, y + 1);
}

/// Asking again gives the same answer: what a query returns is decided by
/// the generation shown and the position asked for, so as long as no cell
/// is written and no step is taken, the answer for a position stays what it
/// was.
pub proof fn query_is_repeatable(first: Board, second: Board, x: int, y: int)
    requires
        first == second,
    ensures
        first.alive(x, y) == second.alive(x, y),
{
}

/// A newly made board is well formed and has no live cell.
pub proof fn new_board_is_empty(width: nat, height: nat)
    ensures
        Board::empty(width, height).wf(),
        Board::empty(width, height).is_empty(),
{
    let b = Board::empty(width, height);
    assert forall|x: int, y: int| !#[trigger] b.alive(x, y) by {
        if b.contains(x, y) {
            lemma_offset_in_range(width as int, height as int, x, y);
        }
    }
}

/// A board without a live cell stays without one, however many steps are
/// taken.
pub proof fn empty_board_stays_empty(b: Board, n: nat)
    requires
        b.wf(),
        b.is_empty(),
    ensures
        b.steps(n).is_empty(),
        b.steps(n).wf(),
    decreases n,
{
    if n > 0 {
        let next = b.step();
        assert forall|x: int, y: int| !#[trigger] next.alive(x, y) by {
            step_decides_each_cell(b, x, y);
            assert(b.live_neighbors(x, y) == 0);
            assert(!survives(b.alive(x, y), 0));
        }
        empty_board_stays_empty(next, (n - 1) as nat);
    }
}

} // verus!
