//! What the program round the grid decides in each frame: how the space key
//! pauses and resumes the game, when the next generation is due, which cell
//! a mouse button paints, and which colour each pixel of the window gets.
//! Opening the window, polling keys and mouse and reading the clock are left
//! to the caller.

use vstd::prelude::*;
use crate::board::Board;
use crate::conway::Grid;

verus! {

/// Width of the window, in pixels.
pub const WIDTH: usize = 640;

/// Height of the window, in pixels.
pub const HEIGHT: usize = 640;

/// Length of the side of one cell, in pixels.
pub const CELL_SIZE: usize = 20;

/// Number of cells in a row of the grid.
pub const CELL_X: usize = WIDTH / CELL_SIZE;

/// Number of cells in a column of the grid.
pub const CELL_Y: usize = HEIGHT / CELL_SIZE;

/// Colour of a live cell.
pub const WHITE: u32 = 0xFFFFFF;

/// Colour of the lines between the cells.
pub const GREY: u32 = 0xAAAAAA;

/// Colour of a dead cell.
pub const BLACK: u32 = 0;

/// Time between two generations while the game runs, in milliseconds.
pub const PERIOD_MS: u128 = 500;

/// What a look at the space key did to the game.
#[derive(Clone, Copy, Debug, PartialEq, Eq, Structural)]
pub enum Toggle {
    /// The game goes on as it was.
    Unchanged,
    /// The game was running and is now paused.
    Paused,
    /// The game was paused and runs again; its clock starts anew.
    Resumed,
}

/// Whether the game is paused, and whether the space key was down when it
/// was last looked at.
pub struct Controls {
    pub paused: bool,
    pub space_held: bool,
}

impl Controls {
    /// The controls at the start: the game is paused, no key is down.
    pub fn new() -> (controls: Controls)
        ensures
            controls.paused,
            !controls.space_held,
    {
        Controls { paused: true, space_held: false }
    }

    /// What pressing or holding the space key does to the pause: it flips
    /// when the key goes down, and not again until the key was released.
    pub open spec fn paused_after(self, down: bool) -> bool {
        if down && !self.space_held {
            !self.paused
        } else {
            self.paused
        }
    }

    /// Takes note of the state of the space key in this frame, and says
    /// whether that paused or resumed the game.
    pub fn space_key(&mut self, down: bool) -> (toggle: Toggle)
        ensures
            final(self).space_held == down,
            final(self).paused == old(self).paused_after(down),
            toggle == if final(self).paused == old(self).paused {
                Toggle::Unchanged
            } else if final(self).paused {
                Toggle::Paused
            } else {
                Toggle::Resumed
            },
    {
        let mut toggle = Toggle::Unchanged;
        if down {
            if !self.space_held {
                self.paused = !self.paused;
                self.space_held = true;
                if self.paused {
                    toggle = Toggle::Paused;
                } else {
                    toggle = Toggle::Resumed;
                }
            }
        } else {
            self.space_held = false;
        }
        toggle
    }

    /// Whether the next generation is due, `elapsed_ms` milliseconds after
    /// the last one: never while the game is paused, else once a full period
    /// has passed.
    pub fn generation_due(&self, elapsed_ms: u128) -> (due: bool)
        ensures
            due == (!self.paused && elapsed_ms >= PERIOD_MS),
    {
        !self.paused && elapsed_ms >= PERIOD_MS
    }
}

/// The grid after a look at the mouse, with the pointer over the pixel
/// `(pixel_x, pixel_y)`: the left button brings the cell under the pointer to
/// life, the right button, if the left one is up, kills it.
pub open spec fn painted(
    board: Board,
    pixel_x: int,
    pixel_y: int,
    left: bool,
    right: bool,
) -> Board {
    let x = pixel_x / (CELL_SIZE as int);
    let y = pixel_y / (CELL_SIZE as int);
    if left {
        board.with_cell(x, y, true)
    } else if right {
        board.with_cell(x, y, false)
    } else {
        board
    }
}

/// Applies the mouse buttons to the cell under the pointer.
pub fn paint(grid: &mut Grid, pixel_x: usize, pixel_y: usize, left: bool, right: bool)
    ensures
        final(grid)@ == painted(old(grid)@, pixel_x as int, pixel_y as int, left, right),
{
    let x = pixel_x / CELL_SIZE;
    let y = pixel_y / CELL_SIZE;

    if left {
        grid.set_cell(x, y, true);
    } else if right {
        grid.set_cell(x, y, false);
    }
}

/// The colour of pixel `i` of the window, the pixels counted row by row:
/// grey on the lines that part the cells, else white over a live cell and
/// black over a dead one or past the grid.
pub open spec fn pixel(board: Board, i: int) -> u32 {
    let pixel_x = i % (WIDTH as int);
    let pixel_y = i / (WIDTH as int);
    if pixel_x % (CELL_SIZE as int) == 0 || pixel_y % (CELL_SIZE as int) == 0 {
        GREY
    } else if board.alive(pixel_x / (CELL_SIZE as int), pixel_y / (CELL_SIZE as int)) {
        WHITE
    } else {
        BLACK
    }
}

/// Computes the colour of pixel `i` of the window.
pub fn pixel_color(grid: &Grid, i: usize) -> (color: u32)
    ensures
        color == pixel(grid@, i as int),
{
    let pixel_x = i % WIDTH;
    let pixel_y = i / WIDTH;

    let x = pixel_x / CELL_SIZE;
    let y = pixel_y / CELL_SIZE;

    if pixel_x % CELL_SIZE == 0 || pixel_y % CELL_SIZE == 0 {
        GREY
    } else if grid.is_cell_full(x, y) {
        WHITE
    } else {
        BLACK
    }
}

/// Draws the grid: gives every pixel of `buffer` its colour.
pub fn render(grid: &Grid, buffer: &mut Vec<u32>)
    ensures
        final(buffer)@.len() == old(buffer)@.len(),
        forall|i: int| 0 <= i < final(buffer)@.len() ==> final(buffer)@[i] == pixel(grid@, i),
{
    let n = buffer.len();
    for i in 0..n
        invariant
            buffer.len() == n,
            forall|j: int| 0 <= j < i ==> buffer@[j] == pixel(grid@, j),
    {
        let color = pixel_color(grid, i);
        buffer[i] = color;
    }
}

} // verus!
