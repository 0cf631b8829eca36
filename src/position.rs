//! Board coordinates and their linear index.
use vstd::prelude::*;

verus! {

/// Number of rows, and of columns, of the board.
pub const GRID_SIZE: usize = 7;

/// Linear index of the centre tile, the one that starts empty.
pub const CENTER: usize = 24;

/// A cell of the board, by row (top to bottom) and column (left to right).
#[derive(Clone, Copy, Debug, PartialEq, Eq, Structural)]
pub struct Position {
    pub row: usize,
    pub col: usize,
}

/// The position lies on the board.
pub open spec fn in_grid(p: Position) -> bool {
    p.row < GRID_SIZE && p.col < GRID_SIZE
}

/// Row-major linear index of a position.
pub open spec fn index_of(p: Position) -> int {
    p.row * GRID_SIZE + p.col
}

/// The position whose linear index is `i`.
pub open spec fn position_of(i: int) -> Position {
    Position { row: (i / GRID_SIZE as int) as usize, col: (i % GRID_SIZE as int) as usize }
}

/// `position_of` and `index_of` are inverse on the board.
pub proof fn lemma_index_round_trip(p: Position)
    requires
        in_grid(p),
    ensures
        0 <= index_of(p) < GRID_SIZE * GRID_SIZE,
        position_of(index_of(p)) == p,
{
    assert(index_of(p) / 7 == p.row && index_of(p) % 7 == p.col) by (nonlinear_arith)
        requires
            p.row < 7,
            p.col < 7,
            index_of(p) == p.row * 7 + p.col,
    ;
}

/// Every index of the board names an in-grid position, and indexes it back.
pub proof fn lemma_position_of_in_grid(i: int)
    requires
        0 <= i < GRID_SIZE * GRID_SIZE,
    ensures
        in_grid(position_of(i)),
        index_of(position_of(i)) == i,
{
}

impl Position {
    /// Row-major linear index of this position.
    pub fn to_index(&self) -> (r: usize)
        requires
            in_grid(*self),
        ensures
            r as int == index_of(*self),
            r < GRID_SIZE * GRID_SIZE,
    {
        self.row * GRID_SIZE + self.col
    }
}

} // verus!
