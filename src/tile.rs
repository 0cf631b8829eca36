//! One cell of the board and what it holds.
use vstd::prelude::*;
use crate::position::Position;

verus! {

/// A board cell: where it is, whether it is cut away, and whether a token sits on it.
#[derive(Clone, Copy, Debug, PartialEq, Eq, Structural)]
pub struct Tile {
    pub position: Position,
    pub is_corner: bool,
    pub has_token: bool,
}

} // verus!
