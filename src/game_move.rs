//! Jump moves.
use vstd::prelude::*;
use crate::position::Position;

verus! {

/// The four axis-aligned directions a token can jump in.
#[derive(Clone, Copy, Debug, PartialEq, Eq, Structural)]
pub enum MoveDirection {
    Left,
    Right,
    Up,
    Down,
}

/// A legal jump: the token at `origin` leaps over the token at `middle`,
/// which is captured, and lands on `target`.
#[derive(Clone, Copy, Debug, PartialEq, Eq, Structural)]
pub struct ValidMove {
    pub origin: Position,
    pub middle: Position,
    pub target: Position,
}

/// The legal jumps from one origin, in the order Left, Right, Up, Down.
#[derive(Clone, Debug, PartialEq, Eq)]
pub struct ValidMoves {
    pub list: Vec<ValidMove>,
}

} // verus!
