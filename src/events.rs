//! The events that flow between input, the interaction step and the move commit.
use vstd::prelude::*;
use crate::game_move::ValidMove;
use crate::pixel::Point;

verus! {

/// One pointer reading: where the cursor is, in the top-left, y-down space,
/// and whether the primary button is held.
#[derive(Clone, Copy, Debug, PartialEq, Eq, Structural)]
pub struct MouseDataEvent {
    pub pos: Point,
    pub clicked: bool,
}

/// A move the player has chosen, to be applied to the board.
#[derive(Clone, Copy, Debug, PartialEq, Eq, Structural)]
pub struct ValidMoveEvent {
    pub data: ValidMove,
}

} // verus!
