//! Applying a chosen move: the board's occupancy, and what becomes of each token.
use vstd::prelude::*;
use crate::events::ValidMoveEvent;
use crate::game_move::ValidMove;
use crate::grid::{corner, is_legal, layout_ok, tile_at, tiles_wf, Grid};
use crate::position::{in_grid, index_of, lemma_index_round_trip, position_of, Position};
use crate::tile::Tile;

verus! {

/// The tile at `p` with its occupancy replaced and its corner flag kept.
pub open spec fn with_token(tiles: Seq<Tile>, p: Position, has_token: bool) -> Seq<Tile> {
    tiles.update(
        index_of(p),
        Tile { position: p, is_corner: tile_at(tiles, p).is_corner, has_token },
    )
}

/// The board after a move: origin and middle emptied, target filled.
pub open spec fn apply_move(tiles: Seq<Tile>, m: ValidMove) -> Seq<Tile> {
    with_token(with_token(with_token(tiles, m.origin, false), m.middle, false), m.target, true)
}

/// What becomes of the token standing at one position when a move is applied.
#[derive(Clone, Copy, Debug, PartialEq, Eq, Structural)]
pub enum TokenAction {
    /// The token stays where it is.
    Keep,
    /// The jumping token moves to this position.
    MoveTo(Position),
    /// The captured token leaves the board.
    Despawn,
}

/// Empties the origin and middle of a move and fills its target; corner
/// flags are left as they are.
pub fn player_move(grid: &mut Grid, move_event: &ValidMoveEvent)
    requires
        old(grid).wf(),
        in_grid(move_event.data.origin),
        in_grid(move_event.data.middle),
        in_grid(move_event.data.target),
    ensures
        final(grid).wf(),
        final(grid).tiles@ == apply_move(old(grid).tiles@, move_event.data),
{
    let move_made = move_event.data;
    let origin_corner = grid.tile_from_position(&move_made.origin).is_corner;
    grid.update_tile(&move_made.origin, origin_corner, false);
    let middle_corner = grid.tile_from_position(&move_made.middle).is_corner;
    grid.update_tile(&move_made.middle, middle_corner, false);
    let target_corner = grid.tile_from_position(&move_made.target).is_corner;
    grid.update_tile(&move_made.target, target_corner, true);
}

/// What a move does to the token standing at `position`: the token at the
/// origin moves to the target, the token at the middle is captured, any
/// other stays.
pub fn token_action(move_made: &ValidMove, position: &Position) -> (r: TokenAction)
    ensures
        r == if *position == move_made.origin {
            TokenAction::MoveTo(move_made.target)
        } else if *position == move_made.middle {
            TokenAction::Despawn
        } else {
            TokenAction::Keep
        },
{
    if *position == move_made.origin {
        TokenAction::MoveTo(move_made.target)
    } else if *position == move_made.middle {
        TokenAction::Despawn
    } else {
        TokenAction::Keep
    }
}

/// Applying a legal move keeps the board well formed, keeps every corner
/// flag, and keeps every corner empty.
pub proof fn lemma_move_keeps_layout(tiles: Seq<Tile>, m: ValidMove)
    requires
        tiles_wf(tiles),
        layout_ok(tiles),
        in_grid(m.origin),
        in_grid(m.middle),
        in_grid(m.target),
        is_legal(tiles, m.origin, m.middle, m.target),
    ensures
        tiles_wf(apply_move(tiles, m)),
        layout_ok(apply_move(tiles, m)),
{
    lemma_index_round_trip(m.origin);
    lemma_index_round_trip(m.middle);
    lemma_index_round_trip(m.target);
    let t1 = with_token(tiles, m.origin, false);
    let t2 = with_token(t1, m.middle, false);
    let t3 = with_token(t2, m.target, true);
    assert(tile_at(t2, m.target) == tile_at(tiles, m.target));
    assert forall|i: int| 0 <= i < t3.len() implies (#[trigger] t3[i]).position == position_of(i)
        && t3[i].is_corner == corner(position_of(i)) && (t3[i].is_corner ==> !t3[i].has_token) by {
        assert(tiles[i].position == position_of(i));
        assert(tiles[i].is_corner == corner(position_of(i)));
    }
}

} // verus!
