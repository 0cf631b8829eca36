//! The board: its tiles, the jump rule, and the moves it allows.
use vstd::prelude::*;
use crate::game_move::{MoveDirection, ValidMove, ValidMoves};
use crate::position::{
    in_grid, index_of, lemma_index_round_trip, lemma_position_of_in_grid, position_of, Position,
    CENTER, GRID_SIZE,
};
use crate::tile::Tile;

verus! {

/// The whole board, one tile per cell, stored by linear index.
pub struct Grid {
    pub tiles: Vec<Tile>,
}

/// The position lies in one of the four 2×2 blocks cut from the board's corners.
pub open spec fn corner(p: Position) -> bool {
    (p.row < 2 && p.col < 2) || (p.row > GRID_SIZE - 3 && p.col < 2) || (p.row < 2 && p.col
        > GRID_SIZE - 3) || (p.row > GRID_SIZE - 3 && p.col > GRID_SIZE - 3)
}

/// The tile at linear index `i` on a freshly set up board.
pub open spec fn initial_tile(i: int) -> Tile {
    let p = position_of(i);
    Tile { position: p, is_corner: corner(p), has_token: !corner(p) && i != CENTER }
}

/// The tile of a board at a position.
pub open spec fn tile_at(tiles: Seq<Tile>, p: Position) -> Tile {
    tiles[index_of(p)]
}

/// The tile sequence has one tile per cell, each at its own index.
pub open spec fn tiles_wf(tiles: Seq<Tile>) -> bool {
    &&& tiles.len() == GRID_SIZE * GRID_SIZE
    &&& forall|i: int| 0 <= i < tiles.len() ==> (#[trigger] tiles[i]).position == position_of(i)
}

/// Corner flags follow the board layout, and no corner holds a token.
pub open spec fn layout_ok(tiles: Seq<Tile>) -> bool {
    forall|i: int|
        0 <= i < tiles.len() ==> {
            &&& (#[trigger] tiles[i]).is_corner == corner(position_of(i))
            &&& tiles[i].is_corner ==> !tiles[i].has_token
        }
}

/// Number of tokens on the first `n` tiles.
pub open spec fn count_tokens(tiles: Seq<Tile>, n: int) -> nat
    decreases n,
{
    if n <= 0 {
        0
    } else {
        count_tokens(tiles, n - 1) + if tiles[n - 1].has_token {
            1nat
        } else {
            0nat
        }
    }
}

/// Number of corner tiles among the first `n` tiles.
pub open spec fn count_corners(tiles: Seq<Tile>, n: int) -> nat
    decreases n,
{
    if n <= 0 {
        0
    } else {
        count_corners(tiles, n - 1) + if tiles[n - 1].is_corner {
            1nat
        } else {
            0nat
        }
    }
}

/// The jump rule: origin and middle hold a token, the target is empty, none is a corner.
pub open spec fn is_legal(tiles: Seq<Tile>, origin: Position, middle: Position, target: Position) -> bool {
    let o = tile_at(tiles, origin);
    let m = tile_at(tiles, middle);
    let t = tile_at(tiles, target);
    o.has_token && !o.is_corner && m.has_token && !m.is_corner && !t.has_token && !t.is_corner
}

/// A jump from `origin` in `direction` stays on the board.
pub open spec fn jump_fits(origin: Position, direction: MoveDirection) -> bool {
    match direction {
        MoveDirection::Left => origin.col >= 2,
        MoveDirection::Right => origin.col <= GRID_SIZE - 3,
        MoveDirection::Up => origin.row >= 2,
        MoveDirection::Down => origin.row <= GRID_SIZE - 3,
    }
}

/// The position `k` cells from `origin` in `direction`.
pub open spec fn step_from(origin: Position, direction: MoveDirection, k: int) -> Position {
    match direction {
        MoveDirection::Left => Position { row: origin.row, col: (origin.col - k) as usize },
        MoveDirection::Right => Position { row: origin.row, col: (origin.col + k) as usize },
        MoveDirection::Up => Position { row: (origin.row - k) as usize, col: origin.col },
        MoveDirection::Down => Position { row: (origin.row + k) as usize, col: origin.col },
    }
}

/// The legal jump from `origin` in `direction`, if there is one.
pub open spec fn move_toward(tiles: Seq<Tile>, origin: Position, direction: MoveDirection) -> Option<
    ValidMove,
> {
    let middle = step_from(origin, direction, 1);
    let target = step_from(origin, direction, 2);
    if jump_fits(origin, direction) && is_legal(tiles, origin, middle, target) {
        Some(ValidMove { origin, middle, target })
    } else {
        None
    }
}

/// An optional move as a sequence of zero or one moves.
pub open spec fn option_seq(m: Option<ValidMove>) -> Seq<ValidMove> {
    match m {
        Some(v) => seq![v],
        None => seq![],
    }
}

/// All legal jumps from `origin`, in the order Left, Right, Up, Down.
pub open spec fn moves_from(tiles: Seq<Tile>, origin: Position) -> Seq<ValidMove> {
    option_seq(move_toward(tiles, origin, MoveDirection::Left)) + option_seq(
        move_toward(tiles, origin, MoveDirection::Right),
    ) + option_seq(move_toward(tiles, origin, MoveDirection::Up)) + option_seq(
        move_toward(tiles, origin, MoveDirection::Down),
    )
}

/// Shape of one move offered from `origin`: it starts there, its middle is the
/// midpoint of origin and target, its target lies on the board and is not a corner tile.
pub open spec fn move_shape(tiles: Seq<Tile>, origin: Position, m: ValidMove) -> bool {
    &&& m.origin == origin
    &&& 2 * m.middle.row == m.origin.row + m.target.row
    &&& 2 * m.middle.col == m.origin.col + m.target.col
    &&& m.target != m.origin
    &&& in_grid(m.middle)
    &&& in_grid(m.target)
    &&& !tile_at(tiles, m.target).is_corner
    &&& !tile_at(tiles, m.target).has_token
    &&& layout_ok(tiles) ==> !corner(m.target)
}

/// Every move offered from an on-board origin jumps over the midpoint of its
/// origin and target, and never lands on a corner.
pub proof fn lemma_moves_shape(tiles: Seq<Tile>, origin: Position)
    requires
        tiles_wf(tiles),
        in_grid(origin),
    ensures
        forall|k: int|
            0 <= k < moves_from(tiles, origin).len() ==> move_shape(
                tiles,
                origin,
                #[trigger] moves_from(tiles, origin)[k],
            ),
{
    assert forall|k: int| 0 <= k < moves_from(tiles, origin).len() implies move_shape(
        tiles,
        origin,
        #[trigger] moves_from(tiles, origin)[k],
    ) by {
        let m = moves_from(tiles, origin)[k];
        let d = if move_toward(tiles, origin, MoveDirection::Left) == Some(m) {
            MoveDirection::Left
        } else if move_toward(tiles, origin, MoveDirection::Right) == Some(m) {
            MoveDirection::Right
        } else if move_toward(tiles, origin, MoveDirection::Up) == Some(m) {
            MoveDirection::Up
        } else {
            MoveDirection::Down
        };
        assert(move_toward(tiles, origin, d) == Some(m));
        lemma_index_round_trip(m.target);
        if layout_ok(tiles) {
            assert(tiles[index_of(m.target)].is_corner == corner(position_of(index_of(m.target))));
        }
    }
}

/// Corners are symmetric under reflection across the middle row and the middle column.
pub proof fn lemma_corner_symmetry(r: usize, c: usize)
    requires
        r < GRID_SIZE,
        c < GRID_SIZE,
    ensures
        corner(Position { row: r, col: c }) == corner(
            Position { row: r, col: (GRID_SIZE - 1 - c) as usize },
        ),
        corner(Position { row: r, col: c }) == corner(
            Position { row: (GRID_SIZE - 1 - r) as usize, col: c },
        ),
{
}

/// On a freshly set up board, 16 tiles are corners, 32 hold a token, and the
/// centre is the one tile that is neither.
pub proof fn lemma_initial_counts()
    ensures
        count_corners(Seq::new(49, |i: int| initial_tile(i)), 49) == 16,
        count_tokens(Seq::new(49, |i: int| initial_tile(i)), 49) == 32,
        forall|i: int|
            0 <= i < 49 ==> (!initial_tile(i).is_corner && !initial_tile(i).has_token <==> i
                == CENTER),
{
    let s = Seq::new(49, |i: int| initial_tile(i));
    assert(count_tokens(s, 7) == 3 && count_corners(s, 7) == 4) by {
        reveal_with_fuel(count_tokens, 8);
        reveal_with_fuel(count_corners, 8);
    }
    assert(count_tokens(s, 14) == 6 && count_corners(s, 14) == 8) by {
        reveal_with_fuel(count_tokens, 8);
        reveal_with_fuel(count_corners, 8);
    }
    assert(count_tokens(s, 21) == 13 && count_corners(s, 21) == 8) by {
        reveal_with_fuel(count_tokens, 8);
        reveal_with_fuel(count_corners, 8);
    }
    assert(count_tokens(s, 28) == 19 && count_corners(s, 28) == 8) by {
        reveal_with_fuel(count_tokens, 8);
        reveal_with_fuel(count_corners, 8);
    }
    assert(count_tokens(s, 35) == 26 && count_corners(s, 35) == 8) by {
        reveal_with_fuel(count_tokens, 8);
        reveal_with_fuel(count_corners, 8);
    }
    assert(count_tokens(s, 42) == 29 && count_corners(s, 42) == 12) by {
        reveal_with_fuel(count_tokens, 8);
        reveal_with_fuel(count_corners, 8);
    }
    assert(count_tokens(s, 49) == 32 && count_corners(s, 49) == 16) by {
        reveal_with_fuel(count_tokens, 8);
        reveal_with_fuel(count_corners, 8);
    }
}

impl Grid {
    /// One tile per cell, each at its own index.
    pub open spec fn wf(&self) -> bool {
        tiles_wf(self.tiles@)
    }

    /// Sets up the starting board: every cell but the corners and the centre holds a token.
    pub fn new() -> (r: Self)
        ensures
            r.wf(),
            forall|i: int| 0 <= i < GRID_SIZE * GRID_SIZE ==> #[trigger] r.tiles@[i] == initial_tile(i),
            layout_ok(r.tiles@),
            count_corners(r.tiles@, 49) == 16,
            count_tokens(r.tiles@, 49) == 32,
            forall|i: int|
                0 <= i < GRID_SIZE * GRID_SIZE ==> (!r.tiles@[i].is_corner && !r.tiles@[i].has_token
                    <==> i == CENTER),
    {
        let mut tiles: Vec<Tile> = Vec::new();
        let mut index: usize = 0;
        while index < GRID_SIZE * GRID_SIZE
            invariant
                index <= GRID_SIZE * GRID_SIZE,
                tiles@.len() == index,
                forall|i: int| 0 <= i < index ==> #[trigger] tiles@[i] == initial_tile(i),
            decreases GRID_SIZE * GRID_SIZE - index,
        {
            let position = Grid::from_index(index);
            let is_corner = Grid::is_corner(&position);
            tiles.push(Tile { position, is_corner, has_token: !is_corner && index != CENTER });
            index += 1;
        }
        proof {
            lemma_initial_counts();
            assert(tiles@ =~= Seq::new(49, |i: int| initial_tile(i)));
        }
        Grid { tiles }
    }

    /// The tile at an on-board position.
    pub fn tile_from_position(&self, position: &Position) -> (r: &Tile)
        requires
            self.wf(),
            in_grid(*position),
        ensures
            *r == tile_at(self.tiles@, *position),
    {
        &self.tiles[position.to_index()]
    }

    /// All legal jumps from `origin`, in the order Left, Right, Up, Down.
    pub fn calculate_valid_moves(&self, origin: &Position) -> (r: ValidMoves)
        requires
            self.wf(),
            in_grid(*origin),
        ensures
            r.list@ == moves_from(self.tiles@, *origin),
            forall|k: int|
                0 <= k < r.list@.len() ==> move_shape(self.tiles@, *origin, #[trigger] r.list@[k]),
    {
        let mut moves: Vec<ValidMove> = Vec::new();
        let left = self.calculate_valid_move(origin, MoveDirection::Left);
        let right = self.calculate_valid_move(origin, MoveDirection::Right);
        let up = self.calculate_valid_move(origin, MoveDirection::Up);
        let down = self.calculate_valid_move(origin, MoveDirection::Down);
        if let Some(m) = left {
            moves.push(m);
        }
        if let Some(m) = right {
            moves.push(m);
        }
        if let Some(m) = up {
            moves.push(m);
        }
        if let Some(m) = down {
            moves.push(m);
        }
        proof {
            assert(moves@ =~= moves_from(self.tiles@, *origin));
            lemma_moves_shape(self.tiles@, *origin);
        }
        ValidMoves { list: moves }
    }

    /// The legal jump from `origin` in `direction`, or `None` when it would
    /// leave the board or break the jump rule.
    pub fn calculate_valid_move(&self, origin: &Position, direction: MoveDirection) -> (r: Option<
        ValidMove,
    >)
        requires
            self.wf(),
            in_grid(*origin),
        ensures
            r == move_toward(self.tiles@, *origin, direction),
    {
        let mut middle = *origin;
        let mut target = *origin;
        match direction {
            MoveDirection::Left => {
                if origin.col < 2 {
                    return None;
                }
                middle.col -= 1;
                target.col -= 2;
            },
            MoveDirection::Right => {
                if origin.col > GRID_SIZE - 3 {
                    return None;
                }
                middle.col += 1;
                target.col += 2;
            },
            MoveDirection::Up => {
                if origin.row < 2 {
                    return None;
                }
                middle.row -= 1;
                target.row -= 2;
            },
            MoveDirection::Down => {
                if origin.row > GRID_SIZE - 3 {
                    return None;
                }
                middle.row += 1;
                target.row += 2;
            },
        }
        assert(middle == step_from(*origin, direction, 1));
        assert(target == step_from(*origin, direction, 2));
        if !self.is_valid_move(origin, &middle, &target) {
            return None;
        }
        Some(ValidMove { origin: *origin, middle, target })
    }

    /// The jump rule: origin and middle hold a token, the target is empty, and
    /// none of the three is a corner.
    pub fn is_valid_move(&self, origin: &Position, middle: &Position, target: &Position) -> (r:
        bool)
        requires
            self.wf(),
            in_grid(*origin),
            in_grid(*middle),
            in_grid(*target),
        ensures
            r == is_legal(self.tiles@, *origin, *middle, *target),
    {
        let origin_tile = self.tile_from_position(origin);
        let middle_tile = self.tile_from_position(middle);
        let target_tile = self.tile_from_position(target);

        origin_tile.has_token && !origin_tile.is_corner && middle_tile.has_token
            && !middle_tile.is_corner && !target_tile.has_token && !target_tile.is_corner
    }

    /// Overwrites the corner flag and the occupancy of one tile, with no check of the rules.
    pub fn update_tile(&mut self, position: &Position, is_corner: bool, has_token: bool)
        requires
            old(self).wf(),
            in_grid(*position),
        ensures
            final(self).wf(),
            final(self).tiles@ == old(self).tiles@.update(
                index_of(*position),
                Tile { position: *position, is_corner, has_token },
            ),
    {
        let index = position.to_index();
        proof {
            lemma_index_round_trip(*position);
        }
        let mut tile = self.tiles[index];
        tile.is_corner = is_corner;
        tile.has_token = has_token;
        self.tiles.set(index, tile);
        assert(tile == Tile { position: *position, is_corner, has_token });
    }

    /// The position at a linear index.
    pub fn from_index(index: usize) -> (r: Position)
        ensures
            r == position_of(index as int),
    {
        Position { row: index / GRID_SIZE, col: index % GRID_SIZE }
    }

    /// Whether a position lies in one of the four cut-away corner blocks.
    pub fn is_corner(position: &Position) -> (r: bool)
        ensures
            r == corner(*position),
    {
        let row = position.row;
        let col = position.col;

        (row < 2 && col < 2) || (row > GRID_SIZE - 3 && col < 2) || (row < 2 && col > GRID_SIZE - 3)
            || (row > GRID_SIZE - 3 && col > GRID_SIZE - 3)
    }
}

} // verus!
