//! Markers and per-tile data shared with the presentation layer.
use vstd::prelude::*;
use crate::pixel::{pixel_center, Point, TILE_SIZE_PADDED};
use crate::position::{in_grid, Position};

verus! {

/// Marks a drawn board tile.
#[derive(Clone, Copy, Debug, PartialEq, Eq, Structural)]
pub struct BoardTile;

/// Marks the tile under the cursor.
#[derive(Clone, Copy, Debug, PartialEq, Eq, Structural)]
pub struct Hovered;

/// Marks the selected tile.
#[derive(Clone, Copy, Debug, PartialEq, Eq, Structural)]
pub struct Selected;

/// Marks a tile whose token a highlighted move would capture.
#[derive(Clone, Copy, Debug, PartialEq, Eq, Structural)]
pub struct InbetweenComponent;

/// Marks a tile that a highlighted move would land on.
#[derive(Clone, Copy, Debug, PartialEq, Eq, Structural)]
pub struct ValidMoveComponent;

/// The interaction state of one tile.
#[derive(Clone, Copy, Debug, PartialEq, Eq, Structural)]
pub struct TileFlags {
    pub hovered: bool,
    pub selected: bool,
    pub valid_target: bool,
    pub in_between: bool,
}

/// A token as drawn: its centre and size, in sub-pixel units.
#[derive(Clone, Copy, Debug, PartialEq, Eq, Structural)]
pub struct Token {
    pub x: i64,
    pub y: i64,
    pub width: i64,
    pub height: i64,
}

impl Token {
    /// The token drawn on the tile at `position`: centred on it, half a padded tile wide.
    pub fn from_position(position: &Position) -> (r: Token)
        requires
            in_grid(*position),
        ensures
            r.x == pixel_center(*position).x,
            r.y == pixel_center(*position).y,
            r.width == TILE_SIZE_PADDED / 2,
            r.height == TILE_SIZE_PADDED / 2,
    {
        let translation: Point = crate::grid::Grid::to_pixel(position);
        Token {
            x: translation.x,
            y: translation.y,
            width: TILE_SIZE_PADDED / 2,
            height: TILE_SIZE_PADDED / 2,
        }
    }
}

} // verus!
