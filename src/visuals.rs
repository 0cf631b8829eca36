//! Which colour a tile is drawn in.
use vstd::prelude::*;
use crate::components::TileFlags;
use crate::tile::Tile;

verus! {

/// The material a tile is drawn with.
#[derive(Clone, Copy, Debug, PartialEq, Eq, Structural)]
pub enum TileColor {
    Selected,
    Hovered,
    Inbetween,
    Valid,
    Tile,
    Corner,
    Token,
}

/// The colour of a tile, by the first rule that applies: selected token,
/// hover, captured token, landing spot, plain tile, corner, otherwise token.
pub fn tile_color(flags: &TileFlags, tile: &Tile) -> (r: TileColor)
    ensures
        r == if flags.selected && tile.has_token {
            TileColor::Selected
        } else if !flags.selected && flags.hovered && !tile.is_corner {
            TileColor::Hovered
        } else if !flags.selected && !flags.valid_target && tile.has_token && flags.in_between {
            TileColor::Inbetween
        } else if !flags.selected && flags.valid_target && !tile.has_token {
            TileColor::Valid
        } else if !flags.selected && !flags.hovered && !flags.valid_target && !tile.is_corner {
            TileColor::Tile
        } else if tile.is_corner {
            TileColor::Corner
        } else {
            TileColor::Token
        },
{
    let selected = flags.selected;
    let hovered = flags.hovered;
    let valid = flags.valid_target;
    let inbetween = flags.in_between;
    if selected && tile.has_token {
        TileColor::Selected
    } else if !selected && hovered && !tile.is_corner {
        TileColor::Hovered
    } else if !selected && !valid && tile.has_token && inbetween {
        TileColor::Inbetween
    } else if !selected && valid && !tile.has_token {
        TileColor::Valid
    } else if !selected && !hovered && !valid && !tile.is_corner {
        TileColor::Tile
    } else if tile.is_corner {
        TileColor::Corner
    } else {
        TileColor::Token
    }
}

} // verus!
