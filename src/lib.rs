//! Rules and interaction logic of peg solitaire on the classic 7×7 board
//! with its four 2×2 corners cut away.
//!
//! The board engine validates and enumerates jump moves; the interaction step
//! turns pointer events into per-tile hover, selection and highlight flags and
//! at most one chosen move; the move commit applies that move to the board.
use vstd::prelude::*;

pub mod components;
pub mod events;
pub mod game_move;
pub mod grid;
pub mod interaction;
pub mod pixel;
pub mod player_move;
pub mod position;
pub mod tile;
pub mod visuals;

pub use components::{
    BoardTile, Hovered, InbetweenComponent, Selected, TileFlags, Token, ValidMoveComponent,
};
pub use events::{MouseDataEvent, ValidMoveEvent};
pub use game_move::{MoveDirection, ValidMove, ValidMoves};
pub use grid::Grid;
pub use interaction::{
    check_move_and_highlights, initial_flags, process_mouse_input, remove_highlights,
    update_hover_and_selection,
};
pub use pixel::{Point, COORD_LIMIT, PADDING, SUBPIXELS, TILE_SIZE, TILE_SIZE_PADDED, WINDOW_SIZE, WINDOW_UNITS};
pub use player_move::{player_move, token_action, TokenAction};
pub use position::{Position, CENTER, GRID_SIZE};
pub use tile::Tile;
pub use visuals::{tile_color, TileColor};
