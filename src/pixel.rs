//! Pixel geometry of the board.
//!
//! Coordinates are integers in sub-pixel units of 1/`SUBPIXELS` of a pixel.
//! With as many units per pixel as the board has cells per side, every tile
//! edge and every tile centre lands on a whole unit, so the conversions below
//! are exact.
use vstd::prelude::*;
use crate::grid::{tile_at, Grid};
use crate::position::{in_grid, Position, GRID_SIZE};
use crate::tile::Tile;

verus! {

/// Side of the square window, in pixels.
pub const WINDOW_SIZE: i64 = 500;

/// Sub-pixel units per pixel.
pub const SUBPIXELS: i64 = 7;

/// Side of the window, in sub-pixel units.
pub const WINDOW_UNITS: i64 = WINDOW_SIZE * SUBPIXELS;

/// Side of one tile, in sub-pixel units: the window side over the number of cells.
pub const TILE_SIZE: i64 = 500;

/// Gap left between neighbouring tiles when drawn, in sub-pixel units (10 pixels).
pub const PADDING: i64 = 70;

/// Side of a tile as drawn, in sub-pixel units.
pub const TILE_SIZE_PADDED: i64 = TILE_SIZE - PADDING;

/// A point, in sub-pixel units.
#[derive(Clone, Copy, Debug, PartialEq, Eq, Structural)]
pub struct Point {
    pub x: i64,
    pub y: i64,
}

/// Bound on a coordinate, in sub-pixel units, that keeps every conversion
/// here clear of overflow.
pub const COORD_LIMIT: i64 = 1_000_000_000_000_000;

/// Centre of a tile, in window-centred coordinates with y pointing up.
pub open spec fn pixel_center(p: Position) -> Point {
    Point {
        x: (-(WINDOW_UNITS / 2) + TILE_SIZE / 2 + p.col * TILE_SIZE) as i64,
        y: (WINDOW_UNITS / 2 - TILE_SIZE / 2 - p.row * TILE_SIZE) as i64,
    }
}

/// Number of whole tiles before a coordinate of the top-left, y-down space;
/// negative coordinates fall in the first tile, and the count saturates at
/// the largest `usize`.
pub open spec fn tile_count(v: i64) -> int {
    if v < 0 {
        0
    } else if v / TILE_SIZE > usize::MAX {
        usize::MAX as int
    } else {
        v / TILE_SIZE
    }
}

/// Window-centred, y-up coordinates moved to the top-left, y-down space.
pub open spec fn world_to_grid_spec(p: Point) -> Point {
    Point { x: (p.x + WINDOW_UNITS / 2) as i64, y: (WINDOW_UNITS / 2 - p.y) as i64 }
}

impl Point {
    /// The point at whole pixel coordinates `(x, y)`.
    pub fn from_pixels(x: i64, y: i64) -> (r: Point)
        requires
            -COORD_LIMIT <= x <= COORD_LIMIT,
            -COORD_LIMIT <= y <= COORD_LIMIT,
        ensures
            r.x == x * SUBPIXELS,
            r.y == y * SUBPIXELS,
    {
        Point { x: x * SUBPIXELS, y: y * SUBPIXELS }
    }
}

impl Grid {
    /// The tile under a point of the top-left, y-down space.
    pub fn tile_from_pixel(&self, x: i64, y: i64) -> (r: &Tile)
        requires
            self.wf(),
            0 <= x < WINDOW_UNITS,
            0 <= y < WINDOW_UNITS,
        ensures
            *r == tile_at(
                self.tiles@,
                Position { row: tile_count(y) as usize, col: tile_count(x) as usize },
            ),
    {
        let position = Grid::from_pixel(x, y);
        self.tile_from_position(&position)
    }

    /// Centre of a tile, in window-centred coordinates: columns grow rightward,
    /// rows grow downward (row 0 at the top).
    pub fn to_pixel(position: &Position) -> (r: Point)
        requires
            in_grid(*position),
        ensures
            r == pixel_center(*position),
    {
        let x = -(WINDOW_UNITS / 2) + (TILE_SIZE / 2) + (position.col as i64 * TILE_SIZE);
        let y = (WINDOW_UNITS / 2) - (TILE_SIZE / 2) - (position.row as i64 * TILE_SIZE);
        Point { x, y }
    }

    /// The cell containing a point of the top-left, y-down space, by floored
    /// division by the tile size.
    pub fn from_pixel(x: i64, y: i64) -> (r: Position)
        ensures
            r.row == tile_count(y),
            r.col == tile_count(x),
    {
        Position { row: Grid::tile_coordinate(y), col: Grid::tile_coordinate(x) }
    }

    fn tile_coordinate(v: i64) -> (r: usize)
        ensures
            r == tile_count(v),
    {
        if v < 0 {
            0
        } else {
            let q = (v / TILE_SIZE) as u64;
            if q > usize::MAX as u64 {
                usize::MAX
            } else {
                q as usize
            }
        }
    }

    /// Window-centred, y-up coordinates moved to the top-left, y-down space
    /// that `from_pixel` reads.
    pub fn world_to_grid(translation: Point) -> (r: Point)
        requires
            -COORD_LIMIT <= translation.x <= COORD_LIMIT,
            -COORD_LIMIT <= translation.y <= COORD_LIMIT,
        ensures
            r == world_to_grid_spec(translation),
    {
        Point { x: translation.x + WINDOW_UNITS / 2, y: WINDOW_UNITS / 2 - translation.y }
    }

    /// Window coordinates with y pointing up from the bottom edge, moved to the
    /// top-left, y-down space.
    pub fn ui_to_grid(x: i64, y: i64) -> (r: Point)
        requires
            -COORD_LIMIT <= y <= COORD_LIMIT,
        ensures
            r.x == x,
            r.y == WINDOW_UNITS - y,
    {
        Point { x, y: WINDOW_UNITS - y }
    }
}

/// The centre of every tile, moved to the top-left space and read back,
/// names that same tile.
pub proof fn lemma_pixel_round_trip(p: Position)
    requires
        in_grid(p),
    ensures
        tile_count(world_to_grid_spec(pixel_center(p)).x) == p.col,
        tile_count(world_to_grid_spec(pixel_center(p)).y) == p.row,
{
    let g = world_to_grid_spec(pixel_center(p));
    assert(g.x == p.col * 500 + 250);
    assert(g.y == p.row * 500 + 250);
    assert((p.col * 500 + 250) / 500 == p.col) by (nonlinear_arith)
        requires
            p.col < GRID_SIZE,
    ;
    assert((p.row * 500 + 250) / 500 == p.row) by (nonlinear_arith)
        requires
            p.row < GRID_SIZE,
    ;
}

} // verus!
