use steckhalma::{
    player_move, token_action, tile_color, Grid, MoveDirection, Point, Position, Tile, TileColor,
    TileFlags, Token, TokenAction, ValidMove, ValidMoveEvent, CENTER, GRID_SIZE, TILE_SIZE_PADDED,
};

fn pos(row: usize, col: usize) -> Position {
    Position { row, col }
}

fn set_token(grid: &mut Grid, p: Position, has_token: bool) {
    let is_corner = grid.tile_from_position(&p).is_corner;
    grid.update_tile(&p, is_corner, has_token);
}

#[test]
fn pixel_centre_reads_back_as_its_tile() {
    for index in 0..GRID_SIZE * GRID_SIZE {
        let p = Grid::from_index(index);
        let g = Grid::world_to_grid(Grid::to_pixel(&p));
        assert_eq!(Grid::from_pixel(g.x, g.y), p);
        assert_eq!(p.to_index(), index);
    }
}

#[test]
fn from_pixel_on_tile_edges_and_outside() {
    assert_eq!(Grid::from_pixel(499, 500), pos(1, 0));
    assert_eq!(Grid::from_pixel(-1, -3500), pos(0, 0));
    assert_eq!(Grid::from_pixel(3500, 3499), pos(6, 7));
}

#[test]
fn tile_from_pixel_reads_the_board() {
    let grid = Grid::new();
    assert_eq!(*grid.tile_from_pixel(1750, 1750), Tile { position: pos(3, 3), is_corner: false, has_token: false });
    assert_eq!(*grid.tile_from_pixel(0, 0), Tile { position: pos(0, 0), is_corner: true, has_token: false });
}

#[test]
fn corners_are_mirror_symmetric() {
    for r in 0..GRID_SIZE {
        for c in 0..GRID_SIZE {
            let here = Grid::is_corner(&pos(r, c));
            assert_eq!(here, Grid::is_corner(&pos(r, GRID_SIZE - 1 - c)));
            assert_eq!(here, Grid::is_corner(&pos(GRID_SIZE - 1 - r, c)));
        }
    }
}

#[test]
fn starting_board_counts() {
    let grid = Grid::new();
    assert_eq!(grid.tiles.len(), 49);
    assert_eq!(grid.tiles.iter().filter(|t| t.is_corner).count(), 16);
    assert_eq!(grid.tiles.iter().filter(|t| t.has_token).count(), 32);
    let empty: Vec<usize> = (0..49).filter(|&i| !grid.tiles[i].is_corner && !grid.tiles[i].has_token).collect();
    assert_eq!(empty, vec![CENTER]);
    assert!(grid.tiles.iter().all(|t| !(t.is_corner && t.has_token)));
}

#[test]
fn valid_moves_jump_over_the_midpoint() {
    let grid = Grid::new();
    for index in 0..49 {
        let origin = Grid::from_index(index);
        for m in grid.calculate_valid_moves(&origin).list.iter() {
            assert_eq!(m.origin, origin);
            assert_eq!(2 * m.middle.row, m.origin.row + m.target.row);
            assert_eq!(2 * m.middle.col, m.origin.col + m.target.col);
            assert!(!Grid::is_corner(&m.target));
        }
    }
}

#[test]
fn starting_board_offers_four_moves_in_all() {
    let grid = Grid::new();
    let mut all = Vec::new();
    for index in 0..49 {
        all.extend(grid.calculate_valid_moves(&Grid::from_index(index)).list);
    }
    assert_eq!(all.len(), 4);
    assert!(all.iter().all(|m| m.target == pos(3, 3)));
}

#[test]
fn left_move_needs_room() {
    let grid = Grid::new();
    assert_eq!(grid.calculate_valid_move(&pos(0, 1), MoveDirection::Left), None);
}

#[test]
fn left_move_over_occupied_middle_onto_empty_target() {
    let mut grid = Grid::new();
    set_token(&mut grid, pos(3, 3), true);
    set_token(&mut grid, pos(3, 1), false);
    assert_eq!(
        grid.calculate_valid_move(&pos(3, 3), MoveDirection::Left),
        Some(ValidMove { origin: pos(3, 3), middle: pos(3, 2), target: pos(3, 1) })
    );
    set_token(&mut grid, pos(3, 1), true);
    assert_eq!(grid.calculate_valid_move(&pos(3, 3), MoveDirection::Left), None);
}

#[test]
fn moves_come_in_left_right_up_down_order() {
    let mut grid = Grid::new();
    for p in [pos(3, 1), pos(3, 5), pos(1, 3), pos(5, 3)] {
        set_token(&mut grid, p, false);
    }
    set_token(&mut grid, pos(3, 3), true);
    let targets: Vec<Position> = grid.calculate_valid_moves(&pos(3, 3)).list.iter().map(|m| m.target).collect();
    assert_eq!(targets, vec![pos(3, 1), pos(3, 5), pos(1, 3), pos(5, 3)]);
}

#[test]
fn jump_rule_rejects_corners_and_occupied_targets() {
    let grid = Grid::new();
    assert!(grid.is_valid_move(&pos(1, 3), &pos(2, 3), &pos(3, 3)));
    assert!(!grid.is_valid_move(&pos(2, 3), &pos(3, 3), &pos(4, 3)));
    assert!(!grid.is_valid_move(&pos(1, 2), &pos(1, 1), &pos(1, 0)));
    assert!(!grid.is_valid_move(&pos(3, 1), &pos(3, 2), &pos(3, 4)));
}

#[test]
fn update_tile_overwrites_one_tile() {
    let mut grid = Grid::new();
    grid.update_tile(&pos(2, 2), false, false);
    assert!(!grid.tile_from_position(&pos(2, 2)).has_token);
    assert_eq!(grid.tiles.iter().filter(|t| t.has_token).count(), 31);
}

#[test]
fn player_move_relocates_tokens() {
    let mut grid = Grid::new();
    let m = ValidMove { origin: pos(1, 3), middle: pos(2, 3), target: pos(3, 3) };
    player_move(&mut grid, &ValidMoveEvent { data: m });
    assert!(!grid.tile_from_position(&pos(1, 3)).has_token);
    assert!(!grid.tile_from_position(&pos(2, 3)).has_token);
    assert!(grid.tile_from_position(&pos(3, 3)).has_token);
    assert_eq!(grid.tiles.iter().filter(|t| t.has_token).count(), 31);
    assert!(grid.tiles.iter().all(|t| t.is_corner == Grid::is_corner(&t.position)));
}

#[test]
fn token_actions_of_a_move() {
    let m = ValidMove { origin: pos(1, 3), middle: pos(2, 3), target: pos(3, 3) };
    assert_eq!(token_action(&m, &pos(1, 3)), TokenAction::MoveTo(pos(3, 3)));
    assert_eq!(token_action(&m, &pos(2, 3)), TokenAction::Despawn);
    assert_eq!(token_action(&m, &pos(4, 3)), TokenAction::Keep);
}

#[test]
fn token_sits_on_its_tile_centre() {
    let t = Token::from_position(&pos(0, 0));
    assert_eq!(t, Token { x: -1500, y: 1500, width: TILE_SIZE_PADDED / 2, height: TILE_SIZE_PADDED / 2 });
    assert_eq!(t.width, 215);
}

#[test]
fn pixels_scale_to_subpixels() {
    assert_eq!(Point::from_pixels(3, -2), Point { x: 21, y: -14 });
}

#[test]
fn colour_precedence() {
    let plain = TileFlags { hovered: false, selected: false, valid_target: false, in_between: false };
    let token = Tile { position: pos(2, 3), is_corner: false, has_token: true };
    let empty = Tile { position: pos(3, 3), is_corner: false, has_token: false };
    let corner = Tile { position: pos(0, 0), is_corner: true, has_token: false };
    assert_eq!(tile_color(&TileFlags { selected: true, hovered: true, ..plain }, &token), TileColor::Selected);
    assert_eq!(tile_color(&TileFlags { hovered: true, ..plain }, &token), TileColor::Hovered);
    assert_eq!(tile_color(&TileFlags { in_between: true, ..plain }, &token), TileColor::Inbetween);
    assert_eq!(tile_color(&TileFlags { valid_target: true, ..plain }, &empty), TileColor::Valid);
    assert_eq!(tile_color(&plain, &empty), TileColor::Tile);
    assert_eq!(tile_color(&plain, &corner), TileColor::Corner);
    assert_eq!(tile_color(&TileFlags { hovered: true, ..plain }, &corner), TileColor::Corner);
    assert_eq!(tile_color(&TileFlags { valid_target: true, ..plain }, &token), TileColor::Token);
}
