use steckhalma::{
    check_move_and_highlights, initial_flags, player_move, process_mouse_input, remove_highlights,
    token_action, update_hover_and_selection, Grid, MouseDataEvent, Position, TileFlags,
    TokenAction, ValidMove, ValidMoves,
};

fn pos(row: usize, col: usize) -> Position {
    Position { row, col }
}

fn event_at(p: Position, clicked: bool) -> MouseDataEvent {
    MouseDataEvent { pos: Grid::world_to_grid(Grid::to_pixel(&p)), clicked }
}

const CLEAR: TileFlags = TileFlags { hovered: false, selected: false, valid_target: false, in_between: false };

#[test]
fn select_then_jump_into_the_centre() {
    let mut grid = Grid::new();
    let mut flags = initial_flags();
    let before: Vec<Position> = grid.tiles.iter().filter(|t| t.has_token).map(|t| t.position).collect();

    assert_eq!(process_mouse_input(&grid, &mut flags, &event_at(pos(1, 3), true)), None);
    assert!(flags[pos(1, 3).to_index()].selected);
    assert_eq!(flags.iter().filter(|f| f.selected).count(), 1);

    assert_eq!(process_mouse_input(&grid, &mut flags, &event_at(pos(3, 3), false)), None);
    assert!(flags[pos(3, 3).to_index()].valid_target);
    assert!(flags[pos(2, 3).to_index()].in_between);
    assert!(flags[pos(3, 3).to_index()].hovered);

    let chosen = process_mouse_input(&grid, &mut flags, &event_at(pos(3, 3), true)).expect("a move");
    assert_eq!(chosen.data, ValidMove { origin: pos(1, 3), middle: pos(2, 3), target: pos(3, 3) });

    player_move(&mut grid, &chosen);
    assert!(!grid.tile_from_position(&pos(1, 3)).has_token);
    assert!(!grid.tile_from_position(&pos(2, 3)).has_token);
    assert!(grid.tile_from_position(&pos(3, 3)).has_token);

    let actions: Vec<TokenAction> = before.iter().map(|p| token_action(&chosen.data, p)).collect();
    assert_eq!(actions.iter().filter(|a| **a == TokenAction::MoveTo(pos(3, 3))).count(), 1);
    assert_eq!(actions.iter().filter(|a| **a == TokenAction::Despawn).count(), 1);
    assert_eq!(actions.iter().filter(|a| **a == TokenAction::Keep).count(), before.len() - 2);
}

#[test]
fn click_with_nothing_selected_moves_nothing() {
    let grid = Grid::new();
    let mut flags = initial_flags();
    let tiles_before = grid.tiles.clone();
    assert_eq!(process_mouse_input(&grid, &mut flags, &event_at(pos(3, 3), true)), None);
    assert_eq!(grid.tiles, tiles_before);
    assert!(flags[pos(3, 3).to_index()].selected);
    assert!(flags.iter().all(|f| !f.valid_target && !f.in_between));
}

#[test]
fn repeating_an_event_commits_once() {
    let mut grid = Grid::new();
    let mut flags = initial_flags();
    process_mouse_input(&grid, &mut flags, &event_at(pos(3, 5), true));
    let chosen = process_mouse_input(&grid, &mut flags, &event_at(pos(3, 3), true)).expect("a move");
    player_move(&mut grid, &chosen);
    assert_eq!(process_mouse_input(&grid, &mut flags, &event_at(pos(3, 3), true)), None);
    assert_eq!(process_mouse_input(&grid, &mut flags, &event_at(pos(3, 3), true)), None);

    let still = event_at(pos(4, 4), false);
    process_mouse_input(&grid, &mut flags, &still);
    let settled = flags.clone();
    assert_eq!(process_mouse_input(&grid, &mut flags, &still), None);
    assert_eq!(flags, settled);
}

#[test]
fn cursor_off_the_board_clears_hover_and_click_deselects() {
    let grid = Grid::new();
    let mut flags = initial_flags();
    process_mouse_input(&grid, &mut flags, &event_at(pos(1, 3), true));
    let outside = MouseDataEvent { pos: steckhalma::Point { x: 4000, y: 100 }, clicked: true };
    assert_eq!(process_mouse_input(&grid, &mut flags, &outside), None);
    assert!(flags.iter().all(|f| !f.hovered && !f.selected));
}

#[test]
fn reclick_keeps_selection() {
    let grid = Grid::new();
    let mut flags = initial_flags();
    process_mouse_input(&grid, &mut flags, &event_at(pos(1, 3), true));
    process_mouse_input(&grid, &mut flags, &event_at(pos(1, 3), true));
    assert!(flags[pos(1, 3).to_index()].selected);
    assert!(flags[pos(3, 3).to_index()].valid_target);
}

#[test]
fn per_tile_steps() {
    let mut f = TileFlags { hovered: true, selected: true, valid_target: true, in_between: true };
    remove_highlights(&mut f, false);
    assert_eq!(f, TileFlags { selected: true, ..CLEAR });
    remove_highlights(&mut f, true);
    assert_eq!(f, CLEAR);

    let mut g = CLEAR;
    update_hover_and_selection(&mut g, &pos(2, 2), &pos(2, 3), true);
    assert_eq!(g, CLEAR);
    update_hover_and_selection(&mut g, &pos(2, 3), &pos(2, 3), true);
    assert_eq!(g, TileFlags { hovered: true, selected: true, ..CLEAR });

    let m = ValidMove { origin: pos(1, 3), middle: pos(2, 3), target: pos(3, 3) };
    let moves = Some(ValidMoves { list: vec![m] });
    let mut t = CLEAR;
    assert_eq!(check_move_and_highlights(&mut t, &pos(3, 3), &moves, true, &pos(3, 3)), Some(m));
    assert!(t.valid_target && !t.in_between);
    let mut u = CLEAR;
    assert_eq!(check_move_and_highlights(&mut u, &pos(2, 3), &moves, true, &pos(3, 3)), None);
    assert!(u.in_between && !u.valid_target);
    let mut v = CLEAR;
    assert_eq!(check_move_and_highlights(&mut v, &pos(3, 3), &None, true, &pos(3, 3)), None);
    assert_eq!(v, CLEAR);
}
