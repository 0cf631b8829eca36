//! The interaction step: one pointer event turns into hover, selection and
//! highlight flags for every tile, and at most one chosen move.
use vstd::prelude::*;
use crate::components::TileFlags;
use crate::events::{MouseDataEvent, ValidMoveEvent};
use crate::game_move::{ValidMove, ValidMoves};
use crate::grid::{lemma_moves_shape, move_shape, moves_from, tiles_wf, Grid};
use crate::pixel::tile_count;
use crate::position::{
    in_grid, index_of, lemma_index_round_trip, lemma_position_of_in_grid, position_of, Position,
    GRID_SIZE,
};
use crate::tile::Tile;

verus! {

/// Index of the first selected tile at or after `i`.
pub open spec fn find_selected(flags: Seq<TileFlags>, i: int) -> Option<int>
    decreases flags.len() - i,
{
    if i < 0 || i >= flags.len() {
        None
    } else if flags[i].selected {
        Some(i)
    } else {
        find_selected(flags, i + 1)
    }
}

/// Some move of the list lands on `p`.
pub open spec fn targets(moves: Seq<ValidMove>, p: Position) -> bool {
    exists|k: int| 0 <= k < moves.len() && (#[trigger] moves[k]).target == p
}

/// Some move of the list jumps over `p`.
pub open spec fn middles(moves: Seq<ValidMove>, p: Position) -> bool {
    exists|k: int| 0 <= k < moves.len() && (#[trigger] moves[k]).middle == p
}

/// The first move of the list that lands on `p`.
pub open spec fn first_with_target(moves: Seq<ValidMove>, p: Position) -> Option<ValidMove>
    decreases moves.len(),
{
    if moves.len() == 0 {
        None
    } else {
        match first_with_target(moves.drop_last(), p) {
            Some(m) => Some(m),
            None => if moves.last().target == p {
                Some(moves.last())
            } else {
                None
            },
        }
    }
}

/// The moves offered by an optional move list.
pub open spec fn listed(valid_moves: Option<ValidMoves>) -> Seq<ValidMove> {
    match valid_moves {
        Some(v) => v.list@,
        None => seq![],
    }
}

/// The legal moves of the selected tile, or none when no tile is selected.
pub open spec fn selected_moves(tiles: Seq<Tile>, flags: Seq<TileFlags>) -> Seq<ValidMove> {
    match find_selected(flags, 0) {
        Some(i) => moves_from(tiles, position_of(i)),
        None => seq![],
    }
}

/// The cell under the cursor of a pointer event.
pub open spec fn cursor_cell(event: MouseDataEvent) -> Position {
    Position { row: tile_count(event.pos.y) as usize, col: tile_count(event.pos.x) as usize }
}

/// The flags of the tile at `pos` after one event: hovered when under the
/// cursor; on a click, selected exactly when under the cursor, otherwise as
/// before; highlighted from the moves of the selection.
pub open spec fn next_flags(
    f: TileFlags,
    pos: Position,
    moves: Seq<ValidMove>,
    cursor: Position,
    clicked: bool,
) -> TileFlags {
    TileFlags {
        hovered: cursor == pos,
        selected: if clicked {
            cursor == pos
        } else {
            f.selected
        },
        valid_target: targets(moves, pos),
        in_between: middles(moves, pos),
    }
}

/// The flags of every tile after one event.
pub open spec fn step_flags(
    tiles: Seq<Tile>,
    flags: Seq<TileFlags>,
    cursor: Position,
    clicked: bool,
) -> Seq<TileFlags> {
    Seq::new(
        flags.len(),
        |i: int| next_flags(flags[i], position_of(i), selected_moves(tiles, flags), cursor, clicked),
    )
}

/// The move chosen by one event: on a click, the first legal move of the
/// selection that lands under the cursor.
pub open spec fn step_commit(
    tiles: Seq<Tile>,
    flags: Seq<TileFlags>,
    cursor: Position,
    clicked: bool,
) -> Option<ValidMove> {
    if clicked {
        first_with_target(selected_moves(tiles, flags), cursor)
    } else {
        None
    }
}

proof fn lemma_find_selected_at(flags: Seq<TileFlags>, i: int, j: int)
    requires
        0 <= i <= j < flags.len(),
        flags[j].selected,
        forall|k: int| i <= k < j ==> !(#[trigger] flags[k]).selected,
    ensures
        find_selected(flags, i) == Some(j),
    decreases j - i,
{
    if i < j {
        lemma_find_selected_at(flags, i + 1, j);
    }
}

proof fn lemma_find_selected_none(flags: Seq<TileFlags>, i: int)
    requires
        0 <= i <= flags.len(),
        forall|k: int| i <= k < flags.len() ==> !(#[trigger] flags[k]).selected,
    ensures
        find_selected(flags, i) is None,
    decreases flags.len() - i,
{
    if i < flags.len() {
        lemma_find_selected_none(flags, i + 1);
    }
}

proof fn lemma_find_selected_same(a: Seq<TileFlags>, b: Seq<TileFlags>, i: int)
    requires
        0 <= i,
        a.len() == b.len(),
        forall|k: int| 0 <= k < a.len() ==> (#[trigger] a[k]).selected == b[k].selected,
    ensures
        find_selected(a, i) == find_selected(b, i),
    decreases a.len() - i,
{
    if i < a.len() {
        lemma_find_selected_same(a, b, i + 1);
    }
}

proof fn lemma_first_with_target(moves: Seq<ValidMove>, p: Position)
    ensures
        first_with_target(moves, p) is None <==> !targets(moves, p),
        first_with_target(moves, p) matches Some(m) ==> m.target == p && exists|k: int|
            0 <= k < moves.len() && moves[k] == m,
    decreases moves.len(),
{
    if moves.len() > 0 {
        let init = moves.drop_last();
        lemma_first_with_target(init, p);
        if targets(init, p) {
            let k = choose|k: int| 0 <= k < init.len() && (#[trigger] init[k]).target == p;
            assert(moves[k] == init[k]);
        }
        if targets(moves, p) && !targets(init, p) {
            let k = choose|k: int| 0 <= k < moves.len() && (#[trigger] moves[k]).target == p;
            if k < moves.len() - 1 {
                assert(init[k] == moves[k]);
            }
        }
        if let Some(m) = first_with_target(init, p) {
            let k = choose|k: int| 0 <= k < init.len() && init[k] == m;
            assert(moves[k] == init[k]);
        }
        assert(moves[moves.len() - 1] == moves.last());
    }
}

/// Clears the highlights of a tile and its hover; on a click it also clears
/// its selection.
pub fn remove_highlights(flags: &mut TileFlags, clicked: bool)
    ensures
        *final(flags) == (TileFlags {
            hovered: false,
            selected: old(flags).selected && !clicked,
            valid_target: false,
            in_between: false,
        }),
{
    flags.valid_target = false;
    flags.in_between = false;
    flags.hovered = false;
    if clicked && flags.selected {
        flags.selected = false;
    }
}

/// Marks the tile under the cursor as hovered, and as selected on a click.
pub fn update_hover_and_selection(
    flags: &mut TileFlags,
    mouse_grid_pos: &Position,
    tile_position: &Position,
    clicked: bool,
)
    ensures
        *final(flags) == if *mouse_grid_pos == *tile_position {
            TileFlags { hovered: true, selected: old(flags).selected || clicked, ..*old(flags) }
        } else {
            *old(flags)
        },
{
    if *mouse_grid_pos == *tile_position {
        flags.hovered = true;
        if clicked {
            flags.selected = true;
        }
    }
}

/// Highlights a tile that a move of the selection lands on or jumps over,
/// and returns the first move landing on it when it is clicked.
pub fn check_move_and_highlights(
    flags: &mut TileFlags,
    tile_position: &Position,
    valid_moves: &Option<ValidMoves>,
    clicked: bool,
    mouse_grid_pos: &Position,
) -> (r: Option<ValidMove>)
    ensures
        final(flags).hovered == old(flags).hovered,
        final(flags).selected == old(flags).selected,
        final(flags).valid_target == (old(flags).valid_target || targets(
            listed(*valid_moves),
            *tile_position,
        )),
        final(flags).in_between == (old(flags).in_between || middles(
            listed(*valid_moves),
            *tile_position,
        )),
        r == if clicked && *mouse_grid_pos == *tile_position {
            first_with_target(listed(*valid_moves), *tile_position)
        } else {
            None
        },
{
    let ghost moves = listed(*valid_moves);
    let mut found: Option<ValidMove> = None;
    match valid_moves {
        Some(moves_list) => {
            let list = &moves_list.list;
            let mut k: usize = 0;
            while k < list.len()
                invariant
                    k <= list@.len(),
                    list@ == moves,
                    flags.hovered == old(flags).hovered,
                    flags.selected == old(flags).selected,
                    flags.valid_target == (old(flags).valid_target || targets(
                        moves.subrange(0, k as int),
                        *tile_position,
                    )),
                    flags.in_between == (old(flags).in_between || middles(
                        moves.subrange(0, k as int),
                        *tile_position,
                    )),
                    found == if clicked && *mouse_grid_pos == *tile_position {
                        first_with_target(moves.subrange(0, k as int), *tile_position)
                    } else {
                        None
                    },
                decreases list@.len() - k,
            {
                let valid_move = list[k];
                let ghost prefix = moves.subrange(0, k as int);
                let ghost next = moves.subrange(0, k + 1);
                assert(next.drop_last() =~= prefix);
                assert(next.last() == valid_move);
                assert(forall|j: int| 0 <= j < k ==> next[j] == prefix[j]);
                assert(next[k as int] == valid_move);
                if valid_move.target == *tile_position {
                    flags.valid_target = true;
                    if clicked && *mouse_grid_pos == *tile_position && found.is_none() {
                        found = Some(valid_move);
                    }
                }
                if valid_move.middle == *tile_position {
                    flags.in_between = true;
                }
                k += 1;
            }
            assert(moves.subrange(0, list@.len() as int) =~= moves);
        },
        None => {},
    }
    found
}

/// Flags for a board on which nothing is hovered, selected or highlighted.
pub fn initial_flags() -> (r: Vec<TileFlags>)
    ensures
        r@.len() == GRID_SIZE * GRID_SIZE,
        forall|i: int|
            0 <= i < r@.len() ==> #[trigger] r@[i] == (TileFlags {
                hovered: false,
                selected: false,
                valid_target: false,
                in_between: false,
            }),
{
    let mut flags: Vec<TileFlags> = Vec::new();
    let mut i: usize = 0;
    while i < GRID_SIZE * GRID_SIZE
        invariant
            i <= GRID_SIZE * GRID_SIZE,
            flags@.len() == i,
            forall|j: int|
                0 <= j < i ==> #[trigger] flags@[j] == (TileFlags {
                    hovered: false,
                    selected: false,
                    valid_target: false,
                    in_between: false,
                }),
        decreases GRID_SIZE * GRID_SIZE - i,
    {
        flags.push(TileFlags { hovered: false, selected: false, valid_target: false, in_between: false });
        i += 1;
    }
    flags
}

/// Index of the first selected tile.
fn selected_index(flags: &Vec<TileFlags>) -> (r: Option<usize>)
    ensures
        match r {
            Some(i) => find_selected(flags@, 0) == Some(i as int) && i < flags@.len(),
            None => find_selected(flags@, 0) is None,
        },
{
    let mut i: usize = 0;
    while i < flags.len()
        invariant
            i <= flags@.len(),
            forall|k: int| 0 <= k < i ==> !(#[trigger] flags@[k]).selected,
        decreases flags@.len() - i,
    {
        if flags[i].selected {
            proof {
                lemma_find_selected_at(flags@, 0, i as int);
            }
            return Some(i);
        }
        i += 1;
    }
    proof {
        lemma_find_selected_none(flags@, 0);
    }
    None
}

/// Runs one pointer event through every tile: clears the highlights,
/// recomputes them from the legal moves of the selected tile, moves hover
/// and (on a click) selection to the tile under the cursor, and returns the
/// move chosen when a click lands on a highlighted target.
pub fn process_mouse_input(grid: &Grid, flags: &mut Vec<TileFlags>, event: &MouseDataEvent) -> (r:
    Option<ValidMoveEvent>)
    requires
        grid.wf(),
        old(flags)@.len() == GRID_SIZE * GRID_SIZE,
    ensures
        final(flags)@ == step_flags(grid.tiles@, old(flags)@, cursor_cell(*event), event.clicked),
        match r {
            Some(e) => step_commit(grid.tiles@, old(flags)@, cursor_cell(*event), event.clicked)
                == Some(e.data),
            None => step_commit(
                grid.tiles@,
                old(flags)@,
                cursor_cell(*event),
                event.clicked,
            ) is None,
        },
        find_selected(old(flags)@, 0) is None ==> r is None,
{
    let ghost old_flags = flags@;
    let mouse_grid_pos = Grid::from_pixel(event.pos.x, event.pos.y);
    let ghost cursor = cursor_cell(*event);
    let clicked = event.clicked;

    let selected = selected_index(flags);
    let mut valid_moves: Option<ValidMoves> = None;
    if let Some(index) = selected {
        let position = Grid::from_index(index);
        proof {
            lemma_position_of_in_grid(index as int);
        }
        valid_moves = Some(grid.calculate_valid_moves(&position));
    }
    let ghost moves = selected_moves(grid.tiles@, old_flags);
    assert(listed(valid_moves) == moves);
    proof {
        lemma_first_with_target(moves, cursor);
        if let Some(i) = find_selected(old_flags, 0) {
            lemma_moves_shape(grid.tiles@, position_of(i));
            lemma_position_of_in_grid(i);
        }
        if in_grid(cursor) {
            lemma_index_round_trip(cursor);
        }
    }
    let ghost commit = step_commit(grid.tiles@, old_flags, cursor, clicked);
    assert(commit is Some ==> in_grid(cursor)) by {
        if let Some(m) = commit {
            let k = choose|k: int| 0 <= k < moves.len() && moves[k] == m;
            assert(move_shape(grid.tiles@, moves[k].origin, moves[k]));
        }
    }

    let mut chosen: Option<ValidMoveEvent> = None;
    let mut i: usize = 0;
    while i < flags.len()
        invariant
            flags@.len() == old_flags.len(),
            old_flags.len() == GRID_SIZE * GRID_SIZE,
            i <= flags@.len(),
            listed(valid_moves) == moves,
            mouse_grid_pos == cursor,
            commit is Some ==> in_grid(cursor),
            in_grid(cursor) ==> position_of(index_of(cursor)) == cursor && 0 <= index_of(cursor)
                < GRID_SIZE * GRID_SIZE,
            commit == (if clicked {
                first_with_target(moves, cursor)
            } else {
                None
            }),
            forall|j: int|
                0 <= j < i ==> #[trigger] flags@[j] == next_flags(
                    old_flags[j],
                    position_of(j),
                    moves,
                    cursor,
                    clicked,
                ),
            forall|j: int| i <= j < flags@.len() ==> #[trigger] flags@[j] == old_flags[j],
            match chosen {
                Some(e) => commit == Some(e.data),
                None => commit is Some ==> index_of(cursor) >= i,
            },
        decreases flags@.len() - i,
    {
        let position = Grid::from_index(i);
        proof {
            lemma_position_of_in_grid(i as int);
        }
        let mut tile_flags = flags[i];
        remove_highlights(&mut tile_flags, clicked);
        update_hover_and_selection(&mut tile_flags, &mouse_grid_pos, &position, clicked);
        let found = check_move_and_highlights(
            &mut tile_flags,
            &position,
            &valid_moves,
            clicked,
            &mouse_grid_pos,
        );
        flags.set(i, tile_flags);
        if chosen.is_none() {
            if let Some(m) = found {
                chosen = Some(ValidMoveEvent { data: m });
            }
        }
        proof {
            if commit is Some && index_of(cursor) == i {
                assert(position == cursor);
            }
        }
        i += 1;
    }
    assert(flags@ =~= step_flags(grid.tiles@, old_flags, cursor, clicked));
    chosen
}

/// Running the step a second time on the same event chooses no move, on the
/// board as it was or on any other well-formed board (such as the one the
/// first move was applied to); without a click, the second run also leaves
/// every flag as the first run set it.
pub proof fn lemma_step_repeat(
    tiles: Seq<Tile>,
    later: Seq<Tile>,
    flags: Seq<TileFlags>,
    cursor: Position,
    clicked: bool,
)
    requires
        tiles_wf(tiles),
        tiles_wf(later),
        flags.len() == GRID_SIZE * GRID_SIZE,
    ensures
        step_commit(later, step_flags(tiles, flags, cursor, clicked), cursor, clicked) is None,
        !clicked ==> step_flags(tiles, step_flags(tiles, flags, cursor, clicked), cursor, clicked)
            == step_flags(tiles, flags, cursor, clicked),
{
    let f1 = step_flags(tiles, flags, cursor, clicked);
    if clicked {
        if in_grid(cursor) {
            lemma_index_round_trip(cursor);
            let c = index_of(cursor);
            assert forall|k: int| 0 <= k < c implies !(#[trigger] f1[k]).selected by {
                lemma_position_of_in_grid(k);
            }
            lemma_find_selected_at(f1, 0, c);
            let moves = moves_from(later, cursor);
            lemma_moves_shape(later, cursor);
            lemma_first_with_target(moves, cursor);
            if targets(moves, cursor) {
                let k = choose|k: int| 0 <= k < moves.len() && (#[trigger] moves[k]).target == cursor;
                assert(move_shape(later, cursor, moves[k]));
            }
        } else {
            assert forall|k: int| 0 <= k < f1.len() implies !(#[trigger] f1[k]).selected by {
                lemma_position_of_in_grid(k);
            }
            lemma_find_selected_none(f1, 0);
        }
    } else {
        lemma_find_selected_same(f1, flags, 0);
        assert(step_flags(tiles, f1, cursor, clicked) =~= f1);
    }
}

} // verus!
