//! What holds of the game across all inputs: line clearing leaves no full row,
//! a finished game stays as it is, keys are acknowledged every frame, gravity
//! moves the piece only once per period, and placing writes exactly the piece.
use vstd::prelude::*;
use crate::shapes::{BLOCK_TYPE_MAX, ROTATION_MAX, BLOCK_TYPE_I, Point, offset};
use crate::board::{
    board_shaped, touches, cell_blocked, cell_x, place, cell_y, fits, place_upto, clear_rows,
    clear_rows_upto, row_full, erase_row, empty_row, mark_game_over, lemma_free_piece_in_field,
    lemma_clear_rows_upto_keeps_field, TETRIS_WIDTH, TETRIS_HEIGHT, BLOCK_STATE_NONE,
    BLOCK_STATE_GAMEOVER,
};
use crate::keys::{Key, KeyState};
use crate::game::{
    GameModel, update_step, key_down_step, key_up_step, fall_step, steered, turned, lands, landed,
    spawn_point, hard_drop,
};

verus! {

/// After line clearing, none of the rows `0 .. n` that have been gone through is full.
proof fn lemma_clear_rows_upto_no_full_row(b: Seq<Seq<u8>>, n: int)
    requires
        board_shaped(b),
        0 <= n <= TETRIS_HEIGHT,
    ensures
        forall|y: int| 0 <= y < n ==> !row_full(#[trigger] clear_rows_upto(b, n)[y]),
    decreases n,
{
    if n > 0 {
        lemma_clear_rows_upto_no_full_row(b, n - 1);
        lemma_clear_rows_upto_keeps_field(b, n - 1);
        let prev = clear_rows_upto(b, n - 1);
        if row_full(prev[n - 1]) {
            let e = erase_row(prev, n - 1);
            assert forall|y: int| 0 <= y < n implies !row_full(#[trigger] e[y]) by {
                if y == 0 && n - 1 == 0 {
                    assert(e[0][0] == BLOCK_STATE_NONE);
                } else if y == 0 {
                    assert(!row_full(prev[0]));
                } else {
                    assert(!row_full(prev[y - 1]));
                }
            }
        }
    }
}

/// Line clearing leaves no full row on the field.
pub proof fn law_no_full_row_after_clearing(b: Seq<Seq<u8>>)
    requires
        board_shaped(b),
    ensures
        forall|y: int| 0 <= y < TETRIS_HEIGHT ==> !row_full(#[trigger] clear_rows(b)[y]),
{
    lemma_clear_rows_upto_no_full_row(b, TETRIS_HEIGHT as int);
}

/// Line clearing leaves a field without full rows as it is.
pub proof fn law_clearing_without_full_rows_changes_nothing(b: Seq<Seq<u8>>)
    requires
        board_shaped(b),
        forall|y: int| 0 <= y < TETRIS_HEIGHT ==> !row_full(#[trigger] b[y]),
    ensures
        clear_rows(b) == b,
{
    lemma_clear_rows_upto_identity(b, TETRIS_HEIGHT as int);
}

proof fn lemma_clear_rows_upto_identity(b: Seq<Seq<u8>>, n: int)
    requires
        board_shaped(b),
        forall|y: int| 0 <= y < TETRIS_HEIGHT ==> !row_full(#[trigger] b[y]),
        n <= TETRIS_HEIGHT,
    ensures
        clear_rows_upto(b, n) == b,
    decreases n,
{
    if n > 0 {
        lemma_clear_rows_upto_identity(b, n - 1);
        assert(!row_full(b[n - 1]));
    }
}

/// Clearing twice is clearing once.
pub proof fn law_clearing_is_idempotent(b: Seq<Seq<u8>>)
    requires
        board_shaped(b),
    ensures
        clear_rows(clear_rows(b)) == clear_rows(b),
{
    law_no_full_row_after_clearing(b);
    lemma_clear_rows_upto_keeps_field(b, TETRIS_HEIGHT as int);
    law_clearing_without_full_rows_changes_nothing(clear_rows(b));
}

/// Once the game is over, a frame changes nothing, whatever piece would come next.
pub proof fn law_game_over_is_final(s: GameModel, next: u8)
    requires
        s.is_gameover,
    ensures
        update_step(s, next) == s,
{
}

/// Keys change only key states: the field, the piece and the game-over flag stay.
pub proof fn law_keys_change_only_key_states(s: GameModel, key: Key)
    ensures
        key_down_step(s, key).board == s.board,
        key_down_step(s, key).control_point == s.control_point,
        key_down_step(s, key).block_type == s.block_type,
        key_down_step(s, key).rotation == s.rotation,
        key_down_step(s, key).time == s.time,
        key_down_step(s, key).is_gameover == s.is_gameover,
        key_up_step(s, key).board == s.board,
        key_up_step(s, key).control_point == s.control_point,
        key_up_step(s, key).block_type == s.block_type,
        key_up_step(s, key).rotation == s.rotation,
        key_up_step(s, key).time == s.time,
        key_up_step(s, key).is_gameover == s.is_gameover,
{
}

/// Key events keep a good state good.
pub proof fn law_key_events_keep_wf(s: GameModel, key: Key)
    requires
        s.wf(),
    ensures
        key_down_step(s, key).wf(),
        key_up_step(s, key).wf(),
{
}

/// The state that the game keeps for `key`, if it keeps one.
pub open spec fn state_of_key(s: GameModel, key: Key) -> Option<KeyState> {
    match key {
        Key::A => Some(s.left_state),
        Key::D => Some(s.right_state),
        Key::S => Some(s.down_state),
        Key::W => Some(s.up_state),
        Key::Space => Some(s.space_state),
        Key::Other => None,
    }
}

/// Pressing a key that is held (a repeated press) changes nothing, and any other
/// press leaves that key "just down".
pub proof fn law_press_of_held_key_changes_nothing(s: GameModel, key: Key)
    ensures
        state_of_key(s, key) == Some(KeyState::KeyDown) ==> key_down_step(s, key) == s,
        key != Key::Other ==> state_of_key(key_down_step(s, key), key) == Some(
            if state_of_key(s, key) == Some(KeyState::KeyDown) {
                KeyState::KeyDown
            } else {
                KeyState::KeyChangeDown
            },
        ),
        key != Key::Other ==> state_of_key(key_up_step(s, key), key) == Some(KeyState::KeyChangeUp),
{
}

/// In a running game, the frame in which the drop key has just gone down always
/// locks the piece.
pub proof fn law_drop_locks_in_the_same_frame(s: GameModel)
    requires
        s.wf(),
        hard_drop(s),
    ensures
        lands(s),
{
    crate::board::lemma_drop_row(
        s.board,
        s.block_type,
        s.rotation,
        s.control_point.x as int,
        s.control_point.y + 1,
    );
}

/// The key states of a state in which no key has a pending change.
pub open spec fn keys_quiet(s: GameModel) -> bool {
    &&& (s.up_state == KeyState::KeyDown || s.up_state == KeyState::KeyUp)
    &&& (s.right_state == KeyState::KeyDown || s.right_state == KeyState::KeyUp)
    &&& (s.down_state == KeyState::KeyDown || s.down_state == KeyState::KeyUp)
    &&& (s.left_state == KeyState::KeyDown || s.left_state == KeyState::KeyUp)
    &&& (s.space_state == KeyState::KeyDown || s.space_state == KeyState::KeyUp)
}

/// After a frame of a running game, every key change has been acted on.
pub proof fn law_frame_acknowledges_keys(s: GameModel, next: u8)
    requires
        !s.is_gameover,
    ensures
        keys_quiet(update_step(s, next)),
{
}

/// Between two steps of gravity, and with no key change pending, a frame only counts.
pub proof fn law_quiet_frame_only_counts(s: GameModel, next: u8)
    requires
        s.wf(),
        !s.is_gameover,
        keys_quiet(s),
        s.time + 1 < crate::game::TIME_SPAN,
    ensures
        update_step(s, next) == (GameModel { time: (s.time + 1) as u32, ..s }),
{
    let t = GameModel { time: (s.time + 1) as u32, ..s };
    assert(fall_step(s, next) == t);
    assert(steered(t) == t);
    assert(turned(t) == t);
}

/// When gravity's period is over, no key change is pending, and the row below
/// is free, a frame moves the piece down one row and restarts the count.
pub proof fn law_gravity_moves_down_one_row(s: GameModel, next: u8)
    requires
        s.wf(),
        !s.is_gameover,
        keys_quiet(s),
        s.time + 1 >= crate::game::TIME_SPAN,
        !touches(
            s.board,
            s.block_type,
            s.rotation,
            s.control_point.x as int,
            s.control_point.y + 1,
        ),
    ensures
        update_step(s, next) == (GameModel {
            control_point: crate::shapes::Point {
                x: s.control_point.x,
                y: (s.control_point.y + 1) as i8,
            },
            time: 0,
            ..s
        }),
{
    let t = GameModel {
        control_point: crate::shapes::Point {
            x: s.control_point.x,
            y: (s.control_point.y + 1) as i8,
        },
        time: 0,
        ..s
    };
    lemma_free_piece_in_field(
        s.board,
        s.block_type,
        s.rotation,
        s.control_point.x as int,
        s.control_point.y + 1,
    );
    assert(fall_step(s, next) == t);
    assert(steered(t) == t);
    assert(turned(t) == t);
}

/// The frame in which the game ends leaves every cell empty or in the game-over state.
pub proof fn law_game_over_picture(s: GameModel, next: u8)
    requires
        s.wf(),
        !s.is_gameover,
        next < BLOCK_TYPE_MAX,
        update_step(s, next).is_gameover,
    ensures
        forall|y: int, x: int|
            0 <= y < TETRIS_HEIGHT && 0 <= x < TETRIS_WIDTH ==> {
                let c = #[trigger] update_step(s, next).board[y][x];
                c == BLOCK_STATE_NONE || c == BLOCK_STATE_GAMEOVER
            },
{
    crate::game::lemma_fall_step_keeps_wf(s, next);
    let f = fall_step(s, next);
    assert(f.is_gameover);
    assert(lands(s));
    assert(update_step(s, next).board == f.board);
    let l = landed(s);
    let sp = spawn_point(next);
    let b2 = if l.board[sp.y as int][sp.x as int] == BLOCK_STATE_NONE {
        crate::board::place(l.board, next, 0, sp.x as int, sp.y as int)
    } else {
        l.board
    };
    assert(f.board == mark_game_over(b2));
    assert forall|y: int, x: int|
        0 <= y < TETRIS_HEIGHT && 0 <= x < TETRIS_WIDTH implies {
        let c = #[trigger] update_step(s, next).board[y][x];
        c == BLOCK_STATE_NONE || c == BLOCK_STATE_GAMEOVER
    } by {
        assert(f.board[y].len() == TETRIS_WIDTH);
        assert(f.board[y] == b2[y].map_values(
            |c: u8|
                if c != BLOCK_STATE_NONE {
                    BLOCK_STATE_GAMEOVER
                } else {
                    c
                },
        ));
    }
}

/// Placing a piece that fits writes `v` into exactly its cells at or below the
/// top row, and leaves every other cell as it was.
pub proof fn law_place_writes_exactly_the_piece(
    b: Seq<Seq<u8>>,
    block_type: u8,
    rotation: usize,
    px: int,
    py: int,
    v: u8,
    n: int,
)
    requires
        board_shaped(b),
        fits(block_type, rotation, px, py),
        0 <= n <= 4,
    ensures
        forall|y: int, x: int|
            0 <= y < TETRIS_HEIGHT && 0 <= x < TETRIS_WIDTH ==> #[trigger] place_upto(
                b,
                block_type,
                rotation,
                px,
                py,
                v,
                n,
            )[y][x] == if exists|i: int|
                0 <= i < n && cell_x(block_type, rotation, px, i) == x && cell_y(
                    block_type,
                    rotation,
                    py,
                    i,
                ) == y {
                v
            } else {
                b[y][x]
            },
    decreases n,
{
    if n > 0 {
        law_place_writes_exactly_the_piece(b, block_type, rotation, px, py, v, n - 1);
        crate::board::lemma_place_upto_keeps_field(b, block_type, rotation, px, py, v, n - 1);
        let prev = place_upto(b, block_type, rotation, px, py, v, n - 1);
        let cx = cell_x(block_type, rotation, px, n - 1);
        let cy = cell_y(block_type, rotation, py, n - 1);
        assert forall|y: int, x: int|
            0 <= y < TETRIS_HEIGHT && 0 <= x < TETRIS_WIDTH implies #[trigger] place_upto(
            b,
            block_type,
            rotation,
            px,
            py,
            v,
            n,
        )[y][x] == if exists|i: int|
            0 <= i < n && cell_x(block_type, rotation, px, i) == x && cell_y(
                block_type,
                rotation,
                py,
                i,
            ) == y {
            v
        } else {
            b[y][x]
        } by {
            assert(prev[y][x] == if exists|i: int|
                0 <= i < n - 1 && cell_x(block_type, rotation, px, i) == x && cell_y(
                    block_type,
                    rotation,
                    py,
                    i,
                ) == y {
                v
            } else {
                b[y][x]
            });
            if cy == y && cx == x {
                assert(0 <= n - 1 < n && cell_x(block_type, rotation, px, n - 1) == x && cell_y(
                    block_type,
                    rotation,
                    py,
                    n - 1,
                ) == y);
            }
        }
    }
}

/// The usual removal of row `y`: the rows above it move down one row each and
/// an empty row enters at the top.
pub open spec fn remove_row(b: Seq<Seq<u8>>, y: int) -> Seq<Seq<u8>> {
    Seq::new(
        TETRIS_HEIGHT as nat,
        |r: int|
            if r == 0 {
                empty_row()
            } else if r <= y {
                b[r - 1]
            } else {
                b[r]
            },
    )
}

/// Erasing a row is the usual removal whenever the top row is empty. (When the
/// top row is not empty and a lower row is erased, the top row keeps its cells.)
pub proof fn law_erase_row_is_removal_under_empty_top(b: Seq<Seq<u8>>, y: int)
    requires
        b[0] == empty_row(),
    ensures
        erase_row(b, y) == remove_row(b, y),
{
    assert(erase_row(b, y) =~= remove_row(b, y));
}

/// Line clearing leaves unchanged every field in which each row has an empty
/// cell somewhere in its `TETRIS_WIDTH` columns: a row is removed only when all
/// of its cells are occupied.
pub proof fn law_clearing_keeps_a_field_with_a_hole_in_every_row(b: Seq<Seq<u8>>)
    requires
        board_shaped(b),
        forall|y: int|
            #![trigger b[y]]
            0 <= y < TETRIS_HEIGHT ==> exists|x: int|
                0 <= x < TETRIS_WIDTH && b[y][x] == BLOCK_STATE_NONE,
    ensures
        clear_rows(b) == b,
{
    assert forall|y: int| 0 <= y < TETRIS_HEIGHT implies !row_full(#[trigger] b[y]) by {
        let x = choose|x: int| 0 <= x < TETRIS_WIDTH && b[y][x] == BLOCK_STATE_NONE;
        assert(b[y][x] == BLOCK_STATE_NONE);
    }
    law_clearing_without_full_rows_changes_nothing(b);
}

/// After line clearing, every row `y` has an empty cell somewhere in its `TETRIS_WIDTH` columns.
pub proof fn law_every_row_has_a_hole_after_clearing(b: Seq<Seq<u8>>, y: int)
    requires
        board_shaped(b),
        0 <= y < TETRIS_HEIGHT,
    ensures
        exists|x: int| 0 <= x < TETRIS_WIDTH && #[trigger] clear_rows(b)[y][x] == BLOCK_STATE_NONE,
{
    law_no_full_row_after_clearing(b);
    assert(!row_full(clear_rows(b)[y]));
}

/// A piece one of whose cells lies on an occupied cell of the field touches,
/// whatever state that cell holds.
pub proof fn law_occupied_cell_under_piece_touches(
    b: Seq<Seq<u8>>,
    block_type: u8,
    rotation: usize,
    px: int,
    py: int,
    i: int,
)
    requires
        0 <= i < 4,
        0 <= px + offset(block_type, rotation, i).x < TETRIS_WIDTH,
        0 <= py + offset(block_type, rotation, i).y < TETRIS_HEIGHT,
        b[py + offset(block_type, rotation, i).y][px + offset(block_type, rotation, i).x]
            != BLOCK_STATE_NONE,
    ensures
        touches(b, block_type, rotation, px, py),
{
    assert(cell_blocked(b, block_type, rotation, px, py, i));
}

/// A piece touches exactly when one of its cells lies left of the left wall,
/// right of the right wall, below the floor, or on an occupied cell of the field.
pub proof fn law_touching_is_walls_floor_or_blocks(
    b: Seq<Seq<u8>>,
    block_type: u8,
    rotation: usize,
    px: int,
    py: int,
)
    ensures
        touches(b, block_type, rotation, px, py) <==> exists|i: int|
            0 <= i < 4 && {
                let x = px + #[trigger] offset(block_type, rotation, i).x;
                let y = py + offset(block_type, rotation, i).y;
                ||| x < 0
                ||| x >= TETRIS_WIDTH
                ||| y >= TETRIS_HEIGHT
                ||| (0 <= y && b[y][x] != BLOCK_STATE_NONE)
            },
{
    if touches(b, block_type, rotation, px, py) {
        let i = choose|i: int|
            0 <= i < 4 && #[trigger] cell_blocked(b, block_type, rotation, px, py, i);
        assert(cell_blocked(b, block_type, rotation, px, py, i));
    }
    if exists|i: int|
        0 <= i < 4 && {
            let x = px + #[trigger] offset(block_type, rotation, i).x;
            let y = py + offset(block_type, rotation, i).y;
            ||| x < 0
            ||| x >= TETRIS_WIDTH
            ||| y >= TETRIS_HEIGHT
            ||| (0 <= y && b[y][x] != BLOCK_STATE_NONE)
        } {
        let i = choose|i: int|
            0 <= i < 4 && {
                let x = px + #[trigger] offset(block_type, rotation, i).x;
                let y = py + offset(block_type, rotation, i).y;
                ||| x < 0
                ||| x >= TETRIS_WIDTH
                ||| y >= TETRIS_HEIGHT
                ||| (0 <= y && b[y][x] != BLOCK_STATE_NONE)
            };
        assert(cell_blocked(b, block_type, rotation, px, py, i));
    }
}

/// Between two steps of gravity and without a drop, the left key that has just
/// gone down (without the right key) moves the piece exactly one column left,
/// keeping its row, when it would not touch there; otherwise the piece stays.
pub proof fn law_left_key_moves_one_column(s: GameModel, next: u8)
    requires
        s.wf(),
        !s.is_gameover,
        s.time + 1 < crate::game::TIME_SPAN,
        s.space_state != KeyState::KeyChangeDown,
        s.left_state == KeyState::KeyChangeDown,
        s.right_state != KeyState::KeyChangeDown,
    ensures
        !touches(
            s.board,
            s.block_type,
            s.rotation,
            s.control_point.x - 1,
            s.control_point.y as int,
        ) ==> update_step(s, next).control_point == (Point {
            x: (s.control_point.x - 1) as i8,
            y: s.control_point.y,
        }),
        touches(
            s.board,
            s.block_type,
            s.rotation,
            s.control_point.x - 1,
            s.control_point.y as int,
        ) ==> update_step(s, next).control_point == s.control_point,
{
    let t = GameModel { time: (s.time + 1) as u32, ..s };
    assert(fall_step(s, next) == t);
}

/// Between two steps of gravity and without a drop, the right key that has just
/// gone down (without the left key) moves the piece exactly one column right,
/// keeping its row, when it would not touch there; otherwise the piece stays.
pub proof fn law_right_key_moves_one_column(s: GameModel, next: u8)
    requires
        s.wf(),
        !s.is_gameover,
        s.time + 1 < crate::game::TIME_SPAN,
        s.space_state != KeyState::KeyChangeDown,
        s.right_state == KeyState::KeyChangeDown,
        s.left_state != KeyState::KeyChangeDown,
    ensures
        !touches(
            s.board,
            s.block_type,
            s.rotation,
            s.control_point.x + 1,
            s.control_point.y as int,
        ) ==> update_step(s, next).control_point == (Point {
            x: (s.control_point.x + 1) as i8,
            y: s.control_point.y,
        }),
        touches(
            s.board,
            s.block_type,
            s.rotation,
            s.control_point.x + 1,
            s.control_point.y as int,
        ) ==> update_step(s, next).control_point == s.control_point,
{
    let t = GameModel { time: (s.time + 1) as u32, ..s };
    assert(fall_step(s, next) == t);
}

/// Without a sideways key just gone down, a frame without gravity keeps the piece's place.
pub proof fn law_no_sideways_key_keeps_the_column(s: GameModel, next: u8)
    requires
        s.wf(),
        !s.is_gameover,
        s.time + 1 < crate::game::TIME_SPAN,
        s.space_state != KeyState::KeyChangeDown,
        s.right_state != KeyState::KeyChangeDown,
        s.left_state != KeyState::KeyChangeDown,
    ensures
        update_step(s, next).control_point == s.control_point,
{
    let t = GameModel { time: (s.time + 1) as u32, ..s };
    assert(fall_step(s, next) == t);
}

/// When gravity is due (its period is over, no drop), no other key has just
/// gone down, and the piece touches one row below its place, the frame locks
/// it. The returned field is the field with the piece written in: every cell of
/// the piece at its place that lies at or below the top row holds the piece's
/// state `block_type + 1`, and every other cell is as before. Unless the game
/// ends, the new field is that field after line clearing, and the falling piece
/// is a new one of kind `next`, at the spawn point (column 4; row 2 for the
/// straight piece, else row 1) in rotation 0.
pub proof fn law_gravity_locks_a_resting_piece(s: GameModel, next: u8) -> (locked: Seq<Seq<u8>>)
    requires
        s.wf(),
        !s.is_gameover,
        next < BLOCK_TYPE_MAX,
        s.time + 1 >= crate::game::TIME_SPAN,
        s.space_state != KeyState::KeyChangeDown,
        s.left_state != KeyState::KeyChangeDown,
        s.right_state != KeyState::KeyChangeDown,
        s.up_state != KeyState::KeyChangeDown,
        s.down_state != KeyState::KeyChangeDown,
        touches(
            s.board,
            s.block_type,
            s.rotation,
            s.control_point.x as int,
            s.control_point.y + 1,
        ),
    ensures
        board_shaped(locked),
        forall|i: int|
            0 <= i < 4 && 0 <= s.control_point.y + #[trigger] offset(
                s.block_type,
                s.rotation,
                i,
            ).y ==> locked[s.control_point.y + offset(s.block_type, s.rotation, i).y][
            s.control_point.x + offset(s.block_type, s.rotation, i).x] == s.block_type + 1,
        forall|y: int, x: int|
            0 <= y < TETRIS_HEIGHT && 0 <= x < TETRIS_WIDTH && (forall|i: int|
                0 <= i < 4 ==> (s.control_point.x + #[trigger] offset(s.block_type, s.rotation, i).x
                    != x || s.control_point.y + offset(s.block_type, s.rotation, i).y != y))
                ==> #[trigger] locked[y][x] == s.board[y][x],
        update_step(s, next).block_type == next,
        update_step(s, next).time == 0,
        !update_step(s, next).is_gameover ==> {
            &&& update_step(s, next).board == clear_rows(locked)
            &&& update_step(s, next).control_point == (Point {
                x: 4,
                y: if next == BLOCK_TYPE_I {
                    2
                } else {
                    1
                },
            })
            &&& update_step(s, next).rotation == 0
        },
{
    let b = s.board;
    let bt = s.block_type;
    let rot = s.rotation;
    let px = s.control_point.x as int;
    let py = s.control_point.y as int;
    lemma_free_piece_in_field(b, bt, rot, px, py);
    let v = (bt + 1) as u8;
    let placed = place(b, bt, rot, px, py);
    law_place_writes_exactly_the_piece(b, bt, rot, px, py, v, 4);
    crate::board::lemma_place_upto_keeps_field(b, bt, rot, px, py, v, 4);
    assert(lands(s));
    assert(landed(s).board == clear_rows(placed));
    assert forall|i: int|
        0 <= i < 4 && 0 <= py + #[trigger] offset(bt, rot, i).y implies placed[py + offset(
        bt,
        rot,
        i,
    ).y][px + offset(bt, rot, i).x] == bt + 1 by {
        assert(0 <= cell_y(bt, rot, py, i));
        let y = cell_y(bt, rot, py, i);
        let x = cell_x(bt, rot, px, i);
        assert(placed[y][x] == v);
    }
    assert forall|y: int, x: int|
        0 <= y < TETRIS_HEIGHT && 0 <= x < TETRIS_WIDTH && (forall|i: int|
            0 <= i < 4 ==> (px + #[trigger] offset(bt, rot, i).x != x || py + offset(
                bt,
                rot,
                i,
            ).y != y)) implies #[trigger] placed[y][x] == b[y][x] by {
        if exists|i: int| 0 <= i < 4 && cell_x(bt, rot, px, i) == x && cell_y(bt, rot, py, i) == y {
            let i = choose|i: int|
                0 <= i < 4 && cell_x(bt, rot, px, i) == x && cell_y(bt, rot, py, i) == y;
            assert(px + offset(bt, rot, i).x != x || py + offset(bt, rot, i).y != y);
        }
    }
    let f = fall_step(s, next);
    assert(f == crate::game::spawned(landed(s), next));
    assert(f.block_type == next && f.time == 0 && f.rotation == 0);
    assert(steered(f).block_type == next);
    placed
}

} // verus!
