use tetris::board::{BLOCK_STATE_GAMEOVER, BLOCK_STATE_NONE, TETRIS_HEIGHT, TETRIS_WIDTH};
use tetris::game::{MainState, TIME_SPAN};
use tetris::keys::{Key, KeyState};
use tetris::shapes::{block_offset, Point, BLOCK_TYPE_I, BLOCK_TYPE_MAX};

fn pt(x: i8, y: i8) -> Point {
    Point { x, y }
}

fn filled_row(v: u8) -> [u8; TETRIS_WIDTH] {
    [v; TETRIS_WIDTH]
}

#[test]
fn new_control_point_of_straight_piece_is_lower() {
    assert_eq!(MainState::new_control_point(BLOCK_TYPE_I), pt(4, 2));
    for t in 1..BLOCK_TYPE_MAX {
        assert_eq!(MainState::new_control_point(t), pt(4, 1));
    }
}

#[test]
fn piece_table_matches_the_game() {
    assert_eq!(block_offset(0, 0, 0), pt(0, -2));
    assert_eq!(block_offset(0, 1, 0), pt(-2, 0));
    assert_eq!(block_offset(3, 3, 0), pt(1, -1));
    assert_eq!(block_offset(4, 2, 3), pt(-1, 1));
    assert_eq!(block_offset(5, 0, 1), pt(-1, 0));
    for r in 0..4 {
        assert_eq!(block_offset(6, r, 1), pt(-1, -1));
    }
}

#[test]
fn a_game_starts_empty_with_keys_up() {
    let s = MainState::with_block_type(2);
    assert!(s.blocks.iter().all(|row| row.iter().all(|&c| c == BLOCK_STATE_NONE)));
    assert_eq!(s.control_point, pt(4, 1));
    assert_eq!(s.block_type, 2);
    assert_eq!(s.rotation, 0);
    assert_eq!(s.time, 0);
    assert!(!s.is_gameover);
    assert_eq!(s.space_state, KeyState::KeyUp);
    assert_eq!(s.left_state, KeyState::KeyUp);
}

#[test]
fn a_random_game_starts_with_a_valid_piece() {
    for _ in 0..50 {
        let s = MainState::new();
        assert!(s.block_type < BLOCK_TYPE_MAX);
        assert_eq!(s.control_point, MainState::new_control_point(s.block_type));
    }
}

#[test]
fn touching_walls_floor_and_blocks() {
    let mut s = MainState::with_block_type(6); // square: cells (0,-1) (-1,-1) (-1,0) (0,0)
    assert!(!s.check_touch_block(pt(4, 5), 0));
    assert!(s.check_touch_block(pt(0, 5), 0)); // left wall
    assert!(!s.check_touch_block(pt(1, 5), 0));
    assert!(s.check_touch_block(pt(9, 5), 0)); // right wall
    assert!(!s.check_touch_block(pt(8, 5), 0));
    assert!(s.check_touch_block(pt(4, 16), 0)); // floor
    assert!(!s.check_touch_block(pt(4, 15), 0));
    assert!(!s.check_touch_block(pt(4, 0), 0)); // above the field is free
    s.blocks[10][3] = 1;
    assert!(s.check_touch_block(pt(4, 10), 0));
    assert!(s.check_touch_block(pt(4, 11), 0));
    assert!(!s.check_touch_block(pt(4, 12), 0));
    assert!(!s.check_touch_block(pt(5, 10), 0));
}

#[test]
fn put_block_writes_the_piece_state() {
    let mut s = MainState::with_block_type(1); // L, rotation 0: (0,-1) (0,0) (0,1) (1,1)
    s.control_point = pt(3, 5);
    s.put_block();
    assert_eq!(s.blocks[4][3], 2);
    assert_eq!(s.blocks[5][3], 2);
    assert_eq!(s.blocks[6][3], 2);
    assert_eq!(s.blocks[6][4], 2);
    let count = s.blocks.iter().flatten().filter(|&&c| c != 0).count();
    assert_eq!(count, 4);
}

#[test]
fn put_block_skips_cells_above_the_field() {
    let mut s = MainState::with_block_type(0); // I, rotation 0: (0,-2) (0,-1) (0,0) (0,1)
    s.control_point = pt(2, 0);
    s.put_block();
    assert_eq!(s.blocks[0][2], 1);
    assert_eq!(s.blocks[1][2], 1);
    let count = s.blocks.iter().flatten().filter(|&&c| c != 0).count();
    assert_eq!(count, 2);
}

#[test]
fn clearing_a_full_bottom_row_moves_rows_down() {
    let mut s = MainState::with_block_type(0);
    s.blocks[15] = filled_row(3);
    s.blocks[14][0] = 5;
    s.blocks[13][8] = 2;
    s.clear_lines();
    assert_eq!(s.blocks[15][0], 5);
    assert_eq!(s.blocks[14][8], 2);
    assert_eq!(s.blocks[14][0], 0);
    let count = s.blocks.iter().flatten().filter(|&&c| c != 0).count();
    assert_eq!(count, 2);
}

#[test]
fn clearing_two_full_rows() {
    let mut s = MainState::with_block_type(0);
    s.blocks[15] = filled_row(1);
    s.blocks[14][4] = 7;
    s.blocks[13] = filled_row(2);
    s.blocks[12][1] = 6;
    s.clear_lines();
    assert_eq!(s.blocks[15][4], 7);
    assert_eq!(s.blocks[14][1], 6);
    let count = s.blocks.iter().flatten().filter(|&&c| c != 0).count();
    assert_eq!(count, 2);
    for y in 0..TETRIS_HEIGHT {
        assert!(s.blocks[y].iter().any(|&c| c == 0));
    }
}

#[test]
fn clearing_the_top_row_empties_it() {
    let mut s = MainState::with_block_type(0);
    s.blocks[0] = filled_row(4);
    s.clear_lines();
    assert!(s.blocks[0].iter().all(|&c| c == 0));
}

#[test]
fn clearing_below_keeps_the_top_row() {
    // the top row keeps its contents when a lower row is removed
    let mut s = MainState::with_block_type(0);
    s.blocks[0][2] = 3;
    s.blocks[8] = filled_row(1);
    s.clear_lines();
    assert_eq!(s.blocks[0][2], 3);
    assert_eq!(s.blocks[1][2], 3);
}

#[test]
fn clearing_a_field_without_full_rows_changes_nothing() {
    let mut s = MainState::with_block_type(0);
    s.blocks[15] = filled_row(1);
    s.blocks[15][3] = 0;
    s.blocks[9][0] = 2;
    let before = s.blocks;
    s.clear_lines();
    assert_eq!(s.blocks, before);
}

#[test]
fn gravity_acts_once_per_period() {
    let mut s = MainState::with_block_type(3);
    for frame in 1..TIME_SPAN {
        s.update_with(0);
        assert_eq!(s.time, frame);
        assert_eq!(s.control_point, pt(4, 1));
    }
    s.update_with(0);
    assert_eq!(s.time, 0);
    assert_eq!(s.control_point, pt(4, 2));
}

#[test]
fn hard_drop_locks_the_piece_on_the_floor() {
    let mut s = MainState::with_block_type(6); // square
    s.key_down_event(Key::Space);
    assert_eq!(s.space_state, KeyState::KeyChangeDown);
    s.update_with(1);
    // the square rests on the floor: rows 14 and 15, columns 3 and 4
    assert_eq!(s.blocks[15][3], 7);
    assert_eq!(s.blocks[15][4], 7);
    assert_eq!(s.blocks[14][3], 7);
    assert_eq!(s.blocks[14][4], 7);
    assert_eq!(s.block_type, 1);
    assert_eq!(s.control_point, pt(4, 1));
    assert_eq!(s.rotation, 0);
    assert_eq!(s.time, 0);
    assert!(!s.is_gameover);
    assert_eq!(s.space_state, KeyState::KeyDown);
}

#[test]
fn hard_drop_stops_on_blocks() {
    let mut s = MainState::with_block_type(0); // I, vertical
    s.blocks[10][4] = 2;
    s.key_down_event(Key::Space);
    s.update_with(0);
    // the I rests with its lowest cell on row 9
    for y in 6..10 {
        assert_eq!(s.blocks[y][4], 1);
    }
    assert_eq!(s.blocks[5][4], 0);
}

#[test]
fn a_completed_row_is_cleared_on_lock() {
    let mut s = MainState::with_block_type(0);
    s.blocks[15] = filled_row(2);
    s.blocks[15][4] = 0;
    s.key_down_event(Key::Space);
    s.update_with(3);
    // the I filled the gap, the row was cleared, three cells of the I remain
    assert!(s.blocks[15][0] == 0 && s.blocks[15][4] == 1);
    let count = s.blocks.iter().flatten().filter(|&&c| c != 0).count();
    assert_eq!(count, 3);
}

#[test]
fn sideways_moves_stop_at_the_wall() {
    let mut s = MainState::with_block_type(6); // square spans columns x-1 .. x
    s.key_down_event(Key::D);
    s.update_with(0);
    assert_eq!(s.control_point, pt(5, 1));
    assert_eq!(s.right_state, KeyState::KeyDown);
    for _ in 0..10 {
        s.key_up_event(Key::A);
        s.update_with(0);
        s.key_down_event(Key::A);
        s.update_with(0);
    }
    assert_eq!(s.control_point.x, 1);
}

#[test]
fn rotation_keys_turn_both_ways() {
    let mut s = MainState::with_block_type(5);
    s.control_point = pt(4, 5);
    s.key_down_event(Key::S);
    s.update_with(0);
    assert_eq!(s.rotation, 1);
    s.key_up_event(Key::S);
    s.key_down_event(Key::W);
    s.update_with(0);
    assert_eq!(s.rotation, 0);
    s.key_up_event(Key::W);
    s.update_with(0);
    s.key_down_event(Key::W);
    s.update_with(0);
    assert_eq!(s.rotation, 3);
}

#[test]
fn rotation_is_refused_when_it_would_touch() {
    let mut s = MainState::with_block_type(0); // vertical I at (4,2)
    s.control_point = pt(0, 5);
    // rotation 1 spans columns -2 .. 1: outside the wall
    s.key_down_event(Key::S);
    s.update_with(0);
    assert_eq!(s.rotation, 0);
}

#[test]
fn held_key_does_not_trigger_again() {
    let mut s = MainState::with_block_type(2);
    s.key_down_event(Key::D);
    s.update_with(0);
    assert_eq!(s.control_point.x, 5);
    s.key_down_event(Key::D); // repeat while held
    assert_eq!(s.right_state, KeyState::KeyDown);
    s.update_with(0);
    assert_eq!(s.control_point.x, 5);
    s.key_up_event(Key::D);
    assert_eq!(s.right_state, KeyState::KeyChangeUp);
    s.update_with(0);
    assert_eq!(s.right_state, KeyState::KeyUp);
}

#[test]
fn other_keys_change_nothing() {
    let mut s = MainState::with_block_type(2);
    s.key_down_event(Key::Other);
    s.key_up_event(Key::Other);
    assert_eq!(s.up_state, KeyState::KeyUp);
    assert_eq!(s.right_state, KeyState::KeyUp);
    assert_eq!(s.down_state, KeyState::KeyUp);
    assert_eq!(s.left_state, KeyState::KeyUp);
    assert_eq!(s.space_state, KeyState::KeyUp);
}

#[test]
fn game_over_when_a_new_piece_cannot_appear() {
    let mut s = MainState::with_block_type(6);
    // fill the middle of rows 1..16, leaving one hole per row so none is full
    for y in 1..TETRIS_HEIGHT {
        s.blocks[y] = filled_row(5);
        s.blocks[y][0] = 0;
    }
    // the square sits above the field at (4, 0): cells (3..4, -1..0)
    s.control_point = pt(4, 0);
    s.key_down_event(Key::Space);
    s.update_with(2);
    assert!(s.is_gameover);
    for y in 0..TETRIS_HEIGHT {
        for x in 0..TETRIS_WIDTH {
            let c = s.blocks[y][x];
            assert!(c == BLOCK_STATE_NONE || c == BLOCK_STATE_GAMEOVER);
        }
    }
    assert_eq!(s.blocks[0][3], BLOCK_STATE_GAMEOVER);
    let before_blocks = s.blocks;
    let before_point = s.control_point;
    s.key_down_event(Key::D);
    for _ in 0..100 {
        s.update_with(1);
    }
    assert!(s.is_gameover);
    assert_eq!(s.blocks, before_blocks);
    assert_eq!(s.control_point, before_point);
    assert_eq!(s.right_state, KeyState::KeyChangeDown);
}

#[test]
fn random_update_keeps_a_valid_piece() {
    let mut s = MainState::new();
    for _ in 0..2000 {
        s.key_down_event(Key::Space);
        s.update();
        s.key_up_event(Key::Space);
        s.update();
        assert!(s.block_type < BLOCK_TYPE_MAX);
        assert!(s.rotation < 4);
        assert!(s.time < TIME_SPAN);
        for y in 0..TETRIS_HEIGHT {
            for x in 0..TETRIS_WIDTH {
                assert!(s.blocks[y][x] <= BLOCK_STATE_GAMEOVER);
            }
        }
        if s.is_gameover {
            break;
        }
    }
    assert!(s.is_gameover);
}

#[test]
fn piece_cells_follow_the_table() {
    let s = MainState::with_block_type(1);
    let cells = s.piece_cells();
    assert_eq!(cells, vec![pt(4, 0), pt(4, 1), pt(4, 2), pt(5, 2)]);
}

#[test]
fn key_state_equality_tells_states_apart() {
    let all = [
        KeyState::KeyChangeDown,
        KeyState::KeyDown,
        KeyState::KeyChangeUp,
        KeyState::KeyUp,
    ];
    for (i, a) in all.iter().enumerate() {
        for (j, b) in all.iter().enumerate() {
            assert_eq!(a == b, i == j);
        }
    }
}
