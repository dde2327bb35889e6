//! The game state, its model, and the per-frame rules.
use vstd::prelude::*;
use crate::shapes::{
    Point, offset, pt, lemma_shape_facts, block_offset, BLOCK_TYPE_MAX, BLOCK_TYPE_I, BLOCK_NUM,
    ROTATION_MAX,
};
use crate::board::{
    board_shaped, cells_valid, touches, cell_blocked, cell_x, cell_y, fits, place, place_upto,
    clear_rows, clear_rows_upto, row_full, erase_row, empty_row, mark_game_over,
    drop_row, lemma_free_piece_in_field, lemma_drop_row, lemma_place_upto_keeps_field,
    lemma_clear_rows_upto_keeps_field, lemma_mark_game_over_keeps_field,
    TETRIS_WIDTH, TETRIS_HEIGHT, BLOCK_STATE_NONE, BLOCK_STATE_GAMEOVER,
};
use crate::keys::{KeyState, Key, settled, pressed};
use crate::random::gen_range;

verus! {

/// Frames between two steps of gravity.
pub const TIME_SPAN: u32 = 30;

/// The game as a mathematical value: the field as rows of cell states, and
/// the falling piece, the frame counter, the game-over flag and the keys.
pub ghost struct GameModel {
    pub board: Seq<Seq<u8>>,
    pub control_point: Point,
    pub block_type: u8,
    pub rotation: usize,
    pub time: u32,
    pub is_gameover: bool,
    pub up_state: KeyState,
    pub right_state: KeyState,
    pub down_state: KeyState,
    pub left_state: KeyState,
    pub space_state: KeyState,
}

/// The field of a state, row by row.
pub open spec fn board_of(blocks: [[u8; TETRIS_WIDTH]; TETRIS_HEIGHT]) -> Seq<Seq<u8>> {
    Seq::new(TETRIS_HEIGHT as nat, |y: int| blocks@[y]@)
}

/// The running game.
pub struct MainState {
    /// The field; `blocks[y][x]` is the state of column `x` of row `y` (row 0 is the top).
    pub blocks: [[u8; TETRIS_WIDTH]; TETRIS_HEIGHT],
    /// Where the falling piece stands.
    pub control_point: Point,
    /// Which piece is falling.
    pub block_type: u8,
    /// Its rotation.
    pub rotation: usize,
    /// Frames since gravity last acted.
    pub time: u32,
    pub is_gameover: bool,
    pub up_state: KeyState,
    pub right_state: KeyState,
    pub down_state: KeyState,
    pub left_state: KeyState,
    pub space_state: KeyState,
}

impl View for MainState {
    type V = GameModel;

    open spec fn view(&self) -> GameModel {
        GameModel {
            board: board_of(self.blocks),
            control_point: self.control_point,
            block_type: self.block_type,
            rotation: self.rotation,
            time: self.time,
            is_gameover: self.is_gameover,
            up_state: self.up_state,
            right_state: self.right_state,
            down_state: self.down_state,
            left_state: self.left_state,
            space_state: self.space_state,
        }
    }
}

impl GameModel {
    /// What holds of every state the game reaches: a well-formed field of valid
    /// cells, a valid piece, rotation and frame counter, the control point inside
    /// the field, and, while the game runs, a falling piece that touches nothing.
    pub open spec fn wf(self) -> bool {
        &&& board_shaped(self.board)
        &&& cells_valid(self.board)
        &&& self.block_type < BLOCK_TYPE_MAX
        &&& self.rotation < ROTATION_MAX
        &&& self.time < TIME_SPAN
        &&& 0 <= self.control_point.x < TETRIS_WIDTH
        &&& 0 <= self.control_point.y < TETRIS_HEIGHT
        &&& !self.is_gameover ==> !self.piece_touches()
    }

    /// The falling piece touches a wall, the floor or an occupied cell.
    pub open spec fn piece_touches(self) -> bool {
        touches(
            self.board,
            self.block_type,
            self.rotation,
            self.control_point.x as int,
            self.control_point.y as int,
        )
    }
}

/// Every cell position of the piece at `(px, py)` is an `i8`.
pub open spec fn piece_in_i8(block_type: u8, rotation: usize, px: int, py: int) -> bool {
    forall|i: int|
        0 <= i < 4 ==> {
            &&& i8::MIN <= #[trigger] cell_x(block_type, rotation, px, i) <= i8::MAX
            &&& i8::MIN <= cell_y(block_type, rotation, py, i) <= i8::MAX
        }
}

/// Where a new piece of kind `block_type` appears.
pub open spec fn spawn_point(block_type: u8) -> Point {
    if block_type == BLOCK_TYPE_I {
        pt(4, 2)
    } else {
        pt(4, 1)
    }
}

/// The empty field.
pub open spec fn empty_board() -> Seq<Seq<u8>> {
    Seq::new(TETRIS_HEIGHT as nat, |y: int| empty_row())
}

/// The state a game starts in, with `block_type` as the first piece.
pub open spec fn start_state(block_type: u8) -> GameModel {
    GameModel {
        board: empty_board(),
        control_point: spawn_point(block_type),
        block_type,
        rotation: 0,
        time: 0,
        is_gameover: false,
        up_state: KeyState::KeyUp,
        right_state: KeyState::KeyUp,
        down_state: KeyState::KeyUp,
        left_state: KeyState::KeyUp,
        space_state: KeyState::KeyUp,
    }
}

/// Gravity acts this frame: its period is over, or the drop key has just gone down.
pub open spec fn fall_due(s: GameModel) -> bool {
    s.time + 1 >= TIME_SPAN || s.space_state == KeyState::KeyChangeDown
}

/// The drop key has just gone down.
pub open spec fn hard_drop(s: GameModel) -> bool {
    s.space_state == KeyState::KeyChangeDown
}

/// The row that gravity tries to move the piece to: one row down, or, on a
/// drop, the row at which the piece first touches.
pub open spec fn fall_target(s: GameModel) -> int {
    if hard_drop(s) {
        drop_row(
            s.board,
            s.block_type,
            s.rotation,
            s.control_point.x as int,
            s.control_point.y + 1,
        )
    } else {
        s.control_point.y + 1
    }
}

/// Where the piece locks if it cannot go on: its place, or, on a drop, just above the target row.
pub open spec fn rest_point(s: GameModel) -> Point {
    if hard_drop(s) {
        Point { x: s.control_point.x, y: (fall_target(s) - 1) as i8 }
    } else {
        s.control_point
    }
}

/// Gravity acts and the piece cannot go on: it locks.
pub open spec fn lands(s: GameModel) -> bool {
    fall_due(s) && touches(
        s.board,
        s.block_type,
        s.rotation,
        s.control_point.x as int,
        fall_target(s),
    )
}

/// The frame counter and the piece after a frame in which the piece does not lock.
pub open spec fn moved(s: GameModel) -> GameModel {
    if !fall_due(s) {
        GameModel { time: (s.time + 1) as u32, ..s }
    } else {
        GameModel {
            control_point: Point { x: s.control_point.x, y: fall_target(s) as i8 },
            time: 0,
            ..s
        }
    }
}

/// The state after the piece locks: the piece is written into the field at its
/// resting place and full rows are cleared.
pub open spec fn landed(s: GameModel) -> GameModel {
    let p = rest_point(s);
    GameModel {
        board: clear_rows(place(s.board, s.block_type, s.rotation, p.x as int, p.y as int)),
        control_point: p,
        time: 0,
        ..s
    }
}

/// A new piece of kind `next` appears. If it touches at once, it is written
/// into the field where its control point's cell is still empty, every occupied
/// cell turns into the game-over state, and the game is over.
pub open spec fn spawned(s: GameModel, next: u8) -> GameModel {
    let sp = spawn_point(next);
    let fresh = GameModel { block_type: next, control_point: sp, rotation: 0, ..s };
    if fresh.piece_touches() {
        let b = if s.board[sp.y as int][sp.x as int] == BLOCK_STATE_NONE {
            place(s.board, next, 0, sp.x as int, sp.y as int)
        } else {
            s.board
        };
        GameModel { board: mark_game_over(b), is_gameover: true, ..fresh }
    } else {
        fresh
    }
}

/// Gravity, locking, line clearing and the next piece (`next`, if one is needed).
pub open spec fn fall_step(s: GameModel, next: u8) -> GameModel {
    if lands(s) {
        spawned(landed(s), next)
    } else {
        moved(s)
    }
}

/// Sideways movement: right and left keys that have just gone down move the
/// piece by one column each, unless it would then touch.
pub open spec fn steered(s: GameModel) -> GameModel {
    let dx: int = (if s.right_state == KeyState::KeyChangeDown {
        1int
    } else {
        0int
    }) - (if s.left_state == KeyState::KeyChangeDown {
        1int
    } else {
        0int
    });
    let nx = s.control_point.x + dx;
    if !touches(s.board, s.block_type, s.rotation, nx, s.control_point.y as int) {
        GameModel { control_point: Point { x: nx as i8, y: s.control_point.y }, ..s }
    } else {
        s
    }
}

/// Rotation: the up key turns one way and the down key the other, unless the
/// piece would then touch.
pub open spec fn turned(s: GameModel) -> GameModel {
    let d: int = (if s.down_state == KeyState::KeyChangeDown {
        1int
    } else {
        0int
    }) - (if s.up_state == KeyState::KeyChangeDown {
        1int
    } else {
        0int
    });
    let nr = (s.rotation + ROTATION_MAX + d) % (ROTATION_MAX as int);
    if !touches(
        s.board,
        s.block_type,
        nr as usize,
        s.control_point.x as int,
        s.control_point.y as int,
    ) {
        GameModel { rotation: nr as usize, ..s }
    } else {
        s
    }
}

/// Every key change has been acted on.
pub open spec fn keys_settled(s: GameModel) -> GameModel {
    GameModel {
        up_state: settled(s.up_state),
        right_state: settled(s.right_state),
        down_state: settled(s.down_state),
        left_state: settled(s.left_state),
        space_state: settled(s.space_state),
        ..s
    }
}

/// One frame of the game, with `next` as the piece that appears if one locks.
/// Once the game is over, a frame changes nothing.
pub open spec fn update_step(s: GameModel, next: u8) -> GameModel {
    if s.is_gameover {
        s
    } else {
        keys_settled(turned(steered(fall_step(s, next))))
    }
}

/// A key goes down: its state becomes "just down" unless the key is held already.
pub open spec fn key_down_step(s: GameModel, key: Key) -> GameModel {
    match key {
        Key::A => GameModel { left_state: pressed(s.left_state), ..s },
        Key::D => GameModel { right_state: pressed(s.right_state), ..s },
        Key::S => GameModel { down_state: pressed(s.down_state), ..s },
        Key::W => GameModel { up_state: pressed(s.up_state), ..s },
        Key::Space => GameModel { space_state: pressed(s.space_state), ..s },
        Key::Other => s,
    }
}

/// A key goes up: its state becomes "just up".
pub open spec fn key_up_step(s: GameModel, key: Key) -> GameModel {
    match key {
        Key::A => GameModel { left_state: KeyState::KeyChangeUp, ..s },
        Key::D => GameModel { right_state: KeyState::KeyChangeUp, ..s },
        Key::S => GameModel { down_state: KeyState::KeyChangeUp, ..s },
        Key::W => GameModel { up_state: KeyState::KeyChangeUp, ..s },
        Key::Space => GameModel { space_state: KeyState::KeyChangeUp, ..s },
        Key::Other => s,
    }
}

/// The field of any state has its rows and columns.
pub proof fn lemma_board_of_shaped(blocks: [[u8; TETRIS_WIDTH]; TETRIS_HEIGHT])
    ensures
        board_shaped(board_of(blocks)),
{
    assert forall|y: int| 0 <= y < TETRIS_HEIGHT implies #[trigger] board_of(blocks)[y].len()
        == TETRIS_WIDTH by {
        assert(board_of(blocks)[y] == blocks@[y]@);
    }
}

impl MainState {
    /// Where a new piece of kind `block_type` appears: the middle column, row 1
    /// (row 2 for the straight piece, which reaches two rows up).
    pub fn new_control_point(block_type: u8) -> (p: Point)
        ensures
            p == spawn_point(block_type),
    {
        let mut control_point = Point { x: (TETRIS_WIDTH / 2) as i8, y: 1 };
        if block_type == BLOCK_TYPE_I {
            control_point.y = 2;
        }
        control_point
    }

    /// Whether the current piece, in rotation `rotation` at `control_point`,
    /// would touch a wall, the floor or an occupied cell.
    pub fn check_touch_block(&self, control_point: Point, rotation: usize) -> (res: bool)
        requires
            self.block_type < BLOCK_TYPE_MAX,
            rotation < ROTATION_MAX,
            piece_in_i8(self.block_type, rotation, control_point.x as int, control_point.y as int),
        ensures
            res == touches(
                self@.board,
                self.block_type,
                rotation,
                control_point.x as int,
                control_point.y as int,
            ),
    {
        proof {
            lemma_shape_facts(self.block_type, rotation);
            lemma_board_of_shaped(self.blocks);
        }
        for i in 0..BLOCK_NUM
            invariant
                self.block_type < BLOCK_TYPE_MAX,
                rotation < ROTATION_MAX,
                piece_in_i8(self.block_type, rotation, control_point.x as int, control_point.y as int),
                forall|j: int|
                    0 <= j < 4 ==> -2 <= #[trigger] offset(self.block_type, rotation, j).x <= 2
                        && -2 <= offset(self.block_type, rotation, j).y <= 2,
                forall|j: int|
                    0 <= j < i ==> !#[trigger] cell_blocked(
                        self@.board,
                        self.block_type,
                        rotation,
                        control_point.x as int,
                        control_point.y as int,
                        j,
                    ),
        {
            let block = block_offset(self.block_type, rotation, i);
            assert(i8::MIN <= cell_x(self.block_type, rotation, control_point.x as int, i as int) <= i8::MAX);
            assert(i8::MIN <= cell_y(self.block_type, rotation, control_point.y as int, i as int) <= i8::MAX);
            let pos = Point { x: control_point.x + block.x, y: control_point.y + block.y };
            assert(pos.x == cell_x(self.block_type, rotation, control_point.x as int, i as int));
            assert(pos.y == cell_y(self.block_type, rotation, control_point.y as int, i as int));
            if pos.x < 0 || pos.x >= TETRIS_WIDTH as i8 {
                assert(cell_blocked(self@.board, self.block_type, rotation, control_point.x as int, control_point.y as int, i as int));
                return true;
            }
            if pos.y >= TETRIS_HEIGHT as i8 {
                assert(cell_blocked(self@.board, self.block_type, rotation, control_point.x as int, control_point.y as int, i as int));
                return true;
            }
            // cells above the field never touch
            if pos.y >= 0 && self.blocks[pos.y as usize][pos.x as usize] != BLOCK_STATE_NONE {
                assert(cell_blocked(self@.board, self.block_type, rotation, control_point.x as int, control_point.y as int, i as int));
                return true;
            }
        }
        false
    }

    /// Writes the current piece into the field, each of its cells that lies at
    /// or below the top row taking the piece's state `block_type + 1`.
    pub fn put_block(&mut self)
        requires
            old(self).block_type < BLOCK_TYPE_MAX,
            old(self).rotation < ROTATION_MAX,
            piece_in_i8(
                old(self).block_type,
                old(self).rotation,
                old(self).control_point.x as int,
                old(self).control_point.y as int,
            ),
            fits(
                old(self).block_type,
                old(self).rotation,
                old(self).control_point.x as int,
                old(self).control_point.y as int,
            ),
        ensures
            final(self)@ == (GameModel {
                board: place(
                    old(self)@.board,
                    old(self).block_type,
                    old(self).rotation,
                    old(self).control_point.x as int,
                    old(self).control_point.y as int,
                ),
                ..old(self)@
            }),
    {
        let ghost b0 = old(self)@.board;
        let ghost bt = self.block_type;
        let ghost rot = self.rotation;
        let ghost px = self.control_point.x as int;
        let ghost py = self.control_point.y as int;
        proof {
            lemma_shape_facts(self.block_type, self.rotation);
        }
        for i in 0..BLOCK_NUM
            invariant
                bt == self.block_type,
                rot == self.rotation,
                bt < BLOCK_TYPE_MAX,
                rot < ROTATION_MAX,
                px == self.control_point.x,
                py == self.control_point.y,
                piece_in_i8(bt, rot, px, py),
                fits(bt, rot, px, py),
                forall|j: int|
                    0 <= j < 4 ==> -2 <= #[trigger] offset(bt, rot, j).x <= 2 && -2 <= offset(
                        bt,
                        rot,
                        j,
                    ).y <= 2,
                self@ == (GameModel {
                    board: place_upto(b0, bt, rot, px, py, (bt + 1) as u8, i as int),
                    ..old(self)@
                }),
        {
            let block = block_offset(self.block_type, self.rotation, i);
            assert(i8::MIN <= cell_x(bt, rot, px, i as int) <= i8::MAX);
            assert(i8::MIN <= cell_y(bt, rot, py, i as int) <= i8::MAX);
            let pos = Point {
                x: self.control_point.x + block.x,
                y: self.control_point.y + block.y,
            };
            assert(pos.x == cell_x(bt, rot, px, i as int));
            assert(pos.y == cell_y(bt, rot, py, i as int));
            if pos.y >= 0 {
                let ghost before = self@.board;
                self.blocks[pos.y as usize][pos.x as usize] = self.block_type + 1;
                assert(board_of(self.blocks) =~~= before.update(
                    pos.y as int,
                    before[pos.y as int].update(pos.x as int, (bt + 1) as u8),
                ));
            }
        }
    }

    /// Line clearing: goes through the rows from the top down and removes each
    /// full one, moving the rows above it down by one.
    pub fn clear_lines(&mut self)
        ensures
            final(self)@ == (GameModel { board: clear_rows(old(self)@.board), ..old(self)@ }),
    {
        let ghost b0 = old(self)@.board;
        for y in 0..TETRIS_HEIGHT
            invariant
                self@ == (GameModel { board: clear_rows_upto(b0, y as int), ..old(self)@ }),
        {
            let ghost cur = self@.board;
            proof {
                lemma_board_of_shaped(self.blocks);
            }
            let mut erase = true;
            for x in 0..TETRIS_WIDTH
                invariant
                    self@.board == cur,
                    y < TETRIS_HEIGHT,
                    board_shaped(cur),
                    erase == (forall|x2: int|
                        0 <= x2 < x ==> #[trigger] cur[y as int][x2] != BLOCK_STATE_NONE),
            {
                assert(self.blocks@[y as int]@[x as int] == cur[y as int][x as int]);
                if self.blocks[y][x] == BLOCK_STATE_NONE {
                    erase = false;
                }
            }
            assert(erase == row_full(cur[y as int]));
            if erase {
                self.blocks[y] = [BLOCK_STATE_NONE; TETRIS_WIDTH];
                assert(board_of(self.blocks) =~~= shifted(cur, y as int, 0));
                for i in 0..y
                    invariant
                        y < TETRIS_HEIGHT,
                        board_shaped(cur),
                        self@ == (GameModel { board: shifted(cur, y as int, i as int), ..old(self)@ }),
                {
                    let ghost before = self.blocks;
                    assert(board_of(before)[y - i - 1] == before@[y - i - 1]@);
                    self.blocks[y - i] = self.blocks[y - i - 1];
                    assert(self.blocks@ == before@.update(y - i, before@[y - i - 1]));
                    assert forall|r: int| 0 <= r < TETRIS_HEIGHT implies #[trigger] board_of(
                        self.blocks,
                    )[r] == shifted(cur, y as int, i + 1)[r] by {
                        if r != y - i {
                            assert(board_of(before)[r] == before@[r]@);
                        }
                    }
                    assert(board_of(self.blocks) =~= shifted(cur, y as int, i + 1));
                }
                assert(shifted(cur, y as int, y as int) =~~= erase_row(cur, y as int));
            }
        }
    }

    /// Turns every occupied cell of the field into the game-over state.
    pub fn mark_blocks_game_over(&mut self)
        ensures
            final(self)@ == (GameModel { board: mark_game_over(old(self)@.board), ..old(self)@ }),
    {
        let ghost b0 = old(self)@.board;
        proof {
            lemma_board_of_shaped(self.blocks);
            assert(board_of(self.blocks) =~~= marked(b0, 0, 0));
        }
        for y in 0..TETRIS_HEIGHT
            invariant
                board_shaped(b0),
                self@ == (GameModel { board: marked(b0, y as int, 0), ..old(self)@ }),
        {
            for x in 0..TETRIS_WIDTH
                invariant
                    board_shaped(b0),
                    y < TETRIS_HEIGHT,
                    self@ == (GameModel { board: marked(b0, y as int, x as int), ..old(self)@ }),
            {
                let ghost before = self.blocks;
                assert(board_of(before)[y as int][x as int] == b0[y as int][x as int]);
                if self.blocks[y][x] != BLOCK_STATE_NONE {
                    self.blocks[y][x] = BLOCK_STATE_GAMEOVER;
                }
                assert forall|r: int| 0 <= r < TETRIS_HEIGHT implies #[trigger] board_of(
                    self.blocks,
                )[r] =~= marked(b0, y as int, x + 1)[r] by {
                    assert(board_of(before)[r] == before@[r]@);
                    assert(board_of(before)[r] == marked(b0, y as int, x as int)[r]);
                }
                assert(board_of(self.blocks) =~= marked(b0, y as int, x + 1));
            }
            assert(marked(b0, y as int, TETRIS_WIDTH as int) =~~= marked(b0, y + 1, 0));
        }
        assert(marked(b0, TETRIS_HEIGHT as int, 0) =~~= mark_game_over(b0));
    }

    /// A new piece of kind `next` appears at the top. If it touches at once the
    /// game is over: the piece is written into the field if its control point's
    /// cell is still empty, and every occupied cell takes the game-over state.
    pub fn spawn_block(&mut self, next: u8)
        requires
            next < BLOCK_TYPE_MAX,
        ensures
            final(self)@ == spawned(old(self)@, next),
    {
        self.block_type = next;
        self.control_point = MainState::new_control_point(self.block_type);
        self.rotation = 0;
        proof {
            lemma_shape_facts(next, 0);
            lemma_board_of_shaped(self.blocks);
        }
        if self.check_touch_block(self.control_point, self.rotation) {
            if self.blocks[self.control_point.y as usize][self.control_point.x as usize]
                == BLOCK_STATE_NONE {
                assert(fits(next, 0, self.control_point.x as int, self.control_point.y as int));
                self.put_block();
            }
            self.mark_blocks_game_over();
            self.is_gameover = true;
        }
    }

    /// Gravity: counts the frame and, when gravity acts, moves the piece one row
    /// down (on a drop, as far as it goes). A piece that cannot go on is written
    /// into the field and full rows are cleared; the result says whether that happened.
    fn fall(&mut self) -> (locked: bool)
        requires
            old(self)@.wf(),
            !old(self).is_gameover,
        ensures
            locked == lands(old(self)@),
            locked ==> final(self)@ == landed(old(self)@),
            !locked ==> final(self)@ == moved(old(self)@),
    {
        let ghost s0 = self@;
        let ghost px = self.control_point.x as int;
        proof {
            lemma_free_piece_in_field(s0.board, s0.block_type, s0.rotation, px, s0.control_point.y as int);
        }
        self.time += 1;
        if self.time >= TIME_SPAN || self.space_state == KeyState::KeyChangeDown {
            let mut control_point = self.control_point;
            control_point.y += 1;
            self.time = 0;
            if self.space_state == KeyState::KeyChangeDown {
                proof {
                    lemma_drop_row(s0.board, s0.block_type, s0.rotation, px, s0.control_point.y + 1);
                }
                while !self.check_touch_block(control_point, self.rotation)
                    invariant
                        self@ == (GameModel { time: 0, ..s0 }),
                        s0.wf(),
                        control_point.x == px,
                        px == s0.control_point.x,
                        s0.control_point.y + 1 <= control_point.y <= TETRIS_HEIGHT,
                        drop_row(s0.board, s0.block_type, s0.rotation, px, control_point.y as int)
                            == fall_target(s0),
                    decreases TETRIS_HEIGHT - control_point.y,
                {
                    proof {
                        lemma_free_piece_in_field(
                            s0.board,
                            s0.block_type,
                            s0.rotation,
                            px,
                            control_point.y as int,
                        );
                    }
                    control_point.y += 1;
                }
                self.control_point = control_point;
                self.control_point.y -= 1;
            }
            if self.check_touch_block(control_point, self.rotation) {
                proof {
                    let rest = rest_point(s0);
                    if rest.y != s0.control_point.y {
                        assert(!touches(s0.board, s0.block_type, s0.rotation, px, rest.y as int));
                    }
                    lemma_free_piece_in_field(s0.board, s0.block_type, s0.rotation, px, rest.y as int);
                }
                self.put_block();
                self.clear_lines();
                return true;
            } else {
                self.control_point = control_point;
            }
        }
        false
    }

    /// Moves the piece one column for each sideways key that has just gone down,
    /// unless it would then touch.
    fn steer(&mut self)
        requires
            old(self)@.wf(),
        ensures
            final(self)@ == steered(old(self)@),
    {
        let mut control_point = self.control_point;
        if self.right_state == KeyState::KeyChangeDown {
            control_point.x += 1;
        }
        if self.left_state == KeyState::KeyChangeDown {
            control_point.x -= 1;
        }
        if !self.check_touch_block(control_point, self.rotation) {
            self.control_point = control_point;
        }
    }

    /// Turns the piece for each rotation key that has just gone down, unless it
    /// would then touch.
    fn turn(&mut self)
        requires
            old(self)@.wf(),
        ensures
            final(self)@ == turned(old(self)@),
    {
        let mut rotation: i8 = self.rotation as i8;
        if self.up_state == KeyState::KeyChangeDown {
            rotation -= 1;
        }
        if self.down_state == KeyState::KeyChangeDown {
            rotation += 1;
        }
        rotation = (rotation + ROTATION_MAX as i8) % ROTATION_MAX as i8;
        if !self.check_touch_block(self.control_point, rotation as usize) {
            self.rotation = rotation as usize;
        }
    }

    /// Acknowledges every key change: a key just pressed is now held, a key just released is now up.
    fn settle_keys(&mut self)
        ensures
            final(self)@ == keys_settled(old(self)@),
    {
        if self.up_state == KeyState::KeyChangeDown {
            self.up_state = KeyState::KeyDown;
        }
        if self.right_state == KeyState::KeyChangeDown {
            self.right_state = KeyState::KeyDown;
        }
        if self.down_state == KeyState::KeyChangeDown {
            self.down_state = KeyState::KeyDown;
        }
        if self.left_state == KeyState::KeyChangeDown {
            self.left_state = KeyState::KeyDown;
        }
        if self.space_state == KeyState::KeyChangeDown {
            self.space_state = KeyState::KeyDown;
        }
        if self.up_state == KeyState::KeyChangeUp {
            self.up_state = KeyState::KeyUp;
        }
        if self.right_state == KeyState::KeyChangeUp {
            self.right_state = KeyState::KeyUp;
        }
        if self.down_state == KeyState::KeyChangeUp {
            self.down_state = KeyState::KeyUp;
        }
        if self.left_state == KeyState::KeyChangeUp {
            self.left_state = KeyState::KeyUp;
        }
        if self.space_state == KeyState::KeyChangeUp {
            self.space_state = KeyState::KeyUp;
        }
    }

    /// A game whose first piece is of kind `block_type`: an empty field, the
    /// piece at its starting point, and every key up.
    pub fn with_block_type(block_type: u8) -> (s: MainState)
        requires
            block_type < BLOCK_TYPE_MAX,
        ensures
            s@ == start_state(block_type),
            s@.wf(),
    {
        let blocks = [[BLOCK_STATE_NONE; TETRIS_WIDTH]; TETRIS_HEIGHT];
        let control_point = MainState::new_control_point(block_type);
        let s = MainState {
            blocks,
            control_point,
            block_type,
            rotation: 0,
            time: 0,
            is_gameover: false,
            up_state: KeyState::KeyUp,
            right_state: KeyState::KeyUp,
            down_state: KeyState::KeyUp,
            left_state: KeyState::KeyUp,
            space_state: KeyState::KeyUp,
        };
        proof {
            assert forall|y: int| 0 <= y < TETRIS_HEIGHT implies #[trigger] board_of(blocks)[y]
                =~= empty_row() by {
                assert(blocks@[y]@.len() == TETRIS_WIDTH);
            }
            assert(board_of(blocks) =~= empty_board());
            lemma_start_state_wf(block_type);
        }
        s
    }

    /// A new game, whose first piece is drawn at random.
    pub fn new() -> (s: MainState)
        ensures
            s@.block_type < BLOCK_TYPE_MAX,
            s@ == start_state(s@.block_type),
            s@.wf(),
    {
        let block_type = gen_range(0, BLOCK_TYPE_MAX);
        MainState::with_block_type(block_type)
    }

    /// One frame of the game, with `next` as the kind of the piece that appears
    /// if the falling one locks. Once the game is over, nothing changes.
    pub fn update_with(&mut self, next: u8)
        requires
            old(self)@.wf(),
            next < BLOCK_TYPE_MAX,
        ensures
            final(self)@ == update_step(old(self)@, next),
            final(self)@.wf(),
    {
        proof {
            lemma_update_step_keeps_wf(self@, next);
        }
        if self.is_gameover {
            return;
        }
        let ghost s0 = self@;
        if self.fall() {
            self.spawn_block(next);
        }
        proof {
            lemma_fall_step_keeps_wf(s0, next);
            lemma_steered_keeps_wf(self@);
        }
        self.steer();
        proof {
            lemma_turned_keeps_wf(self@);
        }
        self.turn();
        self.settle_keys();
    }

    /// One frame of the game. When the falling piece locks, the kind of the next
    /// piece is drawn at random; the result is the frame with some such kind.
    pub fn update(&mut self)
        requires
            old(self)@.wf(),
        ensures
            exists|next: u8|
                next < BLOCK_TYPE_MAX && final(self)@ == update_step(old(self)@, next),
            final(self)@.wf(),
    {
        proof {
            lemma_update_step_keeps_wf(self@, 0);
        }
        if self.is_gameover {
            assert(self@ == update_step(old(self)@, 0));
            return;
        }
        let ghost s0 = self@;
        let ghost mut chosen: u8 = 0;
        if self.fall() {
            let next = gen_range(0, BLOCK_TYPE_MAX);
            proof {
                chosen = next;
            }
            self.spawn_block(next);
        }
        proof {
            lemma_fall_step_keeps_wf(s0, chosen);
            lemma_steered_keeps_wf(self@);
            lemma_update_step_keeps_wf(s0, chosen);
        }
        self.steer();
        proof {
            lemma_turned_keeps_wf(self@);
        }
        self.turn();
        self.settle_keys();
        assert(self@ == update_step(s0, chosen));
    }

    /// A key goes down: its state becomes "just down", unless the key is held already.
    pub fn key_down_event(&mut self, key: Key)
        ensures
            final(self)@ == key_down_step(old(self)@, key),
    {
        match key {
            Key::A => {
                if self.left_state != KeyState::KeyDown {
                    self.left_state = KeyState::KeyChangeDown;
                }
            },
            Key::D => {
                if self.right_state != KeyState::KeyDown {
                    self.right_state = KeyState::KeyChangeDown;
                }
            },
            Key::S => {
                if self.down_state != KeyState::KeyDown {
                    self.down_state = KeyState::KeyChangeDown;
                }
            },
            Key::W => {
                if self.up_state != KeyState::KeyDown {
                    self.up_state = KeyState::KeyChangeDown;
                }
            },
            Key::Space => {
                if self.space_state != KeyState::KeyDown {
                    self.space_state = KeyState::KeyChangeDown;
                }
            },
            Key::Other => {},
        }
    }

    /// A key goes up: its state becomes "just up".
    pub fn key_up_event(&mut self, key: Key)
        ensures
            final(self)@ == key_up_step(old(self)@, key),
    {
        match key {
            Key::A => {
                self.left_state = KeyState::KeyChangeUp;
            },
            Key::D => {
                self.right_state = KeyState::KeyChangeUp;
            },
            Key::S => {
                self.down_state = KeyState::KeyChangeUp;
            },
            Key::W => {
                self.up_state = KeyState::KeyChangeUp;
            },
            Key::Space => {
                self.space_state = KeyState::KeyChangeUp;
            },
            Key::Other => {},
        }
    }

    /// The positions of the falling piece's cells (cells above the field included),
    /// in the order of the piece table: what the game draws for the falling piece.
    pub fn piece_cells(&self) -> (cells: Vec<Point>)
        requires
            self.block_type < BLOCK_TYPE_MAX,
            self.rotation < ROTATION_MAX,
            piece_in_i8(
                self.block_type,
                self.rotation,
                self.control_point.x as int,
                self.control_point.y as int,
            ),
        ensures
            cells.len() == BLOCK_NUM,
            forall|i: int|
                0 <= i < BLOCK_NUM ==> #[trigger] cells[i] == (Point {
                    x: cell_x(self.block_type, self.rotation, self.control_point.x as int, i) as i8,
                    y: cell_y(self.block_type, self.rotation, self.control_point.y as int, i) as i8,
                }),
    {
        let mut cells: Vec<Point> = Vec::new();
        for i in 0..BLOCK_NUM
            invariant
                self.block_type < BLOCK_TYPE_MAX,
                self.rotation < ROTATION_MAX,
                piece_in_i8(
                    self.block_type,
                    self.rotation,
                    self.control_point.x as int,
                    self.control_point.y as int,
                ),
                cells.len() == i,
                forall|j: int|
                    0 <= j < i ==> #[trigger] cells[j] == (Point {
                        x: cell_x(self.block_type, self.rotation, self.control_point.x as int, j) as i8,
                        y: cell_y(self.block_type, self.rotation, self.control_point.y as int, j) as i8,
                    }),
        {
            let block = block_offset(self.block_type, self.rotation, i);
            assert(i8::MIN <= cell_x(self.block_type, self.rotation, self.control_point.x as int, i as int) <= i8::MAX);
            let pos = Point {
                x: self.control_point.x + block.x,
                y: self.control_point.y + block.y,
            };
            cells.push(pos);
        }
        cells
    }
}

/// A new game is in a good state.
pub proof fn lemma_start_state_wf(block_type: u8)
    requires
        block_type < BLOCK_TYPE_MAX,
    ensures
        start_state(block_type).wf(),
{
    let s = start_state(block_type);
    lemma_shape_facts(block_type, 0);
    assert forall|y: int| 0 <= y < TETRIS_HEIGHT implies #[trigger] s.board[y].len()
        == TETRIS_WIDTH by {}
    if s.piece_touches() {
        let i = choose|i: int|
            0 <= i < 4 && #[trigger] cell_blocked(s.board, block_type, 0, 4, s.control_point.y as int, i);
        assert(offset(block_type, 0, i).x >= -2);
    }
}

/// Gravity, locking and the next piece keep a running game in a good state.
pub proof fn lemma_fall_step_keeps_wf(s: GameModel, next: u8)
    requires
        s.wf(),
        !s.is_gameover,
        next < BLOCK_TYPE_MAX,
    ensures
        fall_step(s, next).wf(),
{
    let b = s.board;
    let bt = s.block_type;
    let rot = s.rotation;
    let px = s.control_point.x as int;
    let py = s.control_point.y as int;
    lemma_free_piece_in_field(b, bt, rot, px, py);
    if hard_drop(s) {
        lemma_drop_row(b, bt, rot, px, py + 1);
    }
    if lands(s) {
        let rest = rest_point(s);
        if rest.y != py {
            assert(!touches(b, bt, rot, px, rest.y as int));
        }
        lemma_free_piece_in_field(b, bt, rot, px, rest.y as int);
        lemma_place_upto_keeps_field(b, bt, rot, px, rest.y as int, (bt + 1) as u8, 4);
        let placed = place(b, bt, rot, px, rest.y as int);
        lemma_clear_rows_upto_keeps_field(placed, TETRIS_HEIGHT as int);
        let l = landed(s);
        let sp = spawn_point(next);
        lemma_shape_facts(next, 0);
        assert(fits(next, 0, sp.x as int, sp.y as int));
        lemma_place_upto_keeps_field(l.board, next, 0, sp.x as int, sp.y as int, (next + 1) as u8, 4);
        let b2 = if l.board[sp.y as int][sp.x as int] == BLOCK_STATE_NONE {
            place(l.board, next, 0, sp.x as int, sp.y as int)
        } else {
            l.board
        };
        lemma_mark_game_over_keeps_field(b2);
    } else if fall_due(s) {
        lemma_free_piece_in_field(b, bt, rot, px, py + 1);
    }
}

/// Sideways movement keeps a good state good.
pub proof fn lemma_steered_keeps_wf(s: GameModel)
    requires
        s.wf(),
    ensures
        steered(s).wf(),
{
    let dx: int = (if s.right_state == KeyState::KeyChangeDown {
        1int
    } else {
        0int
    }) - (if s.left_state == KeyState::KeyChangeDown {
        1int
    } else {
        0int
    });
    lemma_free_piece_in_field(
        s.board,
        s.block_type,
        s.rotation,
        s.control_point.x + dx,
        s.control_point.y as int,
    );
}

/// Rotation keeps a good state good.
pub proof fn lemma_turned_keeps_wf(s: GameModel)
    requires
        s.wf(),
    ensures
        turned(s).wf(),
{
}

/// A frame keeps a good state good.
pub proof fn lemma_update_step_keeps_wf(s: GameModel, next: u8)
    requires
        s.wf(),
        next < BLOCK_TYPE_MAX,
    ensures
        update_step(s, next).wf(),
{
    if !s.is_gameover {
        lemma_fall_step_keeps_wf(s, next);
        lemma_steered_keeps_wf(fall_step(s, next));
        lemma_turned_keeps_wf(steered(fall_step(s, next)));
    }
}

/// A cell in the game-over picture.
spec fn marked_cell(c: u8) -> u8 {
    if c != BLOCK_STATE_NONE {
        BLOCK_STATE_GAMEOVER
    } else {
        c
    }
}

/// The field while it is being turned into the game-over picture: the rows
/// above `y`, and the first `x` cells of row `y`, are done.
spec fn marked(b: Seq<Seq<u8>>, y: int, x: int) -> Seq<Seq<u8>> {
    Seq::new(
        TETRIS_HEIGHT as nat,
        |r: int|
            Seq::new(
                TETRIS_WIDTH as nat,
                |c: int|
                    if r < y || (r == y && c < x) {
                        marked_cell(b[r][c])
                    } else {
                        b[r][c]
                    },
            ),
    )
}

/// The field while a full row `y` is being removed: row `y` has been emptied and
/// the `i` rows just above and including it have been given their upper neighbour's contents.
spec fn shifted(b: Seq<Seq<u8>>, y: int, i: int) -> Seq<Seq<u8>> {
    Seq::new(
        TETRIS_HEIGHT as nat,
        |r: int|
            if y - i < r && r <= y {
                b[r - 1]
            } else if r == y {
                empty_row()
            } else {
                b[r]
            },
    )
}

} // verus!
