//! The playing field as a mathematical object: a sequence of rows, each a
//! sequence of cell states, with collision, placing, line clearing and the
//! game-over marking stated over it.
use vstd::prelude::*;
use crate::shapes::{offset, lemma_shape_facts, BLOCK_TYPE_MAX, ROTATION_MAX};

verus! {

/// Number of columns of the field.
pub const TETRIS_WIDTH: usize = 9;

/// Number of rows of the field.
pub const TETRIS_HEIGHT: usize = 16;

/// State of an empty cell.
pub const BLOCK_STATE_NONE: u8 = 0;

/// State of every occupied cell once the game is over.
pub const BLOCK_STATE_GAMEOVER: u8 = BLOCK_TYPE_MAX + 1;

/// Number of cell states: empty, one per piece kind, and game over.
pub const BLOCK_STATE_MAX: u8 = BLOCK_TYPE_MAX + 2;

/// The field has `TETRIS_HEIGHT` rows of `TETRIS_WIDTH` cells (row 0 is the top).
pub open spec fn board_shaped(b: Seq<Seq<u8>>) -> bool {
    &&& b.len() == TETRIS_HEIGHT
    &&& forall|y: int| 0 <= y < TETRIS_HEIGHT ==> #[trigger] b[y].len() == TETRIS_WIDTH
}

/// Every cell holds one of the `BLOCK_STATE_MAX` states.
pub open spec fn cells_valid(b: Seq<Seq<u8>>) -> bool {
    forall|y: int, x: int|
        0 <= y < TETRIS_HEIGHT && 0 <= x < TETRIS_WIDTH ==> #[trigger] b[y][x] < BLOCK_STATE_MAX
}

/// A cell that a piece may not occupy: outside the side walls, below the
/// floor, or an occupied cell of the field. Rows above the field are free.
pub open spec fn blocked(b: Seq<Seq<u8>>, x: int, y: int) -> bool {
    ||| x < 0
    ||| x >= TETRIS_WIDTH
    ||| y >= TETRIS_HEIGHT
    ||| (y >= 0 && b[y][x] != BLOCK_STATE_NONE)
}

/// Column of cell `i` of a piece whose control point is `(px, py)`.
pub open spec fn cell_x(block_type: u8, rotation: usize, px: int, i: int) -> int {
    px + offset(block_type, rotation, i).x
}

/// Row of cell `i` of a piece whose control point is `(px, py)`.
pub open spec fn cell_y(block_type: u8, rotation: usize, py: int, i: int) -> int {
    py + offset(block_type, rotation, i).y
}

/// Cell `i` of the piece lies on a blocked cell.
pub open spec fn cell_blocked(
    b: Seq<Seq<u8>>,
    block_type: u8,
    rotation: usize,
    px: int,
    py: int,
    i: int,
) -> bool {
    blocked(b, cell_x(block_type, rotation, px, i), cell_y(block_type, rotation, py, i))
}

/// The piece at `(px, py)` touches a wall, the floor or an occupied cell.
pub open spec fn touches(b: Seq<Seq<u8>>, block_type: u8, rotation: usize, px: int, py: int) -> bool {
    exists|i: int| 0 <= i < 4 && #[trigger] cell_blocked(b, block_type, rotation, px, py, i)
}

/// Every cell of the piece that lies at or below the top row lies inside the field.
pub open spec fn fits(block_type: u8, rotation: usize, px: int, py: int) -> bool {
    forall|i: int|
        0 <= i < 4 && 0 <= #[trigger] cell_y(block_type, rotation, py, i) ==> {
            &&& 0 <= cell_x(block_type, rotation, px, i) < TETRIS_WIDTH
            &&& cell_y(block_type, rotation, py, i) < TETRIS_HEIGHT
        }
}

/// Writes `v` into cell `i` of the piece, unless that cell lies above the field.
pub open spec fn place_cell(
    b: Seq<Seq<u8>>,
    block_type: u8,
    rotation: usize,
    px: int,
    py: int,
    v: u8,
    i: int,
) -> Seq<Seq<u8>> {
    let x = cell_x(block_type, rotation, px, i);
    let y = cell_y(block_type, rotation, py, i);
    if y >= 0 {
        b.update(y, b[y].update(x, v))
    } else {
        b
    }
}

/// Writes `v` into the first `n` cells of the piece, in order.
pub open spec fn place_upto(
    b: Seq<Seq<u8>>,
    block_type: u8,
    rotation: usize,
    px: int,
    py: int,
    v: u8,
    n: int,
) -> Seq<Seq<u8>>
    decreases n,
{
    if n <= 0 {
        b
    } else {
        place_cell(
            place_upto(b, block_type, rotation, px, py, v, n - 1),
            block_type,
            rotation,
            px,
            py,
            v,
            n - 1,
        )
    }
}

/// The field with the piece written into it in the piece's own state `block_type + 1`.
pub open spec fn place(b: Seq<Seq<u8>>, block_type: u8, rotation: usize, px: int, py: int) -> Seq<
    Seq<u8>,
> {
    place_upto(b, block_type, rotation, px, py, (block_type + 1) as u8, 4)
}

/// A row of empty cells.
pub open spec fn empty_row() -> Seq<u8> {
    Seq::new(TETRIS_WIDTH as nat, |x: int| BLOCK_STATE_NONE)
}

/// A row none of whose cells is empty.
pub open spec fn row_full(row: Seq<u8>) -> bool {
    forall|x: int| 0 <= x < TETRIS_WIDTH ==> #[trigger] row[x] != BLOCK_STATE_NONE
}

/// Removes full row `y`: the rows above it move down one row each, and the top
/// row keeps its contents (it is emptied only when it is row `y` itself).
pub open spec fn erase_row(b: Seq<Seq<u8>>, y: int) -> Seq<Seq<u8>> {
    Seq::new(
        TETRIS_HEIGHT as nat,
        |r: int|
            if r == 0 {
                if y == 0 {
                    empty_row()
                } else {
                    b[0]
                }
            } else if r <= y {
                b[r - 1]
            } else {
                b[r]
            },
    )
}

/// Goes through the rows `0 .. n` from the top down and erases each one
/// that is full when it is reached.
pub open spec fn clear_rows_upto(b: Seq<Seq<u8>>, n: int) -> Seq<Seq<u8>>
    decreases n,
{
    if n <= 0 {
        b
    } else {
        let prev = clear_rows_upto(b, n - 1);
        if row_full(prev[n - 1]) {
            erase_row(prev, n - 1)
        } else {
            prev
        }
    }
}

/// The field after line clearing: every row, from the top down.
pub open spec fn clear_rows(b: Seq<Seq<u8>>) -> Seq<Seq<u8>> {
    clear_rows_upto(b, TETRIS_HEIGHT as int)
}

/// The game-over picture: every occupied cell turns into the game-over state.
pub open spec fn mark_game_over(b: Seq<Seq<u8>>) -> Seq<Seq<u8>> {
    b.map_values(
        |row: Seq<u8>|
            row.map_values(
                |c: u8|
                    if c != BLOCK_STATE_NONE {
                        BLOCK_STATE_GAMEOVER
                    } else {
                        c
                    },
            ),
    )
}

/// The row at which a piece that falls from row `py` comes to rest: the first
/// row, from `py` downward, at which it touches (at the latest the row below the floor).
pub open spec fn drop_row(b: Seq<Seq<u8>>, block_type: u8, rotation: usize, px: int, py: int) -> int
    decreases TETRIS_HEIGHT - py,
{
    if py >= TETRIS_HEIGHT || touches(b, block_type, rotation, px, py) {
        py
    } else {
        drop_row(b, block_type, rotation, px, py + 1)
    }
}

/// A piece that does not touch has its control point inside the field
/// (every piece covers its control point), and one at or below the floor touches.
pub proof fn lemma_free_piece_in_field(
    b: Seq<Seq<u8>>,
    block_type: u8,
    rotation: usize,
    px: int,
    py: int,
)
    requires
        block_type < BLOCK_TYPE_MAX,
        rotation < ROTATION_MAX,
    ensures
        !touches(b, block_type, rotation, px, py) ==> 0 <= px < TETRIS_WIDTH && py
            < TETRIS_HEIGHT && fits(block_type, rotation, px, py),
        py >= TETRIS_HEIGHT ==> touches(b, block_type, rotation, px, py),
{
    lemma_shape_facts(block_type, rotation);
    let c0 = cell_blocked(b, block_type, rotation, px, py, 0);
    let c1 = cell_blocked(b, block_type, rotation, px, py, 1);
    let c2 = cell_blocked(b, block_type, rotation, px, py, 2);
    let c3 = cell_blocked(b, block_type, rotation, px, py, 3);
    if !touches(b, block_type, rotation, px, py) {
        assert(!c0 && !c1 && !c2 && !c3);
        assert forall|i: int|
            0 <= i < 4 && 0 <= #[trigger] cell_y(block_type, rotation, py, i) implies {
            &&& 0 <= cell_x(block_type, rotation, px, i) < TETRIS_WIDTH
            &&& cell_y(block_type, rotation, py, i) < TETRIS_HEIGHT
        } by {
            assert(!cell_blocked(b, block_type, rotation, px, py, i));
        }
    }
    if py >= TETRIS_HEIGHT {
        assert(c0 || c1 || c2 || c3);
    }
}

/// Where a falling piece comes to rest: at or below its start, touching there,
/// and free at every row in between.
pub proof fn lemma_drop_row(b: Seq<Seq<u8>>, block_type: u8, rotation: usize, px: int, py: int)
    requires
        block_type < BLOCK_TYPE_MAX,
        rotation < ROTATION_MAX,
        py <= TETRIS_HEIGHT,
    ensures
        py <= drop_row(b, block_type, rotation, px, py) <= TETRIS_HEIGHT,
        touches(b, block_type, rotation, px, drop_row(b, block_type, rotation, px, py)),
        forall|y: int|
            py <= y < drop_row(b, block_type, rotation, px, py) ==> !#[trigger] touches(
                b,
                block_type,
                rotation,
                px,
                y,
            ),
    decreases TETRIS_HEIGHT - py,
{
    lemma_free_piece_in_field(b, block_type, rotation, px, py);
    if py >= TETRIS_HEIGHT || touches(b, block_type, rotation, px, py) {
    } else {
        lemma_drop_row(b, block_type, rotation, px, py + 1);
    }
}

/// Writing a fitting piece keeps the field's shape, and writing a valid state keeps every cell valid.
pub proof fn lemma_place_upto_keeps_field(
    b: Seq<Seq<u8>>,
    block_type: u8,
    rotation: usize,
    px: int,
    py: int,
    v: u8,
    n: int,
)
    requires
        board_shaped(b),
        fits(block_type, rotation, px, py),
        n <= 4,
    ensures
        board_shaped(place_upto(b, block_type, rotation, px, py, v, n)),
        cells_valid(b) && v < BLOCK_STATE_MAX ==> cells_valid(
            place_upto(b, block_type, rotation, px, py, v, n),
        ),
    decreases n,
{
    if n > 0 {
        lemma_place_upto_keeps_field(b, block_type, rotation, px, py, v, n - 1);
        let prev = place_upto(b, block_type, rotation, px, py, v, n - 1);
        let y = cell_y(block_type, rotation, py, n - 1);
        if y >= 0 {
            assert(0 <= cell_x(block_type, rotation, px, n - 1) < TETRIS_WIDTH);
            assert(y < TETRIS_HEIGHT);
            let next = place_cell(prev, block_type, rotation, px, py, v, n - 1);
            assert forall|r: int| 0 <= r < TETRIS_HEIGHT implies #[trigger] next[r].len()
                == TETRIS_WIDTH by {
                if r != y {
                    assert(next[r] == prev[r]);
                }
            }
        }
    }
}

/// Erasing a row keeps the field's shape and its cells' validity.
pub proof fn lemma_erase_row_keeps_field(b: Seq<Seq<u8>>, y: int)
    requires
        board_shaped(b),
        0 <= y < TETRIS_HEIGHT,
    ensures
        board_shaped(erase_row(b, y)),
        cells_valid(b) ==> cells_valid(erase_row(b, y)),
{
    let e = erase_row(b, y);
    assert forall|r: int| 0 <= r < TETRIS_HEIGHT implies #[trigger] e[r].len() == TETRIS_WIDTH by {
        if r == 0 && y == 0 {
        } else if r == 0 {
            assert(b[0].len() == TETRIS_WIDTH);
        } else if r <= y {
            assert(b[r - 1].len() == TETRIS_WIDTH);
        } else {
            assert(b[r].len() == TETRIS_WIDTH);
        }
    }
    if cells_valid(b) {
        assert forall|r: int, x: int|
            0 <= r < TETRIS_HEIGHT && 0 <= x < TETRIS_WIDTH implies #[trigger] e[r][x]
            < BLOCK_STATE_MAX by {
            if r == 0 && y == 0 {
            } else if r == 0 {
                assert(b[0][x] < BLOCK_STATE_MAX);
            } else if r <= y {
                assert(b[r - 1][x] < BLOCK_STATE_MAX);
            } else {
                assert(b[r][x] < BLOCK_STATE_MAX);
            }
        }
    }
}

/// Line clearing keeps the field's shape and its cells' validity.
pub proof fn lemma_clear_rows_upto_keeps_field(b: Seq<Seq<u8>>, n: int)
    requires
        board_shaped(b),
        n <= TETRIS_HEIGHT,
    ensures
        board_shaped(clear_rows_upto(b, n)),
        cells_valid(b) ==> cells_valid(clear_rows_upto(b, n)),
    decreases n,
{
    if n > 0 {
        lemma_clear_rows_upto_keeps_field(b, n - 1);
        lemma_erase_row_keeps_field(clear_rows_upto(b, n - 1), n - 1);
    }
}

/// The game-over picture keeps the field's shape, and all its cells are valid.
pub proof fn lemma_mark_game_over_keeps_field(b: Seq<Seq<u8>>)
    requires
        board_shaped(b),
    ensures
        board_shaped(mark_game_over(b)),
        cells_valid(mark_game_over(b)),
{
    let m = mark_game_over(b);
    assert forall|r: int| 0 <= r < TETRIS_HEIGHT implies #[trigger] m[r].len() == TETRIS_WIDTH by {
        assert(b[r].len() == TETRIS_WIDTH);
    }
    assert forall|r: int, x: int|
        0 <= r < TETRIS_HEIGHT && 0 <= x < TETRIS_WIDTH implies #[trigger] m[r][x]
        < BLOCK_STATE_MAX by {
        assert(b[r].len() == TETRIS_WIDTH);
    }
}

} // verus!
