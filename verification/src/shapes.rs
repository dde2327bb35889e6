//! The seven falling pieces and their four rotations.
//!
//! Every piece is four cells, each given as an offset from the piece's
//! control point, inside a 5x5 box whose centre is `(0, 0)`.
use vstd::prelude::*;

verus! {

/// Number of piece kinds.
pub const BLOCK_TYPE_MAX: u8 = 7;

/// The kind number of the straight piece.
pub const BLOCK_TYPE_I: u8 = 0;

/// Number of cells of a piece.
pub const BLOCK_NUM: usize = 4;

/// Number of rotations of a piece.
pub const ROTATION_MAX: usize = 4;

/// A cell position or a cell offset, in columns (`x`) and rows (`y`, growing downward).
#[derive(Clone, Copy, Debug, PartialEq, Eq, Structural)]
pub struct Point {
    pub x: i8,
    pub y: i8,
}

/// Shorthand for a point in the table below.
pub open spec fn pt(x: int, y: int) -> Point {
    Point { x: x as i8, y: y as i8 }
}

/// The four cell offsets of piece `block_type` in rotation `rotation`.
pub open spec fn shape(block_type: u8, rotation: usize) -> (Point, Point, Point, Point) {
    match block_type {
        // I
        0 => match rotation {
            0 => (pt(0, -2), pt(0, -1), pt(0, 0), pt(0, 1)),
            1 => (pt(-2, 0), pt(-1, 0), pt(0, 0), pt(1, 0)),
            2 => (pt(0, -1), pt(0, 0), pt(0, 1), pt(0, 2)),
            _ => (pt(-1, 0), pt(0, 0), pt(1, 0), pt(2, 0)),
        },
        // L
        1 => match rotation {
            0 => (pt(0, -1), pt(0, 0), pt(0, 1), pt(1, 1)),
            1 => (pt(-1, 0), pt(0, 0), pt(1, 0), pt(1, -1)),
            2 => (pt(0, 1), pt(0, 0), pt(0, -1), pt(-1, -1)),
            _ => (pt(1, 0), pt(0, 0), pt(-1, 0), pt(-1, 1)),
        },
        // mirrored L
        2 => match rotation {
            0 => (pt(0, -1), pt(0, 0), pt(0, 1), pt(-1, 1)),
            1 => (pt(-1, 0), pt(0, 0), pt(1, 0), pt(1, 1)),
            2 => (pt(0, 1), pt(0, 0), pt(0, -1), pt(1, -1)),
            _ => (pt(1, 0), pt(0, 0), pt(-1, 0), pt(-1, -1)),
        },
        // Z
        3 => match rotation {
            0 => (pt(-1, -1), pt(0, -1), pt(0, 0), pt(1, 0)),
            1 => (pt(0, -1), pt(0, 0), pt(-1, 0), pt(-1, 1)),
            2 => (pt(-1, 0), pt(0, 0), pt(0, 1), pt(1, 1)),
            _ => (pt(1, -1), pt(1, 0), pt(0, 0), pt(0, 1)),
        },
        // mirrored Z
        4 => match rotation {
            0 => (pt(1, -1), pt(0, 0), pt(0, -1), pt(-1, 0)),
            1 => (pt(-1, -1), pt(-1, 0), pt(0, 0), pt(0, 1)),
            2 => (pt(1, 0), pt(0, 1), pt(0, 0), pt(-1, 1)),
            _ => (pt(0, -1), pt(0, 0), pt(1, 0), pt(1, 1)),
        },
        // T
        5 => match rotation {
            0 => (pt(0, -1), pt(-1, 0), pt(0, 0), pt(1, 0)),
            1 => (pt(-1, 0), pt(0, -1), pt(0, 0), pt(0, 1)),
            2 => (pt(1, 0), pt(0, 1), pt(0, 0), pt(-1, 0)),
            _ => (pt(0, 1), pt(1, 0), pt(0, 0), pt(0, -1)),
        },
        // square (the same in every rotation)
        _ => (pt(0, -1), pt(-1, -1), pt(-1, 0), pt(0, 0)),
    }
}

/// Offset of cell `i` (0 to 3) of piece `block_type` in rotation `rotation`.
pub open spec fn offset(block_type: u8, rotation: usize, i: int) -> Point {
    let s = shape(block_type, rotation);
    if i == 0 {
        s.0
    } else if i == 1 {
        s.1
    } else if i == 2 {
        s.2
    } else {
        s.3
    }
}

/// Every offset lies in the 5x5 box, and every piece covers its control point.
pub proof fn lemma_shape_facts(block_type: u8, rotation: usize)
    requires
        block_type < BLOCK_TYPE_MAX,
        rotation < ROTATION_MAX,
    ensures
        forall|i: int|
            0 <= i < 4 ==> -2 <= #[trigger] offset(block_type, rotation, i).x <= 2 && -2
                <= offset(block_type, rotation, i).y <= 2,
        offset(block_type, rotation, 0) == pt(0, 0) || offset(block_type, rotation, 1) == pt(0, 0)
            || offset(block_type, rotation, 2) == pt(0, 0) || offset(block_type, rotation, 3)
            == pt(0, 0),
{
}

/// Cell `i` of the piece table, computed at run time.
pub fn block_offset(block_type: u8, rotation: usize, i: usize) -> (p: Point)
    requires
        block_type < BLOCK_TYPE_MAX,
        rotation < ROTATION_MAX,
        i < BLOCK_NUM,
    ensures
        p == offset(block_type, rotation, i as int),
{
    let s = match block_type {
        0 => match rotation {
            0 => (Point { x: 0, y: -2 }, Point { x: 0, y: -1 }, Point { x: 0, y: 0 }, Point { x: 0, y: 1 }),
            1 => (Point { x: -2, y: 0 }, Point { x: -1, y: 0 }, Point { x: 0, y: 0 }, Point { x: 1, y: 0 }),
            2 => (Point { x: 0, y: -1 }, Point { x: 0, y: 0 }, Point { x: 0, y: 1 }, Point { x: 0, y: 2 }),
            _ => (Point { x: -1, y: 0 }, Point { x: 0, y: 0 }, Point { x: 1, y: 0 }, Point { x: 2, y: 0 }),
        },
        1 => match rotation {
            0 => (Point { x: 0, y: -1 }, Point { x: 0, y: 0 }, Point { x: 0, y: 1 }, Point { x: 1, y: 1 }),
            1 => (Point { x: -1, y: 0 }, Point { x: 0, y: 0 }, Point { x: 1, y: 0 }, Point { x: 1, y: -1 }),
            2 => (Point { x: 0, y: 1 }, Point { x: 0, y: 0 }, Point { x: 0, y: -1 }, Point { x: -1, y: -1 }),
            _ => (Point { x: 1, y: 0 }, Point { x: 0, y: 0 }, Point { x: -1, y: 0 }, Point { x: -1, y: 1 }),
        },
        2 => match rotation {
            0 => (Point { x: 0, y: -1 }, Point { x: 0, y: 0 }, Point { x: 0, y: 1 }, Point { x: -1, y: 1 }),
            1 => (Point { x: -1, y: 0 }, Point { x: 0, y: 0 }, Point { x: 1, y: 0 }, Point { x: 1, y: 1 }),
            2 => (Point { x: 0, y: 1 }, Point { x: 0, y: 0 }, Point { x: 0, y: -1 }, Point { x: 1, y: -1 }),
            _ => (Point { x: 1, y: 0 }, Point { x: 0, y: 0 }, Point { x: -1, y: 0 }, Point { x: -1, y: -1 }),
        },
        3 => match rotation {
            0 => (Point { x: -1, y: -1 }, Point { x: 0, y: -1 }, Point { x: 0, y: 0 }, Point { x: 1, y: 0 }),
            1 => (Point { x: 0, y: -1 }, Point { x: 0, y: 0 }, Point { x: -1, y: 0 }, Point { x: -1, y: 1 }),
            2 => (Point { x: -1, y: 0 }, Point { x: 0, y: 0 }, Point { x: 0, y: 1 }, Point { x: 1, y: 1 }),
            _ => (Point { x: 1, y: -1 }, Point { x: 1, y: 0 }, Point { x: 0, y: 0 }, Point { x: 0, y: 1 }),
        },
        4 => match rotation {
            0 => (Point { x: 1, y: -1 }, Point { x: 0, y: 0 }, Point { x: 0, y: -1 }, Point { x: -1, y: 0 }),
            1 => (Point { x: -1, y: -1 }, Point { x: -1, y: 0 }, Point { x: 0, y: 0 }, Point { x: 0, y: 1 }),
            2 => (Point { x: 1, y: 0 }, Point { x: 0, y: 1 }, Point { x: 0, y: 0 }, Point { x: -1, y: 1 }),
            _ => (Point { x: 0, y: -1 }, Point { x: 0, y: 0 }, Point { x: 1, y: 0 }, Point { x: 1, y: 1 }),
        },
        5 => match rotation {
            0 => (Point { x: 0, y: -1 }, Point { x: -1, y: 0 }, Point { x: 0, y: 0 }, Point { x: 1, y: 0 }),
            1 => (Point { x: -1, y: 0 }, Point { x: 0, y: -1 }, Point { x: 0, y: 0 }, Point { x: 0, y: 1 }),
            2 => (Point { x: 1, y: 0 }, Point { x: 0, y: 1 }, Point { x: 0, y: 0 }, Point { x: -1, y: 0 }),
            _ => (Point { x: 0, y: 1 }, Point { x: 1, y: 0 }, Point { x: 0, y: 0 }, Point { x: 0, y: -1 }),
        },
        _ => (Point { x: 0, y: -1 }, Point { x: -1, y: -1 }, Point { x: -1, y: 0 }, Point { x: 0, y: 0 }),
    };
    if i == 0 {
        s.0
    } else if i == 1 {
        s.1
    } else if i == 2 {
        s.2
    } else {
        s.3
    }
}

/// A cell offset as a pair of integers.
pub open spec fn as_pair(p: Point) -> (int, int) {
    (p.x as int, p.y as int)
}

/// A cell offset turned a quarter: `(x, y)` becomes `(y, -x)`.
pub open spec fn quarter_turned(p: Point) -> (int, int) {
    (p.y as int, -(p.x as int))
}

/// Rotating a piece never changes its shape: every cell of the next rotation is
/// a cell of this rotation turned a quarter, and every cell of this rotation,
/// turned a quarter, is a cell of the next rotation. (The square, kind 6, is
/// the same in every rotation.)
pub proof fn law_rotation_turns_a_quarter(block_type: u8, rotation: usize, i: int)
    requires
        block_type < BLOCK_TYPE_MAX - 1,
        rotation < ROTATION_MAX,
        0 <= i < 4,
    ensures
        exists|j: int|
            0 <= j < 4 && #[trigger] quarter_turned(offset(block_type, rotation, j)) == as_pair(
                offset(block_type, ((rotation + 1) % 4) as usize, i),
            ),
        exists|j: int|
            0 <= j < 4 && #[trigger] as_pair(offset(block_type, ((rotation + 1) % 4) as usize, j))
                == quarter_turned(offset(block_type, rotation, i)),
{
    let next = ((rotation + 1) % 4) as usize;
    let q0 = quarter_turned(offset(block_type, rotation, 0));
    let q1 = quarter_turned(offset(block_type, rotation, 1));
    let q2 = quarter_turned(offset(block_type, rotation, 2));
    let q3 = quarter_turned(offset(block_type, rotation, 3));
    let n0 = as_pair(offset(block_type, next, 0));
    let n1 = as_pair(offset(block_type, next, 1));
    let n2 = as_pair(offset(block_type, next, 2));
    let n3 = as_pair(offset(block_type, next, 3));
}

/// The square is the same in every rotation.
pub proof fn law_square_does_not_turn(rotation: usize, i: int)
    ensures
        offset((BLOCK_TYPE_MAX - 1) as u8, rotation, i) == offset((BLOCK_TYPE_MAX - 1) as u8, 0, i),
{
}

/// Every piece covers four different cells.
pub proof fn law_piece_cells_differ(block_type: u8, rotation: usize, i: int, j: int)
    requires
        block_type < BLOCK_TYPE_MAX,
        rotation < ROTATION_MAX,
        0 <= i < 4,
        0 <= j < 4,
        i != j,
    ensures
        offset(block_type, rotation, i) != offset(block_type, rotation, j),
{
}

} // verus!
