use vstd::prelude::*;

verus! {

/// Width of the board, in cells.
pub const BOARD_W: i16 = 40;

/// Height of the board, in cells.
pub const BOARD_H: i16 = 40;

/// A cell of the board, or any pair of coordinates.
#[derive(Clone, Copy, Debug, PartialEq, Eq, Structural)]
pub struct Position {
    pub x: i16,
    pub y: i16,
}

/// One of the four directions of movement.
#[derive(Clone, Copy, Debug, PartialEq, Eq, Structural)]
pub enum Direction {
    Up,
    Down,
    Left,
    Right,
}

/// Euclidean remainder of `v` by the board dimension `m`: always in `[0, m)`.
pub open spec fn wrap(v: int, m: int) -> int {
    v % m
}

/// A position lies on the board.
pub open spec fn on_board(p: Position) -> bool {
    0 <= p.x < BOARD_W && 0 <= p.y < BOARD_H
}

/// The coordinates reached by one unit step from `p` towards `d`, both wrapped
/// onto the board.
pub open spec fn moved_xy(p: Position, d: Direction) -> (int, int) {
    match d {
        Direction::Up => (wrap(p.x as int, BOARD_W as int), wrap(p.y - 1, BOARD_H as int)),
        Direction::Down => (wrap(p.x as int, BOARD_W as int), wrap(p.y + 1, BOARD_H as int)),
        Direction::Left => (wrap(p.x - 1, BOARD_W as int), wrap(p.y as int, BOARD_H as int)),
        Direction::Right => (wrap(p.x + 1, BOARD_W as int), wrap(p.y as int, BOARD_H as int)),
    }
}

/// The position reached by one unit step from `p` towards `d`, wrapped onto
/// the board.
pub open spec fn moved(p: Position, d: Direction) -> Position {
    Position { x: moved_xy(p, d).0 as i16, y: moved_xy(p, d).1 as i16 }
}

/// The direction opposite to `d`.
pub open spec fn opposite(d: Direction) -> Direction {
    match d {
        Direction::Up => Direction::Down,
        Direction::Down => Direction::Up,
        Direction::Left => Direction::Right,
        Direction::Right => Direction::Left,
    }
}

/// `v + delta` wrapped into `[0, m)`, computed without overflow.
fn wrap_step(v: i16, delta: i16, m: i16) -> (r: i16)
    requires
        -1 <= delta <= 1,
        0 < m,
    ensures
        r as int == wrap(v + delta, m as int),
        0 <= r < m,
{
    let w: i32 = v as i32 + delta as i32;
    match w.checked_rem_euclid(m as i32) {
        Some(r) => r as i16,
        None => 0,
    }
}

impl Position {
    pub fn new(x: i16, y: i16) -> (r: Self)
        ensures
            r == (Position { x, y }),
    {
        Self { x, y }
    }

    /// The position one step from `pos` towards `dir`; both coordinates are
    /// wrapped around the board's edges (Euclidean remainder), so the result
    /// is always on the board.
    pub fn new_from_move(pos: Position, dir: Direction) -> (r: Self)
        ensures
            r == moved(pos, dir),
            on_board(r),
    {
        match dir {
            Direction::Up => Position::new(
                wrap_step(pos.x, 0, BOARD_W),
                wrap_step(pos.y, -1, BOARD_H),
            ),
            Direction::Down => Position::new(
                wrap_step(pos.x, 0, BOARD_W),
                wrap_step(pos.y, 1, BOARD_H),
            ),
            Direction::Left => Position::new(
                wrap_step(pos.x, -1, BOARD_W),
                wrap_step(pos.y, 0, BOARD_H),
            ),
            Direction::Right => Position::new(
                wrap_step(pos.x, 1, BOARD_W),
                wrap_step(pos.y, 0, BOARD_H),
            ),
        }
    }
}

impl Direction {
    pub fn inverse(&self) -> (r: Self)
        ensures
            r == opposite(*self),
    {
        match *self {
            Direction::Up => Direction::Down,
            Direction::Down => Direction::Up,
            Direction::Left => Direction::Right,
            Direction::Right => Direction::Left,
        }
    }
}

/// Every move lands on the board, whatever the starting coordinates.
pub proof fn lemma_move_on_board(p: Position, d: Direction)
    ensures
        on_board(moved(p, d)),
        moved(p, d).x as int == moved_xy(p, d).0,
        moved(p, d).y as int == moved_xy(p, d).1,
{
}

/// On the board, wrapping leaves a coordinate as it is, and a unit step
/// followed by the opposite step comes back to it.
proof fn lemma_wrap_back(v: int, k: int, m: int)
    requires
        0 <= v < m,
        k == 1 || k == -1,
        m == 40,
    ensures
        wrap(v, m) == v,
        wrap(wrap(v + k, m) - k, m) == v,
{
}

/// From a position on the board, a step followed by a step the opposite way
/// comes back to the start.
pub proof fn lemma_move_round_trip(p: Position, d: Direction)
    requires
        on_board(p),
    ensures
        moved(moved(p, d), opposite(d)) == p,
{
    lemma_move_on_board(p, d);
    lemma_move_on_board(moved(p, d), opposite(d));
    match d {
        Direction::Up | Direction::Down => {
            lemma_wrap_back(p.x as int, 1, BOARD_W as int);
            lemma_wrap_back(p.y as int, 1, BOARD_H as int);
            lemma_wrap_back(p.y as int, -1, BOARD_H as int);
        },
        Direction::Left | Direction::Right => {
            lemma_wrap_back(p.y as int, 1, BOARD_H as int);
            lemma_wrap_back(p.x as int, 1, BOARD_W as int);
            lemma_wrap_back(p.x as int, -1, BOARD_W as int);
        },
    }
}

} // verus!
