//! The coordinate space of the board, with the arithmetic that keeps a
//! stepping head on it.

use crate::direction::Direction;
use vstd::prelude::*;

verus! {

/// The width of the reference board, in tiles.
pub const AREA_WIDTH: i32 = 10;

/// The height of the reference board, in tiles.
pub const AREA_HEIGHT: i32 = 10;

/// A cell of the board grid.
#[derive(Clone, Copy, Debug, PartialEq, Eq, Structural)]
pub struct Position {
    pub x: i32,
    pub y: i32,
}

/// What happens to a head that steps over an edge of the board.
#[derive(Clone, Copy, Debug, PartialEq, Eq, Structural)]
pub enum MovementPolicy {
    /// The board is a torus: the head reappears on the opposite edge.
    Wraparound,
    /// The board is bounded: the head stays on the edge it ran into.
    Clamped,
}

/// The size of the board, fixed for a session.
#[derive(Clone, Copy, Debug, PartialEq, Eq, Structural)]
pub struct Board {
    pub width: i32,
    pub height: i32,
}

/// Euclidean remainder of `coordinate` by `bound`: the one value in
/// `0 .. bound` that differs from `coordinate` by a multiple of `bound`.
pub open spec fn wrap_spec(coordinate: int, bound: int) -> int {
    coordinate % bound
}

/// The value in `0 .. bound` nearest to `coordinate`.
pub open spec fn clamp_spec(coordinate: int, bound: int) -> int {
    if coordinate < 0 {
        0
    } else if coordinate >= bound {
        bound - 1
    } else {
        coordinate
    }
}

/// Where a coordinate that may have left `0 .. bound` is put back under
/// `policy`.
pub open spec fn place_spec(policy: MovementPolicy, coordinate: int, bound: int) -> int {
    match policy {
        MovementPolicy::Wraparound => wrap_spec(coordinate, bound),
        MovementPolicy::Clamped => clamp_spec(coordinate, bound),
    }
}

/// Both policies put every coordinate into `0 .. bound`, and leave alone one
/// that is there already.
pub proof fn lemma_place_bounds(policy: MovementPolicy, coordinate: int, bound: int)
    requires
        bound > 0,
    ensures
        0 <= place_spec(policy, coordinate, bound) < bound,
        0 <= coordinate < bound ==> place_spec(policy, coordinate, bound) == coordinate,
{
    assert(0 <= coordinate % bound < bound) by (nonlinear_arith)
        requires
            bound > 0,
    ;
    if 0 <= coordinate < bound {
        vstd::arithmetic::div_mod::lemma_small_mod(coordinate as nat, bound as nat);
    }
}

/// Applies Euclidean (non-negative) modulo, so that a coordinate that stepped
/// off one edge reappears on the opposite edge.
pub fn wrap(coordinate: i64, bound: i32) -> (r: i32)
    requires
        bound > 0,
    ensures
        r == wrap_spec(coordinate as int, bound as int),
        0 <= r < bound,
{
    proof {
        lemma_place_bounds(MovementPolicy::Wraparound, coordinate as int, bound as int);
    }
    let wide: i64 = bound as i64;
    match coordinate.checked_rem_euclid(wide) {
        Some(r) => r as i32,
        None => 0,
    }
}

/// Holds a coordinate on the board by stopping it at the edges.
pub fn clamp(coordinate: i64, bound: i32) -> (r: i32)
    requires
        bound > 0,
    ensures
        r == clamp_spec(coordinate as int, bound as int),
        0 <= r < bound,
{
    if coordinate < 0 {
        0
    } else if coordinate >= bound as i64 {
        bound - 1
    } else {
        coordinate as i32
    }
}

impl MovementPolicy {
    /// Puts a coordinate back into `0 .. bound` as this policy says.
    pub fn place(self, coordinate: i64, bound: i32) -> (r: i32)
        requires
            bound > 0,
        ensures
            r == place_spec(self, coordinate as int, bound as int),
            0 <= r < bound,
    {
        match self {
            MovementPolicy::Wraparound => wrap(coordinate, bound),
            MovementPolicy::Clamped => clamp(coordinate, bound),
        }
    }
}

impl Board {
    /// A board has at least one column and one row.
    pub open spec fn wf(self) -> bool {
        self.width > 0 && self.height > 0
    }

    /// Whether `p` is a cell of this board.
    pub open spec fn contains(self, p: Position) -> bool {
        0 <= p.x < self.width && 0 <= p.y < self.height
    }

    /// The cell reached from `p` by one step in direction `d`.
    pub open spec fn step_spec(self, policy: MovementPolicy, p: Position, d: Direction) -> Position {
        Position {
            x: place_spec(policy, p.x + d.dx(), self.width as int) as i32,
            y: place_spec(policy, p.y + d.dy(), self.height as int) as i32,
        }
    }

    /// A board of the given size, if both sides are positive.
    pub fn new(width: i32, height: i32) -> (r: Option<Board>)
        ensures
            r == (if width > 0 && height > 0 {
                Some(Board { width, height })
            } else {
                None
            }),
    {
        if width > 0 && height > 0 {
            Some(Board { width, height })
        } else {
            None
        }
    }

    /// The reference board of ten by ten tiles.
    pub fn reference() -> (r: Board)
        ensures
            r == (Board { width: AREA_WIDTH, height: AREA_HEIGHT }),
            r.wf(),
    {
        Board { width: AREA_WIDTH, height: AREA_HEIGHT }
    }

    /// Whether `p` is a cell of this board.
    pub fn has_cell(&self, p: Position) -> (r: bool)
        ensures
            r == self.contains(p),
    {
        0 <= p.x && p.x < self.width && 0 <= p.y && p.y < self.height
    }

    /// Moves `p` by one tile in direction `d`, then puts both axes back on
    /// the board as `policy` says.
    pub fn step(&self, policy: MovementPolicy, p: Position, d: Direction) -> (r: Position)
        requires
            self.wf(),
        ensures
            r == self.step_spec(policy, p, d),
            self.contains(r),
    {
        let (dx, dy): (i64, i64) = match d {
            Direction::Left => (-1, 0),
            Direction::Down => (0, -1),
            Direction::Up => (0, 1),
            Direction::Right => (1, 0),
        };
        Position {
            x: policy.place(p.x as i64 + dx, self.width),
            y: policy.place(p.y as i64 + dy, self.height),
        }
    }
}

/// On a torus, stepping over an edge lands on the opposite edge: from column
/// 0 to the left on the last column, from the last column to the right on
/// column 0, and likewise for rows; every other step of a cell of the board
/// changes one coordinate by one.
pub proof fn lemma_wraparound(board: Board, p: Position, d: Direction)
    requires
        board.wf(),
        board.contains(p),
    ensures
        ({
            let q = board.step_spec(MovementPolicy::Wraparound, p, d);
            &&& board.contains(q)
            &&& q.x == (if d == Direction::Left && p.x == 0 {
                board.width - 1
            } else if d == Direction::Right && p.x == board.width - 1 {
                0
            } else {
                p.x + d.dx()
            })
            &&& q.y == (if d == Direction::Down && p.y == 0 {
                board.height - 1
            } else if d == Direction::Up && p.y == board.height - 1 {
                0
            } else {
                p.y + d.dy()
            })
        }),
{
    lemma_wrap_step(p.x as int, d.dx(), board.width as int);
    lemma_wrap_step(p.y as int, d.dy(), board.height as int);
}

/// The Euclidean remainder of a coordinate of the board moved by at most one.
pub proof fn lemma_wrap_step(c: int, delta: int, bound: int)
    requires
        bound > 0,
        0 <= c < bound,
        -1 <= delta <= 1,
    ensures
        wrap_spec(c + delta, bound) == (if c + delta < 0 {
            bound - 1
        } else if c + delta >= bound {
            0
        } else {
            c + delta
        }),
{
    if c + delta < 0 {
        vstd::arithmetic::div_mod::lemma_small_mod((bound - 1) as nat, bound as nat);
        vstd::arithmetic::div_mod::lemma_mod_add_multiples_vanish(-1, bound);
    } else if c + delta >= bound {
        vstd::arithmetic::div_mod::lemma_mod_self_0(bound);
    } else {
        vstd::arithmetic::div_mod::lemma_small_mod((c + delta) as nat, bound as nat);
    }
}

/// On a bounded board a step against an edge stays where it is.
pub proof fn lemma_clamped_step(board: Board, p: Position, d: Direction)
    requires
        board.wf(),
        board.contains(p),
    ensures
        ({
            let q = board.step_spec(MovementPolicy::Clamped, p, d);
            &&& board.contains(q)
            &&& q.x == clamp_spec(p.x + d.dx(), board.width as int)
            &&& q.y == clamp_spec(p.y + d.dy(), board.height as int)
        }),
{
}

} // verus!
