//! The snake: its head's heading and the ordered chain of its segments, and
//! the movement that makes every segment follow the one ahead of it.

use crate::direction::Direction;
use crate::grid::{Board, MovementPolicy, Position};
use crate::input::SnakeHead;
use vstd::prelude::*;

verus! {

/// The snake. `segments` holds the cell of every segment, head first; a
/// segment is known by its rank in that order, which never changes.
#[derive(Debug)]
pub struct Snake {
    pub head: SnakeHead,
    pub segments: Vec<Position>,
}

/// The chain after one move: the head on `new_head`, and every other segment
/// on the cell that the segment ahead of it held before the move.
pub open spec fn shifted(before: Seq<Position>, new_head: Position) -> Seq<Position> {
    Seq::new(
        before.len(),
        |i: int|
            if i == 0 {
                new_head
            } else {
                before[i - 1]
            },
    )
}

/// The chain after one move in direction `d` on `board`.
pub open spec fn advanced(
    board: Board,
    policy: MovementPolicy,
    before: Seq<Position>,
    d: Direction,
) -> Seq<Position> {
    if before.len() == 0 {
        before
    } else {
        shifted(before, board.step_spec(policy, before[0], d))
    }
}

impl Snake {
    /// The cells of the segments, head first.
    pub open spec fn cells(&self) -> Seq<Position> {
        self.segments@
    }

    /// Spawns the snake: a head on (3, 3) facing up, and one segment behind
    /// it on (3, 2).
    pub fn spawn_snake() -> (r: Snake)
        ensures
            r.head == (SnakeHead { direction: Direction::Up, last_direction: None }),
            r.cells() == seq![Position { x: 3, y: 3 }, Position { x: 3, y: 2 }],
    {
        let mut snake = Snake { head: SnakeHead::new(Direction::Up), segments: Vec::new() };
        snake.segments.push(Position { x: 3, y: 3 });
        snake.spawn_segment(Position { x: 3, y: 2 });
        proof {
            assert(snake.cells() =~= seq![Position { x: 3, y: 3 }, Position { x: 3, y: 2 }]);
        }
        snake
    }

    /// Spawns a tail segment on `position`: it becomes the last of the chain.
    pub fn spawn_segment(&mut self, position: Position)
        ensures
            final(self).head == old(self).head,
            final(self).cells() == old(self).cells().push(position),
    {
        self.segments.push(position);
    }

    /// The number of segments, the head included.
    pub fn len(&self) -> (r: usize)
        ensures
            r == self.cells().len(),
    {
        self.segments.len()
    }

    /// The cell of the head, if the snake has one.
    pub fn head_position(&self) -> (r: Option<Position>)
        ensures
            r == (if self.cells().len() > 0 {
                Some(self.cells()[0])
            } else {
                None
            }),
    {
        if self.segments.len() > 0 {
            Some(self.segments[0])
        } else {
            None
        }
    }

    /// The cell of the last segment, if the snake has one.
    pub fn tail_position(&self) -> (r: Option<Position>)
        ensures
            r == (if self.cells().len() > 0 {
                Some(self.cells().last())
            } else {
                None
            }),
    {
        let n = self.segments.len();
        if n > 0 {
            Some(self.segments[n - 1])
        } else {
            None
        }
    }

    /// A copy of every segment's cell, in order.
    pub fn snapshot(&self) -> (r: Vec<Position>)
        ensures
            r@ == self.cells(),
    {
        let mut copy: Vec<Position> = Vec::new();
        let n = self.segments.len();
        let mut i: usize = 0;
        while i < n
            invariant
                n == self.segments@.len(),
                i <= n,
                copy@ == self.segments@.take(i as int),
            decreases n - i,
        {
            copy.push(self.segments[i]);
            proof {
                assert(copy@ =~= self.segments@.take(i + 1));
            }
            i += 1;
        }
        proof {
            assert(copy@ =~= self.cells());
        }
        copy
    }

    /// Moves the snake by one tile. The head steps in its current direction
    /// and is put back on the board as `policy` says; every other segment
    /// takes the cell that the segment ahead of it held before the move. A
    /// snake of one segment only moves its head; one without segments stays
    /// as it is. The heading does not change.
    pub fn advance(&mut self, board: &Board, policy: MovementPolicy)
        requires
            board.wf(),
        ensures
            final(self).head == old(self).head,
            final(self).cells() == advanced(
                *board,
                policy,
                old(self).cells(),
                old(self).head.direction,
            ),
    {
        let n = self.segments.len();
        if n == 0 {
            return ;
        }
        let before = self.snapshot();
        let new_head = board.step(policy, before[0], self.head.direction);
        self.segments.set(0, new_head);
        let mut i: usize = 1;
        while i < n
            invariant
                n == before@.len(),
                n == self.segments@.len(),
                1 <= i <= n,
                self.head == old(self).head,
                before@ == old(self).cells(),
                forall|k: int| 0 <= k < i ==> self.segments@[k] == shifted(before@, new_head)[k],
            decreases n - i,
        {
            self.segments.set(i, before[i - 1]);
            i += 1;
        }
        proof {
            assert(self.cells() =~= shifted(before@, new_head));
        }
    }
}

/// A move keeps the number of segments and their order: each segment but the
/// head ends on the cell that its predecessor held before the move, not after
/// it, and the head ends one step ahead of where it was.
pub proof fn lemma_follow_chain(
    board: Board,
    policy: MovementPolicy,
    before: Seq<Position>,
    d: Direction,
)
    requires
        board.wf(),
    ensures
        advanced(board, policy, before, d).len() == before.len(),
        before.len() > 0 ==> advanced(board, policy, before, d)[0] == board.step_spec(
            policy,
            before[0],
            d,
        ),
        forall|i: int|
            1 <= i < before.len() ==> #[trigger] advanced(board, policy, before, d)[i] == before[i
                - 1],
{
}

/// A move keeps the snake on the board: if all segments were on it, all are.
pub proof fn lemma_advance_stays_on_board(
    board: Board,
    policy: MovementPolicy,
    before: Seq<Position>,
    d: Direction,
)
    requires
        board.wf(),
        forall|i: int| 0 <= i < before.len() ==> board.contains(#[trigger] before[i]),
    ensures
        forall|i: int|
            0 <= i < before.len() ==> board.contains(
                #[trigger] advanced(board, policy, before, d)[i],
            ),
{
    if before.len() > 0 {
        let p = before[0];
        crate::grid::lemma_place_bounds(policy, p.x + d.dx(), board.width as int);
        crate::grid::lemma_place_bounds(policy, p.y + d.dy(), board.height as int);
        assert forall|i: int| 0 <= i < before.len() implies board.contains(
            #[trigger] advanced(board, policy, before, d)[i],
        ) by {
            if i > 0 {
                assert(board.contains(before[i - 1]));
            }
        }
    }
}

} // verus!
