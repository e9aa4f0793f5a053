//! Turns the directional keys that are held in a frame into a change of the
//! head's heading, refusing a turn straight back into the neck.

use crate::direction::Direction;
use vstd::prelude::*;

verus! {

/// Which directional keys are held in one frame.
#[derive(Clone, Copy, Debug, PartialEq, Eq, Structural)]
pub struct HeldKeys {
    pub left: bool,
    pub right: bool,
    pub up: bool,
    pub down: bool,
}

/// The snake's head: where it is heading, and where it headed before the
/// last accepted input.
#[derive(Clone, Copy, Debug, PartialEq, Eq, Structural)]
pub struct SnakeHead {
    /// The direction the snake is currently facing.
    pub direction: Direction,
    /// The direction the snake was facing before, if any.
    pub last_direction: Option<Direction>,
}

/// The heading that the held keys ask for. Where several keys are held the
/// first of Left, Down, Up, Right wins; where none is held it is `current`.
pub open spec fn candidate_spec(keys: HeldKeys, current: Direction) -> Direction {
    if keys.left {
        Direction::Left
    } else if keys.down {
        Direction::Down
    } else if keys.up {
        Direction::Up
    } else if keys.right {
        Direction::Right
    } else {
        current
    }
}

/// Computes the heading that the held keys ask for.
pub fn candidate(keys: HeldKeys, current: Direction) -> (r: Direction)
    ensures
        r == candidate_spec(keys, current),
{
    if keys.left {
        Direction::Left
    } else if keys.down {
        Direction::Down
    } else if keys.up {
        Direction::Up
    } else if keys.right {
        Direction::Right
    } else {
        current
    }
}

impl HeldKeys {
    /// No key is held.
    pub fn none() -> (r: HeldKeys)
        ensures
            r == (HeldKeys { left: false, right: false, up: false, down: false }),
    {
        HeldKeys { left: false, right: false, up: false, down: false }
    }

    /// Only the key of direction `d` is held.
    pub fn only(d: Direction) -> (r: HeldKeys)
        ensures
            r == (HeldKeys {
                left: d == Direction::Left,
                right: d == Direction::Right,
                up: d == Direction::Up,
                down: d == Direction::Down,
            }),
    {
        HeldKeys {
            left: d == Direction::Left,
            right: d == Direction::Right,
            up: d == Direction::Up,
            down: d == Direction::Down,
        }
    }
}

impl SnakeHead {
    /// The head after the held keys were resolved: unchanged where the
    /// candidate is the opposite of the current heading; else heading for the
    /// candidate, with the previous heading remembered.
    pub open spec fn after_input(self, keys: HeldKeys) -> SnakeHead {
        let wanted = candidate_spec(keys, self.direction);
        if wanted == self.direction.opposite_spec() {
            self
        } else {
            SnakeHead { direction: wanted, last_direction: Some(self.direction) }
        }
    }

    /// A head facing `direction` that has not turned yet.
    pub fn new(direction: Direction) -> (r: SnakeHead)
        ensures
            r == (SnakeHead { direction, last_direction: None }),
    {
        SnakeHead { direction, last_direction: None }
    }

    /// Resolves the held keys of one frame into the head's heading.
    pub fn apply_input(&mut self, keys: HeldKeys)
        ensures
            *final(self) == old(self).after_input(keys),
    {
        let wanted = candidate(keys, self.direction);
        if wanted != self.direction.opposite() {
            self.last_direction = Some(self.direction);
            self.direction = wanted;
        }
    }
}

/// Input never turns the head straight back: whatever keys are held, the
/// heading after resolution is not the opposite of the heading before, and a
/// request for the opposite leaves the head as it was.
pub proof fn lemma_anti_reversal(head: SnakeHead, keys: HeldKeys)
    ensures
        head.after_input(keys).direction != head.direction.opposite_spec(),
        candidate_spec(keys, head.direction) == head.direction.opposite_spec()
            ==> head.after_input(keys) == head,
{
}

/// Holding only the key that points against the current heading changes
/// nothing.
pub proof fn lemma_reverse_key_ignored(head: SnakeHead)
    ensures
        head.after_input(
            HeldKeys {
                left: head.direction == Direction::Right,
                right: head.direction == Direction::Left,
                up: head.direction == Direction::Down,
                down: head.direction == Direction::Up,
            },
        ) == head,
{
}

/// Among held keys the order of precedence is Left, Down, Up, Right.
pub proof fn lemma_input_priority(keys: HeldKeys, current: Direction)
    ensures
        keys.left ==> candidate_spec(keys, current) == Direction::Left,
        !keys.left && keys.down ==> candidate_spec(keys, current) == Direction::Down,
        !keys.left && !keys.down && keys.up ==> candidate_spec(keys, current) == Direction::Up,
        !keys.left && !keys.down && !keys.up && keys.right ==> candidate_spec(keys, current)
            == Direction::Right,
        !keys.left && !keys.down && !keys.up && !keys.right ==> candidate_spec(keys, current)
            == current,
{
}

/// Of several resolutions in a row the last accepted one decides: with no
/// key held, the heading stays what the earlier input made it.
pub proof fn lemma_idle_input_keeps_heading(head: SnakeHead, keys: HeldKeys)
    ensures
        head.after_input(keys).after_input(
            HeldKeys { left: false, right: false, up: false, down: false },
        ).direction == head.after_input(keys).direction,
{
}

} // verus!
