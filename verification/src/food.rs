//! Food and the random choice of the cell it appears on.

use crate::grid::{Board, Position};
use vstd::prelude::*;

verus! {

/// A piece of food on the board.
#[derive(Clone, Copy, Debug, PartialEq, Eq, Structural)]
pub struct Food {
    pub position: Position,
}

/// The fraction in `[0, 1)` that a raw draw stands for is its upper 24 bits
/// over 2^24; this is the numerator.
pub open spec fn draw_numerator(raw: u32) -> int {
    raw as int / 256
}

/// The coordinate chosen by a raw draw on an axis of `bound` cells: the
/// draw's fraction times `bound`, rounded down.
pub open spec fn cell_spec(raw: u32, bound: int) -> int {
    (draw_numerator(raw) * bound) / 16777216
}

/// The food that the two raw draws place on `board`.
pub open spec fn food_spec(board: Board, raw_x: u32, raw_y: u32) -> Food {
    Food {
        position: Position {
            x: cell_spec(raw_x, board.width as int) as i32,
            y: cell_spec(raw_y, board.height as int) as i32,
        },
    }
}

/// A draw's fraction is below one, so the cell it chooses is on the axis.
pub proof fn lemma_cell_bounds(raw: u32, bound: int)
    requires
        bound > 0,
    ensures
        0 <= cell_spec(raw, bound) < bound,
        0 <= draw_numerator(raw) * bound < 16777216 * bound,
{
    let k = draw_numerator(raw);
    assert(0 <= k < 16777216);
    assert(0 <= k * bound < 16777216 * bound) by (nonlinear_arith)
        requires
            0 <= k < 16777216,
            bound > 0,
    ;
    assert(0 <= (k * bound) / 16777216 < bound) by (nonlinear_arith)
        requires
            0 <= k * bound < 16777216 * bound,
    ;
}

/// A uniformly random 32-bit number from `rand::random`, drawn from the
/// thread's generator. Each call gives a fresh number, so nothing is claimed
/// of the result.
#[verifier::external_body]
fn random_draw() -> (raw: u32) {
    rand::random::<u32>()
}

/// The coordinate that a raw draw chooses on an axis of `bound` cells.
pub fn cell_for_draw(raw: u32, bound: i32) -> (r: i32)
    requires
        bound > 0,
    ensures
        r == cell_spec(raw, bound as int),
        0 <= r < bound,
{
    proof {
        lemma_cell_bounds(raw, bound as int);
    }
    let numerator: u64 = (raw / 256) as u64;
    let scaled: u64 = numerator * (bound as u64);
    (scaled / 16777216) as i32
}

impl Food {
    /// The food that two raw draws place on `board`, one draw for each axis.
    pub fn at_draws(board: &Board, raw_x: u32, raw_y: u32) -> (r: Food)
        requires
            board.wf(),
        ensures
            r == food_spec(*board, raw_x, raw_y),
            board.contains(r.position),
    {
        Food {
            position: Position {
                x: cell_for_draw(raw_x, board.width),
                y: cell_for_draw(raw_y, board.height),
            },
        }
    }

    /// Food on the cell of `board` that two fresh random draws choose, one for
    /// each axis; a cell that the snake covers may be chosen like any other.
    pub fn random(board: &Board) -> (r: Food)
        requires
            board.wf(),
        ensures
            exists|raw_x: u32, raw_y: u32| r == #[trigger] food_spec(*board, raw_x, raw_y),
            board.contains(r.position),
    {
        let raw_x = random_draw();
        let raw_y = random_draw();
        Food::at_draws(board, raw_x, raw_y)
    }
}

/// The draws at the two ends of the range choose the first and the last cell
/// of an axis that has no more than 2^24 cells.
pub proof fn lemma_cell_extremes(bound: int)
    requires
        0 < bound <= 16777216,
    ensures
        cell_spec(0, bound) == 0,
        cell_spec(0xffff_ffff, bound) == bound - 1,
{
    assert(draw_numerator(0) == 0);
    assert(draw_numerator(0xffff_ffff) == 16777215);
    assert((0 * bound) / 16777216 == 0) by (nonlinear_arith);
    assert((16777215 * bound) / 16777216 == bound - 1) by (nonlinear_arith)
        requires
            0 < bound <= 16777216,
    ;
}

} // verus!
