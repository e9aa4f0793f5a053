//! The state of one session and its transitions: input resolution, the timed
//! movement of the snake and the timed spawning of food, run once per frame.

use crate::direction::Direction;
use crate::food::{food_spec, Food};
use crate::grid::{Board, MovementPolicy, Position};
use crate::input::{HeldKeys, SnakeHead};
use crate::snake::{advanced, Snake};
use crate::timer::IntervalTimer;
use vstd::prelude::*;

verus! {

/// The state of a session, owned by whoever drives the frames.
#[derive(Debug)]
pub struct Game {
    pub board: Board,
    pub policy: MovementPolicy,
    pub snake: Snake,
    /// The food on the board; there is never more than one.
    pub food: Option<Food>,
    pub movement_timer: IntervalTimer,
    pub spawn_timer: IntervalTimer,
}

/// What a session's state is, as plain values.
pub struct GameModel {
    pub board: Board,
    pub policy: MovementPolicy,
    pub head: SnakeHead,
    /// The cells of the snake's segments, head first.
    pub cells: Seq<Position>,
    pub food: Option<Food>,
    pub movement_timer: IntervalTimer,
    pub spawn_timer: IntervalTimer,
}

/// What one frame did.
#[derive(Clone, Copy, Debug, PartialEq, Eq, Structural)]
pub struct FrameEvents {
    /// The movement timer completed a round, and the snake moved.
    pub moved: bool,
    /// The spawn timer completed a round, and food was placed.
    pub spawned: bool,
}

impl GameModel {
    /// The board has cells.
    pub open spec fn wf(self) -> bool {
        self.board.wf()
    }

    /// The cell that the head reaches by its next move.
    pub open spec fn next_head(self) -> Position {
        self.board.step_spec(self.policy, self.cells[0], self.head.direction)
    }

    /// Whether the next move lands the head on the food.
    pub open spec fn eats(self) -> bool {
        self.cells.len() > 0 && self.food == Some(Food { position: self.next_head() })
    }

    /// The state after the held keys of a frame were resolved.
    pub open spec fn after_input(self, keys: HeldKeys) -> GameModel {
        GameModel { head: self.head.after_input(keys), ..self }
    }

    /// The state after one move of the snake. Where the head lands on the
    /// food, the food is gone and the snake is one segment longer: the new
    /// segment lies on the cell that the last one left.
    pub open spec fn after_move(self) -> GameModel {
        let moved = advanced(self.board, self.policy, self.cells, self.head.direction);
        if self.eats() {
            GameModel { cells: moved.push(self.cells.last()), food: None, ..self }
        } else {
            GameModel { cells: moved, ..self }
        }
    }

    /// The state after the movement timer was advanced by `delta`: one move
    /// if that completed a round, none if not.
    pub open spec fn after_movement(self, delta: u64) -> GameModel {
        let ticked = GameModel { movement_timer: self.movement_timer.after_tick(delta), ..self };
        if self.movement_timer.fires(delta) {
            ticked.after_move()
        } else {
            ticked
        }
    }

    /// The state after the spawn timer was advanced by `delta`: if that
    /// completed a round, `spawned` takes the place of the food.
    pub open spec fn after_spawn(self, delta: u64, spawned: Option<Food>) -> GameModel {
        GameModel {
            spawn_timer: self.spawn_timer.after_tick(delta),
            food: if self.spawn_timer.fires(delta) {
                spawned
            } else {
                self.food
            },
            ..self
        }
    }

    /// The state after one frame: input first, then movement, then spawning.
    pub open spec fn after_frame(
        self,
        keys: HeldKeys,
        delta: u64,
        spawned: Option<Food>,
    ) -> GameModel {
        self.after_input(keys).after_movement(delta).after_spawn(delta, spawned)
    }
}

impl View for Game {
    type V = GameModel;

    open spec fn view(&self) -> GameModel {
        GameModel {
            board: self.board,
            policy: self.policy,
            head: self.snake.head,
            cells: self.snake.cells(),
            food: self.food,
            movement_timer: self.movement_timer,
            spawn_timer: self.spawn_timer,
        }
    }
}

impl Game {
    /// A new session: the snake freshly spawned, no food, and both timers at
    /// the start of a round.
    pub fn new(
        board: Board,
        policy: MovementPolicy,
        movement_period: u64,
        spawn_period: u64,
    ) -> (r: Game)
        requires
            board.wf(),
        ensures
            r@ == (GameModel {
                board,
                policy,
                head: SnakeHead { direction: Direction::Up, last_direction: None },
                cells: seq![Position { x: 3, y: 3 }, Position { x: 3, y: 2 }],
                food: None,
                movement_timer: IntervalTimer { period: movement_period, elapsed: 0, finished: false },
                spawn_timer: IntervalTimer { period: spawn_period, elapsed: 0, finished: false },
            }),
            r@.wf(),
    {
        Game {
            board,
            policy,
            snake: Snake::spawn_snake(),
            food: None,
            movement_timer: IntervalTimer::new(movement_period),
            spawn_timer: IntervalTimer::new(spawn_period),
        }
    }

    /// Replaces the snake by a freshly spawned one. Nothing else changes.
    pub fn spawn_snake(&mut self)
        ensures
            final(self)@ == (GameModel {
                head: SnakeHead { direction: Direction::Up, last_direction: None },
                cells: seq![Position { x: 3, y: 3 }, Position { x: 3, y: 2 }],
                ..old(self)@
            }),
    {
        self.snake = Snake::spawn_snake();
    }

    /// Resolves the held keys of a frame into the head's heading.
    pub fn snake_movement_input(&mut self, keys: HeldKeys)
        ensures
            final(self)@ == old(self)@.after_input(keys),
    {
        self.snake.head.apply_input(keys);
    }

    /// Advances the movement timer by `delta` and moves the snake once if
    /// that completed a round. Says whether the snake moved.
    pub fn snake_movement(&mut self, delta: u64) -> (moved: bool)
        requires
            old(self)@.wf(),
        ensures
            moved == old(self)@.movement_timer.fires(delta),
            final(self)@ == old(self)@.after_movement(delta),
    {
        let fired = self.movement_timer.tick(delta);
        if fired {
            let tail = self.snake.tail_position();
            let board = self.board;
            self.snake.advance(&board, self.policy);
            if let Some(tail_cell) = tail {
                if let Some(food) = self.food {
                    if food.position == self.snake.segments[0] {
                        self.food = None;
                        self.snake.spawn_segment(tail_cell);
                    }
                }
            }
            proof {
                assert(self@.cells =~= old(self)@.after_movement(delta).cells);
            }
        }
        fired
    }

    /// Advances the spawn timer by `delta`. If that completed a round, the
    /// food that the two raw draws choose takes the place of the food on the
    /// board. Says whether food was placed.
    pub fn food_spawner_with(&mut self, delta: u64, raw_x: u32, raw_y: u32) -> (spawned: bool)
        requires
            old(self)@.wf(),
        ensures
            spawned == old(self)@.spawn_timer.fires(delta),
            final(self)@ == old(self)@.after_spawn(
                delta,
                Some(food_spec(old(self)@.board, raw_x, raw_y)),
            ),
    {
        let fired = self.spawn_timer.tick(delta);
        if fired {
            self.food = Some(Food::at_draws(&self.board, raw_x, raw_y));
        }
        fired
    }

    /// Advances the spawn timer by `delta`. If that completed a round, food
    /// on a random cell of the board takes the place of the food on the
    /// board. Says whether food was placed.
    pub fn food_spawner(&mut self, delta: u64) -> (spawned: bool)
        requires
            old(self)@.wf(),
        ensures
            spawned == old(self)@.spawn_timer.fires(delta),
            final(self)@ == old(self)@.after_spawn(delta, final(self)@.food),
            spawned ==> final(self)@.food is Some && final(self)@.board.contains(
                final(self)@.food.unwrap().position,
            ),
    {
        let fired = self.spawn_timer.tick(delta);
        if fired {
            self.food = Some(Food::random(&self.board));
        }
        fired
    }

    /// Runs one frame with the food's cell given by two raw draws: resolves
    /// the held keys, then advances both timers by `delta`, moving the snake
    /// and placing food as they complete their rounds.
    pub fn frame_with_draws(
        &mut self,
        keys: HeldKeys,
        delta: u64,
        raw_x: u32,
        raw_y: u32,
    ) -> (events: FrameEvents)
        requires
            old(self)@.wf(),
        ensures
            events.moved == old(self)@.movement_timer.fires(delta),
            events.spawned == old(self)@.spawn_timer.fires(delta),
            final(self)@ == old(self)@.after_frame(
                keys,
                delta,
                Some(food_spec(old(self)@.board, raw_x, raw_y)),
            ),
    {
        self.snake_movement_input(keys);
        let moved = self.snake_movement(delta);
        let spawned = self.food_spawner_with(delta, raw_x, raw_y);
        FrameEvents { moved, spawned }
    }

    /// Runs one frame: resolves the held keys, then advances both timers by
    /// `delta`, moving the snake and placing food on a random cell as they
    /// complete their rounds.
    pub fn frame(&mut self, keys: HeldKeys, delta: u64) -> (events: FrameEvents)
        requires
            old(self)@.wf(),
        ensures
            events.moved == old(self)@.movement_timer.fires(delta),
            events.spawned == old(self)@.spawn_timer.fires(delta),
            final(self)@ == old(self)@.after_frame(keys, delta, final(self)@.food),
            events.spawned ==> final(self)@.food is Some && final(self)@.board.contains(
                final(self)@.food.unwrap().position,
            ),
    {
        self.snake_movement_input(keys);
        let moved = self.snake_movement(delta);
        let spawned = self.food_spawner(delta);
        FrameEvents { moved, spawned }
    }
}

/// The movement timer gates the snake: an advance that leaves the gathered
/// time under the period changes neither the snake nor the food, and one that
/// reaches the period makes exactly one move, however far it overshoots.
pub proof fn lemma_timer_gating(g: GameModel, delta: u64)
    ensures
        !g.movement_timer.fires(delta) ==> g.after_movement(delta).cells == g.cells
            && g.after_movement(delta).food == g.food,
        g.movement_timer.fires(delta) ==> g.after_movement(delta).cells == g.after_move().cells
            && g.after_movement(delta).food == g.after_move().food,
        g.after_movement(delta).head == g.head,
        g.after_movement(delta).movement_timer == g.movement_timer.after_tick(delta),
{
}

/// Time gathered over two advances counts as one: where the first stays under
/// the period and the second reaches it without reaching it twice, the snake
/// moves once in all, and an advance by nothing right after does not move it
/// again.
pub proof fn lemma_one_move_per_period(g: GameModel, first: u64, second: u64)
    requires
        g.movement_timer.period > 0,
        g.movement_timer.elapsed + first < g.movement_timer.period,
        g.movement_timer.period <= g.movement_timer.elapsed + first + second < 2
            * g.movement_timer.period,
    ensures
        g.after_movement(first).cells == g.cells,
        g.after_movement(first).after_movement(second).cells == g.after_move().cells,
        g.after_movement(first).after_movement(second).after_movement(0).cells
            == g.after_move().cells,
{
    let waiting = g.after_movement(first);
    crate::timer::lemma_timer_fires_once(waiting.movement_timer, second);
    assert(waiting.cells == g.cells);
    assert(waiting.food == g.food);
    assert(waiting.after_movement(second).cells == g.after_move().cells);
}

/// One move shifts the chain by one: the segments that were there keep their
/// rank, each on the cell its predecessor left, and at most one is added
/// behind them.
pub proof fn lemma_move_shifts_chain(g: GameModel)
    requires
        g.wf(),
    ensures
        g.after_move().cells.take(g.cells.len() as int) == advanced(
            g.board,
            g.policy,
            g.cells,
            g.head.direction,
        ),
        g.after_move().cells.len() == g.cells.len() + (if g.eats() {
            1int
        } else {
            0int
        }),
        !g.eats() ==> g.after_move().food == g.food,
        g.eats() ==> g.after_move().food is None && g.after_move().cells.last()
            == g.cells.last(),
{
    let moved = advanced(g.board, g.policy, g.cells, g.head.direction);
    assert(g.after_move().cells.take(g.cells.len() as int) =~= moved);
}

/// The snake never shrinks: a frame keeps its length or adds one segment.
pub proof fn lemma_length_never_decreases(
    g: GameModel,
    keys: HeldKeys,
    delta: u64,
    spawned: Option<Food>,
)
    requires
        g.wf(),
    ensures
        g.cells.len() <= g.after_frame(keys, delta, spawned).cells.len() <= g.cells.len() + 1,
{
    lemma_move_shifts_chain(g.after_input(keys));
}

/// The snake stays on the board: if every segment is on it before a frame,
/// every segment is on it after the frame, a new one too.
pub proof fn lemma_snake_stays_on_board(
    g: GameModel,
    keys: HeldKeys,
    delta: u64,
    spawned: Option<Food>,
)
    requires
        g.wf(),
        forall|i: int| 0 <= i < g.cells.len() ==> g.board.contains(#[trigger] g.cells[i]),
    ensures
        ({
            let after = g.after_frame(keys, delta, spawned);
            forall|i: int| 0 <= i < after.cells.len() ==> g.board.contains(#[trigger] after.cells[i])
        }),
{
    let turned = g.after_input(keys);
    let after = g.after_frame(keys, delta, spawned);
    let moved = advanced(g.board, g.policy, g.cells, turned.head.direction);
    crate::snake::lemma_advance_stays_on_board(g.board, g.policy, g.cells, turned.head.direction);
    assert forall|i: int| 0 <= i < after.cells.len() implies g.board.contains(
        #[trigger] after.cells[i],
    ) by {
        if g.movement_timer.fires(delta) {
            if i < g.cells.len() {
                assert(after.cells[i] == moved[i]);
            } else {
                assert(after.cells[i] == g.cells.last());
            }
        }
    }
}

/// Food stays on the board: if the food of a state is on the board, and so
/// is what a frame may spawn, the food after the frame is on the board.
pub proof fn lemma_food_stays_on_board(
    g: GameModel,
    keys: HeldKeys,
    delta: u64,
    spawned: Option<Food>,
)
    requires
        g.wf(),
        g.food is Some ==> g.board.contains(g.food.unwrap().position),
        spawned is Some ==> g.board.contains(spawned.unwrap().position),
    ensures
        ({
            let after = g.after_frame(keys, delta, spawned);
            after.food is Some ==> after.board.contains(after.food.unwrap().position)
        }),
{
}

/// The food that two raw draws choose is on the board, whatever was drawn.
pub proof fn lemma_spawn_on_board(board: Board, raw_x: u32, raw_y: u32)
    requires
        board.wf(),
    ensures
        board.contains(food_spec(board, raw_x, raw_y).position),
{
    crate::food::lemma_cell_bounds(raw_x, board.width as int);
    crate::food::lemma_cell_bounds(raw_y, board.height as int);
}

/// Input between two moves only counts by the heading it leaves: a frame
/// whose movement timer does not fire changes the heading and nothing else
/// of the snake.
pub proof fn lemma_input_waits_for_move(
    g: GameModel,
    keys: HeldKeys,
    delta: u64,
    spawned: Option<Food>,
)
    requires
        !g.movement_timer.fires(delta),
    ensures
        g.after_frame(keys, delta, spawned).cells == g.cells,
        g.after_frame(keys, delta, spawned).head == g.head.after_input(keys),
{
}

} // verus!
