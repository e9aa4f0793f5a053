use snake::direction::Direction;
use snake::food::{cell_for_draw, Food};
use snake::game::{FrameEvents, Game};
use snake::grid::{Board, MovementPolicy, Position};
use snake::input::{HeldKeys, SnakeHead};
use snake::render::{EntityKind, RenderItem, Size, FOOD_FOOTPRINT, HEAD_FOOTPRINT, SEGMENT_FOOTPRINT};
use snake::snake::Snake;
use snake::timer::IntervalTimer;

const MOVE_PERIOD: u64 = 150_000_000;
const SPAWN_PERIOD: u64 = 1_000_000_000;

fn at(x: i32, y: i32) -> Position {
    Position { x, y }
}

fn new_game() -> Game {
    Game::new(Board::reference(), MovementPolicy::Wraparound, MOVE_PERIOD, SPAWN_PERIOD)
}

#[test]
fn spawned_snake() {
    let snake = Snake::spawn_snake();
    assert_eq!(snake.head, SnakeHead { direction: Direction::Up, last_direction: None });
    assert_eq!(snake.segments, vec![at(3, 3), at(3, 2)]);
    assert_eq!(snake.len(), 2);
    assert_eq!(snake.head_position(), Some(at(3, 3)));
    assert_eq!(snake.tail_position(), Some(at(3, 2)));
    assert_eq!(snake.snapshot(), vec![at(3, 3), at(3, 2)]);
}

#[test]
fn spawn_segment_appends() {
    let mut snake = Snake::spawn_snake();
    snake.spawn_segment(at(3, 1));
    assert_eq!(snake.segments, vec![at(3, 3), at(3, 2), at(3, 1)]);
    assert_eq!(snake.head.direction, Direction::Up);
}

#[test]
fn follow_chain_three_segments() {
    let mut snake = Snake {
        head: SnakeHead::new(Direction::Up),
        segments: vec![at(3, 3), at(3, 2), at(3, 1)],
    };
    snake.advance(&Board::reference(), MovementPolicy::Wraparound);
    assert_eq!(snake.segments, vec![at(3, 4), at(3, 3), at(3, 2)]);
    assert_eq!(snake.head, SnakeHead::new(Direction::Up));
}

#[test]
fn follow_chain_around_a_corner() {
    let mut snake = Snake {
        head: SnakeHead::new(Direction::Left),
        segments: vec![at(0, 5), at(0, 4), at(1, 4), at(2, 4)],
    };
    snake.advance(&Board::reference(), MovementPolicy::Wraparound);
    assert_eq!(snake.segments, vec![at(9, 5), at(0, 5), at(0, 4), at(1, 4)]);
}

#[test]
fn one_segment_snake_only_moves_its_head() {
    let mut snake = Snake { head: SnakeHead::new(Direction::Right), segments: vec![at(9, 0)] };
    snake.advance(&Board::reference(), MovementPolicy::Wraparound);
    assert_eq!(snake.segments, vec![at(0, 0)]);
    snake.advance(&Board::reference(), MovementPolicy::Clamped);
    assert_eq!(snake.segments, vec![at(1, 0)]);
}

#[test]
fn empty_snake_stays_empty() {
    let mut snake = Snake { head: SnakeHead::new(Direction::Right), segments: Vec::new() };
    snake.advance(&Board::reference(), MovementPolicy::Wraparound);
    assert!(snake.segments.is_empty());
    assert_eq!(snake.head_position(), None);
    assert_eq!(snake.tail_position(), None);
}

#[test]
fn clamped_snake_folds_at_the_edge() {
    let mut snake = Snake {
        head: SnakeHead::new(Direction::Up),
        segments: vec![at(2, 9), at(2, 8)],
    };
    snake.advance(&Board::reference(), MovementPolicy::Clamped);
    assert_eq!(snake.segments, vec![at(2, 9), at(2, 9)]);
}

#[test]
fn timer_waits_for_its_period() {
    let mut timer = IntervalTimer::new(150);
    assert!(!timer.would_fire(149));
    assert!(!timer.tick(100));
    assert!(!timer.just_finished());
    assert_eq!(timer.elapsed, 100);
    assert!(!timer.tick(49));
    assert_eq!(timer.elapsed, 149);
    assert!(timer.would_fire(1));
    assert!(timer.tick(1));
    assert!(timer.just_finished());
    assert_eq!(timer.elapsed, 0);
    assert!(!timer.tick(0));
    assert!(!timer.just_finished());
}

#[test]
fn timer_carries_the_overshoot() {
    let mut timer = IntervalTimer::new(150);
    assert!(timer.tick(160));
    assert_eq!(timer.elapsed, 10);
    assert!(!timer.tick(139));
    assert_eq!(timer.elapsed, 149);
    assert!(timer.tick(1000));
    assert_eq!(timer.elapsed, 99);
    assert_eq!(timer.period, 150);
}

#[test]
fn timer_with_large_values() {
    let mut timer = IntervalTimer { period: u64::MAX, elapsed: u64::MAX - 1, finished: false };
    assert!(timer.tick(u64::MAX));
    assert_eq!(timer.elapsed, u64::MAX - 1);
    let mut zero = IntervalTimer::new(0);
    assert!(zero.tick(0));
    assert_eq!(zero, IntervalTimer { period: 0, elapsed: 0, finished: true });
}

#[test]
fn new_game_state() {
    let game = new_game();
    assert_eq!(game.board, Board { width: 10, height: 10 });
    assert_eq!(game.policy, MovementPolicy::Wraparound);
    assert_eq!(game.snake.segments, vec![at(3, 3), at(3, 2)]);
    assert_eq!(game.snake.head, SnakeHead::new(Direction::Up));
    assert_eq!(game.food, None);
    assert_eq!(game.movement_timer, IntervalTimer { period: MOVE_PERIOD, elapsed: 0, finished: false });
    assert_eq!(game.spawn_timer, IntervalTimer { period: SPAWN_PERIOD, elapsed: 0, finished: false });
}

#[test]
fn timer_gating_of_movement() {
    let mut game = new_game();
    assert!(!game.snake_movement(MOVE_PERIOD - 1));
    assert_eq!(game.snake.segments, vec![at(3, 3), at(3, 2)]);
    assert!(game.snake_movement(1));
    assert_eq!(game.snake.segments, vec![at(3, 4), at(3, 3)]);
    assert!(!game.snake_movement(0));
    assert_eq!(game.snake.segments, vec![at(3, 4), at(3, 3)]);
}

#[test]
fn overshoot_moves_once() {
    let mut game = new_game();
    assert!(game.snake_movement(MOVE_PERIOD + 5));
    assert_eq!(game.snake.segments, vec![at(3, 4), at(3, 3)]);
    assert_eq!(game.movement_timer.elapsed, 5);
    // Even a delta of several periods is one move.
    assert!(game.snake_movement(5 * MOVE_PERIOD));
    assert_eq!(game.snake.segments, vec![at(3, 5), at(3, 4)]);
}

#[test]
fn end_to_end_three_moves() {
    let mut game = new_game();
    let mut heads = Vec::new();
    let mut tails = Vec::new();
    for _ in 0..3 {
        let events = game.frame_with_draws(HeldKeys::none(), MOVE_PERIOD, 0, 0);
        assert_eq!(events, FrameEvents { moved: true, spawned: false });
        heads.push(game.snake.segments[0]);
        tails.push(game.snake.segments[1]);
    }
    assert_eq!(heads, vec![at(3, 4), at(3, 5), at(3, 6)]);
    assert_eq!(tails, vec![at(3, 3), at(3, 4), at(3, 5)]);
    assert_eq!(game.snake.len(), 2);
    assert_eq!(game.food, None);
}

#[test]
fn latest_accepted_input_decides_the_move() {
    let mut game = new_game();
    let e1 = game.frame_with_draws(HeldKeys::only(Direction::Left), 50_000_000, 0, 0);
    assert!(!e1.moved);
    let e2 = game.frame_with_draws(HeldKeys::only(Direction::Up), 50_000_000, 0, 0);
    assert!(!e2.moved);
    assert_eq!(game.snake.segments, vec![at(3, 3), at(3, 2)]);
    let e3 = game.frame_with_draws(HeldKeys::only(Direction::Right), 50_000_000, 0, 0);
    assert!(e3.moved);
    assert_eq!(game.snake.segments, vec![at(4, 3), at(3, 3)]);
    assert_eq!(game.snake.head.direction, Direction::Right);
    assert_eq!(game.snake.head.last_direction, Some(Direction::Up));
}

#[test]
fn draws_choose_cells() {
    assert_eq!(cell_for_draw(0, 10), 0);
    assert_eq!(cell_for_draw(u32::MAX, 10), 9);
    assert_eq!(cell_for_draw(0x8000_0000, 10), 5);
    assert_eq!(cell_for_draw(0x4000_0000, 10), 2);
    assert_eq!(cell_for_draw(0x1999_9a00, 10), 1);
    assert_eq!(cell_for_draw(0x1999_9900, 10), 0);
    // The lower eight bits of a draw do not count.
    assert_eq!(cell_for_draw(0x1999_99ff, 10), 0);
    assert_eq!(cell_for_draw(u32::MAX, i32::MAX), 2147483519);
    assert_eq!(cell_for_draw(12345, 1), 0);
}

#[test]
fn food_at_draws() {
    let board = Board { width: 10, height: 4 };
    assert_eq!(Food::at_draws(&board, 0x8000_0000, 0xc000_0000), Food { position: at(5, 3) });
    assert_eq!(Food::at_draws(&board, 0, u32::MAX), Food { position: at(0, 3) });
}

#[test]
fn spawn_randomness_bounds() {
    let board = Board::reference();
    let mut seen = std::collections::HashSet::new();
    for _ in 0..10_000 {
        let food = Food::random(&board);
        assert!(0 <= food.position.x && food.position.x < 10);
        assert!(0 <= food.position.y && food.position.y < 10);
        seen.insert((food.position.x, food.position.y));
    }
    assert!(seen.len() > 1);
}

#[test]
fn spawn_bounds_on_a_narrow_board() {
    let board = Board { width: 1, height: 3 };
    for _ in 0..1_000 {
        let food = Food::random(&board);
        assert!(board.has_cell(food.position));
    }
}

#[test]
fn food_spawner_is_gated_by_its_timer() {
    let mut game = new_game();
    assert!(!game.food_spawner(SPAWN_PERIOD - 1));
    assert_eq!(game.food, None);
    assert!(game.food_spawner(1));
    let food = game.food.expect("food after the timer fired");
    assert!(game.board.has_cell(food.position));
    assert_eq!(game.snake.segments, vec![at(3, 3), at(3, 2)]);
}

#[test]
fn spawn_replaces_the_food() {
    let mut game = new_game();
    assert!(game.food_spawner_with(SPAWN_PERIOD, 0, 0));
    assert_eq!(game.food, Some(Food { position: at(0, 0) }));
    assert!(!game.food_spawner_with(SPAWN_PERIOD - 1, u32::MAX, u32::MAX));
    assert_eq!(game.food, Some(Food { position: at(0, 0) }));
    assert!(game.food_spawner_with(1, u32::MAX, 0x8000_0000));
    assert_eq!(game.food, Some(Food { position: at(9, 5) }));
}

#[test]
fn food_may_spawn_under_the_snake() {
    let mut game = new_game();
    // Draws that choose the cell (3, 3), where the head is.
    assert!(game.food_spawner_with(SPAWN_PERIOD, 0x5000_0000, 0x5000_0000));
    assert_eq!(game.food, Some(Food { position: at(3, 3) }));
    assert_eq!(game.snake.segments, vec![at(3, 3), at(3, 2)]);
}

#[test]
fn snake_grows_when_it_eats() {
    let mut game = new_game();
    game.food = Some(Food { position: at(3, 4) });
    assert!(game.snake_movement(MOVE_PERIOD));
    assert_eq!(game.snake.segments, vec![at(3, 4), at(3, 3), at(3, 2)]);
    assert_eq!(game.food, None);
    assert!(game.snake_movement(MOVE_PERIOD));
    assert_eq!(game.snake.segments, vec![at(3, 5), at(3, 4), at(3, 3)]);
}

#[test]
fn food_elsewhere_is_left_alone() {
    let mut game = new_game();
    game.food = Some(Food { position: at(3, 5) });
    assert!(game.snake_movement(MOVE_PERIOD));
    assert_eq!(game.snake.segments, vec![at(3, 4), at(3, 3)]);
    assert_eq!(game.food, Some(Food { position: at(3, 5) }));
}

#[test]
fn frame_moves_then_spawns() {
    let mut game = Game::new(Board::reference(), MovementPolicy::Wraparound, 10, 10);
    game.food = Some(Food { position: at(3, 4) });
    let events = game.frame_with_draws(HeldKeys::none(), 10, 0, 0);
    assert_eq!(events, FrameEvents { moved: true, spawned: true });
    assert_eq!(game.snake.segments, vec![at(3, 4), at(3, 3), at(3, 2)]);
    assert_eq!(game.food, Some(Food { position: at(0, 0) }));
}

#[test]
fn frame_with_random_food() {
    let mut game = Game::new(Board::reference(), MovementPolicy::Clamped, 3, 2);
    let e1 = game.frame(HeldKeys::only(Direction::Right), 1);
    assert_eq!(e1, FrameEvents { moved: false, spawned: false });
    assert_eq!(game.food, None);
    let e2 = game.frame(HeldKeys::none(), 1);
    assert_eq!(e2, FrameEvents { moved: false, spawned: true });
    let food = game.food.expect("food after the spawn timer fired");
    assert!(game.board.has_cell(food.position));
    assert_eq!(game.snake.segments, vec![at(3, 3), at(3, 2)]);
    assert_eq!(game.snake.head.direction, Direction::Right);
}

#[test]
fn respawned_snake_replaces_the_old_one() {
    let mut game = new_game();
    game.snake_movement_input(HeldKeys::only(Direction::Left));
    game.snake_movement(MOVE_PERIOD);
    game.food = Some(Food { position: at(1, 1) });
    game.spawn_snake();
    assert_eq!(game.snake.segments, vec![at(3, 3), at(3, 2)]);
    assert_eq!(game.snake.head, SnakeHead::new(Direction::Up));
    assert_eq!(game.food, Some(Food { position: at(1, 1) }));
    assert_eq!(game.movement_timer.elapsed, 0);
}

#[test]
fn square_sizes() {
    assert_eq!(Size::square(80), Size { width: 80, height: 80 });
    assert_eq!(EntityKind::Head.footprint(), Size::square(HEAD_FOOTPRINT));
    assert_eq!(EntityKind::Segment.footprint(), Size { width: 65, height: 65 });
    assert_eq!(EntityKind::Food.footprint(), Size::square(FOOD_FOOTPRINT));
    assert_eq!(SEGMENT_FOOTPRINT, 65);
}

#[test]
fn render_feed_lists_every_entity() {
    let mut game = new_game();
    game.snake.spawn_segment(at(3, 1));
    assert_eq!(
        game.render_feed(),
        vec![
            RenderItem { kind: EntityKind::Head, position: at(3, 3), size: Size::square(80) },
            RenderItem { kind: EntityKind::Segment, position: at(3, 2), size: Size::square(65) },
            RenderItem { kind: EntityKind::Segment, position: at(3, 1), size: Size::square(65) },
        ]
    );
    game.food = Some(Food { position: at(7, 8) });
    let feed = game.render_feed();
    assert_eq!(feed.len(), 4);
    assert_eq!(
        feed[3],
        RenderItem { kind: EntityKind::Food, position: at(7, 8), size: Size::square(80) }
    );
}

#[test]
fn random_food_is_what_some_draws_choose() {
    // On an axis of 2^25 cells a draw of 24 bits can only choose even cells.
    let board = Board { width: 1 << 25, height: 1 };
    for _ in 0..1_000 {
        let food = Food::random(&board);
        assert_eq!(food.position.x % 2, 0);
        assert_eq!(food.position.y, 0);
        assert!(board.has_cell(food.position));
    }
    assert_eq!(Food::at_draws(&board, 0x0000_0300, 0).position.x, 6);
}
