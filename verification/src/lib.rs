//! The game-state simulation of a snake on a fixed-size board: headings,
//! input resolution, segment-following movement, food spawning and the two
//! interval timers that pace them.

pub mod direction;
pub mod food;
pub mod game;
pub mod grid;
pub mod input;
pub mod render;
pub mod snake;
pub mod timer;
