//! A grid snake game's rules: the arena and its cells, the reduction of
//! buffered key presses to one heading per tick, the per-tick advance of the
//! snake's body, apple placement, and the tick that ties them together.

pub mod error;
pub mod geometry;
pub mod direction;
pub mod body;
pub mod spawner;
pub mod game;

pub use error::GameError;
pub use geometry::{Arena, Cell, Heading, MARGIN, PLAY_AREA_SIZE, SNAKE_SEGMENT_SIZE};
pub use direction::{calc_buffered_direction, resolve};
pub use body::{anim_snake_head, calc_next_head};
pub use spawner::{apple_candidate, is_occupied, spawn_apple, SPAWN_ATTEMPTS};
pub use game::{GameState, START_OFFSET, TICK_FRAMES};
