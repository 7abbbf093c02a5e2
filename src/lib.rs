//! The simulation core of a Snake game on a toroidal board: positions and
//! directions with wrapping moves, the snake's tick rule, and a game session
//! that owns the snake, the food and a pseudo-random generator.

pub mod game;
pub mod position;
pub mod rng;
pub mod snake;

pub use game::GameState;
pub use position::{Direction, Position, BOARD_H, BOARD_W};
pub use snake::{Food, Snake, Touched};
