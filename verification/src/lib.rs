//! A snake game on a fixed grid, as a state machine with verified rules.
//!
//! The game keeps a snake (head first), one piece of food, the direction of
//! travel and a timer. A host feeds it key presses and elapsed time, and asks
//! it for the shapes to paint. All coordinates are whole pixel units and all
//! times whole microseconds, so that every rule can be stated over integers.

pub mod food;
pub mod game;
pub mod grid;
pub mod laws;
pub mod rules;
pub mod scene;
pub mod snake;

pub use crate::game::GamePosition;
pub use crate::grid::{
    to_coordinate, Key, SnakeDirection, SnakePosition, CORDINATE_INCREMENTOR, MOVING_TIME,
    SCREEN_HEIGHT, SCREEN_WIDTH,
};
pub use crate::scene::{Color, Shape};
