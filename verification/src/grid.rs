//! The playing field: its measures, its cells, directions and keys.

use vstd::prelude::*;

verus! {

/// Rows of the playing field.
pub const SCREEN_HEIGHT: i32 = 24;

/// Columns of the playing field.
pub const SCREEN_WIDTH: i32 = 32;

/// Side of one cell, in pixel units.
pub const CORDINATE_INCREMENTOR: i64 = 25;

/// Time between two moves of the snake, in microseconds.
pub const MOVING_TIME: u64 = 100_000;

/// Pixel coordinate of the grid line with the given index.
pub open spec fn coordinate_of(incr: int) -> int {
    incr * CORDINATE_INCREMENTOR
}

/// Turns a grid index into a pixel coordinate.
pub fn to_coordinate(incr: i32) -> (pixels: i64)
    ensures
        pixels == coordinate_of(incr as int),
    no_unwind
{
    (incr as i64) * CORDINATE_INCREMENTOR
}

/// A point of the field, in pixel units.
#[derive(Clone, Copy, Debug, PartialEq, Eq, Structural)]
pub struct SnakePosition {
    pub x: i64,
    pub y: i64,
}

impl SnakePosition {
    /// The origin of the field.
    pub fn new() -> (origin: Self)
        ensures
            origin == (SnakePosition { x: 0, y: 0 }),
    {
        SnakePosition { x: 0, y: 0 }
    }

    /// Both coordinates lie on grid lines.
    pub open spec fn on_grid(self) -> bool {
        (self.x as int) % (CORDINATE_INCREMENTOR as int) == 0 && (self.y as int) % (
        CORDINATE_INCREMENTOR as int) == 0
    }
}

/// The four ways the snake can travel.
#[derive(Clone, Copy, Debug, PartialEq, Eq, Structural)]
pub enum SnakeDirection {
    Up,
    Down,
    Right,
    Left,
}

impl SnakeDirection {
    /// The direction that points the other way.
    pub open spec fn reverse(self) -> SnakeDirection {
        match self {
            SnakeDirection::Up => SnakeDirection::Down,
            SnakeDirection::Down => SnakeDirection::Up,
            SnakeDirection::Right => SnakeDirection::Left,
            SnakeDirection::Left => SnakeDirection::Right,
        }
    }

    /// Whether `other` points exactly the other way.
    pub fn is_opposite(self, other: SnakeDirection) -> (opposite: bool)
        ensures
            opposite == (other == self.reverse()),
    {
        match (self, other) {
            (SnakeDirection::Up, SnakeDirection::Down) => true,
            (SnakeDirection::Down, SnakeDirection::Up) => true,
            (SnakeDirection::Right, SnakeDirection::Left) => true,
            (SnakeDirection::Left, SnakeDirection::Right) => true,
            _ => false,
        }
    }
}

/// A key press as the game sees it: an arrow key, or anything else.
#[derive(Clone, Copy, Debug, PartialEq, Eq, Structural)]
pub enum Key {
    Up,
    Down,
    Left,
    Right,
    Other,
}

impl Key {
    /// The direction that the key asks for, if it is an arrow key.
    pub open spec fn asked(self) -> Option<SnakeDirection> {
        match self {
            Key::Up => Some(SnakeDirection::Up),
            Key::Down => Some(SnakeDirection::Down),
            Key::Left => Some(SnakeDirection::Left),
            Key::Right => Some(SnakeDirection::Right),
            Key::Other => None,
        }
    }
}

/// The direction after a key press: the one asked for, unless the key is no
/// arrow key or asks for a turn straight back.
pub open spec fn turned(current: SnakeDirection, key: Key) -> SnakeDirection {
    match key.asked() {
        Some(wanted) => if wanted == current.reverse() { current } else { wanted },
        None => current,
    }
}

} // verus!
