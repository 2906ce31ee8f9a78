//! What a game looks like: the shapes to paint, in the order to paint them.
//!
//! The game only says what is to be painted. Putting it on a screen is the
//! host's part.

use crate::grid::{SnakePosition, CORDINATE_INCREMENTOR};
use crate::rules::GameState;
use vstd::prelude::*;

verus! {

/// A colour. Each channel is given in tenths of its full strength.
#[derive(Clone, Copy, Debug, PartialEq, Eq, Structural)]
pub struct Color {
    pub red: u8,
    pub green: u8,
    pub blue: u8,
    pub alpha: u8,
}

/// One thing to paint. A shape with a place fills the box whose top left
/// corner is `(x, y)`.
#[derive(Clone, Copy, Debug, PartialEq, Eq, Structural)]
pub enum Shape {
    /// Fill the whole surface.
    Clear { color: Color },
    /// A filled ellipse.
    Ellipse { color: Color, x: i64, y: i64, width: i64, height: i64 },
    /// A filled rectangle.
    Rectangle { color: Color, x: i64, y: i64, width: i64, height: i64 },
}

/// The colour of the surface while the game is over: black.
pub open spec fn game_over_color() -> Color {
    Color { red: 0, green: 0, blue: 0, alpha: 10 }
}

/// The colour of the surface while the game runs: white.
pub open spec fn background_color() -> Color {
    Color { red: 10, green: 10, blue: 10, alpha: 10 }
}

/// The colour of a cell of the snake: green, the head stronger than the rest.
pub open spec fn snake_color(head: bool) -> Color {
    Color { red: 0, green: 10, blue: 0, alpha: if head { 18 } else { 8 } }
}

/// The colour of the food: red.
pub open spec fn food_color() -> Color {
    Color { red: 10, green: 0, blue: 0, alpha: 10 }
}

/// The shape of one cell of the snake: a disc that fills the cell.
pub open spec fn snake_shape(part: SnakePosition, head: bool) -> Shape {
    Shape::Ellipse {
        color: snake_color(head),
        x: part.x,
        y: part.y,
        width: CORDINATE_INCREMENTOR,
        height: CORDINATE_INCREMENTOR,
    }
}

/// The shapes of the snake, head first.
pub open spec fn snake_shapes(snake: Seq<SnakePosition>) -> Seq<Shape> {
    Seq::new(snake.len(), |i: int| snake_shape(snake[i], i == 0))
}

/// The shape of the food: a square that fills its cell.
pub open spec fn food_shape(food: SnakePosition) -> Shape {
    Shape::Rectangle {
        color: food_color(),
        x: food.x,
        y: food.y,
        width: CORDINATE_INCREMENTOR,
        height: CORDINATE_INCREMENTOR,
    }
}

/// All there is to paint of a game: a black surface while it is over; else
/// a white surface, the snake on it, and the food last.
pub open spec fn picture(state: GameState) -> Seq<Shape> {
    if state.game_over {
        seq![Shape::Clear { color: game_over_color() }]
    } else {
        seq![Shape::Clear { color: background_color() }] + snake_shapes(state.snake)
            + seq![food_shape(state.food)]
    }
}

} // verus!
