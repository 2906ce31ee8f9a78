//! The rules of the game, stated over a mathematical picture of its state.
//!
//! Nothing here runs: these are the definitions that the contracts of the
//! executable game speak of.

use crate::grid::{
    coordinate_of, turned, Key, SnakeDirection, SnakePosition, CORDINATE_INCREMENTOR, MOVING_TIME,
    SCREEN_HEIGHT, SCREEN_WIDTH,
};
use vstd::prelude::*;

verus! {

/// The state of a game as the rules see it.
pub struct GameState {
    /// The snake's cells, head first.
    pub snake: Seq<SnakePosition>,
    /// Where the food lies.
    pub food: SnakePosition,
    /// Where the snake is heading.
    pub direction: SnakeDirection,
    /// Microseconds waited since the last move.
    pub waited: int,
    /// Set while a move is owed.
    pub should_move: bool,
    /// Set when the game starts over, cleared when the timer next runs out.
    pub game_over: bool,
}

/// Pixel coordinate just past the last column.
pub open spec fn field_width() -> int {
    coordinate_of(SCREEN_WIDTH as int)
}

/// Pixel coordinate just past the last row.
pub open spec fn field_height() -> int {
    coordinate_of(SCREEN_HEIGHT as int)
}

/// The cell with the given column and row.
pub open spec fn cell(column: int, row: int) -> SnakePosition {
    SnakePosition { x: coordinate_of(column) as i64, y: coordinate_of(row) as i64 }
}

/// The snake that every game starts with: three cells along the top row,
/// the head rightmost.
pub open spec fn initial_snake() -> Seq<SnakePosition> {
    seq![cell(2, 0), cell(1, 0), cell(0, 0)]
}

/// Where the food lies after a restart.
pub open spec fn restart_food() -> SnakePosition {
    cell(5, 5)
}

/// The head stands on a cell that another part of the snake holds too.
pub open spec fn touches_itself(snake: Seq<SnakePosition>) -> bool {
    exists|i: int| 1 <= i < snake.len() && #[trigger] snake[i] == snake[0]
}

/// The head stands between the outer grid lines of the field, these included.
pub open spec fn in_field(head: SnakePosition) -> bool {
    0 <= head.x <= field_width() && 0 <= head.y <= field_height()
}

/// The head is at most one step outside the field, and outside it along one
/// axis only. Every head that a game can reach stands so.
pub open spec fn within_reach(head: SnakePosition) -> bool {
    &&& -CORDINATE_INCREMENTOR <= head.x <= field_width() + CORDINATE_INCREMENTOR
    &&& -CORDINATE_INCREMENTOR <= head.y <= field_height() + CORDINATE_INCREMENTOR
    &&& (head.y < 0 || head.y > field_height()) ==> 0 <= head.x <= field_width()
}

/// A head that has left the field comes back in on the other side. One axis
/// is mended at a time: the rows first, then the columns.
pub open spec fn wrapped(head: SnakePosition) -> SnakePosition {
    if head.y < 0 {
        SnakePosition { x: head.x, y: field_height() as i64 }
    } else if head.y > field_height() {
        SnakePosition { x: head.x, y: 0 }
    } else if head.x < 0 {
        SnakePosition { x: field_width() as i64, y: head.y }
    } else if head.x > field_width() - CORDINATE_INCREMENTOR {
        SnakePosition { x: 0, y: head.y }
    } else {
        head
    }
}

/// A step from `head` in any direction stays within the numbers that a
/// coordinate can hold.
pub open spec fn can_step(head: SnakePosition) -> bool {
    &&& i64::MIN + CORDINATE_INCREMENTOR <= head.x <= i64::MAX - CORDINATE_INCREMENTOR
    &&& i64::MIN + CORDINATE_INCREMENTOR <= head.y <= i64::MAX - CORDINATE_INCREMENTOR
}

/// The cell one step from `head` in the given direction.
pub open spec fn stepped(head: SnakePosition, direction: SnakeDirection) -> SnakePosition {
    match direction {
        SnakeDirection::Up => SnakePosition { x: head.x, y: (head.y - CORDINATE_INCREMENTOR) as i64 },
        SnakeDirection::Down => SnakePosition {
            x: head.x,
            y: (head.y + CORDINATE_INCREMENTOR) as i64,
        },
        SnakeDirection::Right => SnakePosition {
            x: (head.x + CORDINATE_INCREMENTOR) as i64,
            y: head.y,
        },
        SnakeDirection::Left => SnakePosition {
            x: (head.x - CORDINATE_INCREMENTOR) as i64,
            y: head.y,
        },
    }
}

/// The snake with its head brought back into the field.
pub open spec fn crossed(snake: Seq<SnakePosition>) -> Seq<SnakePosition> {
    if snake.len() == 0 {
        snake
    } else {
        snake.update(0, wrapped(snake[0]))
    }
}

/// The snake one move on: the head takes a step, and every other cell goes
/// where the cell before it was.
pub open spec fn moved(snake: Seq<SnakePosition>, direction: SnakeDirection) -> Seq<
    SnakePosition,
> {
    Seq::new(
        snake.len(),
        |i: int|
            if i == 0 {
                stepped(snake[0], direction)
            } else {
                snake[i - 1]
            },
    )
}

/// The snake with one more cell at its end, on top of the last one.
pub open spec fn grown(snake: Seq<SnakePosition>) -> Seq<SnakePosition> {
    if snake.len() == 0 {
        snake
    } else {
        snake.push(snake.last())
    }
}

/// The cell with the given number, counting along the rows from the top left.
pub open spec fn grid_cell(number: int) -> SnakePosition {
    cell(number % (SCREEN_WIDTH as int), number / (SCREEN_WIDTH as int))
}

/// Every cell of the field, row by row from the top left.
pub open spec fn grid_cells() -> Seq<SnakePosition> {
    Seq::new((SCREEN_WIDTH * SCREEN_HEIGHT) as nat, |number: int| grid_cell(number))
}

/// The test that a cell passes when the snake does not hold it.
pub open spec fn is_free(snake: Seq<SnakePosition>) -> spec_fn(SnakePosition) -> bool {
    |spot: SnakePosition| !snake.contains(spot)
}

/// The cells of the field that the snake does not hold, in the order of
/// `grid_cells`.
pub open spec fn free_cells(snake: Seq<SnakePosition>) -> Seq<SnakePosition> {
    grid_cells().filter(is_free(snake))
}

/// What new food may be: any free cell; where the snake has left none, the
/// food stays where it was.
pub open spec fn relocated(
    snake: Seq<SnakePosition>,
    old_food: SnakePosition,
    new_food: SnakePosition,
) -> bool {
    if free_cells(snake).len() == 0 {
        new_food == old_food
    } else {
        free_cells(snake).contains(new_food)
    }
}

impl GameState {
    /// What holds of every state that a game can be in.
    pub open spec fn valid(self) -> bool {
        &&& self.snake.len() >= 3
        &&& forall|i: int| 0 <= i < self.snake.len() ==> (#[trigger] self.snake[i]).on_grid()
        &&& within_reach(self.snake[0])
        &&& 0 <= self.waited <= MOVING_TIME
    }

    /// The state of a new game with the food at the given place.
    pub open spec fn started(food: SnakePosition) -> GameState {
        GameState {
            snake: initial_snake(),
            food,
            direction: SnakeDirection::Right,
            waited: 0,
            should_move: false,
            game_over: false,
        }
    }

    /// The state after the snake has run into itself.
    pub open spec fn restarted() -> GameState {
        GameState {
            snake: initial_snake(),
            food: restart_food(),
            direction: SnakeDirection::Right,
            waited: 0,
            should_move: false,
            game_over: true,
        }
    }

    /// The state after a key press.
    pub open spec fn key_pressed(self, key: Key) -> GameState {
        GameState { direction: turned(self.direction, key), ..self }
    }

    /// The state once `dt` more microseconds are counted: a snake that has
    /// then waited longer than `MOVING_TIME` owes a move, its timer starts
    /// anew, and a game that was over runs again.
    pub open spec fn timed(self, dt: int) -> GameState {
        if self.waited + dt > MOVING_TIME {
            GameState { waited: 0, should_move: true, game_over: false, ..self }
        } else {
            GameState { waited: self.waited + dt, ..self }
        }
    }

    /// After `dt` more microseconds the snake owes a move.
    pub open spec fn move_due(self, dt: int) -> bool {
        self.timed(dt).should_move
    }

    /// The snake as it stands after a move from this state.
    pub open spec fn snake_after_move(self) -> Seq<SnakePosition> {
        moved(crossed(self.snake), self.direction)
    }

    /// A move from this state puts the head on the food.
    pub open spec fn move_eats(self) -> bool {
        self.snake_after_move()[0] == self.food
    }

    /// The state after the move that was owed, with `new_food` as the place
    /// of the food if the snake eats: a snake that touches itself starts
    /// over; any other snake crosses the wall where it has to and moves one
    /// cell, and if its head then lies on the food, it grows and the food
    /// goes elsewhere.
    pub open spec fn after_move(self, new_food: SnakePosition) -> GameState {
        if touches_itself(self.snake) {
            GameState::restarted()
        } else if self.move_eats() {
            GameState {
                snake: grown(self.snake_after_move()),
                food: new_food,
                should_move: false,
                ..self
            }
        } else {
            GameState { snake: self.snake_after_move(), should_move: false, ..self }
        }
    }

    /// The state after `dt` more microseconds, with `new_food` as the place
    /// of the food if the snake eats.
    pub open spec fn advanced(self, dt: int, new_food: SnakePosition) -> GameState {
        if self.move_due(dt) {
            self.timed(dt).after_move(new_food)
        } else {
            self.timed(dt)
        }
    }

    /// After `dt` more microseconds the snake moves and eats.
    pub open spec fn eats_within(self, dt: int) -> bool {
        self.move_due(dt) && !touches_itself(self.snake) && self.move_eats()
    }
}

} // verus!
