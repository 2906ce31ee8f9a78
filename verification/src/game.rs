//! The game itself: the state that runs, and the steps that change it.

use crate::food::{free_cells_of, random_below};
use crate::grid::{
    to_coordinate, Key, SnakeDirection, SnakePosition, CORDINATE_INCREMENTOR, MOVING_TIME,
};
use crate::rules::{
    crossed, free_cells, grown, in_field, moved, relocated, touches_itself, GameState,
};
use crate::scene::{food_shape, picture, snake_shapes, Color, Shape};
use crate::snake::{cross_wall, first_snake, lengthened, shift_forward, touches};
use vstd::prelude::*;

verus! {

/// A running game.
pub struct GamePosition {
    snake_body: Vec<SnakePosition>,
    food_x: i64,
    food_y: i64,
    direction: SnakeDirection,
    waitime_time: u64,
    should_move: bool,
    game_over: bool,
}

impl View for GamePosition {
    type V = GameState;

    closed spec fn view(&self) -> GameState {
        GameState {
            snake: self.snake_body@,
            food: SnakePosition { x: self.food_x, y: self.food_y },
            direction: self.direction,
            waited: self.waitime_time as int,
            should_move: self.should_move,
            game_over: self.game_over,
        }
    }
}

impl GamePosition {
    /// The game is in a state that play can reach. This holds of every game
    /// at all times.
    pub open spec fn wf(&self) -> bool {
        self@.valid()
    }

    #[verifier::type_invariant]
    spec fn always_wf(&self) -> bool {
        self.wf()
    }

    /// A new game: the snake in its first place, heading right, and the food
    /// where the caller puts it.
    pub fn new(food_x: i64, food_y: i64) -> (game: Self)
        ensures
            game@ == GameState::started(SnakePosition { x: food_x, y: food_y }),
            game.wf(),
    {
        GamePosition {
            snake_body: first_snake(),
            food_x,
            food_y,
            direction: SnakeDirection::Right,
            waitime_time: 0,
            should_move: false,
            game_over: false,
        }
    }

    /// Takes a key press: an arrow key turns the snake, unless it asks for a
    /// turn straight back; any other key does nothing. The snake does not
    /// move.
    pub fn check_key_event(&mut self, key: Key)
        ensures
            final(self)@ == old(self)@.key_pressed(key),
            final(self).wf(),
    {
        proof {
            use_type_invariant(&*self);
        }
        let wanted: SnakeDirection = match key {
            Key::Up => SnakeDirection::Up,
            Key::Down => SnakeDirection::Down,
            Key::Left => SnakeDirection::Left,
            Key::Right => SnakeDirection::Right,
            Key::Other => {
                return ;
            },
        };
        if !self.direction.is_opposite(wanted) {
            self.direction = wanted;
        }
    }

    /// Whether the head stands on a cell that another part of the snake
    /// holds too.
    pub fn has_snake_touched_itself(&self) -> (touched: bool)
        ensures
            touched == touches_itself(self@.snake),
    {
        touches(&self.snake_body)
    }

    /// Starts over after the snake has run into itself: the snake goes back
    /// to its first place, heading right, the food to its restart place, the
    /// timer to zero, and the game counts as over.
    pub fn restart_game(&mut self)
        ensures
            final(self)@ == GameState::restarted(),
            final(self).wf(),
    {
        proof {
            use_type_invariant(&*self);
        }
        self.direction = SnakeDirection::Right;
        self.snake_body = first_snake();
        self.food_x = to_coordinate(5);
        self.food_y = to_coordinate(5);
        self.waitime_time = 0;
        self.should_move = false;
        self.game_over = true;
    }

    /// Brings a head that has left the field back in on the other side. Only
    /// one axis is mended per call, the rows before the columns.
    pub fn let_wall_cross(&mut self)
        ensures
            final(self)@ == (GameState { snake: crossed(old(self)@.snake), ..old(self)@ }),
            final(self).wf(),
            in_field(final(self)@.snake[0]),
    {
        proof {
            use_type_invariant(&*self);
        }
        cross_wall(&mut self.snake_body);
    }

    /// Moves the snake by one cell: the head takes a step in the current
    /// direction, and every other cell goes where the cell before it was.
    /// The head must stand inside the field, as `let_wall_cross` leaves it.
    fn move_forward(&mut self)
        requires
            in_field(old(self)@.snake[0]),
        ensures
            final(self)@ == (GameState {
                snake: moved(old(self)@.snake, old(self)@.direction),
                ..old(self)@
            }),
            final(self).wf(),
    {
        proof {
            use_type_invariant(&*self);
        }
        shift_forward(&mut self.snake_body, self.direction);
    }

    /// Whether the head stands on the food.
    pub fn snake_ate_food(&self) -> (ate: bool)
        ensures
            ate == (self@.snake[0] == self@.food),
    {
        proof {
            use_type_invariant(self);
        }
        let head: SnakePosition = self.snake_body[0];
        head.x == self.food_x && head.y == self.food_y
    }

    /// Puts the food on the free cell with the given number, counting the
    /// free cells row by row from the top left. Where there is no such cell
    /// the food stays, and the answer is `false`.
    pub fn place_food(&mut self, pick: usize) -> (placed: bool)
        ensures
            placed == (pick < free_cells(old(self)@.snake).len()),
            placed ==> final(self)@ == (GameState {
                food: free_cells(old(self)@.snake)[pick as int],
                ..old(self)@
            }),
            !placed ==> final(self)@ == old(self)@,
            final(self).wf(),
    {
        proof {
            use_type_invariant(&*self);
        }
        let free: Vec<SnakePosition> = free_cells_of(&self.snake_body);
        if pick < free.len() {
            let spot: SnakePosition = free[pick];
            self.food_x = spot.x;
            self.food_y = spot.y;
            true
        } else {
            false
        }
    }

    /// Puts the food on a free cell drawn at random, each free cell being as
    /// likely as any other. Where the snake has left no cell free, the food
    /// stays where it is.
    pub fn generate_food(&mut self)
        ensures
            final(self)@ == (GameState { food: final(self)@.food, ..old(self)@ }),
            relocated(old(self)@.snake, old(self)@.food, final(self)@.food),
            final(self).wf(),
    {
        proof {
            use_type_invariant(&*self);
        }
        let free: Vec<SnakePosition> = free_cells_of(&self.snake_body);
        if free.len() > 0 {
            let pick: usize = random_below(free.len());
            let spot: SnakePosition = free[pick];
            self.food_x = spot.x;
            self.food_y = spot.y;
        }
    }

    /// Lets the snake grow by one cell, laid on top of its last one: the two
    /// part at the next move.
    pub fn add_snake_length(&mut self)
        ensures
            final(self)@ == (GameState { snake: grown(old(self)@.snake), ..old(self)@ }),
            final(self).wf(),
    {
        proof {
            use_type_invariant(&*self);
        }
        self.snake_body = lengthened(&self.snake_body);
    }

    /// Lets `dt` microseconds pass. Once the snake has waited longer than
    /// `MOVING_TIME`, the timer starts anew and the snake makes its move: a
    /// snake that touches itself starts over; any other snake crosses the
    /// wall where it has to, moves one cell, and where its head then lies on
    /// the food, the food goes to a free cell and the snake grows.
    ///
    /// Which free cell the food goes to is drawn at random; all else is
    /// settled by the state before.
    pub fn update_time(&mut self, dt: u64)
        ensures
            final(self).wf(),
            final(self)@ == old(self)@.advanced(dt as int, final(self)@.food),
            old(self)@.eats_within(dt as int) ==> relocated(
                old(self)@.snake_after_move(),
                old(self)@.food,
                final(self)@.food,
            ),
    {
        proof {
            use_type_invariant(&*self);
        }
        if dt > MOVING_TIME - self.waitime_time {
            self.should_move = true;
            self.waitime_time = 0;
            if self.game_over {
                self.game_over = false;
            }
        } else {
            self.waitime_time = self.waitime_time + dt;
        }
        if self.should_move {
            self.should_move = false;
            if self.has_snake_touched_itself() {
                self.restart_game();
                return ;
            }
            self.let_wall_cross();
            self.move_forward();
            if self.snake_ate_food() {
                self.generate_food();
                self.add_snake_length();
            }
        }
    }

    /// The shapes to paint, in the order to paint them.
    pub fn draw(&self) -> (shapes: Vec<Shape>)
        ensures
            shapes@ == picture(self@),
    {
        let mut shapes: Vec<Shape> = Vec::new();
        if self.game_over {
            shapes.push(Shape::Clear { color: Color { red: 0, green: 0, blue: 0, alpha: 10 } });
        } else {
            shapes.push(Shape::Clear { color: Color { red: 10, green: 10, blue: 10, alpha: 10 } });
            self.draw_snake(&mut shapes);
            self.draw_food(&mut shapes);
        }
        shapes
    }

    /// Adds the snake to the shapes to paint: one disc for each cell, head
    /// first, the head in a stronger colour than the rest.
    pub fn draw_snake(&self, shapes: &mut Vec<Shape>)
        ensures
            final(shapes)@ == old(shapes)@ + snake_shapes(self@.snake),
    {
        let ghost before = shapes@;
        let mut is_first: bool = true;
        let mut index: usize = 0;
        while index < self.snake_body.len()
            invariant
                index <= self.snake_body.len(),
                is_first == (index == 0),
                shapes@ == before + snake_shapes(self@.snake).take(index as int),
            decreases self.snake_body.len() - index,
        {
            let part: SnakePosition = self.snake_body[index];
            let color = if is_first {
                Color { red: 0, green: 10, blue: 0, alpha: 18 }
            } else {
                Color { red: 0, green: 10, blue: 0, alpha: 8 }
            };
            shapes.push(
                Shape::Ellipse {
                    color,
                    x: part.x,
                    y: part.y,
                    width: CORDINATE_INCREMENTOR,
                    height: CORDINATE_INCREMENTOR,
                },
            );
            if is_first {
                is_first = false;
            }
            index += 1;
        }
        assert(snake_shapes(self@.snake).take(index as int) =~= snake_shapes(self@.snake));
    }

    /// Adds the food to the shapes to paint: a square on its cell.
    pub fn draw_food(&self, shapes: &mut Vec<Shape>)
        ensures
            final(shapes)@ == old(shapes)@.push(food_shape(self@.food)),
    {
        shapes.push(
            Shape::Rectangle {
                color: Color { red: 10, green: 0, blue: 0, alpha: 10 },
                x: self.food_x,
                y: self.food_y,
                width: CORDINATE_INCREMENTOR,
                height: CORDINATE_INCREMENTOR,
            },
        );
    }

    /// The snake's cells, head first.
    pub fn snake_body(&self) -> (cells: Vec<SnakePosition>)
        ensures
            cells@ == self@.snake,
    {
        let mut cells: Vec<SnakePosition> = Vec::new();
        let mut index: usize = 0;
        while index < self.snake_body.len()
            invariant
                index <= self.snake_body.len(),
                cells@ == self.snake_body@.take(index as int),
            decreases self.snake_body.len() - index,
        {
            cells.push(self.snake_body[index]);
            index += 1;
        }
        assert(self.snake_body@.take(index as int) =~= self.snake_body@);
        cells
    }

    /// Where the food lies.
    pub fn food(&self) -> (food: SnakePosition)
        ensures
            food == self@.food,
    {
        SnakePosition { x: self.food_x, y: self.food_y }
    }

    /// Where the snake is heading.
    pub fn direction(&self) -> (direction: SnakeDirection)
        ensures
            direction == self@.direction,
    {
        self.direction
    }

    /// Microseconds waited since the last move.
    pub fn waited(&self) -> (waited: u64)
        ensures
            waited == self@.waited,
    {
        self.waitime_time
    }

    /// Whether the game counts as over.
    pub fn is_game_over(&self) -> (over: bool)
        ensures
            over == self@.game_over,
    {
        self.game_over
    }
}

} // verus!
