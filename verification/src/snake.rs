//! The snake as a list of cells, head first, and what a move does to it.

use crate::grid::{
    to_coordinate, SnakeDirection, SnakePosition, CORDINATE_INCREMENTOR, SCREEN_HEIGHT,
    SCREEN_WIDTH,
};
use crate::rules::{can_step, crossed, grown, initial_snake, moved, touches_itself};
use vstd::prelude::*;

verus! {

/// The three cells that every game starts with, head first.
pub fn first_snake() -> (snake: Vec<SnakePosition>)
    ensures
        snake@ == initial_snake(),
{
    let mut snake: Vec<SnakePosition> = Vec::new();
    snake.push(SnakePosition { x: to_coordinate(2), y: to_coordinate(0) });
    snake.push(SnakePosition { x: to_coordinate(1), y: to_coordinate(0) });
    snake.push(SnakePosition { x: to_coordinate(0), y: to_coordinate(0) });
    assert(snake@ =~= initial_snake());
    snake
}

/// Whether the head stands on a cell that another part of the snake holds
/// too. A snake without cells touches nothing.
pub fn touches(snake: &Vec<SnakePosition>) -> (touched: bool)
    ensures
        touched == touches_itself(snake@),
{
    if snake.len() == 0 {
        return false;
    }
    let head: SnakePosition = snake[0];
    let mut index: usize = 1;
    while index < snake.len()
        invariant
            1 <= index <= snake.len(),
            head == snake@[0],
            forall|j: int| 1 <= j < index ==> snake@[j] != head,
        decreases snake.len() - index,
    {
        let part: SnakePosition = snake[index];
        if head.x == part.x && head.y == part.y {
            return true;
        }
        index += 1;
    }
    false
}

/// Brings a head that has left the field back in on the other side. Only
/// one axis is mended per call, the rows before the columns. A snake without
/// cells stays as it is.
pub fn cross_wall(snake: &mut Vec<SnakePosition>)
    ensures
        final(snake)@ == crossed(old(snake)@),
    no_unwind
{
    if snake.len() == 0 {
        return ;
    }
    let mut head: SnakePosition = snake[0];
    if head.y < 0 {
        head.y = to_coordinate(SCREEN_HEIGHT);
    } else if head.y > to_coordinate(SCREEN_HEIGHT) {
        head.y = 0;
    } else if head.x < 0 {
        head.x = to_coordinate(SCREEN_WIDTH);
    } else if head.x > to_coordinate(SCREEN_WIDTH - 1) {
        head.x = 0;
    }
    snake[0] = head;
}

/// Moves the snake by one cell: the head takes a step in the given
/// direction, and every other cell goes where the cell before it was. A
/// snake without cells stays as it is.
pub fn shift_forward(snake: &mut Vec<SnakePosition>, direction: SnakeDirection)
    requires
        old(snake).len() > 0 ==> can_step(old(snake)@[0]),
    ensures
        final(snake)@ == moved(old(snake)@, direction),
    no_unwind
{
    let ghost before = snake@;
    let mut previous = SnakePosition { x: 0, y: 0 };
    let mut index: usize = 0;
    while index < snake.len()
        invariant
            index <= before.len(),
            snake@.len() == before.len(),
            before.len() > 0 ==> can_step(before[0]),
            index > 0 ==> previous == before[index - 1],
            forall|j: int| 0 <= j < index ==> snake@[j] == moved(before, direction)[j],
            forall|j: int| index <= j < before.len() ==> snake@[j] == before[j],
        decreases before.len() - index,
    {
        let current: SnakePosition = snake[index];
        if index == 0 {
            let mut head: SnakePosition = current;
            match direction {
                SnakeDirection::Up => {
                    head.y = head.y - CORDINATE_INCREMENTOR;
                },
                SnakeDirection::Down => {
                    head.y = head.y + CORDINATE_INCREMENTOR;
                },
                SnakeDirection::Right => {
                    head.x = head.x + CORDINATE_INCREMENTOR;
                },
                SnakeDirection::Left => {
                    head.x = head.x - CORDINATE_INCREMENTOR;
                },
            }
            snake[index] = head;
        } else {
            snake[index] = previous;
        }
        previous = current;
        index += 1;
    }
    assert(snake@ =~= moved(before, direction));
}

/// The snake with one more cell at its end, laid on top of its last one:
/// the two part at the next move. A snake without cells stays as it is.
pub fn lengthened(snake: &Vec<SnakePosition>) -> (longer: Vec<SnakePosition>)
    ensures
        longer@ == grown(snake@),
{
    let mut longer: Vec<SnakePosition> = Vec::new();
    let mut index: usize = 0;
    while index < snake.len()
        invariant
            index <= snake.len(),
            longer@ == snake@.take(index as int),
        decreases snake.len() - index,
    {
        longer.push(snake[index]);
        index += 1;
    }
    assert(snake@.take(index as int) =~= snake@);
    if snake.len() > 0 {
        longer.push(snake[snake.len() - 1]);
    }
    longer
}

} // verus!
