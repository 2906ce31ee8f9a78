//! Finding room for the food.

use crate::grid::{to_coordinate, SnakePosition, SCREEN_HEIGHT, SCREEN_WIDTH};
use crate::rules::{free_cells, grid_cell, grid_cells, is_free};
use rand::Rng;
use vstd::prelude::*;

verus! {

/// Whether the snake holds the given cell.
pub fn occupies(snake: &Vec<SnakePosition>, spot: SnakePosition) -> (held: bool)
    ensures
        held == snake@.contains(spot),
{
    let mut i: usize = 0;
    while i < snake.len()
        invariant
            i <= snake.len(),
            forall|j: int| 0 <= j < i ==> snake@[j] != spot,
        decreases snake.len() - i,
    {
        let part: SnakePosition = snake[i];
        if part.x == spot.x && part.y == spot.y {
            return true;
        }
        i += 1;
    }
    false
}

/// The cells of the field that the snake does not hold, row by row from the
/// top left.
pub fn free_cells_of(snake: &Vec<SnakePosition>) -> (free: Vec<SnakePosition>)
    ensures
        free@ == free_cells(snake@),
{
    let total: i32 = SCREEN_WIDTH * SCREEN_HEIGHT;
    let mut free: Vec<SnakePosition> = Vec::new();
    let mut number: i32 = 0;
    proof {
        assert(grid_cells().take(0) =~= Seq::<SnakePosition>::empty());
        reveal(Seq::filter);
    }
    while number < total
        invariant
            0 <= number <= total,
            total == SCREEN_WIDTH * SCREEN_HEIGHT,
            free@ == grid_cells().take(number as int).filter(is_free(snake@)),
        decreases total - number,
    {
        let spot = SnakePosition {
            x: to_coordinate(number % SCREEN_WIDTH),
            y: to_coordinate(number / SCREEN_WIDTH),
        };
        let held: bool = occupies(snake, spot);
        proof {
            let before = grid_cells().take(number as int);
            let after = grid_cells().take(number + 1);
            assert(spot == grid_cell(number as int));
            assert(after.drop_last() =~= before);
            assert(after.last() == spot);
            reveal(Seq::filter);
        }
        if !held {
            free.push(spot);
        }
        number += 1;
    }
    assert(grid_cells().take(total as int) =~= grid_cells());
    free
}

/// A number below `bound`, drawn by `rand::Rng::gen_range` from the range
/// `0..bound` on the generator that `rand::thread_rng` hands out.
///
/// Taken on trust, not proved: the number drawn lies in the range. Which
/// number it is stays open, and two calls may differ. `gen_range` panics on
/// an empty range, so the bound must be above zero.
#[verifier::external_body]
pub(crate) fn random_below(bound: usize) -> (drawn: usize)
    requires
        bound > 0,
    ensures
        drawn < bound,
{
    rand::thread_rng().gen_range(0..bound)
}

} // verus!
