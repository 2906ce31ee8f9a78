//! What holds of every game, proved from the rules.

use crate::grid::{Key, SnakeDirection, SnakePosition, CORDINATE_INCREMENTOR};
use crate::rules::{
    cell, field_height, field_width, free_cells, grid_cells, in_field, initial_snake, is_free,
    relocated, stepped, touches_itself, within_reach, wrapped, GameState,
};
use vstd::prelude::*;
use vstd::seq_lib::seq_to_set_is_finite;
use vstd::set_lib::lemma_len_subset;

verus! {

/// An arrow key that does not ask for a turn straight back sets the
/// direction to the one it asks for. A key that asks for a turn straight
/// back, or no arrow key, leaves the direction as it is. Nothing else
/// changes.
pub proof fn key_press_turns_unless_reversed(state: GameState, key: Key)
    ensures
        forall|wanted: SnakeDirection|
            key.asked() == Some(wanted) && wanted != state.direction.reverse()
                ==> state.key_pressed(key).direction == wanted,
        key.asked() == Some(state.direction.reverse()) ==> state.key_pressed(key) == state,
        key.asked() is None ==> state.key_pressed(key) == state,
        state.key_pressed(key) == (GameState {
            direction: state.key_pressed(key).direction,
            ..state
        }),
        state.valid() ==> state.key_pressed(key).valid(),
{
}

/// A new game has a snake of three cells along the top row, the head at the
/// third column, and runs.
pub proof fn new_game_starts_with_three_cells(food: SnakePosition)
    ensures
        GameState::started(food).snake.len() == 3,
        GameState::started(food).snake[0] == (SnakePosition { x: 50, y: 0 }),
        GameState::started(food).snake[1] == (SnakePosition { x: 25, y: 0 }),
        GameState::started(food).snake[2] == (SnakePosition { x: 0, y: 0 }),
        GameState::started(food).direction == SnakeDirection::Right,
        GameState::started(food).food == food,
        !GameState::started(food).game_over,
        GameState::started(food).valid(),
{
}

/// When a move falls due for a snake that does not touch itself, whose head
/// stands where no wall is to be crossed, and that does not reach the food:
/// the head goes one cell on in the direction of travel, one cell to the
/// right if that is the direction, every other cell goes where the cell
/// before it was, and the length stays.
pub proof fn move_shifts_every_cell(state: GameState, dt: int, new_food: SnakePosition)
    requires
        state.valid(),
        state.move_due(dt),
        !touches_itself(state.snake),
        wrapped(state.snake[0]) == state.snake[0],
        !state.move_eats(),
    ensures
        state.advanced(dt, new_food).snake.len() == state.snake.len(),
        state.advanced(dt, new_food).snake[0] == stepped(state.snake[0], state.direction),
        state.direction == SnakeDirection::Right ==> {
            &&& state.advanced(dt, new_food).snake[0].x == state.snake[0].x
                + CORDINATE_INCREMENTOR
            &&& state.advanced(dt, new_food).snake[0].y == state.snake[0].y
        },
        forall|i: int|
            1 <= i < state.snake.len() ==> #[trigger] state.advanced(dt, new_food).snake[i]
                == state.snake[i - 1],
        state.advanced(dt, new_food).food == state.food,
{
    assert(state.snake.update(0, state.snake[0]) =~= state.snake);
}

/// Every free cell is a cell of the field that the snake does not hold.
pub proof fn free_cells_are_free(snake: Seq<SnakePosition>, pick: int)
    requires
        0 <= pick < free_cells(snake).len(),
    ensures
        !snake.contains(free_cells(snake)[pick]),
        grid_cells().contains(free_cells(snake)[pick]),
        free_cells(snake)[pick].on_grid(),
        0 <= free_cells(snake)[pick].x < field_width(),
        0 <= free_cells(snake)[pick].y < field_height(),
{
    let spot = free_cells(snake)[pick];
    grid_cells().lemma_filter_pred(is_free(snake), pick);
    assert(free_cells(snake).contains(spot));
    grid_cells().lemma_filter_contains_rev(is_free(snake), spot);
    let number = choose|number: int|
        0 <= number < grid_cells().len() && grid_cells()[number] == spot;
    assert(spot == cell(number % 32, number / 32));
}

/// A snake with fewer cells than the field leaves a cell of the field free.
pub proof fn short_snake_leaves_room(snake: Seq<SnakePosition>)
    requires
        snake.len() < grid_cells().len(),
    ensures
        free_cells(snake).len() > 0,
{
    let cells = grid_cells();
    if free_cells(snake).len() == 0 {
        assert forall|spot: SnakePosition| cells.to_set().contains(spot) implies snake.to_set()
            .contains(spot) by {
            let number = choose|number: int| 0 <= number < cells.len() && cells[number] == spot;
            if !snake.contains(spot) {
                cells.lemma_filter_contains(is_free(snake), number);
            }
        }
        assert forall|i: int, j: int|
            0 <= i < cells.len() && 0 <= j < cells.len() && i != j implies cells[i] != cells[j] by {
            assert(i % 32 != j % 32 || i / 32 != j / 32);
        }
        cells.unique_seq_to_set();
        seq_to_set_is_finite(snake);
        lemma_len_subset(cells.to_set(), snake.to_set());
        snake.lemma_cardinality_of_set();
    }
}

/// When a move puts the head on the food and the snake leaves a cell of the
/// field free: the food goes to a cell that no part of the snake holds, and
/// the snake is longer by exactly one cell, which lies on top of the cell
/// before it.
pub proof fn eating_moves_food_and_grows_snake(state: GameState, dt: int, new_food: SnakePosition)
    requires
        state.valid(),
        state.eats_within(dt),
        relocated(state.snake_after_move(), state.food, new_food),
        free_cells(state.snake_after_move()).len() > 0,
    ensures
        !state.advanced(dt, new_food).snake.contains(state.advanced(dt, new_food).food),
        grid_cells().contains(state.advanced(dt, new_food).food),
        state.advanced(dt, new_food).snake.len() == state.snake.len() + 1,
        state.advanced(dt, new_food).snake.take(state.snake.len() as int)
            == state.snake_after_move(),
        state.advanced(dt, new_food).snake.last() == state.snake_after_move().last(),
{
    let moved_snake = state.snake_after_move();
    let after = state.advanced(dt, new_food);
    let pick = choose|pick: int|
        0 <= pick < free_cells(moved_snake).len() && free_cells(moved_snake)[pick] == new_food;
    free_cells_are_free(moved_snake, pick);
    assert(after.snake.take(state.snake.len() as int) =~= moved_snake);
    assert forall|i: int| 0 <= i < after.snake.len() implies after.snake[i] != new_food by {
        if i < moved_snake.len() {
            assert(moved_snake[i] == after.snake[i]);
        } else {
            assert(after.snake[i] == moved_snake[moved_snake.len() - 1]);
        }
    }
}

/// When a move falls due for a snake whose head lies on another of its
/// cells, the game starts over: the snake is back to its first three cells,
/// heading right, and the game counts as over.
pub proof fn collision_restarts_game(state: GameState, dt: int, new_food: SnakePosition)
    requires
        state.valid(),
        state.move_due(dt),
        touches_itself(state.snake),
    ensures
        state.advanced(dt, new_food) == GameState::restarted(),
        state.advanced(dt, new_food).snake == initial_snake(),
        state.advanced(dt, new_food).snake.len() == 3,
        state.advanced(dt, new_food).direction == SnakeDirection::Right,
        state.advanced(dt, new_food).game_over,
{
}

/// A head that has left the field on one side comes back in on the other:
/// past the last column to the first, before the first column to the line
/// past the last, and likewise for the rows. The rows go first: the columns
/// are mended only while the head stands within the rows. A head that may
/// be reached in play stands inside the field afterwards.
pub proof fn wrap_enters_on_other_side(head: SnakePosition)
    ensures
        head.y < 0 ==> wrapped(head) == (SnakePosition { x: head.x, y: 600 }),
        head.y > 600 ==> wrapped(head) == (SnakePosition { x: head.x, y: 0 }),
        0 <= head.y <= 600 && head.x < 0 ==> wrapped(head) == (SnakePosition { x: 800, y: head.y }),
        0 <= head.y <= 600 && head.x > 775 ==> wrapped(head) == (SnakePosition { x: 0, y: head.y }),
        0 <= head.y <= 600 && 0 <= head.x <= 775 ==> wrapped(head) == head,
        within_reach(head) ==> in_field(wrapped(head)),
        head.on_grid() ==> wrapped(head).on_grid(),
{
}

/// Time and moves keep a game in a state that play can reach, whatever
/// cell the food goes to, and leave no move owed.
pub proof fn advance_keeps_valid(state: GameState, dt: int, new_food: SnakePosition)
    requires
        state.valid(),
        dt >= 0,
    ensures
        state.advanced(dt, new_food).valid(),
        !state.advanced(dt, new_food).should_move,
{
    if state.move_due(dt) && !touches_itself(state.snake) {
        let head = state.snake[0];
        assert(in_field(wrapped(head)));
        assert(wrapped(head).on_grid());
        let moved_snake = state.snake_after_move();
        assert(moved_snake[0] == stepped(wrapped(head), state.direction));
        assert(within_reach(moved_snake[0]));
        assert forall|i: int| 0 <= i < moved_snake.len() implies (#[trigger] moved_snake[i]).on_grid() by {
            if i > 1 {
                assert(moved_snake[i] == state.snake[i - 1]);
            }
        }
        let after = state.advanced(dt, new_food);
        assert forall|i: int| 0 <= i < after.snake.len() implies (#[trigger] after.snake[i]).on_grid() by {
            if i < moved_snake.len() {
                assert(after.snake[i] == moved_snake[i]);
            } else {
                assert(after.snake[i] == moved_snake[moved_snake.len() - 1]);
            }
        }
    }
}

} // verus!
