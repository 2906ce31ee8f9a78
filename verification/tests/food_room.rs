use snake_game::food::{free_cells_of, occupies};
use snake_game::grid::SnakePosition;
use snake_game::snake::first_snake;
use snake_game::GamePosition;

fn at(x: i64, y: i64) -> SnakePosition {
    SnakePosition { x, y }
}

#[test]
fn the_snake_holds_its_own_cells_only() {
    let snake = first_snake();
    assert!(occupies(&snake, at(50, 0)));
    assert!(occupies(&snake, at(25, 0)));
    assert!(occupies(&snake, at(0, 0)));
    assert!(!occupies(&snake, at(75, 0)));
    assert!(!occupies(&snake, at(0, 50)));
    assert!(!occupies(&snake, at(50, 25)));
    assert!(!occupies(&Vec::new(), at(0, 0)));
}

#[test]
fn an_empty_field_is_free_row_by_row() {
    let free = free_cells_of(&Vec::new());
    assert_eq!(free.len(), 768);
    assert_eq!(free[0], at(0, 0));
    assert_eq!(free[1], at(25, 0));
    assert_eq!(free[31], at(775, 0));
    assert_eq!(free[32], at(0, 25));
    assert_eq!(free[767], at(775, 575));
    for (number, spot) in free.iter().enumerate() {
        assert_eq!(*spot, at(25 * (number as i64 % 32), 25 * (number as i64 / 32)));
    }
}

#[test]
fn the_cells_of_the_snake_are_not_free() {
    let snake = first_snake();
    let free = free_cells_of(&snake);
    assert_eq!(free.len(), 765);
    assert_eq!(free[0], at(75, 0));
    assert_eq!(free[28], at(775, 0));
    assert_eq!(free[29], at(0, 25));
    assert_eq!(free[764], at(775, 575));
    for spot in &free {
        assert!(!snake.contains(spot));
    }
}

#[test]
fn cells_outside_the_field_or_held_twice_count_once_or_not() {
    let snake = vec![at(800, 0), at(775, 0), at(775, 0), at(-25, 600), at(10, 10)];
    let free = free_cells_of(&snake);
    assert_eq!(free.len(), 767);
    assert!(!free.contains(&at(775, 0)));
    assert!(free.contains(&at(750, 0)));
}

#[test]
fn a_snake_all_over_the_field_leaves_no_cell_free() {
    let everywhere = free_cells_of(&Vec::new());
    assert!(free_cells_of(&everywhere).is_empty());
    let mut all_but_one = everywhere.clone();
    let spared = all_but_one.remove(400);
    assert_eq!(free_cells_of(&all_but_one), vec![spared]);
}

#[test]
fn place_food_takes_the_free_cell_with_the_given_number() {
    let mut game = GamePosition::new(500, 500);
    assert!(game.place_food(0));
    assert_eq!(game.food(), at(75, 0));
    assert!(game.place_food(29));
    assert_eq!(game.food(), at(0, 25));
    assert!(game.place_food(764));
    assert_eq!(game.food(), at(775, 575));
    assert_eq!(game.snake_body(), first_snake());
    assert_eq!(game.waited(), 0);
    assert!(!game.is_game_over());
}

#[test]
fn place_food_leaves_the_food_where_no_such_cell_is() {
    let mut game = GamePosition::new(500, 475);
    assert!(!game.place_food(765));
    assert_eq!(game.food(), at(500, 475));
    assert!(!game.place_food(usize::MAX));
    assert_eq!(game.food(), at(500, 475));
}

#[test]
fn generate_food_finds_a_free_cell_of_the_field() {
    let mut game = GamePosition::new(-40, 3);
    let snake = game.snake_body();
    for _ in 0..500 {
        game.generate_food();
        let food = game.food();
        assert!(!snake.contains(&food));
        assert!(free_cells_of(&snake).contains(&food));
        assert!(0 <= food.x && food.x <= 775 && food.x % 25 == 0);
        assert!(0 <= food.y && food.y <= 575 && food.y % 25 == 0);
        assert_eq!(game.snake_body(), snake);
    }
}

#[test]
fn generate_food_reaches_more_than_one_cell() {
    let mut game = GamePosition::new(0, 0);
    game.generate_food();
    let first = game.food();
    let mut other = false;
    for _ in 0..200 {
        game.generate_food();
        if game.food() != first {
            other = true;
        }
    }
    assert!(other);
}
