use snake_game::grid::{
    to_coordinate, Key, SnakeDirection, SnakePosition, CORDINATE_INCREMENTOR, MOVING_TIME,
    SCREEN_HEIGHT, SCREEN_WIDTH,
};
use snake_game::GamePosition;

const DIRECTIONS: [SnakeDirection; 4] =
    [SnakeDirection::Up, SnakeDirection::Down, SnakeDirection::Right, SnakeDirection::Left];

fn reverse_of(direction: SnakeDirection) -> SnakeDirection {
    match direction {
        SnakeDirection::Up => SnakeDirection::Down,
        SnakeDirection::Down => SnakeDirection::Up,
        SnakeDirection::Right => SnakeDirection::Left,
        SnakeDirection::Left => SnakeDirection::Right,
    }
}

fn key_for(direction: SnakeDirection) -> Key {
    match direction {
        SnakeDirection::Up => Key::Up,
        SnakeDirection::Down => Key::Down,
        SnakeDirection::Right => Key::Right,
        SnakeDirection::Left => Key::Left,
    }
}

/// A game that heads in the given direction and has not moved yet.
fn game_heading(direction: SnakeDirection) -> GamePosition {
    let mut game = GamePosition::new(500, 500);
    match direction {
        SnakeDirection::Right => {}
        SnakeDirection::Up => game.check_key_event(Key::Up),
        SnakeDirection::Down => game.check_key_event(Key::Down),
        SnakeDirection::Left => {
            game.check_key_event(Key::Up);
            game.check_key_event(Key::Left);
        }
    }
    assert_eq!(game.direction(), direction);
    game
}

#[test]
fn the_field_has_its_measures() {
    assert_eq!(SCREEN_WIDTH, 32);
    assert_eq!(SCREEN_HEIGHT, 24);
    assert_eq!(CORDINATE_INCREMENTOR, 25);
    assert_eq!(MOVING_TIME, 100_000);
}

#[test]
fn to_coordinate_scales_by_the_cell_size() {
    assert_eq!(to_coordinate(0), 0);
    assert_eq!(to_coordinate(1), 25);
    assert_eq!(to_coordinate(2), 50);
    assert_eq!(to_coordinate(5), 125);
    assert_eq!(to_coordinate(SCREEN_WIDTH), 800);
    assert_eq!(to_coordinate(SCREEN_WIDTH - 1), 775);
    assert_eq!(to_coordinate(SCREEN_HEIGHT), 600);
    assert_eq!(to_coordinate(-1), -25);
}

#[test]
fn to_coordinate_takes_the_largest_indices() {
    assert_eq!(to_coordinate(i32::MAX), 53_687_091_175);
    assert_eq!(to_coordinate(i32::MIN), -53_687_091_200);
}

#[test]
fn a_new_position_is_the_origin() {
    assert_eq!(SnakePosition::new(), SnakePosition { x: 0, y: 0 });
}

#[test]
fn only_reversed_directions_are_opposite() {
    for current in DIRECTIONS {
        for other in DIRECTIONS {
            assert_eq!(current.is_opposite(other), other == reverse_of(current));
        }
    }
    assert!(SnakeDirection::Up.is_opposite(SnakeDirection::Down));
    assert!(SnakeDirection::Left.is_opposite(SnakeDirection::Right));
    assert!(!SnakeDirection::Left.is_opposite(SnakeDirection::Left));
    assert!(!SnakeDirection::Left.is_opposite(SnakeDirection::Up));
}

#[test]
fn an_arrow_key_turns_the_snake_unless_it_reverses() {
    for current in DIRECTIONS {
        for wanted in DIRECTIONS {
            let mut game = game_heading(current);
            game.check_key_event(key_for(wanted));
            if wanted == reverse_of(current) {
                assert_eq!(game.direction(), current);
            } else {
                assert_eq!(game.direction(), wanted);
            }
        }
    }
}

#[test]
fn a_reversing_key_leaves_the_direction() {
    let mut game = GamePosition::new(500, 500);
    game.check_key_event(Key::Left);
    assert_eq!(game.direction(), SnakeDirection::Right);
    game.check_key_event(Key::Down);
    assert_eq!(game.direction(), SnakeDirection::Down);
    game.check_key_event(Key::Up);
    assert_eq!(game.direction(), SnakeDirection::Down);
}

#[test]
fn another_key_leaves_the_direction() {
    for current in DIRECTIONS {
        let mut game = game_heading(current);
        game.check_key_event(Key::Other);
        assert_eq!(game.direction(), current);
    }
}

#[test]
fn a_key_press_moves_nothing() {
    let mut game = GamePosition::new(500, 475);
    game.update_time(40_000);
    let snake = game.snake_body();
    game.check_key_event(Key::Down);
    assert_eq!(game.snake_body(), snake);
    assert_eq!(game.food(), SnakePosition { x: 500, y: 475 });
    assert_eq!(game.waited(), 40_000);
    assert!(!game.is_game_over());
}

#[test]
fn a_new_game_has_the_first_snake() {
    let game = GamePosition::new(100, 125);
    assert_eq!(
        game.snake_body(),
        vec![
            SnakePosition { x: 50, y: 0 },
            SnakePosition { x: 25, y: 0 },
            SnakePosition { x: 0, y: 0 },
        ]
    );
    assert_eq!(game.snake_body().len(), 3);
    assert_eq!(game.direction(), SnakeDirection::Right);
    assert_eq!(game.food(), SnakePosition { x: 100, y: 125 });
    assert_eq!(game.waited(), 0);
    assert!(!game.is_game_over());
    assert!(!game.has_snake_touched_itself());
    assert!(!game.snake_ate_food());
}

#[test]
fn a_new_game_takes_food_off_the_grid() {
    let game = GamePosition::new(-7, i64::MAX);
    assert_eq!(game.food(), SnakePosition { x: -7, y: i64::MAX });
    assert_eq!(game.snake_body().len(), 3);
}
