use rand::Rng;
use std::collections::VecDeque;

use rand::rngs::StdRng;
use rand::SeedableRng;

use tanchishe::food::{free_cells, spawn_food};
use tanchishe::grid::{is_out_of_bounds, Direction, GridPosition, GRID_HEIGHT, GRID_WIDTH};
use tanchishe::snake::Snake;

fn full_board_body() -> VecDeque<GridPosition> {
    let mut body = VecDeque::new();
    for y in 0..GRID_HEIGHT {
        for x in 0..GRID_WIDTH {
            body.push_back(GridPosition::new(x, y));
        }
    }
    body
}

#[test]
fn test_food_not_on_snake() {
    let snake = Snake {
        direction: Direction::Right,
        next_direction: Direction::Right,
        body: [
            GridPosition::new(5, 5),
            GridPosition::new(4, 5),
            GridPosition::new(3, 5),
        ]
        .into_iter()
        .collect(),
    };
    let mut rng = StdRng::seed_from_u64(42);
    let food = spawn_food(&snake, &mut rng).unwrap();
    assert!(!snake.body.contains(&food.position));
}

#[test]
fn test_food_none_when_board_full() {
    let snake = Snake {
        direction: Direction::Right,
        next_direction: Direction::Right,
        body: full_board_body(),
    };
    let mut rng = StdRng::seed_from_u64(42);
    assert!(spawn_food(&snake, &mut rng).is_none());
}

#[test]
fn test_food_only_empty_cell() {
    let mut body = full_board_body();
    body.pop_back();
    let snake = Snake {
        direction: Direction::Right,
        next_direction: Direction::Right,
        body,
    };
    let mut rng = StdRng::seed_from_u64(42);
    let food = spawn_food(&snake, &mut rng).unwrap();
    assert_eq!(food.position, GridPosition::new(GRID_WIDTH - 1, GRID_HEIGHT - 1));
}

#[test]
fn food_is_always_on_a_free_board_cell() {
    let snake = Snake {
        direction: Direction::Right,
        next_direction: Direction::Right,
        body: VecDeque::from([
            GridPosition::new(0, 0),
            GridPosition::new(1, 0),
            GridPosition::new(2, 0),
        ]),
    };
    for seed in 0..200 {
        let mut rng = StdRng::seed_from_u64(seed);
        let food = spawn_food(&snake, &mut rng).unwrap();
        assert!(!is_out_of_bounds(&food.position));
        assert!(!snake.body.contains(&food.position));
    }
}

#[test]
fn free_cells_are_row_major_and_skip_the_body() {
    let snake = Snake {
        direction: Direction::Right,
        next_direction: Direction::Right,
        body: VecDeque::from([GridPosition::new(1, 0), GridPosition::new(0, 1)]),
    };
    let cells = free_cells(&snake);
    assert_eq!(cells.len(), 598);
    assert_eq!(cells[0], GridPosition::new(0, 0));
    assert_eq!(cells[1], GridPosition::new(2, 0));
    assert_eq!(cells[28], GridPosition::new(29, 0));
    assert_eq!(cells[29], GridPosition::new(1, 1));
    assert_eq!(cells[597], GridPosition::new(29, 19));
}

/// Cells off the board and repeated cells do not make the board full.
#[test]
fn duplicate_and_outside_cells_count_once() {
    let mut body = full_board_body();
    body.pop_back();
    body.push_back(GridPosition::new(0, 0));
    let snake = Snake {
        direction: Direction::Right,
        next_direction: Direction::Right,
        body,
    };
    let mut rng = StdRng::seed_from_u64(7);
    let food = spawn_food(&snake, &mut rng).unwrap();
    assert_eq!(food.position, GridPosition::new(GRID_WIDTH - 1, GRID_HEIGHT - 1));

    let mut body = full_board_body();
    body.pop_back();
    body.push_back(GridPosition::new(-1, -1));
    let snake = Snake {
        direction: Direction::Right,
        next_direction: Direction::Right,
        body,
    };
    assert!(spawn_food(&snake, &mut rng).is_none());
}

#[test]
fn food_at_takes_the_drawn_free_cell() {
    let free = vec![GridPosition::new(2, 3), GridPosition::new(4, 5), GridPosition::new(6, 7)];
    assert_eq!(tanchishe::food::food_at(&free, 1).position, GridPosition::new(4, 5));
    assert_eq!(tanchishe::food::food_at(&free, 2).position, GridPosition::new(6, 7));
}

#[test]
fn full_board_leaves_the_generator_untouched() {
    let snake = Snake {
        direction: Direction::Right,
        next_direction: Direction::Right,
        body: full_board_body(),
    };
    let mut rng = StdRng::seed_from_u64(11);
    let mut twin = StdRng::seed_from_u64(11);
    assert!(spawn_food(&snake, &mut rng).is_none());
    assert_eq!(rng.gen::<u64>(), twin.gen::<u64>());
}
