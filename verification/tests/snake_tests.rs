use std::collections::VecDeque;

use tanchishe::grid::{Direction, GridPosition, GRID_HEIGHT, GRID_WIDTH};
use tanchishe::snake::{advance_snake, advance_snake_with_growth, change_direction, spawn_snake};

#[test]
fn test_spawn_snake() {
    let snake = spawn_snake();
    assert_eq!(snake.body.len(), 3);
    assert_eq!(snake.direction, Direction::Right);
    let head = *snake.body.front().unwrap();
    assert_eq!(head.x, GRID_WIDTH / 2);
    assert_eq!(head.y, GRID_HEIGHT / 2);
}

#[test]
fn test_advance_normal() {
    let mut snake = spawn_snake();
    let old_head = *snake.body.front().unwrap();
    let hit_wall = advance_snake(&mut snake);
    assert!(!hit_wall);
    assert_eq!(snake.body.front().unwrap().x, old_head.x + 1);
    assert_eq!(snake.body.front().unwrap().y, old_head.y);
    assert_eq!(snake.body.len(), 3);
}

#[test]
fn test_advance_wall_left() {
    let mut snake = spawn_snake();
    snake.body = VecDeque::from([GridPosition::new(0, 5)]);
    snake.direction = Direction::Left;
    snake.next_direction = Direction::Left;
    assert!(advance_snake(&mut snake));
}

#[test]
fn test_advance_wall_right() {
    let mut snake = spawn_snake();
    snake.body = VecDeque::from([GridPosition::new(GRID_WIDTH - 1, 5)]);
    snake.direction = Direction::Right;
    snake.next_direction = Direction::Right;
    assert!(advance_snake(&mut snake));
}

#[test]
fn test_advance_wall_up() {
    let mut snake = spawn_snake();
    snake.body = VecDeque::from([GridPosition::new(5, 0)]);
    snake.direction = Direction::Up;
    snake.next_direction = Direction::Up;
    assert!(advance_snake(&mut snake));
}

#[test]
fn test_advance_wall_down() {
    let mut snake = spawn_snake();
    snake.body = VecDeque::from([GridPosition::new(5, GRID_HEIGHT - 1)]);
    snake.direction = Direction::Down;
    snake.next_direction = Direction::Down;
    assert!(advance_snake(&mut snake));
}

#[test]
fn test_no_wall_hit() {
    let mut snake = spawn_snake();
    let hit = advance_snake(&mut snake);
    assert!(!hit);
}

#[test]
fn snake_test_reverse_input_rejected() {
    let mut snake = spawn_snake();
    change_direction(&mut snake, Direction::Left);
    assert_eq!(snake.next_direction, Direction::Right);
}

#[test]
fn spawned_body_is_a_horizontal_line() {
    let snake = spawn_snake();
    let body: Vec<GridPosition> = snake.body.iter().copied().collect();
    assert_eq!(
        body,
        vec![GridPosition::new(15, 10), GridPosition::new(14, 10), GridPosition::new(13, 10)]
    );
    assert_eq!(snake.next_direction, Direction::Right);
}

#[test]
fn growth_keeps_the_tail() {
    let mut snake = spawn_snake();
    assert!(!advance_snake_with_growth(&mut snake, true));
    let body: Vec<GridPosition> = snake.body.iter().copied().collect();
    assert_eq!(
        body,
        vec![
            GridPosition::new(16, 10),
            GridPosition::new(15, 10),
            GridPosition::new(14, 10),
            GridPosition::new(13, 10)
        ]
    );
}

#[test]
fn wall_hit_leaves_body_but_takes_heading() {
    let mut snake = spawn_snake();
    snake.body = VecDeque::from([GridPosition::new(0, 5), GridPosition::new(0, 6)]);
    snake.direction = Direction::Up;
    snake.next_direction = Direction::Left;
    assert!(advance_snake_with_growth(&mut snake, true));
    assert_eq!(snake.body.len(), 2);
    assert_eq!(snake.body[0], GridPosition::new(0, 5));
    assert_eq!(snake.direction, Direction::Left);
}

#[test]
fn non_reversing_request_is_accepted() {
    let mut snake = spawn_snake();
    change_direction(&mut snake, Direction::Down);
    assert_eq!(snake.next_direction, Direction::Down);
    assert_eq!(snake.direction, Direction::Right);
}
