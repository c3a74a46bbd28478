use std::collections::VecDeque;

use tanchishe::grid::Direction;
use tanchishe::input::{
    apply_input_queue, contains_key, handle_direction_input, key_to_direction, InputQueue,
    KeyCode,
};
use tanchishe::snake;

#[test]
fn test_key_to_direction_arrows() {
    assert_eq!(key_to_direction(KeyCode::ArrowUp), Some(Direction::Up));
    assert_eq!(key_to_direction(KeyCode::ArrowDown), Some(Direction::Down));
    assert_eq!(key_to_direction(KeyCode::ArrowLeft), Some(Direction::Left));
    assert_eq!(key_to_direction(KeyCode::ArrowRight), Some(Direction::Right));
}

#[test]
fn test_key_to_direction_wasd() {
    assert_eq!(key_to_direction(KeyCode::KeyW), Some(Direction::Up));
    assert_eq!(key_to_direction(KeyCode::KeyS), Some(Direction::Down));
    assert_eq!(key_to_direction(KeyCode::KeyA), Some(Direction::Left));
    assert_eq!(key_to_direction(KeyCode::KeyD), Some(Direction::Right));
}

#[test]
fn test_key_to_direction_none() {
    assert_eq!(key_to_direction(KeyCode::Space), None);
    assert_eq!(key_to_direction(KeyCode::Enter), None);
    assert_eq!(key_to_direction(KeyCode::KeyR), None);
}

#[test]
fn test_opposite_rejected() {
    let mut snake = snake::spawn_snake();
    snake::change_direction(&mut snake, Direction::Left);
    assert_eq!(snake.next_direction, Direction::Right);
}

#[test]
fn test_non_opposite_accepted() {
    let mut snake = snake::spawn_snake();
    snake::change_direction(&mut snake, Direction::Up);
    assert_eq!(snake.next_direction, Direction::Up);
}

#[test]
fn test_apply_input_queue_takes_first_valid() {
    let mut snake = snake::spawn_snake();
    let mut queue = InputQueue::default();
    queue.directions.push_back(Direction::Left);
    queue.directions.push_back(Direction::Up);
    queue.directions.push_back(Direction::Down);

    apply_input_queue(&mut queue, &mut snake);

    assert_eq!(snake.next_direction, Direction::Up);
    assert_eq!(queue.directions.len(), 1);
    assert_eq!(queue.directions.front(), Some(&Direction::Down));
}

#[test]
fn test_apply_input_queue_empty_does_nothing() {
    let mut snake = snake::spawn_snake();
    let mut queue = InputQueue::default();
    apply_input_queue(&mut queue, &mut snake);
    assert_eq!(snake.next_direction, snake.direction);
}

#[test]
fn test_apply_input_queue_all_opposite_gets_discarded() {
    let mut snake = snake::spawn_snake();
    let mut queue = InputQueue::default();
    queue.directions.push_back(Direction::Left);
    queue.directions.push_back(Direction::Left);

    apply_input_queue(&mut queue, &mut snake);

    assert_eq!(snake.next_direction, Direction::Right);
    assert!(queue.directions.is_empty());
}

#[test]
fn direction_keys_are_queued_in_order() {
    let mut queue = InputQueue::default();
    queue.directions.push_back(Direction::Down);
    handle_direction_input(
        &[KeyCode::KeyW, KeyCode::Space, KeyCode::ArrowLeft, KeyCode::Enter, KeyCode::KeyD],
        &mut queue,
    );
    assert_eq!(
        queue.directions,
        VecDeque::from([Direction::Down, Direction::Up, Direction::Left, Direction::Right])
    );
}

#[test]
fn no_direction_keys_leave_queue_alone() {
    let mut queue = InputQueue::default();
    handle_direction_input(&[KeyCode::Escape, KeyCode::Digit1, KeyCode::Other], &mut queue);
    assert!(queue.directions.is_empty());
}

#[test]
fn key_lookup() {
    assert!(contains_key(&[KeyCode::KeyM, KeyCode::ControlLeft], KeyCode::ControlLeft));
    assert!(!contains_key(&[KeyCode::KeyM], KeyCode::KeyS));
    assert!(!contains_key(&[], KeyCode::KeyS));
}
