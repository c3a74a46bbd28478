use rand::Rng;
use std::collections::VecDeque;

use rand::rngs::StdRng;
use rand::SeedableRng;

use tanchishe::ai::next_direction;
use tanchishe::audio::AudioMuted;
use tanchishe::flow::{
    enter_playing, game_over_button_interaction, game_over_input, menu_button_interaction,
    menu_input, pause_button_interaction, paused_input, play_tick, playing_input,
    steer_autopilot, GameOverReason, TickOutcome, UiButton,
};
use tanchishe::food::Food;
use tanchishe::game::{Difficulty, Score};
use tanchishe::grid::{Direction, GridPosition, GRID_HEIGHT, GRID_WIDTH};
use tanchishe::input::{InputQueue, KeyCode};
use tanchishe::snake::{spawn_snake, Snake};
use tanchishe::state::AppState;

#[test]
fn app_state_defaults_to_menu() {
    assert_eq!(AppState::default(), AppState::Menu);
    assert_eq!(GameOverReason::default(), GameOverReason::Wall);
}

#[test]
fn menu_key_a_starts_autopilot_fast() {
    let mut difficulty = Difficulty::Slow;
    let mut reset = false;
    let mut autoplay = false;
    let next = menu_input(&[KeyCode::KeyA], &mut difficulty, &mut reset, &mut autoplay);
    assert_eq!(next, Some(AppState::Playing));
    assert!(autoplay);
    assert!(reset);
    assert_eq!(difficulty, Difficulty::Fast);
}

#[test]
fn menu_digits_choose_difficulty() {
    let mut difficulty = Difficulty::Medium;
    let mut reset = false;
    let mut autoplay = true;
    assert_eq!(menu_input(&[KeyCode::Digit1], &mut difficulty, &mut reset, &mut autoplay), None);
    assert_eq!(difficulty, Difficulty::Slow);
    assert_eq!(
        menu_input(&[KeyCode::Digit3, KeyCode::Digit2], &mut difficulty, &mut reset, &mut autoplay),
        None
    );
    assert_eq!(difficulty, Difficulty::Fast);
    assert!(!reset);
    assert!(autoplay);
    assert_eq!(
        menu_input(&[KeyCode::Enter], &mut difficulty, &mut reset, &mut autoplay),
        Some(AppState::Playing)
    );
    assert!(!autoplay);
    assert!(reset);
}

#[test]
fn playing_keys() {
    let mut reset = true;
    assert_eq!(playing_input(&[KeyCode::Escape], &mut reset), Some(AppState::Paused));
    assert!(!reset);
    assert_eq!(playing_input(&[KeyCode::KeyP, KeyCode::KeyR], &mut reset), Some(AppState::Playing));
    assert!(reset);
    assert_eq!(playing_input(&[KeyCode::KeyR, KeyCode::KeyM], &mut reset), Some(AppState::Menu));
    assert_eq!(playing_input(&[KeyCode::ArrowUp], &mut reset), None);
}

#[test]
fn paused_keys() {
    let mut reset = true;
    assert_eq!(paused_input(&[KeyCode::KeyP], &mut reset), Some(AppState::Playing));
    assert!(!reset);
    assert_eq!(paused_input(&[KeyCode::KeyR], &mut reset), Some(AppState::Playing));
    assert!(reset);
    assert_eq!(paused_input(&[KeyCode::KeyM], &mut reset), Some(AppState::Menu));
    assert_eq!(paused_input(&[], &mut reset), None);
}

#[test]
fn game_over_keys() {
    let mut reset = false;
    assert_eq!(game_over_input(&[KeyCode::KeyR], &mut reset), Some(AppState::Playing));
    assert!(reset);
    let mut reset = false;
    assert_eq!(game_over_input(&[KeyCode::KeyM], &mut reset), Some(AppState::Menu));
    assert!(!reset);
    assert_eq!(game_over_input(&[KeyCode::Escape], &mut reset), None);
}

#[test]
fn menu_buttons() {
    let mut difficulty = Difficulty::Medium;
    let mut reset = false;
    let mut autoplay = false;
    let mut muted = AudioMuted::default();
    let next = menu_button_interaction(
        &[UiButton::DifficultySlow, UiButton::ToggleMute],
        &mut difficulty,
        &mut reset,
        &mut autoplay,
        &mut muted,
    );
    assert_eq!(next, None);
    assert_eq!(difficulty, Difficulty::Slow);
    assert!(muted.muted);
    let next = menu_button_interaction(
        &[UiButton::AutoPlay],
        &mut difficulty,
        &mut reset,
        &mut autoplay,
        &mut muted,
    );
    assert_eq!(next, Some(AppState::Playing));
    assert_eq!(difficulty, Difficulty::Fast);
    assert!(autoplay && reset);
    let next = menu_button_interaction(
        &[UiButton::Start, UiButton::Resume],
        &mut difficulty,
        &mut reset,
        &mut autoplay,
        &mut muted,
    );
    assert_eq!(next, Some(AppState::Playing));
    assert!(!autoplay);
}

#[test]
fn pause_and_game_over_buttons() {
    let mut reset = true;
    assert_eq!(pause_button_interaction(&[UiButton::Resume], &mut reset), Some(AppState::Playing));
    assert!(!reset);
    assert_eq!(pause_button_interaction(&[UiButton::Restart], &mut reset), Some(AppState::Playing));
    assert!(reset);
    assert_eq!(pause_button_interaction(&[UiButton::MainMenu], &mut reset), Some(AppState::Menu));
    assert_eq!(pause_button_interaction(&[UiButton::Start], &mut reset), None);

    let mut reset = false;
    assert_eq!(game_over_button_interaction(&[UiButton::Resume], &mut reset), None);
    assert!(!reset);
    assert_eq!(
        game_over_button_interaction(&[UiButton::Restart], &mut reset),
        Some(AppState::Playing)
    );
    assert!(reset);
    assert_eq!(
        game_over_button_interaction(&[UiButton::Restart, UiButton::MainMenu], &mut reset),
        Some(AppState::Menu)
    );
}

#[test]
fn difficulty_buttons() {
    assert!(UiButton::DifficultyFast.selects(Difficulty::Fast));
    assert!(!UiButton::DifficultyFast.selects(Difficulty::Slow));
    assert!(!UiButton::Start.selects(Difficulty::Medium));
    assert!(UiButton::DifficultyMedium.is_difficulty());
    assert!(!UiButton::ToggleMute.is_difficulty());
}

#[test]
fn entering_a_round_resets_on_restart_only() {
    let mut snake = Snake {
        direction: Direction::Left,
        next_direction: Direction::Left,
        body: VecDeque::from([GridPosition::new(3, 3)]),
    };
    let mut score = Score { value: 40 };
    let mut queue = InputQueue::default();
    queue.directions.push_back(Direction::Up);
    let mut food = Food { position: GridPosition::new(1, 1) };
    let mut rng = StdRng::seed_from_u64(1);

    enter_playing(false, &mut snake, &mut score, &mut queue, &mut food, &mut rng);
    assert!(queue.directions.is_empty());
    assert_eq!(score.value, 40);
    assert_eq!(snake.body.len(), 1);
    assert_eq!(food.position, GridPosition::new(1, 1));

    queue.directions.push_back(Direction::Down);
    enter_playing(true, &mut snake, &mut score, &mut queue, &mut food, &mut rng);
    assert!(queue.directions.is_empty());
    assert_eq!(score.value, 0);
    assert_eq!(snake.direction, Direction::Right);
    assert_eq!(snake.body.len(), 3);
    assert!(!snake.body.contains(&food.position));
}

#[test]
fn autopilot_steers_along_the_tour() {
    let mut snake = spawn_snake();
    snake.body = VecDeque::from([GridPosition::new(29, 4)]);
    steer_autopilot(&mut snake);
    assert_eq!(snake.next_direction, Direction::Down);
    assert_eq!(snake.direction, Direction::Right);
    let mut empty = Snake {
        direction: Direction::Up,
        next_direction: Direction::Up,
        body: VecDeque::new(),
    };
    steer_autopilot(&mut empty);
    assert_eq!(empty.next_direction, Direction::Up);
}

#[test]
fn tick_reports_death_reasons() {
    let mut rng = StdRng::seed_from_u64(3);
    let mut snake = Snake {
        direction: Direction::Left,
        next_direction: Direction::Left,
        body: VecDeque::from([GridPosition::new(0, 5)]),
    };
    let mut food = Food { position: GridPosition::new(10, 10) };
    let mut score = Score::default();
    assert_eq!(
        play_tick(&mut snake, &mut food, &mut score, &mut rng),
        TickOutcome::Died(GameOverReason::Wall)
    );
    let mut snake = Snake {
        direction: Direction::Right,
        next_direction: Direction::Up,
        body: VecDeque::from([
            GridPosition::new(5, 5),
            GridPosition::new(5, 4),
            GridPosition::new(5, 6),
        ]),
    };
    assert_eq!(
        play_tick(&mut snake, &mut food, &mut score, &mut rng),
        TickOutcome::Died(GameOverReason::SelfCollision)
    );
    assert_eq!(food.position, GridPosition::new(10, 10));
}

#[test]
fn tick_eats_and_places_new_food() {
    let mut rng = StdRng::seed_from_u64(5);
    let mut snake = spawn_snake();
    let mut food = Food { position: GridPosition::new(16, 10) };
    let mut score = Score::default();
    assert_eq!(play_tick(&mut snake, &mut food, &mut score, &mut rng), TickOutcome::Ate);
    assert_eq!(snake.body.len(), 4);
    assert_eq!(score.value, 10);
    assert!(!snake.body.contains(&food.position));
    assert_ne!(play_tick(&mut snake, &mut food, &mut score, &mut rng), TickOutcome::Won);
}

/// With the food always placed where the autopilot goes next, the snake
/// eats every step, never dies, and wins with the whole board filled.
#[test]
fn autopilot_fills_the_board() {
    let mut rng = StdRng::seed_from_u64(9);
    let mut snake = spawn_snake();
    let mut score = Score::default();
    let mut food = Food { position: GridPosition::new(0, 0) };
    let mut won = false;
    for _ in 0..1000 {
        steer_autopilot(&mut snake);
        let head = snake.body[0];
        food.position = next_direction(head).apply(&head);
        match play_tick(&mut snake, &mut food, &mut score, &mut rng) {
            TickOutcome::Ate => {}
            TickOutcome::Won => {
                won = true;
                break;
            }
            other => panic!("unexpected outcome {:?}", other),
        }
    }
    assert!(won);
    let cells = (GRID_WIDTH * GRID_HEIGHT) as usize;
    assert_eq!(snake.body.len(), cells);
    assert_eq!(score.value, (cells - 3) as u32 * 10);
}

#[test]
fn game_over_titles() {
    assert_eq!(tanchishe::flow::game_over_title(GameOverReason::Wall), "撞墙了！");
    assert_eq!(tanchishe::flow::game_over_title(GameOverReason::SelfCollision), "撞到自己了！");
}

#[test]
fn resuming_keeps_the_generator() {
    let mut snake = spawn_snake();
    let mut score = Score::default();
    let mut queue = InputQueue::default();
    let mut food = Food { position: GridPosition::new(1, 1) };
    let mut rng = StdRng::seed_from_u64(21);
    let mut twin = StdRng::seed_from_u64(21);
    enter_playing(false, &mut snake, &mut score, &mut queue, &mut food, &mut rng);
    assert_eq!(rng.gen::<u64>(), twin.gen::<u64>());
}
