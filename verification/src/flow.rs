//! Screen flow: what each screen does with key presses and button clicks,
//! what happens when a round starts, and how one timed tick of a round is
//! played. Each function takes the events of a frame and the state they
//! affect, and returns the screen to switch to, if any; when several events
//! of one frame request a switch, the last request wins.

use rand::rngs::StdRng;

use vstd::prelude::*;

use crate::ai::{autopilot_direction, next_direction, steered};
use crate::audio::AudioMuted;
use crate::food::{free_cells_of, occupied_count, spawn_food, total_cells, Food};
use crate::game::{
    base_speed_of, can_step, step, step_effect, step_result_of, Difficulty, Score,
};
use crate::input::{contains_key, InputQueue, KeyCode};
use crate::snake::{is_spawned, spawn_body, spawn_snake, Snake};
use crate::state::AppState;

verus! {

/// The buttons of the menus.
#[derive(Clone, Copy, PartialEq, Eq, Structural, Debug)]
pub enum UiButton {
    Start,
    AutoPlay,
    DifficultySlow,
    DifficultyMedium,
    DifficultyFast,
    ToggleMute,
    Resume,
    Restart,
    MainMenu,
}

/// Why a round ended.
#[derive(Clone, Copy, PartialEq, Eq, Structural, Debug)]
pub enum GameOverReason {
    Wall,
    SelfCollision,
}

impl Default for GameOverReason {
    fn default() -> (r: Self)
        ensures
            r == GameOverReason::Wall,
    {
        GameOverReason::Wall
    }
}

/// The title of the game-over screen for the reason the round ended.
pub open spec fn game_over_label(reason: GameOverReason) -> Seq<char> {
    match reason {
        GameOverReason::Wall => "撞墙了！"@,
        GameOverReason::SelfCollision => "撞到自己了！"@,
    }
}

/// The title of the game-over screen.
pub fn game_over_title(reason: GameOverReason) -> (s: String)
    ensures
        s@ == game_over_label(reason),
{
    match reason {
        GameOverReason::Wall => "撞墙了！".to_owned(),
        GameOverReason::SelfCollision => "撞到自己了！".to_owned(),
    }
}

/// The difficulty a button selects, if it is a difficulty button.
pub open spec fn button_difficulty(b: UiButton) -> Option<Difficulty> {
    match b {
        UiButton::DifficultySlow => Some(Difficulty::Slow),
        UiButton::DifficultyMedium => Some(Difficulty::Medium),
        UiButton::DifficultyFast => Some(Difficulty::Fast),
        _ => None,
    }
}

impl UiButton {
    /// Whether this is one of the three difficulty buttons.
    pub fn is_difficulty(&self) -> (r: bool)
        ensures
            r == button_difficulty(*self) is Some,
    {
        match self {
            UiButton::DifficultySlow | UiButton::DifficultyMedium | UiButton::DifficultyFast => {
                true
            },
            _ => false,
        }
    }

    /// Whether this is the button of the selected difficulty, which the menu
    /// highlights.
    pub fn selects(&self, difficulty: Difficulty) -> (r: bool)
        ensures
            r == (button_difficulty(*self) == Some(difficulty)),
    {
        match (self, difficulty) {
            (UiButton::DifficultySlow, Difficulty::Slow) => true,
            (UiButton::DifficultyMedium, Difficulty::Medium) => true,
            (UiButton::DifficultyFast, Difficulty::Fast) => true,
            _ => false,
        }
    }
}

/// Each difficulty button stands for its own level: the slow button for the
/// slowest base speed, the fast button for the fastest, the medium button for
/// the one in between; other buttons choose no difficulty.
pub proof fn lemma_difficulty_buttons(b: UiButton)
    ensures
        button_difficulty(UiButton::DifficultySlow) == Some(Difficulty::Slow),
        button_difficulty(UiButton::DifficultyMedium) == Some(Difficulty::Medium),
        button_difficulty(UiButton::DifficultyFast) == Some(Difficulty::Fast),
        base_speed_of(Difficulty::Slow) < base_speed_of(Difficulty::Medium) < base_speed_of(
            Difficulty::Fast,
        ),
        button_difficulty(b) is Some <==> (b == UiButton::DifficultySlow || b
            == UiButton::DifficultyMedium || b == UiButton::DifficultyFast),
{
}

/// Clicking a difficulty button in the main menu selects that button's
/// difficulty and changes nothing else; clicking it last in a frame leaves
/// that difficulty selected.
pub proof fn lemma_menu_difficulty_click(b: UiButton, clicks: Seq<UiButton>, s: MenuSettings)
    requires
        button_difficulty(b) is Some,
    ensures
        menu_click(b, s) == (button_difficulty(b).unwrap(), s.1, s.2, s.3, s.4),
        menu_clicks(clicks.push(b), s).0 == button_difficulty(b).unwrap(),
{
    assert(clicks.push(b).drop_last() =~= clicks);
}

/// Whether `key` was pressed in this frame.
pub open spec fn pressed(keys: Seq<KeyCode>, key: KeyCode) -> bool {
    keys.contains(key)
}

/// Main menu keys: 1, 2 and 3 choose the difficulty; Enter or Space starts
/// a round; A starts a round on the autopilot at the fast difficulty.
pub fn menu_input(
    just_pressed: &[KeyCode],
    difficulty: &mut Difficulty,
    reset: &mut bool,
    autoplay: &mut bool,
) -> (next: Option<AppState>)
    ensures
        ({
            let keys = just_pressed@;
            let start = pressed(keys, KeyCode::Enter) || pressed(keys, KeyCode::Space);
            let auto = pressed(keys, KeyCode::KeyA);
            &&& *final(difficulty) == if auto || pressed(keys, KeyCode::Digit3) {
                Difficulty::Fast
            } else if pressed(keys, KeyCode::Digit2) {
                Difficulty::Medium
            } else if pressed(keys, KeyCode::Digit1) {
                Difficulty::Slow
            } else {
                *old(difficulty)
            }
            &&& *final(autoplay) == if auto {
                true
            } else if start {
                false
            } else {
                *old(autoplay)
            }
            &&& *final(reset) == (start || auto || *old(reset))
            &&& next == if start || auto {
                Some(AppState::Playing)
            } else {
                None
            }
        }),
{
    let mut next = None;
    if contains_key(just_pressed, KeyCode::Digit1) {
        *difficulty = Difficulty::Slow;
    }
    if contains_key(just_pressed, KeyCode::Digit2) {
        *difficulty = Difficulty::Medium;
    }
    if contains_key(just_pressed, KeyCode::Digit3) {
        *difficulty = Difficulty::Fast;
    }
    if contains_key(just_pressed, KeyCode::Enter) || contains_key(just_pressed, KeyCode::Space) {
        *autoplay = false;
        *reset = true;
        next = Some(AppState::Playing);
    }
    if contains_key(just_pressed, KeyCode::KeyA) {
        *autoplay = true;
        *difficulty = Difficulty::Fast;
        *reset = true;
        next = Some(AppState::Playing);
    }
    next
}

/// Keys during a round: Escape or P pauses, R restarts, M goes back to the
/// main menu.
pub fn playing_input(just_pressed: &[KeyCode], reset: &mut bool) -> (next: Option<AppState>)
    ensures
        ({
            let keys = just_pressed@;
            let pause = pressed(keys, KeyCode::Escape) || pressed(keys, KeyCode::KeyP);
            let restart = pressed(keys, KeyCode::KeyR);
            &&& *final(reset) == if restart {
                true
            } else if pause {
                false
            } else {
                *old(reset)
            }
            &&& next == if pressed(keys, KeyCode::KeyM) {
                Some(AppState::Menu)
            } else if restart {
                Some(AppState::Playing)
            } else if pause {
                Some(AppState::Paused)
            } else {
                None
            }
        }),
{
    let mut next = None;
    if contains_key(just_pressed, KeyCode::Escape) || contains_key(just_pressed, KeyCode::KeyP) {
        *reset = false;
        next = Some(AppState::Paused);
    }
    if contains_key(just_pressed, KeyCode::KeyR) {
        *reset = true;
        next = Some(AppState::Playing);
    }
    if contains_key(just_pressed, KeyCode::KeyM) {
        next = Some(AppState::Menu);
    }
    next
}

/// Keys on the pause screen: Escape or P resumes, R restarts, M goes back
/// to the main menu.
pub fn paused_input(just_pressed: &[KeyCode], reset: &mut bool) -> (next: Option<AppState>)
    ensures
        ({
            let keys = just_pressed@;
            let resume = pressed(keys, KeyCode::Escape) || pressed(keys, KeyCode::KeyP);
            let restart = pressed(keys, KeyCode::KeyR);
            &&& *final(reset) == if restart {
                true
            } else if resume {
                false
            } else {
                *old(reset)
            }
            &&& next == if pressed(keys, KeyCode::KeyM) {
                Some(AppState::Menu)
            } else if restart || resume {
                Some(AppState::Playing)
            } else {
                None
            }
        }),
{
    let mut next = None;
    if contains_key(just_pressed, KeyCode::Escape) || contains_key(just_pressed, KeyCode::KeyP) {
        *reset = false;
        next = Some(AppState::Playing);
    }
    if contains_key(just_pressed, KeyCode::KeyR) {
        *reset = true;
        next = Some(AppState::Playing);
    }
    if contains_key(just_pressed, KeyCode::KeyM) {
        next = Some(AppState::Menu);
    }
    next
}

/// Keys on the game-over and victory screens: R restarts, M goes back to
/// the main menu.
pub fn game_over_input(just_pressed: &[KeyCode], reset: &mut bool) -> (next: Option<AppState>)
    ensures
        ({
            let keys = just_pressed@;
            let restart = pressed(keys, KeyCode::KeyR);
            &&& *final(reset) == (restart || *old(reset))
            &&& next == if pressed(keys, KeyCode::KeyM) {
                Some(AppState::Menu)
            } else if restart {
                Some(AppState::Playing)
            } else {
                None
            }
        }),
{
    let mut next = None;
    if contains_key(just_pressed, KeyCode::KeyR) {
        *reset = true;
        next = Some(AppState::Playing);
    }
    if contains_key(just_pressed, KeyCode::KeyM) {
        next = Some(AppState::Menu);
    }
    next
}

/// The settings the main menu controls, and the screen it asks for:
/// difficulty, restart flag, autopilot flag, mute flag, next screen.
pub type MenuSettings = (Difficulty, bool, bool, bool, Option<AppState>);

/// Effect of clicking `b` in the main menu.
pub open spec fn menu_click(b: UiButton, s: MenuSettings) -> MenuSettings {
    match b {
        UiButton::Start => (s.0, true, false, s.3, Some(AppState::Playing)),
        UiButton::AutoPlay => (Difficulty::Fast, true, true, s.3, Some(AppState::Playing)),
        UiButton::DifficultySlow => (Difficulty::Slow, s.1, s.2, s.3, s.4),
        UiButton::DifficultyMedium => (Difficulty::Medium, s.1, s.2, s.3, s.4),
        UiButton::DifficultyFast => (Difficulty::Fast, s.1, s.2, s.3, s.4),
        UiButton::ToggleMute => (s.0, s.1, s.2, !s.3, s.4),
        _ => s,
    }
}

/// Effect of clicking `clicks` in order in the main menu.
pub open spec fn menu_clicks(clicks: Seq<UiButton>, s: MenuSettings) -> MenuSettings
    decreases clicks.len(),
{
    if clicks.len() == 0 {
        s
    } else {
        menu_click(clicks.last(), menu_clicks(clicks.drop_last(), s))
    }
}

/// Main menu buttons clicked in this frame, in order: Start starts a round,
/// AutoPlay starts a round on the autopilot at the fast difficulty, the
/// difficulty buttons choose the difficulty and the mute button flips the
/// mute switch.
pub fn menu_button_interaction(
    clicked: &[UiButton],
    difficulty: &mut Difficulty,
    reset: &mut bool,
    autoplay: &mut bool,
    muted: &mut AudioMuted,
) -> (next: Option<AppState>)
    ensures
        (*final(difficulty), *final(reset), *final(autoplay), final(muted).muted, next)
            == menu_clicks(
            clicked@,
            (*old(difficulty), *old(reset), *old(autoplay), old(muted).muted, None),
        ),
{
    let mut next: Option<AppState> = None;
    let n = clicked.len();
    for i in 0..n
        invariant
            n == clicked@.len(),
            (*difficulty, *reset, *autoplay, muted.muted, next) == menu_clicks(
                clicked@.take(i as int),
                (*old(difficulty), *old(reset), *old(autoplay), old(muted).muted, None),
            ),
    {
        proof {
            assert(clicked@.take(i + 1).drop_last() =~= clicked@.take(i as int));
        }
        match clicked[i] {
            UiButton::Start => {
                *autoplay = false;
                *reset = true;
                next = Some(AppState::Playing);
            },
            UiButton::AutoPlay => {
                *autoplay = true;
                *difficulty = Difficulty::Fast;
                *reset = true;
                next = Some(AppState::Playing);
            },
            UiButton::DifficultySlow => *difficulty = Difficulty::Slow,
            UiButton::DifficultyMedium => *difficulty = Difficulty::Medium,
            UiButton::DifficultyFast => *difficulty = Difficulty::Fast,
            UiButton::ToggleMute => {
                muted.muted = !muted.muted;
            },
            _ => {},
        }
    }
    proof {
        assert(clicked@.take(n as int) =~= clicked@);
    }
    next
}

/// Effect of clicking `b` on the pause screen, on the restart flag and the
/// requested screen.
pub open spec fn pause_click(b: UiButton, s: (bool, Option<AppState>)) -> (bool, Option<AppState>) {
    match b {
        UiButton::Resume => (false, Some(AppState::Playing)),
        UiButton::Restart => (true, Some(AppState::Playing)),
        UiButton::MainMenu => (s.0, Some(AppState::Menu)),
        _ => s,
    }
}

/// Effect of clicking `clicks` in order on the pause screen.
pub open spec fn pause_clicks(clicks: Seq<UiButton>, s: (bool, Option<AppState>)) -> (
    bool,
    Option<AppState>,
)
    decreases clicks.len(),
{
    if clicks.len() == 0 {
        s
    } else {
        pause_click(clicks.last(), pause_clicks(clicks.drop_last(), s))
    }
}

/// On the pause screen, Resume continues the round without a restart,
/// Restart starts a new round, MainMenu leaves for the menu keeping the
/// restart flag, and other buttons do nothing.
pub proof fn lemma_pause_click(b: UiButton, s: (bool, Option<AppState>))
    ensures
        b == UiButton::Resume ==> pause_click(b, s) == (false, Some(AppState::Playing)),
        b == UiButton::Restart ==> pause_click(b, s) == (true, Some(AppState::Playing)),
        b == UiButton::MainMenu ==> pause_click(b, s) == (s.0, Some(AppState::Menu)),
        !(b == UiButton::Resume || b == UiButton::Restart || b == UiButton::MainMenu)
            ==> pause_click(b, s) == s,
{
}

/// Pause screen buttons clicked in this frame, in order: Resume continues
/// the round, Restart starts a new one, MainMenu goes back to the menu.
pub fn pause_button_interaction(clicked: &[UiButton], reset: &mut bool) -> (next: Option<
    AppState,
>)
    ensures
        (*final(reset), next) == pause_clicks(clicked@, (*old(reset), None)),
{
    let mut next: Option<AppState> = None;
    let n = clicked.len();
    for i in 0..n
        invariant
            n == clicked@.len(),
            (*reset, next) == pause_clicks(clicked@.take(i as int), (*old(reset), None)),
    {
        proof {
            assert(clicked@.take(i + 1).drop_last() =~= clicked@.take(i as int));
        }
        match clicked[i] {
            UiButton::Resume => {
                *reset = false;
                next = Some(AppState::Playing);
            },
            UiButton::Restart => {
                *reset = true;
                next = Some(AppState::Playing);
            },
            UiButton::MainMenu => {
                next = Some(AppState::Menu);
            },
            _ => {},
        }
    }
    proof {
        assert(clicked@.take(n as int) =~= clicked@);
    }
    next
}

/// Effect of clicking `b` on the game-over or victory screen.
pub open spec fn game_over_click(b: UiButton, s: (bool, Option<AppState>)) -> (
    bool,
    Option<AppState>,
) {
    match b {
        UiButton::Restart => (true, Some(AppState::Playing)),
        UiButton::MainMenu => (s.0, Some(AppState::Menu)),
        _ => s,
    }
}

/// Effect of clicking `clicks` in order on the game-over or victory screen.
pub open spec fn game_over_clicks(clicks: Seq<UiButton>, s: (bool, Option<AppState>)) -> (
    bool,
    Option<AppState>,
)
    decreases clicks.len(),
{
    if clicks.len() == 0 {
        s
    } else {
        game_over_click(clicks.last(), game_over_clicks(clicks.drop_last(), s))
    }
}

/// On the game-over and victory screens, Restart starts a new round,
/// MainMenu leaves for the menu keeping the restart flag, and other buttons
/// (Resume included) do nothing.
pub proof fn lemma_game_over_click(b: UiButton, s: (bool, Option<AppState>))
    ensures
        b == UiButton::Restart ==> game_over_click(b, s) == (true, Some(AppState::Playing)),
        b == UiButton::MainMenu ==> game_over_click(b, s) == (s.0, Some(AppState::Menu)),
        !(b == UiButton::Restart || b == UiButton::MainMenu) ==> game_over_click(b, s) == s,
{
}

/// Main menu: Start begins a round without the autopilot, AutoPlay begins
/// one on the autopilot at the fast difficulty, the mute button flips the
/// mute switch, and the pause and result-screen buttons do nothing.
pub proof fn lemma_menu_click(b: UiButton, s: MenuSettings)
    ensures
        b == UiButton::Start ==> menu_click(b, s) == (s.0, true, false, s.3, Some(AppState::Playing)),
        b == UiButton::AutoPlay ==> menu_click(b, s) == (
            Difficulty::Fast,
            true,
            true,
            s.3,
            Some(AppState::Playing),
        ),
        b == UiButton::ToggleMute ==> menu_click(b, s) == (s.0, s.1, s.2, !s.3, s.4),
        (b == UiButton::Resume || b == UiButton::Restart || b == UiButton::MainMenu)
            ==> menu_click(b, s) == s,
{
}

/// Game-over and victory screen buttons clicked in this frame, in order:
/// Restart starts a new round, MainMenu goes back to the menu.
pub fn game_over_button_interaction(clicked: &[UiButton], reset: &mut bool) -> (next: Option<
    AppState,
>)
    ensures
        (*final(reset), next) == game_over_clicks(clicked@, (*old(reset), None)),
{
    let mut next: Option<AppState> = None;
    let n = clicked.len();
    for i in 0..n
        invariant
            n == clicked@.len(),
            (*reset, next) == game_over_clicks(clicked@.take(i as int), (*old(reset), None)),
    {
        proof {
            assert(clicked@.take(i + 1).drop_last() =~= clicked@.take(i as int));
        }
        match clicked[i] {
            UiButton::Restart => {
                *reset = true;
                next = Some(AppState::Playing);
            },
            UiButton::MainMenu => {
                next = Some(AppState::Menu);
            },
            _ => {},
        }
    }
    proof {
        assert(clicked@.take(n as int) =~= clicked@);
    }
    next
}

/// On the autopilot, sets the pending heading to the one that keeps the
/// head on the Hamiltonian cycle.
pub fn steer_autopilot(snake: &mut Snake)
    ensures
        *final(snake) == steered(*old(snake)),
        final(snake).direction == old(snake).direction,
        final(snake).body == old(snake).body,
        final(snake).next_direction == if old(snake).body@.len() > 0 {
            autopilot_direction(old(snake).body@[0])
        } else {
            old(snake).next_direction
        },
{
    if snake.body.len() > 0 {
        let head = snake.body[0];
        snake.next_direction = next_direction(head);
    }
}

/// What a timed tick of a round led to.
#[derive(Clone, Copy, PartialEq, Eq, Structural, Debug)]
pub enum TickOutcome {
    /// The snake moved without eating.
    Moved,
    /// The snake ate and new food was placed.
    Ate,
    /// The snake ate and fills the board: the round is won.
    Won,
    /// The snake hit a wall or itself: the round is lost.
    Died(GameOverReason),
}

/// Plays one timed tick of a round: one step, then, after eating, new food
/// on a free cell, or the win when no cell is free. On a collision the
/// death reason is reported and nothing changes.
pub fn play_tick(snake: &mut Snake, food: &mut Food, score: &mut Score, rng: &mut StdRng) -> (outcome:
    TickOutcome)
    requires
        can_step(*old(snake), *old(food), *old(score)),
    ensures
        step_effect(*old(snake), *final(snake), *old(food), *old(score), *final(score)),
        ({
            let r = step_result_of(*old(snake), *old(food));
            &&& r.hit_wall ==> outcome == TickOutcome::Died(GameOverReason::Wall)
            &&& r.hit_self ==> outcome == TickOutcome::Died(GameOverReason::SelfCollision)
            &&& !r.hit_wall && !r.hit_self && !r.ate_food ==> outcome == TickOutcome::Moved
            &&& r.ate_food ==> (outcome == TickOutcome::Ate || outcome == TickOutcome::Won)
            &&& r.ate_food ==> (outcome == TickOutcome::Won <==> occupied_count(
                final(snake).body@,
            ) >= total_cells())
        }),
        outcome == TickOutcome::Ate ==> free_cells_of(final(snake).body@).contains(
            final(food).position,
        ),
        outcome != TickOutcome::Ate ==> *final(food) == *old(food),
        outcome != TickOutcome::Ate ==> *final(rng) == *old(rng),
{
    let result = step(snake, food, score);

    if result.hit_wall {
        return TickOutcome::Died(GameOverReason::Wall);
    }
    if result.hit_self {
        return TickOutcome::Died(GameOverReason::SelfCollision);
    }
    if result.ate_food {
        match spawn_food(snake, rng) {
            Some(new_food) => {
                *food = new_food;
                TickOutcome::Ate
            },
            None => TickOutcome::Won,
        }
    } else {
        TickOutcome::Moved
    }
}

/// Entering a round: the input queue is emptied; a restart also brings back
/// a fresh snake, a zero score and food on a free cell. Resuming a paused
/// round changes nothing else.
pub fn enter_playing(
    reset: bool,
    snake: &mut Snake,
    score: &mut Score,
    queue: &mut InputQueue,
    food: &mut Food,
    rng: &mut StdRng,
)
    ensures
        final(queue).directions@.len() == 0,
        !reset ==> *final(snake) == *old(snake) && *final(score) == *old(score) && *final(food)
            == *old(food),
        reset ==> is_spawned(*final(snake)) && final(score).value == 0,
        reset ==> free_cells_of(spawn_body()).contains(final(food).position),
        !reset ==> *final(rng) == *old(rng),
{
    queue.directions.clear();

    if !reset {
        return;
    }

    let new_snake = spawn_snake();
    snake.direction = new_snake.direction;
    snake.next_direction = new_snake.next_direction;
    snake.body = new_snake.body;
    *score = Score::default();

    proof {
        spawn_body().lemma_cardinality_of_set();
    }
    if let Some(new_food) = spawn_food(snake, rng) {
        *food = new_food;
    }
}

} // verus!
