//! Rules of one game step: movement, collisions with the walls and with the
//! snake itself, eating and scoring. Also the difficulty levels and the
//! integer part of the speed rule.

use vstd::prelude::*;

use crate::food::Food;
use crate::grid::{in_bounds, is_out_of_bounds, Direction, GridPosition};
use crate::snake::{
    advance_snake_with_growth, advanced_body, can_advance, next_head, Snake,
    SNAKE_INITIAL_LENGTH,
};

verus! {

/// Difficulty level; it sets the base speed.
#[derive(Clone, Copy, PartialEq, Eq, Structural, Debug)]
pub enum Difficulty {
    Slow,
    Medium,
    Fast,
}

impl Default for Difficulty {
    fn default() -> (d: Self)
        ensures
            d == Difficulty::Medium,
    {
        Difficulty::Medium
    }
}

/// Base speed of a difficulty level, in steps per second.
pub open spec fn base_speed_of(d: Difficulty) -> int {
    match d {
        Difficulty::Slow => 6,
        Difficulty::Medium => 10,
        Difficulty::Fast => 14,
    }
}

impl Difficulty {
    /// Base speed in steps per second.
    pub fn base_steps_per_second(&self) -> (s: u32)
        ensures
            s == base_speed_of(*self),
    {
        match self {
            Difficulty::Slow => 6,
            Difficulty::Medium => 10,
            Difficulty::Fast => 14,
        }
    }
}

/// Points of the current round.
#[derive(Clone, Copy, PartialEq, Eq, Structural, Debug)]
pub struct Score {
    pub value: u32,
}

impl Default for Score {
    fn default() -> (s: Self)
        ensures
            s.value == 0,
    {
        Score { value: 0 }
    }
}

/// Points awarded for one piece of food.
pub const FOOD_POINTS: u32 = 10;

/// Body length gained per speed-up.
pub const SEGMENTS_PER_SPEED_UP: usize = 5;

/// Number of 10% speed-ups earned by a snake of the given length: one for
/// every five segments beyond the initial length.
pub open spec fn speed_ups_of(snake_length: int) -> int {
    if snake_length <= SNAKE_INITIAL_LENGTH {
        0
    } else {
        (snake_length - SNAKE_INITIAL_LENGTH) / SEGMENTS_PER_SPEED_UP as int
    }
}

/// No speed-up up to the initial length, and one more speed-up for every
/// five further segments.
pub proof fn lemma_speed_ups_every_five(snake_length: int)
    ensures
        snake_length <= SNAKE_INITIAL_LENGTH ==> speed_ups_of(snake_length) == 0,
        snake_length >= SNAKE_INITIAL_LENGTH ==> speed_ups_of(snake_length + SEGMENTS_PER_SPEED_UP as int)
            == speed_ups_of(snake_length) + 1,
        SNAKE_INITIAL_LENGTH <= snake_length < SNAKE_INITIAL_LENGTH + SEGMENTS_PER_SPEED_UP
            ==> speed_ups_of(snake_length) == 0,
{
}

/// Number of 10% speed-ups earned by a snake of length `snake_length`.
pub fn speed_ups(snake_length: usize) -> (n: usize)
    ensures
        n == speed_ups_of(snake_length as int),
{
    snake_length.saturating_sub(SNAKE_INITIAL_LENGTH) / SEGMENTS_PER_SPEED_UP
}

/// Outcome of one step.
#[derive(Debug, PartialEq, Eq, Structural)]
pub struct StepResult {
    pub hit_wall: bool,
    pub hit_self: bool,
    pub ate_food: bool,
}

/// The cells of `body` still covered after the head moves: all of them when
/// the snake grows, all but the tail otherwise.
pub open spec fn staying_cells(body: Seq<GridPosition>, grow: bool) -> Seq<GridPosition> {
    if grow {
        body
    } else {
        body.drop_last()
    }
}

/// Whether the next move of `s` reaches the food.
pub open spec fn eats(s: Snake, food: Food) -> bool {
    next_head(s) == food.position
}

/// Whether the next move of `s` leaves the board.
pub open spec fn hits_wall(s: Snake) -> bool {
    !in_bounds(next_head(s))
}

/// Whether the next move of `s` runs into a body cell that stays.
pub open spec fn hits_self(s: Snake, food: Food) -> bool {
    !hits_wall(s) && staying_cells(s.body@, eats(s, food)).contains(next_head(s))
}

/// The result that `step` reports for `s` and `food`.
pub open spec fn step_result_of(s: Snake, food: Food) -> StepResult {
    StepResult {
        hit_wall: hits_wall(s),
        hit_self: hits_self(s, food),
        ate_food: !hits_wall(s) && !hits_self(s, food) && eats(s, food),
    }
}

/// Whether a step of `s` can be played from a score of `score`: the snake
/// can move, and eating does not overflow the score.
pub open spec fn can_step(s: Snake, food: Food, score: Score) -> bool {
    &&& can_advance(s)
    &&& step_result_of(s, food).ate_food ==> score.value + FOOD_POINTS <= u32::MAX
}

/// How a step changes the snake and the score: on a collision nothing
/// changes; otherwise the pending heading is taken, the head moves on (the
/// body growing when it eats) and eating adds the points.
pub open spec fn step_effect(pre: Snake, post: Snake, food: Food, pre_score: Score, post_score: Score) -> bool {
    let r = step_result_of(pre, food);
    if r.hit_wall || r.hit_self {
        post == pre && post_score == pre_score
    } else {
        &&& post.direction == pre.next_direction
        &&& post.next_direction == pre.next_direction
        &&& post.body@ == advanced_body(pre.body@, next_head(pre), r.ate_food)
        &&& post_score.value == pre_score.value + if r.ate_food {
            FOOD_POINTS as int
        } else {
            0
        }
    }
}

/// A step keeps the score equal to the points of the food eaten since the
/// snake had its initial length: when the score is `FOOD_POINTS` times the
/// growth of the snake before a step, it still is after it.
pub proof fn lemma_score_counts_food(
    pre: Snake,
    post: Snake,
    food: Food,
    pre_score: Score,
    post_score: Score,
)
    requires
        pre.body@.len() > 0,
        step_effect(pre, post, food, pre_score, post_score),
        pre_score.value == FOOD_POINTS * (pre.body@.len() - SNAKE_INITIAL_LENGTH),
    ensures
        post_score.value == FOOD_POINTS * (post.body@.len() - SNAKE_INITIAL_LENGTH),
{
}

/// A step runs into the snake itself exactly when the new head lands on a
/// body segment other than the tail, or on the tail too when the snake eats
/// (the tail then stays), and the head is still on the board.
pub proof fn lemma_self_collision_is_body_hit(s: Snake, food: Food)
    requires
        s.body@.len() > 0,
    ensures
        hits_self(s, food) <==> {
            &&& in_bounds(next_head(s))
            &&& exists|j: int|
                0 <= j < s.body@.len() && #[trigger] s.body@[j] == next_head(s) && (next_head(s)
                    == food.position || j != s.body@.len() - 1)
        },
{
    let body = s.body@;
    let h = next_head(s);
    let grow = h == food.position;
    if staying_cells(body, grow).contains(h) {
        let j = choose|j: int| 0 <= j < staying_cells(body, grow).len() && staying_cells(body, grow)[j] == h;
        assert(body[j] == h);
    }
    if exists|j: int| 0 <= j < body.len() && #[trigger] body[j] == h && (grow || j != body.len() - 1) {
        let j = choose|j: int| 0 <= j < body.len() && #[trigger] body[j] == h && (grow || j != body.len() - 1);
        assert(staying_cells(body, grow)[j] == h);
    }
}

/// Whether the new head hits the body. Without growth the tail leaves its
/// cell, so moving onto the old tail is no collision; with growth the tail
/// stays and it is one.
fn is_self_collision(snake: &Snake, new_head: &GridPosition, grow: bool) -> (r: bool)
    requires
        snake.body@.len() > 0,
    ensures
        r == staying_cells(snake.body@, grow).contains(*new_head),
{
    let len = snake.body.len();
    for i in 0..len
        invariant
            len == snake.body@.len(),
            len > 0,
            forall|j: int|
                0 <= j < i ==> !(snake.body@[j] == *new_head && (grow || j != len - 1)),
    {
        if snake.body[i] == *new_head && (grow || i != len - 1) {
            proof {
                assert(staying_cells(snake.body@, grow)[i as int] == *new_head);
            }
            return true;
        }
    }
    proof {
        if staying_cells(snake.body@, grow).contains(*new_head) {
            let j = choose|j: int|
                0 <= j < staying_cells(snake.body@, grow).len() && staying_cells(
                    snake.body@,
                    grow,
                )[j] == *new_head;
            assert(snake.body@[j] == *new_head);
        }
    }
    false
}

/// Whether `step` may be called on these values: the snake has a head, the
/// next cell's coordinates fit in an `i32`, and eating would not overflow the
/// score.
pub fn step_allowed(snake: &Snake, food: &Food, score: &Score) -> (ok: bool)
    ensures
        ok == can_step(*snake, *food, *score),
{
    if snake.body.len() == 0 {
        return false;
    }
    let head = snake.body[0];
    let (dx, dy): (i64, i64) = match snake.next_direction {
        Direction::Up => (0, -1),
        Direction::Down => (0, 1),
        Direction::Left => (-1, 0),
        Direction::Right => (1, 0),
    };
    let nx = head.x as i64 + dx;
    let ny = head.y as i64 + dy;
    if nx < i32::MIN as i64 || nx > i32::MAX as i64 || ny < i32::MIN as i64 || ny
        > i32::MAX as i64 {
        return false;
    }
    let new_head = snake.next_direction.apply(&head);
    if is_out_of_bounds(&new_head) {
        return true;
    }
    let grow = new_head == food.position;
    if is_self_collision(snake, &new_head, grow) {
        return true;
    }
    !grow || score.value <= u32::MAX - FOOD_POINTS
}

/// Plays one step: applies the pending heading, checks for the walls and
/// for the snake itself, eats and grows when the head reaches the food, and
/// adds the points. On a collision nothing changes.
pub fn step(snake: &mut Snake, food: &Food, score: &mut Score) -> (r: StepResult)
    requires
        can_step(*old(snake), *food, *old(score)),
    ensures
        r == step_result_of(*old(snake), *food),
        step_effect(*old(snake), *final(snake), *food, *old(score), *final(score)),
{
    let new_head = snake.next_direction.apply(&snake.body[0]);

    if is_out_of_bounds(&new_head) {
        return StepResult { hit_wall: true, hit_self: false, ate_food: false };
    }

    let grow = new_head == food.position;

    if is_self_collision(snake, &new_head, grow) {
        return StepResult { hit_wall: false, hit_self: true, ate_food: false };
    }

    advance_snake_with_growth(snake, grow);

    if grow {
        score.value = score.value + FOOD_POINTS;
    }

    StepResult { hit_wall: false, hit_self: false, ate_food: grow }
}

} // verus!
