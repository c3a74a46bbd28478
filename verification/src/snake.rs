//! The snake: its heading, the heading it will take on the next move, and
//! its body cells from head to tail.

use std::collections::VecDeque;

use vstd::prelude::*;

use crate::grid::{
    can_move, dx, dy, in_bounds, is_out_of_bounds, moved, opposite, Direction, GridPosition,
    GRID_HEIGHT, GRID_WIDTH,
};

verus! {

/// Length of a freshly spawned snake.
pub const SNAKE_INITIAL_LENGTH: usize = 3;

/// The snake. `body[0]` is the head and the last element is the tail.
pub struct Snake {
    pub direction: Direction,
    pub next_direction: Direction,
    pub body: VecDeque<GridPosition>,
}

/// The head cell of a fresh snake: the middle of the board.
pub open spec fn spawn_head() -> GridPosition {
    GridPosition { x: (GRID_WIDTH / 2) as i32, y: (GRID_HEIGHT / 2) as i32 }
}

/// The body of a fresh snake: three cells in a row, the head rightmost.
pub open spec fn spawn_body() -> Seq<GridPosition> {
    seq![
        spawn_head(),
        GridPosition { x: (spawn_head().x - 1) as i32, y: spawn_head().y },
        GridPosition { x: (spawn_head().x - 2) as i32, y: spawn_head().y },
    ]
}

/// Whether `s` is a freshly spawned snake heading right.
pub open spec fn is_spawned(s: Snake) -> bool {
    &&& s.direction == Direction::Right
    &&& s.next_direction == Direction::Right
    &&& s.body@ == spawn_body()
}

/// The cell the head of `s` moves to on its next move.
pub open spec fn next_head(s: Snake) -> GridPosition {
    moved(s.body@[0], s.next_direction)
}

/// Whether the next move of `s` can be computed: the snake has a head and
/// the next cell has coordinates that fit in an `i32`.
pub open spec fn can_advance(s: Snake) -> bool {
    s.body@.len() > 0 && can_move(s.body@[0], s.next_direction)
}

/// The body after the head moves to `head`: the tail cell is dropped unless
/// the snake grows.
pub open spec fn advanced_body(body: Seq<GridPosition>, head: GridPosition, grow: bool) -> Seq<
    GridPosition,
> {
    if grow {
        seq![head] + body
    } else {
        seq![head] + body.drop_last()
    }
}

/// The pending heading after `requested` is asked for while the snake heads
/// `current` with `pending` pending: reversals are ignored.
pub open spec fn requested_heading(current: Direction, pending: Direction, requested: Direction) -> Direction {
    if opposite(requested, current) {
        pending
    } else {
        requested
    }
}

/// Asking for a heading never makes the pending heading a reversal of the
/// current one: if it was none before, it is none after.
pub proof fn lemma_request_never_reverses(current: Direction, pending: Direction, requested: Direction)
    requires
        !opposite(pending, current),
    ensures
        !opposite(requested_heading(current, pending, requested), current),
{
}

/// A request is ignored exactly when it reverses the current heading, that
/// is when its row and column changes cancel those of the current heading;
/// an ignored request keeps the pending heading, any other request replaces
/// it.
pub proof fn lemma_request_keeps_pending_on_reversal(
    current: Direction,
    pending: Direction,
    requested: Direction,
)
    ensures
        dx(requested) + dx(current) == 0 && dy(requested) + dy(current) == 0
            ==> requested_heading(current, pending, requested) == pending,
        !(dx(requested) + dx(current) == 0 && dy(requested) + dy(current) == 0)
            ==> requested_heading(current, pending, requested) == requested,
{
}

/// A move puts the new head in front of the old body: the body grows by one
/// segment when the snake grows and keeps its length otherwise, and every
/// kept segment moves one place back.
pub proof fn lemma_advanced_body_shape(body: Seq<GridPosition>, head: GridPosition, grow: bool)
    requires
        body.len() > 0,
    ensures
        advanced_body(body, head, grow).len() == if grow {
            body.len() + 1int
        } else {
            body.len() as int
        },
        advanced_body(body, head, grow)[0] == head,
        forall|i: int|
            0 <= i < advanced_body(body, head, grow).len() - 1 ==> #[trigger] advanced_body(
                body,
                head,
                grow,
            )[i + 1] == body[i],
{
}

/// A snake of length three in the middle of the board, heading right.
pub fn spawn_snake() -> (s: Snake)
    ensures
        is_spawned(s),
{
    let head = GridPosition::new(GRID_WIDTH / 2, GRID_HEIGHT / 2);
    let mut body: VecDeque<GridPosition> = VecDeque::new();
    body.push_back(head);
    body.push_back(GridPosition::new(head.x - 1, head.y));
    body.push_back(GridPosition::new(head.x - 2, head.y));
    assert(body@ =~= spawn_body());
    Snake { direction: Direction::Right, next_direction: Direction::Right, body }
}

/// Requests a new heading; a request to reverse the current heading is
/// ignored.
pub fn change_direction(snake: &mut Snake, new_dir: Direction)
    ensures
        final(snake).direction == old(snake).direction,
        final(snake).body == old(snake).body,
        final(snake).next_direction == requested_heading(
            old(snake).direction,
            old(snake).next_direction,
            new_dir,
        ),
{
    if !new_dir.is_opposite(&snake.direction) {
        snake.next_direction = new_dir;
    }
}

/// Moves the snake one cell without growing. Returns whether the move would
/// leave the board, in which case the body stays where it is.
pub fn advance_snake(snake: &mut Snake) -> (hit_wall: bool)
    requires
        can_advance(*old(snake)),
    ensures
        final(snake).direction == old(snake).next_direction,
        final(snake).next_direction == old(snake).next_direction,
        hit_wall == !in_bounds(next_head(*old(snake))),
        hit_wall ==> final(snake).body@ == old(snake).body@,
        !hit_wall ==> final(snake).body@ == advanced_body(
            old(snake).body@,
            next_head(*old(snake)),
            false,
        ),
{
    advance_snake_with_growth(snake, false)
}

/// Moves the snake one cell, keeping the tail when `grow` is set. The
/// pending heading becomes the heading first. Returns whether the move
/// would leave the board, in which case the body stays where it is.
pub fn advance_snake_with_growth(snake: &mut Snake, grow: bool) -> (hit_wall: bool)
    requires
        can_advance(*old(snake)),
    ensures
        final(snake).direction == old(snake).next_direction,
        final(snake).next_direction == old(snake).next_direction,
        hit_wall == !in_bounds(next_head(*old(snake))),
        hit_wall ==> final(snake).body@ == old(snake).body@,
        !hit_wall ==> final(snake).body@ == advanced_body(
            old(snake).body@,
            next_head(*old(snake)),
            grow,
        ),
{
    snake.direction = snake.next_direction;

    let new_head = snake.direction.apply(&snake.body[0]);

    if is_out_of_bounds(&new_head) {
        return true;
    }

    snake.body.push_front(new_head);
    if !grow {
        snake.body.pop_back();
    }
    false
}

} // verus!
