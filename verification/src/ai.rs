//! Autopilot: a fixed Hamiltonian cycle over the whole board.
//!
//! The tour starts at the top-left cell, runs right along row 0, snakes
//! through columns `1..GRID_WIDTH` of the remaining rows (odd rows right to
//! left, even rows left to right), and returns to the start up column 0.

use vstd::prelude::*;

use crate::food::{occupied_count, Food};
use crate::game::{
    hits_self, hits_wall, lemma_score_counts_food, staying_cells, step_effect, step_result_of, Score,
    FOOD_POINTS,
};
use crate::snake::{
    advanced_body, can_advance, is_spawned, next_head, spawn_head, Snake, SNAKE_INITIAL_LENGTH,
};
use crate::grid::{can_move, in_bounds, moved, Direction, GridPosition, GRID_HEIGHT, GRID_WIDTH};

verus! {

/// Number of cells on the board, which is the length of the tour.
pub open spec fn board_size() -> int {
    GRID_WIDTH * GRID_HEIGHT
}

/// The heading the autopilot chooses at `p`.
pub open spec fn autopilot_direction(p: GridPosition) -> Direction {
    if p.x == 0 {
        // column 0 leads back up to the start, which heads right
        if p.y == 0 {
            Direction::Right
        } else {
            Direction::Up
        }
    } else if p.y == 0 {
        // row 0 runs right and turns down at the right edge
        if p.x == GRID_WIDTH - 1 {
            Direction::Down
        } else {
            Direction::Right
        }
    } else if 0 < p.y && p.y % 2 == 1 {
        // odd rows run left; at column 1 they turn down, or into column 0
        // on the last row
        if p.x == 1 {
            if p.y == GRID_HEIGHT - 1 {
                Direction::Left
            } else {
                Direction::Down
            }
        } else {
            Direction::Left
        }
    } else if p.x == GRID_WIDTH - 1 {
        // even rows run right and turn down at the right edge
        Direction::Down
    } else {
        Direction::Right
    }
}

/// Position of the board cell `p` on the tour, counted from the top-left
/// cell.
pub open spec fn tour_index(p: GridPosition) -> int {
    if p.y == 0 {
        p.x as int
    } else if p.x == 0 {
        board_size() - p.y
    } else if p.y % 2 == 1 {
        GRID_WIDTH + (p.y - 1) * (GRID_WIDTH - 1) + (GRID_WIDTH - 1 - p.x)
    } else {
        GRID_WIDTH + (p.y - 1) * (GRID_WIDTH - 1) + (p.x - 1)
    }
}

/// The cell the autopilot moves to from `p`.
pub open spec fn autopilot_step(p: GridPosition) -> GridPosition {
    moved(p, autopilot_direction(p))
}

/// The cell reached from `p` after `n` autopilot moves.
pub open spec fn autopilot_walk(p: GridPosition, n: nat) -> GridPosition
    decreases n,
{
    if n == 0 {
        p
    } else {
        autopilot_step(autopilot_walk(p, (n - 1) as nat))
    }
}

/// Returns the heading that keeps the head on the Hamiltonian cycle.
///
/// At the initial head `(GRID_WIDTH / 2, GRID_HEIGHT / 2)` this is
/// `Direction::Right`, which is compatible with the snake's initial heading.
pub fn next_direction(head: GridPosition) -> (d: Direction)
    ensures
        d == autopilot_direction(head),
{
    let x = head.x;
    let y = head.y;

    if x == 0 {
        if y == 0 {
            return Direction::Right;
        }
        return Direction::Up;
    }
    if y == 0 {
        if x == GRID_WIDTH - 1 {
            return Direction::Down;
        }
        return Direction::Right;
    }
    if y % 2 == 1 {
        if x == 1 {
            if y == GRID_HEIGHT - 1 {
                return Direction::Left;
            }
            return Direction::Down;
        }
        return Direction::Left;
    }
    if x == GRID_WIDTH - 1 {
        Direction::Down
    } else {
        Direction::Right
    }
}

/// The tour index of a board cell lies in `0..board_size()`.
pub proof fn lemma_tour_index_range(p: GridPosition)
    requires
        in_bounds(p),
    ensures
        0 <= tour_index(p) < board_size(),
{
}

/// Distinct board cells have distinct tour indices.
pub proof fn lemma_tour_index_injective(p: GridPosition, q: GridPosition)
    requires
        in_bounds(p),
        in_bounds(q),
        tour_index(p) == tour_index(q),
    ensures
        p == q,
{
}

/// From a board cell, the autopilot moves to the neighbouring board cell
/// that comes next on the tour, wrapping from the last cell to the first.
pub proof fn lemma_autopilot_step(p: GridPosition)
    requires
        in_bounds(p),
    ensures
        can_move(p, autopilot_direction(p)),
        in_bounds(autopilot_step(p)),
        tour_index(autopilot_step(p)) == (tour_index(p) + 1) % board_size(),
{
    let q = autopilot_step(p);
    lemma_tour_index_range(p);
    if p.x == 0 {
        if p.y == 0 {
            assert(tour_index(q) == 1);
        } else if p.y == 1 {
            assert(tour_index(q) == 0);
            assert(tour_index(p) == board_size() - 1);
        } else {
            assert(tour_index(q) == tour_index(p) + 1);
        }
    } else if p.y == 0 {
        if p.x == GRID_WIDTH - 1 {
            assert(q.y == 1 && q.y % 2 == 1);
            assert(tour_index(q) == tour_index(p) + 1);
        } else {
            assert(tour_index(q) == tour_index(p) + 1);
        }
    } else if p.y % 2 == 1 {
        if p.x == 1 {
            if p.y == GRID_HEIGHT - 1 {
                assert(tour_index(q) == tour_index(p) + 1);
            } else {
                assert(q.y == p.y + 1);
                assert(q.y % 2 == 0);
                assert(tour_index(q) == tour_index(p) + 1);
            }
        } else {
            assert(tour_index(q) == tour_index(p) + 1);
        }
    } else {
        if p.x == GRID_WIDTH - 1 {
            assert(q.y == p.y + 1);
            assert(q.y % 2 == 1);
            assert(tour_index(q) == tour_index(p) + 1);
        } else {
            assert(tour_index(q) == tour_index(p) + 1);
        }
    }
}

/// After `n` autopilot moves from a board cell the snake is on the board,
/// `n` cells further along the tour.
pub proof fn lemma_autopilot_walk(p: GridPosition, n: nat)
    requires
        in_bounds(p),
    ensures
        in_bounds(autopilot_walk(p, n)),
        tour_index(autopilot_walk(p, n)) == (tour_index(p) + n) % board_size(),
    decreases n,
{
    lemma_tour_index_range(p);
    if n > 0 {
        let m = (n - 1) as nat;
        lemma_autopilot_walk(p, m);
        lemma_autopilot_step(autopilot_walk(p, m));
        let a = tour_index(p);
        lemma_tour_index_range(p);
        assert(((a + m) % 600 + 1) % 600 == (a + n) % 600) by (nonlinear_arith)
            requires
                n == m + 1,
                0 <= a,
        ;
    }
}

/// The autopilot tours the whole board: starting from any board cell, the
/// first `board_size()` cells it occupies are pairwise distinct, and after
/// `board_size()` moves it is back where it started.
pub proof fn lemma_autopilot_is_hamiltonian_cycle(p: GridPosition, i: nat, j: nat)
    requires
        in_bounds(p),
        i < j < board_size(),
    ensures
        autopilot_walk(p, i) != autopilot_walk(p, j),
        autopilot_walk(p, board_size() as nat) == p,
{
    lemma_autopilot_walk(p, i);
    lemma_autopilot_walk(p, j);
    lemma_autopilot_walk(p, board_size() as nat);
    lemma_tour_index_range(p);
    let a = tour_index(p);
    assert((a + i) % 600 != (a + j) % 600) by (nonlinear_arith)
        requires
            0 <= a < 600,
            i < j < 600,
    ;
    assert((a + 600) % 600 == a) by (nonlinear_arith)
        requires
            0 <= a < 600,
    ;
    lemma_tour_index_injective(autopilot_walk(p, board_size() as nat), p);
}

/// Every board cell is reached from the top-left cell after as many
/// autopilot moves as its tour index.
#[verifier::spinoff_prover]
pub proof fn lemma_autopilot_reaches_every_cell(q: GridPosition)
    requires
        in_bounds(q),
    ensures
        0 <= tour_index(q) < board_size(),
        autopilot_walk(GridPosition { x: 0, y: 0 }, tour_index(q) as nat) == q,
{
    let o = GridPosition { x: 0, y: 0 };
    lemma_tour_index_range(q);
    lemma_autopilot_walk(o, tour_index(q) as nat);
    lemma_tour_index_injective(autopilot_walk(o, tour_index(q) as nat), q);
}

/// At the initial head the autopilot heads right, so its first request is
/// never a reversal of the initial heading.
pub proof fn lemma_autopilot_starts_right()
    ensures
        autopilot_direction(spawn_head()) == Direction::Right,
{
}

/// Whether `body` lies along the tour: its tail is a board cell and every
/// segment is the tour successor of the segment behind it.
pub open spec fn follows_tour(body: Seq<GridPosition>) -> bool {
    &&& body.len() > 0
    &&& in_bounds(body.last())
    &&& forall|i: int| 0 <= i < body.len() - 1 ==> #[trigger] body[i] == autopilot_step(body[i + 1])
}

/// Segment `i` of a body along the tour is reached from the tail after
/// `len - 1 - i` autopilot moves.
proof fn lemma_tour_segment(body: Seq<GridPosition>, i: int)
    requires
        follows_tour(body),
        0 <= i < body.len(),
    ensures
        body[i] == autopilot_walk(body.last(), (body.len() - 1 - i) as nat),
        in_bounds(body[i]),
    decreases body.len() - i,
{
    if i < body.len() - 1 {
        lemma_tour_segment(body, i + 1);
        assert(body[i] == autopilot_step(body[i + 1]));
    }
    lemma_autopilot_walk(body.last(), (body.len() - 1 - i) as nat);
}

/// A body along the tour that is not longer than the board covers distinct
/// cells, so the number of covered cells is its length.
pub proof fn lemma_tour_body_distinct(body: Seq<GridPosition>)
    requires
        follows_tour(body),
        body.len() <= board_size(),
    ensures
        body.no_duplicates(),
        occupied_count(body) == body.len(),
{
    assert forall|i: int, j: int| 0 <= i < body.len() && 0 <= j < body.len() && i != j
        implies body[i] != body[j] by {
        lemma_tour_segment(body, i);
        lemma_tour_segment(body, j);
        let a = (body.len() - 1 - i) as nat;
        let b = (body.len() - 1 - j) as nat;
        if a < b {
            lemma_autopilot_is_hamiltonian_cycle(body.last(), a, b);
        } else {
            lemma_autopilot_is_hamiltonian_cycle(body.last(), b, a);
        }
    }
    body.unique_seq_to_set();
}

/// A fresh snake lies along the tour.
pub proof fn lemma_spawned_snake_follows_tour(s: Snake)
    requires
        is_spawned(s),
    ensures
        follows_tour(s.body@),
{
    assert(s.body@[1] == autopilot_step(s.body@[2]));
    assert(s.body@[0] == autopilot_step(s.body@[1]));
}

/// On the autopilot, a snake along the tour that does not yet fill the board
/// never hits a wall or itself, whether or not it eats, and after the step
/// it still lies along the tour and covers as many cells as it is long. A
/// fresh snake lies along the tour, so the autopilot plays a round without
/// dying until the snake fills the board.
pub proof fn lemma_autopilot_never_collides(
    pre: Snake,
    post: Snake,
    food: Food,
    pre_score: Score,
    post_score: Score,
)
    requires
        follows_tour(pre.body@),
        pre.body@.len() < board_size(),
        pre.next_direction == autopilot_direction(pre.body@[0]),
    ensures
        can_advance(pre),
        !hits_wall(pre),
        !hits_self(pre, food),
        step_effect(pre, post, food, pre_score, post_score) ==> {
            &&& follows_tour(post.body@)
            &&& post.body@.len() <= board_size()
            &&& occupied_count(post.body@) == post.body@.len()
        },
{
    let body = pre.body@;
    let len = body.len();
    let t = body.last();
    lemma_tour_segment(body, 0);
    lemma_autopilot_step(body[0]);
    let h = next_head(pre);
    assert(h == autopilot_walk(t, len as nat));
    assert forall|j: int| 0 <= j < len implies body[j] != h by {
        lemma_tour_segment(body, j);
        lemma_autopilot_is_hamiltonian_cycle(t, (len - 1 - j) as nat, len as nat);
    }
    let grow = h == food.position;
    assert(!staying_cells(body, grow).contains(h)) by {
        if staying_cells(body, grow).contains(h) {
            let k = choose|k: int| 0 <= k < staying_cells(body, grow).len() && staying_cells(body, grow)[k] == h;
            assert(body[k] == h);
        }
    }
    if step_effect(pre, post, food, pre_score, post_score) {
        let nb = post.body@;
        assert(nb == advanced_body(body, h, grow));
        assert forall|i: int| 0 <= i < nb.len() - 1 implies #[trigger] nb[i] == autopilot_step(nb[i + 1]) by {
            if i > 0 {
                assert(nb[i] == body[i - 1]);
                assert(nb[i + 1] == body[i]);
            }
        }
        if len > 1 || grow {
            lemma_tour_segment(body, nb.len() - 2);
            assert(nb.last() == body[nb.len() - 2]);
        }
        lemma_tour_body_distinct(nb);
    }
}

/// The snake `s` after the autopilot sets its pending heading.
pub open spec fn steered(s: Snake) -> Snake {
    Snake {
        direction: s.direction,
        next_direction: if s.body@.len() > 0 {
            autopilot_direction(s.body@[0])
        } else {
            s.next_direction
        },
        body: s.body,
    }
}

/// Whether `states`, `foods` and `scores` record a round on the autopilot:
/// it starts with a fresh snake and a zero score, and before step `i` the
/// autopilot steers `states[i]`, which then takes a step with food
/// `foods[i]`, leading to `states[i + 1]` and `scores[i + 1]`. Steps are only
/// taken while the round is not won, that is while the snake covers fewer
/// cells than the board has.
pub open spec fn is_autopilot_round(states: Seq<Snake>, foods: Seq<Food>, scores: Seq<Score>) -> bool {
    &&& states.len() == foods.len() + 1
    &&& scores.len() == states.len()
    &&& is_spawned(states[0])
    &&& scores[0].value == 0
    &&& forall|i: int| 0 <= i < foods.len() ==> occupied_count(#[trigger] states[i].body@) < board_size()
    &&& forall|i: int|
        0 <= i < foods.len() ==> step_effect(
            steered(#[trigger] states[i]),
            states[i + 1],
            foods[i],
            scores[i],
            scores[i + 1],
        )
}

/// In a round on the autopilot the snake never hits a wall or itself, stays
/// along the tour, covers as many cells as it is long, and its score is
/// `FOOD_POINTS` for every segment it has grown.
#[verifier::spinoff_prover]
#[verifier::rlimit(30)]
pub proof fn lemma_autopilot_round(states: Seq<Snake>, foods: Seq<Food>, scores: Seq<Score>, i: int)
    requires
        is_autopilot_round(states, foods, scores),
        0 <= i < states.len(),
    ensures
        follows_tour(states[i].body@),
        states[i].body@.len() <= board_size(),
        occupied_count(states[i].body@) == states[i].body@.len(),
        scores[i].value == FOOD_POINTS * (states[i].body@.len() - SNAKE_INITIAL_LENGTH),
        i < foods.len() ==> !hits_wall(steered(states[i])) && !hits_self(steered(states[i]), foods[i]),
    decreases i,
{
    if i == 0 {
        lemma_spawned_snake_follows_tour(states[0]);
        lemma_tour_body_distinct(states[0].body@);
    } else {
        lemma_autopilot_round(states, foods, scores, i - 1);
        let pre = steered(states[i - 1]);
        assert(occupied_count(states[i - 1].body@) < board_size());
        assert(step_effect(pre, states[i], foods[i - 1], scores[i - 1], scores[i]));
        lemma_autopilot_never_collides(pre, states[i], foods[i - 1], scores[i - 1], scores[i]);
        lemma_score_counts_food(pre, states[i], foods[i - 1], scores[i - 1], scores[i]);
    }
    if i < foods.len() {
        assert(occupied_count(states[i].body@) < board_size());
        lemma_autopilot_never_collides(steered(states[i]), steered(states[i]), foods[i], scores[i], scores[i]);
    }
}

/// When the food always lies where the autopilot goes next, the snake eats
/// on every step and grows by one segment each time.
proof fn lemma_fed_round_length(states: Seq<Snake>, foods: Seq<Food>, scores: Seq<Score>, i: int)
    requires
        is_autopilot_round(states, foods, scores),
        forall|k: int| 0 <= k < foods.len() ==> #[trigger] foods[k].position == next_head(steered(states[k])),
        0 <= i < states.len(),
    ensures
        states[i].body@.len() == SNAKE_INITIAL_LENGTH + i,
        i < foods.len() ==> step_result_of(steered(states[i]), foods[i]).ate_food,
    decreases i,
{
    lemma_autopilot_round(states, foods, scores, i);
    if i > 0 {
        lemma_fed_round_length(states, foods, scores, i - 1);
        assert(foods[i - 1].position == next_head(steered(states[i - 1])));
        assert(step_effect(steered(states[i - 1]), states[i], foods[i - 1], scores[i - 1], scores[i]));
    }
    if i < foods.len() {
        assert(foods[i].position == next_head(steered(states[i])));
    }
}

/// The autopilot wins a round in which the food always lies where it goes
/// next: every step eats, the board is full exactly after the last step
/// (so every tick is `Ate` and the last one is `Won`), the snake then covers
/// all `board_size()` cells and the score is `FOOD_POINTS` for each of the
/// `board_size() - SNAKE_INITIAL_LENGTH` pieces of food.
pub proof fn lemma_autopilot_fed_round_wins(states: Seq<Snake>, foods: Seq<Food>, scores: Seq<Score>)
    requires
        is_autopilot_round(states, foods, scores),
        forall|k: int| 0 <= k < foods.len() ==> #[trigger] foods[k].position == next_head(steered(states[k])),
        foods.len() == board_size() - SNAKE_INITIAL_LENGTH,
    ensures
        forall|i: int| 0 <= i < foods.len() ==> #[trigger] step_result_of(steered(states[i]), foods[i]).ate_food,
        forall|i: int| 0 <= i < foods.len() ==> (occupied_count(#[trigger] states[i + 1].body@) >= board_size() <==> i == foods.len() - 1),
        states.last().body@.len() == board_size(),
        occupied_count(states.last().body@) == board_size(),
        scores.last().value == FOOD_POINTS * (board_size() - SNAKE_INITIAL_LENGTH),
{
    assert forall|i: int| 0 <= i < foods.len() implies #[trigger] step_result_of(steered(states[i]), foods[i]).ate_food by {
        lemma_fed_round_length(states, foods, scores, i);
    }
    assert forall|i: int| 0 <= i < foods.len() implies (occupied_count(#[trigger] states[i + 1].body@) >= board_size() <==> i == foods.len() - 1) by {
        lemma_fed_round_length(states, foods, scores, i + 1);
        lemma_autopilot_round(states, foods, scores, i + 1);
    }
    let n = foods.len() as int;
    lemma_fed_round_length(states, foods, scores, n);
    lemma_autopilot_round(states, foods, scores, n);
}

} // verus!
