//! Food placement: food appears on a board cell that the snake does not
//! occupy, chosen at random.

use std::collections::VecDeque;

use rand::rngs::StdRng;

use vstd::prelude::*;

use crate::grid::{in_bounds, GridPosition, GRID_HEIGHT, GRID_WIDTH};
use crate::random::random_index;
use crate::snake::Snake;

verus! {

/// The food on the board.
#[derive(Clone, Copy, PartialEq, Eq, Structural, Debug)]
pub struct Food {
    pub position: GridPosition,
}

/// Number of cells on the board.
pub open spec fn total_cells() -> int {
    GRID_WIDTH * GRID_HEIGHT
}

/// The `k`-th board cell in row-major order.
pub open spec fn board_cell(k: int) -> GridPosition {
    GridPosition { x: (k % GRID_WIDTH as int) as i32, y: (k / GRID_WIDTH as int) as i32 }
}

/// All board cells in row-major order.
pub open spec fn board_cells() -> Seq<GridPosition> {
    Seq::new(total_cells() as nat, |k: int| board_cell(k))
}

/// Whether a cell is not covered by `body`.
pub open spec fn is_free_in(body: Seq<GridPosition>) -> spec_fn(GridPosition) -> bool {
    |c: GridPosition| !body.contains(c)
}

/// The board cells not covered by `body`, in row-major order.
pub open spec fn free_cells_of(body: Seq<GridPosition>) -> Seq<GridPosition> {
    board_cells().filter(is_free_in(body))
}

/// Number of distinct cells that `body` covers.
pub open spec fn occupied_count(body: Seq<GridPosition>) -> nat {
    body.to_set().len()
}

/// The cell of row `y` and column `x` is board cell `y * GRID_WIDTH + x`.
proof fn lemma_board_cell_at(x: int, y: int)
    requires
        0 <= x < GRID_WIDTH,
        0 <= y < GRID_HEIGHT,
    ensures
        0 <= y * GRID_WIDTH + x < total_cells(),
        board_cell(y * GRID_WIDTH + x) == (GridPosition { x: x as i32, y: y as i32 }),
{
    assert((y * 30 + x) % 30 == x && (y * 30 + x) / 30 == y) by (nonlinear_arith)
        requires
            0 <= x < 30,
            0 <= y,
    ;
}

/// Board cells lie on the board, and board cell `k` is row `k / GRID_WIDTH`,
/// column `k % GRID_WIDTH`.
proof fn lemma_board_cell(k: int)
    requires
        0 <= k < total_cells(),
    ensures
        in_bounds(board_cell(k)),
        board_cell(k).y * GRID_WIDTH + board_cell(k).x == k,
{
    assert(0 <= k % 30 < 30 && 0 <= k / 30 < 20 && (k / 30) * 30 + k % 30 == k)
        by (nonlinear_arith)
        requires
            0 <= k < 600,
    ;
}

/// Every board cell appears once in `board_cells()`, and every cell on
/// the board appears there.
proof fn lemma_board_cells()
    ensures
        board_cells().no_duplicates(),
        board_cells().to_set().len() == total_cells(),
        forall|p: GridPosition| in_bounds(p) ==> #[trigger] board_cells().contains(p),
{
    assert forall|i: int, j: int|
        0 <= i < board_cells().len() && 0 <= j < board_cells().len() && i != j
    implies board_cells()[i] != board_cells()[j] by {
        lemma_board_cell(i);
        lemma_board_cell(j);
    }
    board_cells().unique_seq_to_set();
    assert forall|p: GridPosition| in_bounds(p) implies #[trigger] board_cells().contains(p) by {
        lemma_board_cell_at(p.x as int, p.y as int);
        assert(board_cells()[p.y * GRID_WIDTH + p.x] == p);
    }
}

/// Free cells lie on the board and are not covered by the body; the free
/// list is empty only when the body covers at least every board cell.
pub proof fn lemma_free_cells(body: Seq<GridPosition>)
    ensures
        forall|c: GridPosition| #[trigger]
            free_cells_of(body).contains(c) ==> in_bounds(c) && !body.contains(c),
        forall|c: GridPosition|
            in_bounds(c) && !body.contains(c) ==> #[trigger] free_cells_of(body).contains(c),
        free_cells_of(body).len() == 0 ==> occupied_count(body) >= total_cells(),
{
    assert forall|c: GridPosition| #[trigger]
        free_cells_of(body).contains(c) implies in_bounds(c) && !body.contains(c) by {
        board_cells().lemma_filter_contains_rev(is_free_in(body), c);
        let k = choose|k: int| 0 <= k < board_cells().len() && board_cells()[k] == c;
        lemma_board_cell(k);
    }
    lemma_board_cells();
    assert forall|c: GridPosition|
        in_bounds(c) && !body.contains(c) implies #[trigger] free_cells_of(body).contains(c) by {
        assert(board_cells().contains(c));
        let k = choose|k: int| 0 <= k < board_cells().len() && board_cells()[k] == c;
        board_cells().lemma_filter_contains(is_free_in(body), k);
    }
    if free_cells_of(body).len() == 0 {
        assert(board_cells().to_set().subset_of(body.to_set())) by {
            assert forall|c: GridPosition| board_cells().to_set().contains(c) implies body.to_set().contains(c) by {
                let k = choose|k: int| 0 <= k < board_cells().len() && board_cells()[k] == c;
                lemma_board_cell(k);
                if !body.contains(c) {
                    assert(free_cells_of(body).contains(c));
                }
            }
        }
        body.lemma_cardinality_of_set();
        vstd::seq_lib::seq_to_set_is_finite(body);
        vstd::set_lib::lemma_len_subset(board_cells().to_set(), body.to_set());
    }
}

/// Whether `body` covers `pos`.
fn body_contains(body: &VecDeque<GridPosition>, pos: &GridPosition) -> (r: bool)
    ensures
        r == body@.contains(*pos),
{
    let n = body.len();
    for i in 0..n
        invariant
            n == body@.len(),
            forall|j: int| 0 <= j < i ==> body@[j] != *pos,
    {
        if body[i] == *pos {
            return true;
        }
    }
    false
}

/// Whether `seen` holds `pos`.
fn vec_contains(seen: &Vec<GridPosition>, pos: &GridPosition) -> (r: bool)
    ensures
        r == seen@.contains(*pos),
{
    let n = seen.len();
    for i in 0..n
        invariant
            n == seen@.len(),
            forall|j: int| 0 <= j < i ==> seen@[j] != *pos,
    {
        if seen[i] == *pos {
            return true;
        }
    }
    false
}

/// Number of distinct cells the body covers.
fn occupied_cell_count(body: &VecDeque<GridPosition>) -> (n: usize)
    ensures
        n == occupied_count(body@),
{
    let mut seen: Vec<GridPosition> = Vec::new();
    let len = body.len();
    for i in 0..len
        invariant
            len == body@.len(),
            seen@.no_duplicates(),
            seen@.to_set() == body@.take(i as int).to_set(),
            seen@.len() <= i,
    {
        let pos = body[i];
        proof {
            assert(body@.take(i + 1) =~= body@.take(i as int).push(pos));
            body@.take(i as int).lemma_push_to_set_commute(pos);
        }
        if !vec_contains(&seen, &pos) {
            proof {
                seen@.lemma_push_to_set_commute(pos);
            }
            seen.push(pos);
        } else {
            assert(seen@.to_set().contains(pos));
            assert(seen@.to_set().insert(pos) =~= seen@.to_set());
        }
    }
    proof {
        assert(body@.take(len as int) =~= body@);
        seen@.unique_seq_to_set();
    }
    seen.len()
}

/// The board cells not covered by the snake, in row-major order.
pub fn free_cells(snake: &Snake) -> (cells: Vec<GridPosition>)
    ensures
        cells@ == free_cells_of(snake.body@),
{
    let ghost body = snake.body@;
    let mut empty: Vec<GridPosition> = Vec::new();
    let mut y: i32 = 0;
    while y < GRID_HEIGHT
        invariant
            body == snake.body@,
            0 <= y <= GRID_HEIGHT,
            empty@ == board_cells().take(y * GRID_WIDTH).filter(is_free_in(body)),
        decreases GRID_HEIGHT - y,
    {
        let mut x: i32 = 0;
        while x < GRID_WIDTH
            invariant
                body == snake.body@,
                0 <= y < GRID_HEIGHT,
                0 <= x <= GRID_WIDTH,
                empty@ == board_cells().take(y * GRID_WIDTH + x).filter(is_free_in(body)),
            decreases GRID_WIDTH - x,
        {
            let pos = GridPosition::new(x, y);
            let ghost k = y * GRID_WIDTH + x;
            proof {
                lemma_board_cell_at(x as int, y as int);
                let s = board_cells().take(k + 1);
                assert(s.drop_last() =~= board_cells().take(k));
                assert(s.last() == pos);
                reveal(Seq::filter);
            }
            if !body_contains(&snake.body, &pos) {
                empty.push(pos);
            }
            x = x + 1;
        }
        y = y + 1;
    }
    proof {
        assert(board_cells().take(total_cells()) =~= board_cells());
    }
    empty
}

/// The food placed on free cell number `index` of `free`, the list of free
/// cells; `index` is the value drawn at random.
pub fn food_at(free: &Vec<GridPosition>, index: usize) -> (food: Food)
    requires
        index < free@.len(),
    ensures
        food.position == free@[index as int],
{
    Food { position: free[index] }
}

/// Places food on a random free cell. Returns `None` when the snake covers
/// as many distinct cells as the board has, which is the winning condition;
/// the generator is then left untouched.
pub fn spawn_food(snake: &Snake, rng: &mut StdRng) -> (food: Option<Food>)
    ensures
        food is None <==> occupied_count(snake.body@) >= total_cells(),
        food is None ==> *final(rng) == *old(rng),
        food matches Some(f) ==> free_cells_of(snake.body@).contains(f.position),
        food matches Some(f) ==> in_bounds(f.position) && !snake.body@.contains(f.position),
{
    proof {
        lemma_free_cells(snake.body@);
    }
    let occupied = occupied_cell_count(&snake.body);
    let total_cells = (GRID_WIDTH * GRID_HEIGHT) as usize;
    if occupied >= total_cells {
        return None;
    }
    let empty = free_cells(snake);
    let idx = random_index(rng, empty.len());
    let food = food_at(&empty, idx);
    proof {
        assert(free_cells_of(snake.body@).contains(food.position));
    }
    Some(food)
}

} // verus!
