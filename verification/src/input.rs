//! Keyboard input: the keys the game reacts to, the mapping from keys to
//! directions, and the queue of requested directions.

use std::collections::VecDeque;

use vstd::prelude::*;

use crate::grid::{opposite, Direction};
use crate::snake::{self, Snake};

verus! {

/// The keyboard keys the game reads; every other key is `Other`.
#[derive(Clone, Copy, PartialEq, Eq, Structural, Debug, Hash)]
pub enum KeyCode {
    ArrowUp,
    ArrowDown,
    ArrowLeft,
    ArrowRight,
    KeyW,
    KeyA,
    KeyS,
    KeyD,
    KeyM,
    KeyP,
    KeyR,
    Digit1,
    Digit2,
    Digit3,
    Space,
    Enter,
    Escape,
    ControlLeft,
    ControlRight,
    Other,
}

/// The direction a key stands for: the arrow keys and W/A/S/D.
pub open spec fn key_direction(key: KeyCode) -> Option<Direction> {
    match key {
        KeyCode::ArrowUp | KeyCode::KeyW => Some(Direction::Up),
        KeyCode::ArrowDown | KeyCode::KeyS => Some(Direction::Down),
        KeyCode::ArrowLeft | KeyCode::KeyA => Some(Direction::Left),
        KeyCode::ArrowRight | KeyCode::KeyD => Some(Direction::Right),
        _ => None,
    }
}

/// Only the arrow keys and W/A/S/D stand for a direction: the up arrow and W
/// for up, the down arrow and S for down, the left arrow and A for left, the
/// right arrow and D for right.
pub proof fn lemma_direction_keys(k: KeyCode)
    ensures
        key_direction(k) == Some(Direction::Up) <==> (k == KeyCode::ArrowUp || k == KeyCode::KeyW),
        key_direction(k) == Some(Direction::Down) <==> (k == KeyCode::ArrowDown || k
            == KeyCode::KeyS),
        key_direction(k) == Some(Direction::Left) <==> (k == KeyCode::ArrowLeft || k
            == KeyCode::KeyA),
        key_direction(k) == Some(Direction::Right) <==> (k == KeyCode::ArrowRight || k
            == KeyCode::KeyD),
        key_direction(k) is None <==> !(k == KeyCode::ArrowUp || k == KeyCode::KeyW || k
            == KeyCode::ArrowDown || k == KeyCode::KeyS || k == KeyCode::ArrowLeft || k
            == KeyCode::KeyA || k == KeyCode::ArrowRight || k == KeyCode::KeyD),
{
}

/// Keys that are no direction key queue nothing.
pub proof fn lemma_other_keys_queue_nothing(keys: Seq<KeyCode>)
    requires
        forall|i: int|
            0 <= i < keys.len() ==> !(#[trigger] keys[i] == KeyCode::ArrowUp || keys[i]
                == KeyCode::KeyW || keys[i] == KeyCode::ArrowDown || keys[i] == KeyCode::KeyS
                || keys[i] == KeyCode::ArrowLeft || keys[i] == KeyCode::KeyA || keys[i]
                == KeyCode::ArrowRight || keys[i] == KeyCode::KeyD),
    ensures
        key_directions(keys).len() == 0,
    decreases keys.len(),
{
    if keys.len() > 0 {
        lemma_other_keys_queue_nothing(keys.drop_last());
        lemma_direction_keys(keys.last());
        assert(keys.last() == keys[keys.len() - 1]);
    }
}

/// The directions that a sequence of keys stands for, in order.
pub open spec fn key_directions(keys: Seq<KeyCode>) -> Seq<Direction> {
    keys.filter_map(|k: KeyCode| key_direction(k))
}

/// Index of the first direction in `queue` that is not a reversal of
/// `current`, if there is one.
pub open spec fn first_turn(queue: Seq<Direction>, current: Direction) -> Option<int>
    decreases queue.len(),
{
    if queue.len() == 0 {
        None
    } else if !opposite(queue[0], current) {
        Some(0)
    } else {
        match first_turn(queue.drop_first(), current) {
            Some(i) => Some(i + 1),
            None => None,
        }
    }
}

/// Directions requested by key presses and not applied yet.
///
/// Every frame the newly pressed direction keys are queued in order; before
/// a step `apply_input_queue` applies only the first queued direction that
/// does not reverse the current heading.
pub struct InputQueue {
    pub directions: VecDeque<Direction>,
}

impl Default for InputQueue {
    fn default() -> (q: Self)
        ensures
            q.directions@ == Seq::<Direction>::empty(),
    {
        InputQueue { directions: VecDeque::new() }
    }
}

/// Whether `key` is among `keys`.
pub fn contains_key(keys: &[KeyCode], key: KeyCode) -> (r: bool)
    ensures
        r == keys@.contains(key),
{
    let n = keys.len();
    for i in 0..n
        invariant
            n == keys@.len(),
            forall|j: int| 0 <= j < i ==> keys@[j] != key,
    {
        if keys[i] == key {
            return true;
        }
    }
    false
}

/// Maps a key to a direction; `None` for keys that are no direction key.
pub fn key_to_direction(key: KeyCode) -> (d: Option<Direction>)
    ensures
        d == key_direction(key),
{
    match key {
        KeyCode::ArrowUp | KeyCode::KeyW => Some(Direction::Up),
        KeyCode::ArrowDown | KeyCode::KeyS => Some(Direction::Down),
        KeyCode::ArrowLeft | KeyCode::KeyA => Some(Direction::Left),
        KeyCode::ArrowRight | KeyCode::KeyD => Some(Direction::Right),
        _ => None,
    }
}

/// Queues the directions of the keys pressed in this frame, in order.
pub fn handle_direction_input(keys: &[KeyCode], queue: &mut InputQueue)
    ensures
        final(queue).directions@ == old(queue).directions@ + key_directions(keys@),
{
    let n = keys.len();
    for i in 0..n
        invariant
            n == keys@.len(),
            queue.directions@ == old(queue).directions@ + key_directions(keys@.take(i as int)),
    {
        proof {
            keys@.lemma_filter_map_take_succ(|k: KeyCode| key_direction(k), i as int);
        }
        if let Some(dir) = key_to_direction(keys[i]) {
            queue.directions.push_back(dir);
        }
        proof {
            assert(queue.directions@ =~= old(queue).directions@ + key_directions(
                keys@.take(i + 1),
            ));
        }
    }
    proof {
        assert(keys@.take(n as int) =~= keys@);
    }
}

/// Applies the first queued direction that does not reverse the snake's
/// heading. Reversals in front of it are dropped, and the directions behind
/// it stay queued for later steps. If there is none, the queue ends empty and
/// the snake is unchanged.
pub fn apply_input_queue(queue: &mut InputQueue, snake: &mut Snake)
    ensures
        final(snake).direction == old(snake).direction,
        final(snake).body == old(snake).body,
        match first_turn(old(queue).directions@, old(snake).direction) {
            Some(i) => {
                &&& final(snake).next_direction == old(queue).directions@[i]
                &&& final(queue).directions@ == old(queue).directions@.skip(i + 1)
            },
            None => {
                &&& final(snake).next_direction == old(snake).next_direction
                &&& final(queue).directions@ == Seq::<Direction>::empty()
            },
        },
{
    let ghost original = queue.directions@;
    proof {
        lemma_first_turn_in_range(original, snake.direction);
    }
    let ghost popped: int = 0;
    loop
        invariant
            original == old(queue).directions@,
            0 <= popped <= original.len(),
            queue.directions@ == original.skip(popped),
            snake.direction == old(snake).direction,
            snake.body == old(snake).body,
            snake.next_direction == old(snake).next_direction,
            first_turn(original, snake.direction) == match first_turn(
                original.skip(popped),
                snake.direction,
            ) {
                Some(i) => Some(i + popped),
                None => None,
            },
        decreases original.len() - popped,
    {
        let ghost rest = queue.directions@;
        match queue.directions.pop_front() {
            Some(dir) => {
                proof {
                    assert(rest.drop_first() =~= original.skip(popped + 1));
                    assert(rest[0] == dir);
                    assert(original[popped] == dir);
                }
                if !dir.is_opposite(&snake.direction) {
                    assert(first_turn(rest, snake.direction) == Some(0int));
                    snake::change_direction(snake, dir);
                    return;
                }
                proof {
                    popped = popped + 1;
                }
            },
            None => {
                assert(first_turn(rest, snake.direction) is None);
                return;
            },
        }
    }
}

/// Applying the queue never makes the pending heading a reversal of the
/// current one: the direction it applies is no reversal, and when it applies
/// none the pending heading stays.
pub proof fn lemma_queue_never_reverses(queue: Seq<Direction>, current: Direction, pending: Direction)
    requires
        !opposite(pending, current),
    ensures
        !opposite(
            match first_turn(queue, current) {
                Some(i) => queue[i],
                None => pending,
            },
            current,
        ),
{
    lemma_first_turn_in_range(queue, current);
}

/// The first turn is the earliest queued direction that does not reverse
/// `current`: every direction in front of it reverses `current`, and when
/// there is none every queued direction reverses `current`.
pub proof fn lemma_first_turn_is_earliest(queue: Seq<Direction>, current: Direction)
    ensures
        first_turn(queue, current) matches Some(i) ==> {
            &&& 0 <= i < queue.len()
            &&& !opposite(queue[i], current)
            &&& forall|j: int| 0 <= j < i ==> opposite(#[trigger] queue[j], current)
        },
        first_turn(queue, current) is None ==> forall|j: int|
            0 <= j < queue.len() ==> opposite(#[trigger] queue[j], current),
    decreases queue.len(),
{
    if queue.len() > 0 && opposite(queue[0], current) {
        lemma_first_turn_is_earliest(queue.drop_first(), current);
        assert forall|j: int| 1 <= j < queue.len() implies queue[j] == queue.drop_first()[j - 1] by {}
    }
}

/// A found first turn is an index of the queue.
pub proof fn lemma_first_turn_in_range(queue: Seq<Direction>, current: Direction)
    ensures
        first_turn(queue, current) matches Some(i) ==> 0 <= i < queue.len(),
        first_turn(queue, current) matches Some(i) ==> !opposite(queue[i], current),
    decreases queue.len(),
{
    if queue.len() > 0 && opposite(queue[0], current) {
        lemma_first_turn_in_range(queue.drop_first(), current);
    }
}

} // verus!
