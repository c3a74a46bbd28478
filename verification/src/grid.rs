//! Board geometry: grid positions, the four movement directions and the
//! board bounds.

use vstd::prelude::*;

verus! {

/// Number of columns on the board.
pub const GRID_WIDTH: i32 = 30;

/// Number of rows on the board.
pub const GRID_HEIGHT: i32 = 20;

/// Edge length of one cell in screen pixels.
pub const CELL_PIXELS: i64 = 24;

/// A cell of the board. The origin is the top-left cell, `x` grows to the
/// right and `y` grows downwards.
#[derive(Debug, Clone, Copy, PartialEq, Eq, Structural, Hash)]
pub struct GridPosition {
    pub x: i32,
    pub y: i32,
}

/// A movement direction of the snake.
#[derive(Debug, Clone, Copy, PartialEq, Eq, Structural, Hash)]
pub enum Direction {
    Up,
    Down,
    Left,
    Right,
}

/// Whether `p` lies on the board.
pub open spec fn in_bounds(p: GridPosition) -> bool {
    0 <= p.x < GRID_WIDTH && 0 <= p.y < GRID_HEIGHT
}

/// Column change of one move in direction `d`.
pub open spec fn dx(d: Direction) -> int {
    match d {
        Direction::Left => -1,
        Direction::Right => 1,
        _ => 0,
    }
}

/// Row change of one move in direction `d` (rows grow downwards).
pub open spec fn dy(d: Direction) -> int {
    match d {
        Direction::Up => -1,
        Direction::Down => 1,
        _ => 0,
    }
}

/// Whether the cell next to `p` in direction `d` has coordinates that fit
/// in an `i32`.
pub open spec fn can_move(p: GridPosition, d: Direction) -> bool {
    i32::MIN <= p.x + dx(d) <= i32::MAX && i32::MIN <= p.y + dy(d) <= i32::MAX
}

/// The cell next to `p` in direction `d`.
pub open spec fn moved(p: GridPosition, d: Direction) -> GridPosition {
    GridPosition { x: (p.x + dx(d)) as i32, y: (p.y + dy(d)) as i32 }
}

/// Whether `a` and `b` point in opposite directions.
pub open spec fn opposite(a: Direction, b: Direction) -> bool {
    dx(a) == -dx(b) && dy(a) == -dy(b)
}

/// Number of single-cell steps between `p` and `q` along rows and columns.
pub open spec fn manhattan_distance(p: GridPosition, q: GridPosition) -> int {
    (if p.x <= q.x { q.x - p.x } else { p.x - q.x }) + (if p.y <= q.y { q.y - p.y } else { p.y - q.y })
}

/// Screen-pixel centre of the cell `p`: the screen's y axis points upwards,
/// so the top row of the board is drawn highest.
pub open spec fn pixel_center_of(p: GridPosition) -> (int, int) {
    (
        p.x * CELL_PIXELS + CELL_PIXELS / 2,
        (GRID_HEIGHT - 1 - p.y) * CELL_PIXELS + CELL_PIXELS / 2,
    )
}

impl GridPosition {
    pub fn new(x: i32, y: i32) -> (p: Self)
        ensures
            p.x == x,
            p.y == y,
    {
        Self { x, y }
    }

    /// Screen-pixel centre of this cell (see `pixel_center_of`).
    pub fn pixel_center(&self) -> (c: (i64, i64))
        ensures
            c.0 == pixel_center_of(*self).0,
            c.1 == pixel_center_of(*self).1,
    {
        let x = self.x as i64;
        let y = self.y as i64;
        (
            x * CELL_PIXELS + CELL_PIXELS / 2,
            (GRID_HEIGHT as i64 - 1 - y) * CELL_PIXELS + CELL_PIXELS / 2,
        )
    }
}

impl Direction {
    /// Whether `other` is the reverse of `self` (a 180-degree turn).
    pub fn is_opposite(&self, other: &Direction) -> (r: bool)
        ensures
            r == opposite(*self, *other),
    {
        match (self, other) {
            (Direction::Up, Direction::Down) => true,
            (Direction::Down, Direction::Up) => true,
            (Direction::Left, Direction::Right) => true,
            (Direction::Right, Direction::Left) => true,
            _ => false,
        }
    }

    /// The cell next to `pos` in this direction.
    pub fn apply(&self, pos: &GridPosition) -> (r: GridPosition)
        requires
            can_move(*pos, *self),
        ensures
            r == moved(*pos, *self),
            r.x == pos.x + dx(*self),
            r.y == pos.y + dy(*self),
    {
        match self {
            Direction::Up => GridPosition::new(pos.x, pos.y - 1),
            Direction::Down => GridPosition::new(pos.x, pos.y + 1),
            Direction::Left => GridPosition::new(pos.x - 1, pos.y),
            Direction::Right => GridPosition::new(pos.x + 1, pos.y),
        }
    }
}

/// Whether `pos` lies outside the board.
pub fn is_out_of_bounds(pos: &GridPosition) -> (r: bool)
    ensures
        r == !in_bounds(*pos),
{
    pos.x < 0 || pos.x >= GRID_WIDTH || pos.y < 0 || pos.y >= GRID_HEIGHT
}

/// Being opposite is symmetric, and no direction is opposite to itself.
pub proof fn lemma_opposite_symmetric(a: Direction, b: Direction)
    ensures
        opposite(a, b) == opposite(b, a),
        !opposite(a, a),
{
}

/// Every move goes to one of the four neighbouring cells.
pub proof fn lemma_move_is_adjacent(p: GridPosition, d: Direction)
    requires
        can_move(p, d),
    ensures
        manhattan_distance(p, moved(p, d)) == 1,
{
}

/// Two consecutive moves lead back to the starting cell exactly when the
/// second move is the reverse of the first.
pub proof fn lemma_reverse_move_returns(p: GridPosition, a: Direction, b: Direction)
    requires
        can_move(p, a),
        can_move(moved(p, a), b),
    ensures
        moved(moved(p, a), b) == p <==> opposite(a, b),
{
}

/// Moving up raises the drawn cell on screen and moving down lowers it,
/// while the horizontal pixel position stays the same.
pub proof fn lemma_vertical_moves_on_screen(p: GridPosition)
    requires
        can_move(p, Direction::Up),
        can_move(p, Direction::Down),
    ensures
        pixel_center_of(moved(p, Direction::Up)).1 > pixel_center_of(p).1,
        pixel_center_of(moved(p, Direction::Down)).1 < pixel_center_of(p).1,
        pixel_center_of(moved(p, Direction::Up)).0 == pixel_center_of(p).0,
        pixel_center_of(moved(p, Direction::Down)).0 == pixel_center_of(p).0,
{
}

} // verus!
