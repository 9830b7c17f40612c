//! The play field: pixel positions, borders and the grid of cells.

use rand::Rng;
use vstd::prelude::*;

verus! {

/// Edge length, in pixels, of one grid cell.
pub const CELL_SIZE: u16 = 50;

/// A point of the play field, in pixels.
#[derive(Clone, Copy, Debug, PartialEq, Eq, Structural)]
pub struct Position {
    pub x: u16,
    pub y: u16,
}

/// Width and height of the play field, in pixels.
#[derive(Clone, Copy, Debug, PartialEq, Eq, Structural)]
pub struct Borders {
    pub w: u16,
    pub h: u16,
}

impl Borders {
    /// Both sides are positive multiples of the cell size.
    pub open spec fn valid(self) -> bool {
        self.w > 0 && self.h > 0 && self.w % CELL_SIZE == 0 && self.h % CELL_SIZE == 0
    }

    /// Number of grid columns.
    pub open spec fn columns(self) -> nat {
        (self.w / CELL_SIZE) as nat
    }

    /// Number of grid rows.
    pub open spec fn rows(self) -> nat {
        (self.h / CELL_SIZE) as nat
    }
}

/// The position lies on the grid: both coordinates are multiples of the cell size.
pub open spec fn aligned(p: Position) -> bool {
    p.x % CELL_SIZE == 0 && p.y % CELL_SIZE == 0
}

/// The position lies strictly inside the borders.
pub open spec fn within(p: Position, b: Borders) -> bool {
    p.x < b.w && p.y < b.h
}

/// Where an item may be placed: on the grid and inside the borders.
pub open spec fn placeable(p: Position, b: Borders) -> bool {
    aligned(p) && within(p, b)
}

/// Two positions collide when they are equal on both axes.
pub open spec fn collides(a: Position, b: Position) -> bool {
    a.x == b.x && a.y == b.y
}

/// The pixel position of the cell at column `col` and row `row`.
pub fn cell_position(borders: Borders, col: u16, row: u16) -> (r: Position)
    requires
        borders.valid(),
        col < borders.columns(),
        row < borders.rows(),
    ensures
        r.x == col * CELL_SIZE,
        r.y == row * CELL_SIZE,
        placeable(r, borders),
{
    let ghost (c, k, w, h) = (col as int, row as int, borders.w as int, borders.h as int);
    assert(c * 50 < w && k * 50 < h && (c * 50) % 50 == 0 && (k * 50) % 50 == 0)
        by (nonlinear_arith)
        requires
            0 <= c < w / 50,
            0 <= k < h / 50,
            w % 50 == 0,
            h % 50 == 0,
    ;
    Position { x: col * CELL_SIZE, y: row * CELL_SIZE }
}

/// Relies on rand's `thread_rng().gen_range(0..n)`: a value drawn from `[0, n)`
/// (it panics on an empty range, which `n > 0` rules out).
#[verifier::external_body]
fn random_below(n: u16) -> (r: u16)
    requires
        n > 0,
    ensures
        r < n,
{
    rand::thread_rng().gen_range(0..n)
}

/// A random cell of the grid: a position on the grid, inside the borders.
pub fn random_position(borders: Borders) -> (r: Position)
    requires
        borders.valid(),
    ensures
        placeable(r, borders),
{
    let col = random_below(borders.w / CELL_SIZE);
    let row = random_below(borders.h / CELL_SIZE);
    cell_position(borders, col, row)
}

/// Whether two positions collide.
pub fn check_collision(object1: Position, object2: Position) -> (r: bool)
    ensures
        r == collides(object1, object2),
{
    object1.x == object2.x && object1.y == object2.y
}

/// Collision is exact equality: every position collides with itself, and two
/// positions that differ on either axis never collide.
pub proof fn lemma_collision_is_equality(p: Position, q: Position)
    ensures
        collides(p, p),
        (p.x != q.x || p.y != q.y) ==> !collides(p, q),
        collides(p, q) <==> p == q,
{
}

} // verus!
