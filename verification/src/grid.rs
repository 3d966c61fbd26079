//! Grid coordinates with wrap-around arithmetic.

use crate::random::gen_range;
use rand::rngs::ThreadRng;
use vstd::prelude::*;

verus! {

/// Number of columns of the board.
pub const GRID_WIDTH: i16 = 30;

/// Number of rows of the board.
pub const GRID_HEIGHT: i16 = 20;

/// A cell of the board. The board is a torus: a coordinate that leaves one
/// edge comes back in at the opposite edge.
#[derive(Clone, Copy, Debug, PartialEq, Eq, Structural)]
pub struct Position {
    pub x: i16,
    pub y: i16,
}

impl Position {
    /// The position names a cell of the board.
    pub open spec fn on_grid(self) -> bool {
        0 <= self.x < GRID_WIDTH && 0 <= self.y < GRID_HEIGHT
    }

    /// The cell that the coordinates fall on once each is folded onto its axis.
    pub fn new(x: i16, y: i16) -> (position: Position)
        ensures
            position.on_grid(),
            position.x == wrap_spec(x as int, GRID_WIDTH as int),
            position.y == wrap_spec(y as int, GRID_HEIGHT as int),
    {
        Position { x: wrap(x, GRID_WIDTH), y: wrap(y, GRID_HEIGHT) }
    }

    /// A position drawn at random among the columns `0 .. max_x` and the rows
    /// `0 .. max_y`. Any cell may come out, one that is taken already too.
    pub fn random(rng: &mut ThreadRng, max_x: i16, max_y: i16) -> (position: Position)
        requires
            0 < max_x,
            0 < max_y,
        ensures
            0 <= position.x < max_x,
            0 <= position.y < max_y,
    {
        let x: i16 = gen_range(rng, 0, max_x);
        let y: i16 = gen_range(rng, 0, max_y);

        Position { x, y }
    }
}

/// The mathematical modulus of `coordinate` by `axis_size`: the one value in
/// `0 .. axis_size` that differs from `coordinate` by a multiple of `axis_size`.
pub open spec fn wrap_spec(coordinate: int, axis_size: int) -> int {
    coordinate % axis_size
}

/// Folds a coordinate back onto an axis of `axis_size` cells.
pub fn wrap(coordinate: i16, axis_size: i16) -> (wrapped: i16)
    requires
        axis_size > 0,
    ensures
        wrapped == wrap_spec(coordinate as int, axis_size as int),
        0 <= wrapped < axis_size,
{
    if coordinate >= 0 {
        coordinate % axis_size
    } else {
        let below: i16 = -(coordinate + 1);
        let folded: i16 = below % axis_size;
        proof {
            lemma_wrap_negative(coordinate as int, axis_size as int);
        }
        axis_size - 1 - folded
    }
}

/// A coordinate on the axis stays where it is; one step before the first
/// cell lies the last one, and one step past the last cell the first one.
pub proof fn lemma_wrap_edges(coordinate: int, axis_size: int)
    requires
        axis_size > 0,
    ensures
        0 <= wrap_spec(coordinate, axis_size) < axis_size,
        0 <= coordinate < axis_size ==> wrap_spec(coordinate, axis_size) == coordinate,
        wrap_spec(-1, axis_size) == axis_size - 1,
        wrap_spec(axis_size, axis_size) == 0,
{
    vstd::arithmetic::div_mod::lemma_fundamental_div_mod_converse(-1, axis_size, -1, axis_size - 1);
    vstd::arithmetic::div_mod::lemma_fundamental_div_mod_converse(axis_size, axis_size, 1, 0);
    vstd::arithmetic::div_mod::lemma_mod_bound(coordinate, axis_size);
    if 0 <= coordinate < axis_size {
        vstd::arithmetic::div_mod::lemma_small_mod(coordinate as nat, axis_size as nat);
    }
}

/// A coordinate `c` below zero lies as far under the axis's end as `-(c + 1)`
/// lies over its start.
proof fn lemma_wrap_negative(c: int, n: int)
    requires
        c < 0,
        n > 0,
    ensures
        c % n == n - 1 - ((-(c + 1)) % n),
{
    let k = -(c + 1);
    let q = k / n;
    let r = k % n;
    assert(k == n * q + r && 0 <= r < n) by {
        vstd::arithmetic::div_mod::lemma_fundamental_div_mod(k, n);
    }
    assert(c == n * (-q - 1) + (n - 1 - r)) by (nonlinear_arith)
        requires
            k == n * q + r,
            c == -k - 1,
    ;
    vstd::arithmetic::div_mod::lemma_fundamental_div_mod_converse(c, n, -q - 1, n - 1 - r);
}

} // verus!
