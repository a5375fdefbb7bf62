//! Coordinate transform between board coordinates (column, row — row 0 at
//! the top) and world/screen coordinates (y growing upward), both in
//! fixed-point units.
//!
//! The transform is a fixed affine map: a cell is 15 world units, the
//! board is centered on a 410 x 450 world canvas and nudged by a
//! (17.5, 5) offset.  In fixed-point units those constants read 15
//! (units per unit), 205000, 225000, 17500 and 5000.

use crate::heading::GridVec;
use crate::num::COORD_LIMIT;
use vstd::arithmetic::div_mod::{lemma_div_multiples_vanish, lemma_hoist_over_denominator};
use vstd::prelude::*;

verus! {

/// World x of a board column.
pub open spec fn spec_screen_x(col: int) -> int {
    col * 15 - 205000 + 17500
}

/// World y of a board row.  The row axis is flipped: row 0 is the top of
/// the screen, which is the largest world y.
pub open spec fn spec_screen_y(row: int) -> int {
    (28000 - row) * 15 - 225000 + 5000
}

/// Board column of a world x.
pub open spec fn spec_board_col(x: int) -> int {
    (x - 17500 + 205000) / 15
}

/// Board row of a world y.
pub open spec fn spec_board_row(y: int) -> int {
    28000 - (y - 5000 + 225000) / 15
}

/// World/screen coordinates of the given board position.
pub fn get_screen_coords(col: i64, row: i64) -> (r: GridVec)
    requires
        -COORD_LIMIT <= col <= COORD_LIMIT,
        -COORD_LIMIT <= row <= COORD_LIMIT,
    ensures
        r.x == spec_screen_x(col as int),
        r.y == spec_screen_y(row as int),
{
    GridVec { x: col * 15 - 205000 + 17500, y: (28000 - row) * 15 - 225000 + 5000 }
}

/// Board coordinates of the given world/screen position.  The division
/// floors to the fixed-point resolution; the accepted window reaches one
/// full cell beyond the board's left and bottom edges, which covers every
/// world point of a grid-valid position.
pub fn get_game_board_coords(pos: GridVec) -> (r: GridVec)
    requires
        -202500 <= pos.x <= COORD_LIMIT,
        -235000 <= pos.y <= COORD_LIMIT,
    ensures
        r.x == spec_board_col(pos.x as int),
        r.y == spec_board_row(pos.y as int),
{
    proof {
        lemma_hoist_over_denominator(pos.x - 17500 + 205000, 1000, 15);
        lemma_hoist_over_denominator(pos.y - 5000 + 225000, 1000, 15);
    }
    GridVec { x: (pos.x + 202500) / 15 - 1000, y: 29000 - (pos.y + 235000) / 15 }
}

/// Round trip: mapping a grid-valid board position to the world and back
/// returns it exactly — the fixed-point transform loses nothing.  The
/// range covers every position on the board, fractional rows and columns
/// included.
pub proof fn lemma_grid_world_round_trip(col: int, row: int)
    requires
        0 <= col < 26000,
        0 <= row < 29000,
    ensures
        spec_board_col(spec_screen_x(col)) == col,
        spec_board_row(spec_screen_y(row)) == row,
{
    assert(spec_screen_x(col) - 17500 + 205000 == 15 * col);
    lemma_div_multiples_vanish(col, 15);
    assert(spec_screen_y(row) - 5000 + 225000 == 15 * (28000 - row));
    lemma_div_multiples_vanish(28000 - row, 15);
}

} // verus!
