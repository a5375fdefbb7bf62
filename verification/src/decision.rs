//! The decision-point protocol: when a mover straddling a cell may change
//! heading, and which headings are open to it there.

use crate::board::{spec_in_bounds, GameLogic};
use crate::heading::{spec_horizontal_unit, spec_opposite, spec_vertical_unit, Direction, GridVec,
    Horizontal, Vertical};
use crate::motion::POS_LIMIT;
use crate::num::{round_milli, round_to_cell, round_to_milli};
use vstd::prelude::*;

verus! {

/// The decision-point window: the mover's fractional offset from the
/// nearest cell center, on the axis it travels along (or the vertical
/// axis when the heading is neutral), must lie inside a tenth of a cell —
/// and only on the approach side: heading up or left, offsets in
/// `[0, 100)`; heading down or right, offsets in `[-100, 0)`.  This keeps
/// a mover from turning before it reaches the center or after it has
/// passed it.
pub open spec fn spec_at_decision_point(x: int, y: int, direction: Direction) -> bool {
    let current = if direction.horizontal is Zero {
        y
    } else {
        x
    };
    let diff = current - 1000 * round_milli(current);
    let min_diff = if direction.vertical is Up || direction.horizontal is Left {
        0int
    } else {
        -100int
    };
    let max_diff = if direction.vertical is Up || direction.horizontal is Left {
        100int
    } else if direction.vertical is Down || direction.horizontal is Right {
        0int
    } else {
        100int
    };
    min_diff <= diff < max_diff
}

/// Whether the mover may decide on a heading change here, exactly as
/// [`spec_at_decision_point`] says.  This does not look for open side
/// passages; [`get_available_directions`] does.
pub fn at_decision_point(position: GridVec, direction: Direction) -> (r: bool)
    requires
        -POS_LIMIT <= position.x <= POS_LIMIT,
        -POS_LIMIT <= position.y <= POS_LIMIT,
    ensures
        r == spec_at_decision_point(position.x as int, position.y as int, direction),
{
    let current = if matches!(direction.horizontal, Horizontal::Zero) {
        position.y
    } else {
        position.x
    };

    let mut min_diff: i64 = -100;
    let mut max_diff: i64 = 100;
    let diff = current - round_to_milli(current);

    if matches!(direction.vertical, Vertical::Up) || matches!(direction.horizontal, Horizontal::Left) {
        min_diff = 0;
    } else if matches!(direction.vertical, Vertical::Down) || matches!(
        direction.horizontal,
        Horizontal::Right,
    ) {
        max_diff = 0;
    }

    diff >= min_diff && diff < max_diff
}

/// The left candidate heading.
pub open spec fn dir_left() -> Direction {
    Direction { vertical: Vertical::Zero, horizontal: Horizontal::Left }
}

/// The right candidate heading.
pub open spec fn dir_right() -> Direction {
    Direction { vertical: Vertical::Zero, horizontal: Horizontal::Right }
}

/// The up candidate heading.
pub open spec fn dir_up() -> Direction {
    Direction { vertical: Vertical::Up, horizontal: Horizontal::Zero }
}

/// The down candidate heading.
pub open spec fn dir_down() -> Direction {
    Direction { vertical: Vertical::Down, horizontal: Horizontal::Zero }
}

/// Whether the candidate heading `cand` is kept at the cell
/// `(block_col, block_row)` for a mover heading `direction`: it is not the
/// exact reverse of the heading, and the neighbouring cell it points at is
/// inside the grid and not a wall.
pub open spec fn spec_keep_direction(logic: GameLogic, block_col: int, block_row: int, direction: Direction, cand: Direction) -> bool {
    &&& cand != spec_opposite(direction)
    &&& spec_in_bounds(
        block_col + spec_horizontal_unit(cand.horizontal),
        block_row + spec_vertical_unit(cand.vertical),
    )
    &&& !logic.spec_is_wall(
        block_col + spec_horizontal_unit(cand.horizontal),
        block_row + spec_vertical_unit(cand.vertical),
    )
}

/// The headings open at the mover's rounded cell, in the fixed order
/// left, right, up, down; empty when the rounded position lies off the
/// grid.
pub open spec fn spec_available_directions(logic: GameLogic, x: int, y: int, direction: Direction) -> Seq<Direction> {
    let bc = round_milli(x);
    let br = round_milli(y);
    if spec_in_bounds(bc, br) {
        (if spec_keep_direction(logic, bc, br, direction, dir_left()) {
            seq![dir_left()]
        } else {
            Seq::empty()
        }) + (if spec_keep_direction(logic, bc, br, direction, dir_right()) {
            seq![dir_right()]
        } else {
            Seq::empty()
        }) + (if spec_keep_direction(logic, bc, br, direction, dir_up()) {
            seq![dir_up()]
        } else {
            Seq::empty()
        }) + (if spec_keep_direction(logic, bc, br, direction, dir_down()) {
            seq![dir_down()]
        } else {
            Seq::empty()
        })
    } else {
        Seq::empty()
    }
}

/// Whether the candidate heading is kept here, exactly as
/// [`spec_keep_direction`] says.  `opposite` must be the reverse of the
/// mover's heading.
fn keep_direction(gamelogic: &GameLogic, block_col: i64, block_row: i64, opposite: Direction, cand: Direction) -> (r: bool)
    requires
        gamelogic.wf(),
        0 <= block_col < 26,
        0 <= block_row < 29,
    ensures
        forall|direction: Direction|
            opposite == spec_opposite(direction) ==> r == #[trigger] spec_keep_direction(
                *gamelogic,
                block_col as int,
                block_row as int,
                direction,
                cand,
            ),
{
    if cand.horizontal != opposite.horizontal || cand.vertical != opposite.vertical {
        let check_col = block_col + cand.horizontal.unit();
        let check_row = block_row + cand.vertical.unit();
        if crate::board::in_bounds(check_col, check_row) {
            !gamelogic.is_wall(check_col as usize, check_row as usize)
        } else {
            false
        }
    } else {
        false
    }
}

/// Lists the headings open from `position`, exactly as
/// [`spec_available_directions`] says: the mover's cell is the rounded
/// position; each of left, right, up and down, in that fixed order, is
/// kept when it is not the reverse of `direction` and its neighbouring
/// cell is on the grid and not a wall.
pub fn get_available_directions(position: GridVec, direction: Direction, gamelogic: &GameLogic) -> (r: Vec<Direction>)
    requires
        gamelogic.wf(),
        -POS_LIMIT <= position.x <= POS_LIMIT,
        -POS_LIMIT <= position.y <= POS_LIMIT,
    ensures
        r@ == spec_available_directions(*gamelogic, position.x as int, position.y as int, direction),
{
    let mut avail_dirs: Vec<Direction> = Vec::new();

    let block_col = round_to_cell(position.x);
    let block_row = round_to_cell(position.y);

    if crate::board::in_bounds(block_col, block_row) {
        let opposite = direction.opposite();
        let left = Direction { vertical: Vertical::Zero, horizontal: Horizontal::Left };
        let right = Direction { vertical: Vertical::Zero, horizontal: Horizontal::Right };
        let up = Direction { vertical: Vertical::Up, horizontal: Horizontal::Zero };
        let down = Direction { vertical: Vertical::Down, horizontal: Horizontal::Zero };
        if keep_direction(gamelogic, block_col, block_row, opposite, left) {
            avail_dirs.push(left);
        }
        if keep_direction(gamelogic, block_col, block_row, opposite, right) {
            avail_dirs.push(right);
        }
        if keep_direction(gamelogic, block_col, block_row, opposite, up) {
            avail_dirs.push(up);
        }
        if keep_direction(gamelogic, block_col, block_row, opposite, down) {
            avail_dirs.push(down);
        }
        proof {
            assert(avail_dirs@ =~= spec_available_directions(*gamelogic, position.x as int, position.y as int, direction));
        }
    }
    avail_dirs
}

/// No-reverse law: the list of open headings never contains the exact
/// reverse of the current heading — in particular a mover heading right
/// never sees left offered, however open the junction.
pub proof fn lemma_no_reverse(logic: GameLogic, x: int, y: int, direction: Direction)
    ensures
        !spec_available_directions(logic, x, y, direction).contains(spec_opposite(direction)),
{
    let s = spec_available_directions(logic, x, y, direction);
    let bc = round_milli(x);
    let br = round_milli(y);
    assert forall|i: int| 0 <= i < s.len() implies s[i] != spec_opposite(direction) by {
        assert(spec_keep_direction(logic, bc, br, direction, s[i]));
    }
}

} // verus!
