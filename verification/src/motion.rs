//! The collision and motion primitive: axis-aligned rectangle overlap and
//! the attempt-move function that advances a fixed-point position by a
//! heading and a distance, detecting walls, applying warp teleports and
//! snapping a blocked mover back onto the grid.

use crate::board::{spec_in_bounds, BlockType, GameLogic};
use crate::heading::{spec_horizontal_unit, spec_vertical_unit, Direction, GridVec, Horizontal,
    Vertical};
use crate::num::{round_milli, round_to_cell, round_to_milli, COORD_LIMIT};
use vstd::prelude::*;

verus! {

/// Positions handed to the motion functions stay within this bound; a
/// tick's travel distance stays within [`DIST_LIMIT`].  Together they keep
/// every intermediate value far inside `i64`.
pub const POS_LIMIT: i64 = 100_000_000;

/// Greatest per-tick travel distance the motion functions accept.
pub const DIST_LIMIT: i64 = 1_000_000;

/// Greatest actor speed the tick functions accept, in fixed-point units
/// per second.
pub const SPEED_LIMIT: i64 = 100_000;

/// Greatest frame delta the tick functions accept, in milliseconds.
pub const DELTA_LIMIT: u64 = 10_000;

/// Distance travelled in one tick: `speed` fixed-point units per second
/// over `delta_ms` milliseconds.
pub fn movement_for_tick(speed: i64, delta_ms: u64) -> (r: i64)
    requires
        0 <= speed <= SPEED_LIMIT,
        delta_ms <= DELTA_LIMIT,
    ensures
        r == speed * delta_ms / 1000,
        0 <= r <= DIST_LIMIT,
{
    proof {
        assert(0 <= speed * delta_ms <= 1_000_000_000) by (nonlinear_arith)
            requires
                0 <= speed <= 100_000,
                0 <= delta_ms <= 10_000,
        ;
        vstd::arithmetic::div_mod::lemma_div_is_ordered(0, speed * delta_ms, 1000);
        vstd::arithmetic::div_mod::lemma_div_is_ordered(speed * delta_ms, 1_000_000_000, 1000);
    }
    speed * (delta_ms as i64) / 1000
}

/// An axis-aligned rectangle in fixed-point coordinates.
#[derive(Clone, Copy, PartialEq, Eq, Structural, Debug)]
pub struct Rect {
    pub min: GridVec,
    pub max: GridVec,
}

impl Rect {
    /// The rectangle of the given size centered at `center` (sizes are
    /// halved at fixed-point resolution).
    pub fn from_center_size(center: GridVec, size: GridVec) -> (r: Rect)
        requires
            0 <= size.x <= COORD_LIMIT,
            0 <= size.y <= COORD_LIMIT,
            -COORD_LIMIT <= center.x <= COORD_LIMIT,
            -COORD_LIMIT <= center.y <= COORD_LIMIT,
        ensures
            r.min.x == center.x - size.x / 2,
            r.min.y == center.y - size.y / 2,
            r.max.x == center.x + size.x / 2,
            r.max.y == center.y + size.y / 2,
    {
        let half_x = size.x / 2;
        let half_y = size.y / 2;
        Rect {
            min: GridVec { x: center.x - half_x, y: center.y - half_y },
            max: GridVec { x: center.x + half_x, y: center.y + half_y },
        }
    }

    /// The unit-cell hitbox centered at `center`: half a cell each way.
    pub fn from_center_unit(center: GridVec) -> (r: Rect)
        requires
            -COORD_LIMIT <= center.x <= COORD_LIMIT,
            -COORD_LIMIT <= center.y <= COORD_LIMIT,
        ensures
            r.min.x == center.x - 500 && r.max.x == center.x + 500,
            r.min.y == center.y - 500 && r.max.y == center.y + 500,
    {
        Rect {
            min: GridVec { x: center.x - 500, y: center.y - 500 },
            max: GridVec { x: center.x + 500, y: center.y + 500 },
        }
    }
}

/// The interval test behind [`check_collision`]: `object1` and `object2`
/// overlap when an x edge of `object1` lies within `object2`'s x span and
/// a y edge of `object1` lies within `object2`'s y span, bounds inclusive.
/// This is deliberately not a full separating-axis test: a strictly larger
/// `object2` inside `object1` is missed.  Gameplay was tuned against this
/// exact behaviour, so it is kept as is.
pub open spec fn spec_check_collision(object1: Rect, object2: Rect) -> bool {
    (((object1.min.x >= object2.min.x) && (object1.min.x <= object2.max.x)) || ((object1.max.x
        >= object2.min.x) && (object1.max.x <= object2.max.x))) && (((object1.min.y
        >= object2.min.y) && (object1.min.y <= object2.max.y)) || ((object1.max.y
        >= object2.min.y) && (object1.max.y <= object2.max.y)))
}

/// Basic overlap check of two rectangles.  True iff they collide under the
/// inclusive interval test of [`spec_check_collision`].
pub fn check_collision(object1: Rect, object2: Rect) -> (r: bool)
    ensures
        r == spec_check_collision(object1, object2),
{
    (((object1.min.x >= object2.min.x) && (object1.min.x <= object2.max.x)) || ((object1.max.x
        >= object2.min.x) && (object1.max.x <= object2.max.x))) && (((object1.min.y
        >= object2.min.y) && (object1.min.y <= object2.max.y)) || ((object1.max.y
        >= object2.min.y) && (object1.max.y <= object2.max.y)))
}

/// x coordinate the mover is aiming for this tick.
pub open spec fn spec_target_x(x: int, dir: Direction, dist: int) -> int {
    x + spec_horizontal_unit(dir.horizontal) * dist
}

/// y coordinate the mover is aiming for this tick.
pub open spec fn spec_target_y(y: int, dir: Direction, dist: int) -> int {
    y + spec_vertical_unit(dir.vertical) * dist
}

/// Column of the probe cell: one step beyond the rounded target, in the
/// direction of travel — the cell the mover is approaching.
pub open spec fn spec_probe_col(x: int, dir: Direction, dist: int) -> int {
    round_milli(spec_target_x(x, dir, dist)) + spec_horizontal_unit(dir.horizontal)
}

/// Row of the probe cell.
pub open spec fn spec_probe_row(y: int, dir: Direction, dist: int) -> int {
    round_milli(spec_target_y(y, dir, dist)) + spec_vertical_unit(dir.vertical)
}

/// Whether the probe cell calls for a collision check: it is outside the
/// grid, or a wall.
pub open spec fn spec_probe_solid(logic: GameLogic, x: int, y: int, dir: Direction, dist: int) -> bool {
    ||| !spec_in_bounds(spec_probe_col(x, dir, dist), spec_probe_row(y, dir, dist))
    ||| logic.spec_cell(
        spec_probe_col(x, dir, dist),
        spec_probe_row(y, dir, dist),
    ).block_type is Wall
}

/// Whether the probe cell is a warp mouth.
pub open spec fn spec_probe_warp(logic: GameLogic, x: int, y: int, dir: Direction, dist: int) -> bool {
    &&& spec_in_bounds(spec_probe_col(x, dir, dist), spec_probe_row(y, dir, dist))
    &&& logic.spec_cell(
        spec_probe_col(x, dir, dist),
        spec_probe_row(y, dir, dist),
    ).block_type is Warp
}

/// Whether the move is blocked: the probe cell is solid and the unit
/// hitbox at the target actually overlaps the unit hitbox on the probe
/// cell.  A solid probe whose hitbox is not yet reached does not block.
pub open spec fn spec_move_blocked(logic: GameLogic, x: int, y: int, dir: Direction, dist: int) -> bool {
    &&& spec_probe_solid(logic, x, y, dir, dist)
    &&& {
        let tx = spec_target_x(x, dir, dist);
        let ty = spec_target_y(y, dir, dist);
        let cx = 1000 * spec_probe_col(x, dir, dist);
        let cy = 1000 * spec_probe_row(y, dir, dist);
        (((tx - 500 >= cx - 500) && (tx - 500 <= cx + 500)) || ((tx + 500 >= cx - 500) && (tx + 500
            <= cx + 500))) && (((ty - 500 >= cy - 500) && (ty - 500 <= cy + 500)) || ((ty + 500
            >= cy - 500) && (ty + 500 <= cy + 500)))
    }
}

/// x position after the move: on a block, the moving axis snaps to the
/// nearest cell center; through a warp mouth, the paired target; otherwise
/// the tick's target.
pub open spec fn spec_move_result_x(logic: GameLogic, x: int, y: int, dir: Direction, dist: int) -> int {
    if spec_move_blocked(logic, x, y, dir, dist) {
        if !(dir.horizontal is Zero) {
            1000 * round_milli(x)
        } else {
            x
        }
    } else if spec_probe_warp(logic, x, y, dir, dist) {
        1000 * logic.spec_cell(
            spec_probe_col(x, dir, dist),
            spec_probe_row(y, dir, dist),
        ).block_type->0
    } else {
        spec_target_x(x, dir, dist)
    }
}

/// y position after the move.
pub open spec fn spec_move_result_y(logic: GameLogic, x: int, y: int, dir: Direction, dist: int) -> int {
    if spec_move_blocked(logic, x, y, dir, dist) {
        if dir.horizontal is Zero && !(dir.vertical is Zero) {
            1000 * round_milli(y)
        } else {
            y
        }
    } else if spec_probe_warp(logic, x, y, dir, dist) {
        1000 * logic.spec_cell(
            spec_probe_col(x, dir, dist),
            spec_probe_row(y, dir, dist),
        ).block_type->1
    } else {
        spec_target_y(y, dir, dist)
    }
}

/// Attempts to advance `current_pos` by `direction` over `distance`.
/// Returns the new position and whether the mover was blocked, exactly as
/// [`spec_move_blocked`], [`spec_move_result_x`] and [`spec_move_result_y`]
/// describe: the probe cell one step beyond the rounded target decides;
/// a wall or the board edge blocks once the unit hitboxes overlap,
/// snapping the moving axis to the nearest cell center; a warp mouth
/// teleports to its paired coordinate; open path lets the target stand.
pub fn get_new_position_alt(game_logic: &GameLogic, current_pos: GridVec, direction: Direction, distance: i64) -> (r: (GridVec, bool))
    requires
        game_logic.wf(),
        -POS_LIMIT <= current_pos.x <= POS_LIMIT,
        -POS_LIMIT <= current_pos.y <= POS_LIMIT,
        0 <= distance <= DIST_LIMIT,
    ensures
        r.1 == spec_move_blocked(
            *game_logic,
            current_pos.x as int,
            current_pos.y as int,
            direction,
            distance as int,
        ),
        r.0.x == spec_move_result_x(
            *game_logic,
            current_pos.x as int,
            current_pos.y as int,
            direction,
            distance as int,
        ),
        r.0.y == spec_move_result_y(
            *game_logic,
            current_pos.x as int,
            current_pos.y as int,
            direction,
            distance as int,
        ),
        -POS_LIMIT - DIST_LIMIT <= r.0.x <= POS_LIMIT + DIST_LIMIT,
        -POS_LIMIT - DIST_LIMIT <= r.0.y <= POS_LIMIT + DIST_LIMIT,
{
    proof {
        crate::num::lemma_round_milli_range(current_pos.x as int);
        crate::num::lemma_round_milli_range(current_pos.y as int);
    }
    let mut new_pos = GridVec {
        x: current_pos.x + direction.horizontal.unit() * distance,
        y: current_pos.y + direction.vertical.unit() * distance,
    };
    let target = new_pos;

    let cell_col = round_to_cell(new_pos.x) + direction.horizontal.unit();
    let cell_row = round_to_cell(new_pos.y) + direction.vertical.unit();

    let mut check_for_collision = false;

    if crate::board::in_bounds(cell_col, cell_row) {
        let cell = game_logic.cell_at(cell_col as usize, cell_row as usize);
        match cell.block_type {
            BlockType::Wall => {
                check_for_collision = true;
            },
            BlockType::Warp(tx, ty) => {
                new_pos = GridVec { x: (tx as i64) * 1000, y: (ty as i64) * 1000 };
            },
            BlockType::Path => {},
        }
    } else {
        check_for_collision = true;
    }

    let mut return_val = (current_pos, false);

    if check_for_collision {
        proof {
            crate::num::lemma_round_milli_range(target.x as int);
            crate::num::lemma_round_milli_range(target.y as int);
        }
        let blocked = check_collision(
            Rect::from_center_unit(target),
            Rect::from_center_unit(GridVec { x: cell_col * 1000, y: cell_row * 1000 }),
        );
        if blocked {
            return_val.1 = true;
            if !matches!(direction.horizontal, Horizontal::Zero) {
                return_val.0.x = round_to_milli(return_val.0.x);
            } else if !matches!(direction.vertical, Vertical::Zero) {
                return_val.0.y = round_to_milli(return_val.0.y);
            }
        }
    }

    if !return_val.1 {
        return_val.0 = new_pos;
    }

    return_val
}

/// Warp teleport law: a move whose probe cell is a warp mouth never
/// blocks, and lands exactly on the mouth's paired coordinate — so the
/// paired mouth on the opposite side sends the mover back the mirror way.
pub proof fn lemma_warp_teleports(logic: GameLogic, x: int, y: int, dir: Direction, dist: int, tx: u8, ty: u8)
    requires
        logic.wf(),
        spec_in_bounds(spec_probe_col(x, dir, dist), spec_probe_row(y, dir, dist)),
        logic.spec_cell(
            spec_probe_col(x, dir, dist),
            spec_probe_row(y, dir, dist),
        ).block_type == BlockType::Warp(tx, ty),
    ensures
        !spec_move_blocked(logic, x, y, dir, dist),
        spec_move_result_x(logic, x, y, dir, dist) == 1000 * tx,
        spec_move_result_y(logic, x, y, dir, dist) == 1000 * ty,
{
}

/// Wall impermeability, horizontal axis: a mover standing at or behind
/// the center of the open cell beside a wall, heading into the wall and
/// travelling less than half a cell this tick, ends the tick still at or
/// behind that center — so repeated moves never put its rounded cell on
/// the wall.  A tick of half a cell or more could jump the probe past the
/// wall, which is why the per-tick distance is bounded.
pub proof fn lemma_wall_impermeable_horizontal(logic: GameLogic, x: int, y: int, dir: Direction, dist: int, wall_col: int)
    requires
        logic.wf(),
        dir.vertical is Zero,
        !(dir.horizontal is Zero),
        0 <= dist <= 499,
        0 <= x,
        spec_in_bounds(wall_col, round_milli(y)),
        logic.spec_is_wall(wall_col, round_milli(y)),
        round_milli(x) == wall_col - spec_horizontal_unit(dir.horizontal),
        spec_horizontal_unit(dir.horizontal) * x <= spec_horizontal_unit(dir.horizontal) * (
        wall_col - spec_horizontal_unit(dir.horizontal)) * 1000,
    ensures
        round_milli(spec_move_result_x(logic, x, y, dir, dist)) == wall_col
            - spec_horizontal_unit(dir.horizontal),
        spec_horizontal_unit(dir.horizontal) * spec_move_result_x(logic, x, y, dir, dist)
            <= spec_horizontal_unit(dir.horizontal) * (wall_col - spec_horizontal_unit(
            dir.horizontal,
        )) * 1000,
        spec_move_result_x(logic, x, y, dir, dist) >= 0,
        spec_move_result_y(logic, x, y, dir, dist) == y,
{
    let h = spec_horizontal_unit(dir.horizontal);
    let t = spec_target_x(x, dir, dist);
    let near = wall_col - h;
    crate::num::lemma_round_milli_range_nonneg(x);
    crate::num::lemma_round_milli_range(y);
    crate::num::lemma_round_milli_at(t, near);
    assert(spec_probe_col(x, dir, dist) == wall_col);
    assert(spec_probe_row(y, dir, dist) == round_milli(y));
    assert(spec_probe_solid(logic, x, y, dir, dist));
    if spec_move_blocked(logic, x, y, dir, dist) {
        crate::num::lemma_round_milli_at(1000 * near, near);
    }
}

/// The position reached by a run of moves, one per entry of `dists`, all
/// along one heading.
pub open spec fn spec_iterated_move(logic: GameLogic, x: int, y: int, dir: Direction, dists: Seq<int>) -> (int, int)
    decreases dists.len(),
{
    if dists.len() == 0 {
        (x, y)
    } else {
        let nx = spec_move_result_x(logic, x, y, dir, dists[0]);
        let ny = spec_move_result_y(logic, x, y, dir, dists[0]);
        spec_iterated_move(logic, nx, ny, dir, dists.subrange(1, dists.len() as int))
    }
}

/// Wall impermeability, repeated: a mover starting at or behind the
/// center of the open cell beside a wall, heading into the wall, never
/// reaches a position whose rounded cell is the wall cell, however many
/// moves it makes — provided each tick travels less than half a cell.
pub proof fn lemma_wall_impermeable_horizontal_repeated(logic: GameLogic, x: int, y: int, dir: Direction, dists: Seq<int>, wall_col: int)
    requires
        logic.wf(),
        dir.vertical is Zero,
        !(dir.horizontal is Zero),
        forall|i: int| 0 <= i < dists.len() ==> 0 <= #[trigger] dists[i] <= 499,
        0 <= x,
        spec_in_bounds(wall_col, round_milli(y)),
        logic.spec_is_wall(wall_col, round_milli(y)),
        round_milli(x) == wall_col - spec_horizontal_unit(dir.horizontal),
        spec_horizontal_unit(dir.horizontal) * x <= spec_horizontal_unit(dir.horizontal) * (
        wall_col - spec_horizontal_unit(dir.horizontal)) * 1000,
    ensures
        round_milli(spec_iterated_move(logic, x, y, dir, dists).0) != wall_col,
        round_milli(spec_iterated_move(logic, x, y, dir, dists).0) == wall_col
            - spec_horizontal_unit(dir.horizontal),
        spec_iterated_move(logic, x, y, dir, dists).1 == y,
    decreases dists.len(),
{
    if dists.len() == 0 {
    } else {
        lemma_wall_impermeable_horizontal(logic, x, y, dir, dists[0], wall_col);
        let nx = spec_move_result_x(logic, x, y, dir, dists[0]);
        let ny = spec_move_result_y(logic, x, y, dir, dists[0]);
        let rest = dists.subrange(1, dists.len() as int);
        assert(forall|i: int| 0 <= i < rest.len() ==> 0 <= #[trigger] rest[i] <= 499);
        lemma_wall_impermeable_horizontal_repeated(logic, nx, ny, dir, rest, wall_col);
    }
}

/// Wall impermeability, vertical axis: the same law for a mover heading
/// up or down into a wall one row away.
pub proof fn lemma_wall_impermeable_vertical(logic: GameLogic, x: int, y: int, dir: Direction, dist: int, wall_row: int)
    requires
        logic.wf(),
        dir.horizontal is Zero,
        !(dir.vertical is Zero),
        0 <= dist <= 499,
        0 <= y,
        spec_in_bounds(round_milli(x), wall_row),
        logic.spec_is_wall(round_milli(x), wall_row),
        round_milli(y) == wall_row - spec_vertical_unit(dir.vertical),
        spec_vertical_unit(dir.vertical) * y <= spec_vertical_unit(dir.vertical) * (wall_row
            - spec_vertical_unit(dir.vertical)) * 1000,
    ensures
        round_milli(spec_move_result_y(logic, x, y, dir, dist)) == wall_row - spec_vertical_unit(
            dir.vertical,
        ),
        spec_vertical_unit(dir.vertical) * spec_move_result_y(logic, x, y, dir, dist)
            <= spec_vertical_unit(dir.vertical) * (wall_row - spec_vertical_unit(dir.vertical))
            * 1000,
        spec_move_result_y(logic, x, y, dir, dist) >= 0,
        spec_move_result_x(logic, x, y, dir, dist) == x,
{
    let v = spec_vertical_unit(dir.vertical);
    let t = spec_target_y(y, dir, dist);
    let near = wall_row - v;
    crate::num::lemma_round_milli_range_nonneg(y);
    crate::num::lemma_round_milli_range(x);
    crate::num::lemma_round_milli_at(t, near);
    assert(spec_probe_row(y, dir, dist) == wall_row);
    assert(spec_probe_col(x, dir, dist) == round_milli(x));
    assert(spec_probe_solid(logic, x, y, dir, dist));
    if spec_move_blocked(logic, x, y, dir, dist) {
        crate::num::lemma_round_milli_at(1000 * near, near);
    }
}

/// Wall impermeability, repeated, vertical axis: the mirror of
/// [`lemma_wall_impermeable_horizontal_repeated`] for a mover heading up
/// or down.
pub proof fn lemma_wall_impermeable_vertical_repeated(logic: GameLogic, x: int, y: int, dir: Direction, dists: Seq<int>, wall_row: int)
    requires
        logic.wf(),
        dir.horizontal is Zero,
        !(dir.vertical is Zero),
        forall|i: int| 0 <= i < dists.len() ==> 0 <= #[trigger] dists[i] <= 499,
        0 <= y,
        spec_in_bounds(round_milli(x), wall_row),
        logic.spec_is_wall(round_milli(x), wall_row),
        round_milli(y) == wall_row - spec_vertical_unit(dir.vertical),
        spec_vertical_unit(dir.vertical) * y <= spec_vertical_unit(dir.vertical) * (wall_row
            - spec_vertical_unit(dir.vertical)) * 1000,
    ensures
        round_milli(spec_iterated_move(logic, x, y, dir, dists).1) != wall_row,
        round_milli(spec_iterated_move(logic, x, y, dir, dists).1) == wall_row
            - spec_vertical_unit(dir.vertical),
        spec_iterated_move(logic, x, y, dir, dists).0 == x,
    decreases dists.len(),
{
    if dists.len() == 0 {
    } else {
        lemma_wall_impermeable_vertical(logic, x, y, dir, dists[0], wall_row);
        let nx = spec_move_result_x(logic, x, y, dir, dists[0]);
        let ny = spec_move_result_y(logic, x, y, dir, dists[0]);
        let rest = dists.subrange(1, dists.len() as int);
        assert(forall|i: int| 0 <= i < rest.len() ==> 0 <= #[trigger] rest[i] <= 499);
        lemma_wall_impermeable_vertical_repeated(logic, nx, ny, dir, rest, wall_row);
    }
}

/// Warp symmetry on the fixed maze: a move whose probe is the mouth at
/// (0,13) lands exactly on (25,13), and one whose probe is the paired
/// mouth at (25,13) lands back on (0,13) — the mirror result, never
/// blocked.
pub proof fn lemma_standard_warp_symmetry(logic: GameLogic, x: int, y: int, dir: Direction, dist: int)
    requires
        crate::board::is_standard_board(logic),
    ensures
        spec_probe_col(x, dir, dist) == 0 && spec_probe_row(y, dir, dist) == 13 ==> {
            &&& !spec_move_blocked(logic, x, y, dir, dist)
            &&& spec_move_result_x(logic, x, y, dir, dist) == 25000
            &&& spec_move_result_y(logic, x, y, dir, dist) == 13000
        },
        spec_probe_col(x, dir, dist) == 25 && spec_probe_row(y, dir, dist) == 13 ==> {
            &&& !spec_move_blocked(logic, x, y, dir, dist)
            &&& spec_move_result_x(logic, x, y, dir, dist) == 0
            &&& spec_move_result_y(logic, x, y, dir, dist) == 13000
        },
{
    if spec_probe_col(x, dir, dist) == 0 && spec_probe_row(y, dir, dist) == 13 {
        assert(crate::board::spec_layout(0, 13) == 3);
        lemma_warp_teleports(logic, x, y, dir, dist, 25, 13);
    }
    if spec_probe_col(x, dir, dist) == 25 && spec_probe_row(y, dir, dist) == 13 {
        assert(crate::board::spec_layout(25, 13) == 4);
        lemma_warp_teleports(logic, x, y, dir, dist, 0, 13);
    }
}

} // verus!
