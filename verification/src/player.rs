//! The player controller: one tick of movement from the pressed input,
//! the current heading and the frame's time delta.
//!
//! The tick favours a vertical heading change, then a horizontal one,
//! then continuing straight on; each change away from a straight run is
//! gated by the decision-point window, and a fully blocked player stops
//! dead, snapped onto the grid.

use crate::board::GameLogic;
use crate::decision::{at_decision_point, spec_at_decision_point};
use crate::heading::{Direction, GridVec, Horizontal, Vertical};
use crate::motion::{get_new_position_alt, movement_for_tick, spec_move_blocked,
    spec_move_result_x, spec_move_result_y, DELTA_LIMIT, POS_LIMIT, SPEED_LIMIT};
use crate::num::{round_milli, round_to_milli};
use vstd::prelude::*;

verus! {

/// The player: heading and speed; the continuous position lives with the
/// caller's world and is handed to the tick.
#[derive(Clone, Copy, PartialEq, Eq, Structural, Debug)]
pub struct Player {
    pub speed: i64,
    pub direction_of_travel: Direction,
}

impl Player {
    /// A freshly spawned player: six cells per second, standing still.
    pub fn new() -> (r: Player)
        ensures
            r.speed == 6000,
            r.direction_of_travel == (Direction {
                vertical: Vertical::Zero,
                horizontal: Horizontal::Zero,
            }),
    {
        Player {
            speed: 6000,
            direction_of_travel: Direction {
                vertical: Vertical::Zero,
                horizontal: Horizontal::Zero,
            },
        }
    }
}

/// The purely vertical heading of the pressed input.
pub open spec fn spec_vdir(pressed: Direction) -> Direction {
    Direction { vertical: pressed.vertical, horizontal: Horizontal::Zero }
}

/// The purely horizontal heading of the pressed input.
pub open spec fn spec_hdir(pressed: Direction) -> Direction {
    Direction { vertical: Vertical::Zero, horizontal: pressed.horizontal }
}

/// Whether the tick attempts a vertical heading change: a vertical key is
/// down, differs from the current vertical component, and — when the
/// player is turning off a horizontal run — the decision-point window is
/// open.
pub open spec fn spec_vertical_try(x: int, y: int, heading: Direction, pressed: Direction) -> bool {
    &&& !(pressed.vertical is Zero)
    &&& pressed.vertical != heading.vertical
    &&& (!(heading.vertical is Zero) || spec_at_decision_point(x, y, heading))
}

/// Whether the vertical attempt goes through: attempted and not blocked.
pub open spec fn spec_vertical_success(logic: GameLogic, x: int, y: int, heading: Direction, pressed: Direction, amt: int) -> bool {
    &&& spec_vertical_try(x, y, heading, pressed)
    &&& !spec_move_blocked(logic, x, y, spec_vdir(pressed), amt)
}

/// Whether the tick attempts a horizontal heading change, tried only when
/// the vertical attempt did not go through.
pub open spec fn spec_horizontal_try(x: int, y: int, heading: Direction, pressed: Direction) -> bool {
    &&& !(pressed.horizontal is Zero)
    &&& pressed.horizontal != heading.horizontal
    &&& (!(heading.horizontal is Zero) || spec_at_decision_point(x, y, heading))
}

/// Whether the horizontal attempt goes through.
pub open spec fn spec_horizontal_success(logic: GameLogic, x: int, y: int, heading: Direction, pressed: Direction, amt: int) -> bool {
    &&& !spec_vertical_success(logic, x, y, heading, pressed, amt)
    &&& spec_horizontal_try(x, y, heading, pressed)
    &&& !spec_move_blocked(logic, x, y, spec_hdir(pressed), amt)
}

/// Whether, with neither input attempt through, continuing on the current
/// heading is blocked too — the full-stop case.
pub open spec fn spec_continue_blocked(logic: GameLogic, x: int, y: int, heading: Direction, pressed: Direction, amt: int) -> bool {
    &&& !spec_vertical_success(logic, x, y, heading, pressed, amt)
    &&& !spec_horizontal_success(logic, x, y, heading, pressed, amt)
    &&& spec_move_blocked(logic, x, y, heading, amt)
}

/// The heading after the tick.
pub open spec fn spec_player_dir(logic: GameLogic, x: int, y: int, heading: Direction, pressed: Direction, amt: int) -> Direction {
    if spec_vertical_success(logic, x, y, heading, pressed, amt) {
        spec_vdir(pressed)
    } else if spec_horizontal_success(logic, x, y, heading, pressed, amt) {
        spec_hdir(pressed)
    } else if spec_continue_blocked(logic, x, y, heading, pressed, amt) {
        Direction { vertical: Vertical::Zero, horizontal: Horizontal::Zero }
    } else {
        heading
    }
}

/// The x position after the tick: a vertical turn rounds x onto the
/// column it turns into; a full stop snaps it; otherwise the motion
/// primitive's result stands.
pub open spec fn spec_player_x(logic: GameLogic, x: int, y: int, heading: Direction, pressed: Direction, amt: int) -> int {
    if spec_vertical_success(logic, x, y, heading, pressed, amt) {
        1000 * round_milli(spec_move_result_x(logic, x, y, spec_vdir(pressed), amt))
    } else if spec_horizontal_success(logic, x, y, heading, pressed, amt) {
        spec_move_result_x(logic, x, y, spec_hdir(pressed), amt)
    } else if spec_continue_blocked(logic, x, y, heading, pressed, amt) {
        1000 * round_milli(x)
    } else {
        spec_move_result_x(logic, x, y, heading, amt)
    }
}

/// The y position after the tick: a horizontal turn rounds y onto the row
/// it turns into; a full stop snaps it.
pub open spec fn spec_player_y(logic: GameLogic, x: int, y: int, heading: Direction, pressed: Direction, amt: int) -> int {
    if spec_vertical_success(logic, x, y, heading, pressed, amt) {
        spec_move_result_y(logic, x, y, spec_vdir(pressed), amt)
    } else if spec_horizontal_success(logic, x, y, heading, pressed, amt) {
        1000 * round_milli(spec_move_result_y(logic, x, y, spec_hdir(pressed), amt))
    } else if spec_continue_blocked(logic, x, y, heading, pressed, amt) {
        1000 * round_milli(y)
    } else {
        spec_move_result_y(logic, x, y, heading, amt)
    }
}

/// One tick of player movement.  Given the current position, the resolved
/// pressed input and the frame delta, updates the player's heading and
/// returns the new position, exactly as [`spec_player_dir`],
/// [`spec_player_x`] and [`spec_player_y`] describe: a vertical heading
/// change is tried first (gated by the decision point when leaving a
/// horizontal run), then a horizontal one, then continuing straight; if
/// everything is blocked the player stops with a neutral heading, snapped
/// to the nearest cell in both axes.
pub fn player_movement(game_logic: &GameLogic, player: &mut Player, current_pos: GridVec, pressed: Direction, delta_ms: u64) -> (r: GridVec)
    requires
        game_logic.wf(),
        -POS_LIMIT <= current_pos.x <= POS_LIMIT,
        -POS_LIMIT <= current_pos.y <= POS_LIMIT,
        0 <= old(player).speed <= SPEED_LIMIT,
        delta_ms <= DELTA_LIMIT,
    ensures
        final(player).speed == old(player).speed,
        final(player).direction_of_travel == spec_player_dir(
            *game_logic,
            current_pos.x as int,
            current_pos.y as int,
            old(player).direction_of_travel,
            pressed,
            old(player).speed * delta_ms / 1000,
        ),
        r.x == spec_player_x(
            *game_logic,
            current_pos.x as int,
            current_pos.y as int,
            old(player).direction_of_travel,
            pressed,
            old(player).speed * delta_ms / 1000,
        ),
        r.y == spec_player_y(
            *game_logic,
            current_pos.x as int,
            current_pos.y as int,
            old(player).direction_of_travel,
            pressed,
            old(player).speed * delta_ms / 1000,
        ),
{
    let heading = player.direction_of_travel;
    let movement_amount = movement_for_tick(player.speed, delta_ms);

    let mut potential_pos: (GridVec, bool) = (GridVec { x: 0, y: 0 }, true);

    if !matches!(pressed.vertical, Vertical::Zero) && pressed.vertical != heading.vertical {
        let vertical_direction = Direction {
            vertical: pressed.vertical,
            horizontal: Horizontal::Zero,
        };
        let mut skip_get_pos = false;
        if matches!(heading.vertical, Vertical::Zero) {
            skip_get_pos = !at_decision_point(current_pos, heading);
            potential_pos.1 = skip_get_pos;
        }
        if !skip_get_pos {
            potential_pos = get_new_position_alt(
                game_logic,
                current_pos,
                vertical_direction,
                movement_amount,
            );
        }
        if !potential_pos.1 {
            player.direction_of_travel = vertical_direction;
            potential_pos.0.x = round_to_milli(potential_pos.0.x);
        }
    }

    if potential_pos.1 && !matches!(pressed.horizontal, Horizontal::Zero) && pressed.horizontal
        != heading.horizontal {
        let horizontal_direction = Direction {
            vertical: Vertical::Zero,
            horizontal: pressed.horizontal,
        };
        let mut skip_get_pos = false;
        if matches!(heading.horizontal, Horizontal::Zero) {
            skip_get_pos = !at_decision_point(current_pos, heading);
            potential_pos.1 = skip_get_pos;
        }
        if !skip_get_pos {
            potential_pos = get_new_position_alt(
                game_logic,
                current_pos,
                horizontal_direction,
                movement_amount,
            );
        }
        if !potential_pos.1 {
            player.direction_of_travel = horizontal_direction;
            potential_pos.0.y = round_to_milli(potential_pos.0.y);
        }
    }

    if potential_pos.1 {
        potential_pos = get_new_position_alt(game_logic, current_pos, heading, movement_amount);
    }

    if potential_pos.1 {
        player.direction_of_travel = Direction {
            vertical: Vertical::Zero,
            horizontal: Horizontal::Zero,
        };
        GridVec { x: round_to_milli(current_pos.x), y: round_to_milli(current_pos.y) }
    } else {
        potential_pos.0
    }
}

} // verus!
