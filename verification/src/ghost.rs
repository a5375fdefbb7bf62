//! The ghost behaviour state machine: pen idling, pen exit, chase, flee,
//! and the run home after being eaten, with direction selection that mixes
//! a goal-seeking heuristic with randomized exploration.
//!
//! Every function that consumes randomness takes the draws as plain
//! arguments, so its contract pins the outcome for each draw; the live
//! wrappers at the bottom pull the draws from the `rand` crate and hand
//! them in.

use crate::board::GameLogic;
use crate::decision::{at_decision_point, get_available_directions, spec_at_decision_point,
    spec_available_directions};
use crate::heading::{spec_horizontal_unit, spec_vertical_unit, Direction, GridVec, Horizontal,
    Vertical};
use crate::motion::{get_new_position_alt, movement_for_tick, spec_move_result_x,
    spec_move_result_y, DELTA_LIMIT, DIST_LIMIT, POS_LIMIT, SPEED_LIMIT};
use crate::num::{round_milli, round_to_cell, round_to_milli, spec_isqrt};
use crate::scoring::{spec_kill_award, ConsecutiveKills, Score};
use vstd::prelude::*;

verus! {

/// Where the ghost is, coarsely: its pen, the maze, or on the way back.
#[derive(Clone, Copy, PartialEq, Eq, Structural, Debug)]
pub enum GhostPositionStatus {
    InPen,
    OutAndAbout,
    ReturningToPen,
}

/// What the ghost is doing.
#[derive(Clone, Copy, PartialEq, Eq, Structural, Debug)]
pub enum GhostActionsStatus {
    Idle,
    LeavingPen,
    SearchingForPlayer,
    Weakened,
    RunningToPen,
    GoingIntoPen,
}

/// Speed of a weakened, fleeing ghost, fixed-point units per second.
pub const GHOST_WEAKENED_SPEED: i64 = 3000;

/// Speed of an eaten ghost running home.
pub const GHOST_RUNNING_HOME: i64 = 6000;

/// Speed of pen shuffling, leaving and entering.
pub const PEN_SHUFFLE_SPEED: i64 = 2000;

/// The pen's exit stands at board position (12.5, 10).
pub const PEN_EXIT_X: i64 = 12500;

/// The pen exit's row coordinate.
pub const PEN_EXIT_Y: i64 = 10000;

/// The pen's center, where a returned ghost settles.
pub const PEN_CENTER_X: i64 = 12500;

/// The pen center's row coordinate.
pub const PEN_CENTER_Y: i64 = 13000;

/// An sRGB rendering hint carried along with each ghost; the logic never
/// reads it.
#[derive(Clone, Copy, PartialEq, Eq, Structural, Debug)]
pub struct Colour {
    pub red: u8,
    pub green: u8,
    pub blue: u8,
}

/// One ghost: its continuous position, heading and speed, its two status
/// axes, its timers, and the cell of its latest heading decision (so one
/// cell straddle is decided only once).
#[derive(Clone, Debug)]
pub struct GhostActor {
    pub direction_of_travel: Direction,
    pub position: GridVec,
    pub speed: i64,
    pub position_status: GhostPositionStatus,
    pub actions_status: GhostActionsStatus,
    pub time_in_pen: u64,
    pub time_weakened: Option<u64>,
    pub name: String,
    pub base_colour: Colour,
    pub last_decision_point: GridVec,
}

/// The fields a tick never touches: who the ghost is.
pub open spec fn spec_same_identity(a: GhostActor, b: GhostActor) -> bool {
    &&& a.speed == b.speed
    &&& a.name@ == b.name@
    &&& a.base_colour == b.base_colour
}

impl GhostActor {
    /// A freshly spawned ghost: idle in the pen, shuffling left, with its
    /// personal speed and pen-exit delay.
    pub fn new(name: String, speed: i64, position: GridVec, base_colour: Colour, time_in_pen_ms: u64) -> (r: GhostActor)
        ensures
            r.direction_of_travel == (Direction {
                vertical: Vertical::Zero,
                horizontal: Horizontal::Left,
            }),
            r.position == position,
            r.speed == speed,
            r.position_status is InPen,
            r.actions_status is Idle,
            r.time_in_pen == time_in_pen_ms,
            r.time_weakened is None,
            r.name@ == name@,
            r.base_colour == base_colour,
            r.last_decision_point == (GridVec { x: 0, y: 0 }),
    {
        GhostActor {
            direction_of_travel: Direction {
                vertical: Vertical::Zero,
                horizontal: Horizontal::Left,
            },
            position,
            speed,
            position_status: GhostPositionStatus::InPen,
            actions_status: GhostActionsStatus::Idle,
            time_in_pen: time_in_pen_ms,
            time_weakened: None,
            name,
            base_colour,
            last_decision_point: GridVec { x: 0, y: 0 },
        }
    }
}

/// The four ghosts of the fixed roster, with their distinct speeds,
/// starting spots and staggered pen-exit delays.
pub fn spawn_ghosts() -> (r: Vec<GhostActor>)
    ensures
        r@.len() == 4,
        forall|i: int|
            0 <= i < 4 ==> {
                &&& (#[trigger] r@[i]).actions_status is Idle
                &&& r@[i].position_status is InPen
                &&& r@[i].time_weakened is None
                &&& r@[i].direction_of_travel == (Direction {
                    vertical: Vertical::Zero,
                    horizontal: Horizontal::Left,
                })
                &&& 0 < r@[i].speed <= SPEED_LIMIT
                &&& 0 <= r@[i].position.x <= POS_LIMIT
                &&& 0 <= r@[i].position.y <= POS_LIMIT
                &&& r@[i].last_decision_point == (GridVec { x: 0, y: 0 })
            },
        r@[0].time_in_pen == 1000 && r@[1].time_in_pen == 5000 && r@[2].time_in_pen == 9000
            && r@[3].time_in_pen == 13000,
        r@[0].speed == 4000 && r@[1].speed == 4010 && r@[2].speed == 3990 && r@[3].speed == 3980,
        r@[0].position == (GridVec { x: 11166, y: 13000 }) && r@[1].position == (GridVec {
            x: 12500,
            y: 12667,
        }) && r@[2].position == (GridVec { x: 13833, y: 13334 }) && r@[3].position == (GridVec {
            x: 15166,
            y: 12334,
        }),
        r@[0].name@ == "Blinky"@ && r@[1].name@ == "Inky"@ && r@[2].name@ == "Pinky"@
            && r@[3].name@ == "Clyde"@,
{
    let mut ghosts: Vec<GhostActor> = Vec::new();
    ghosts.push(
        GhostActor::new(
            "Blinky".to_owned(),
            4000,
            GridVec { x: 11166, y: 13000 },
            Colour { red: 255, green: 0, blue: 0 },
            1000,
        ),
    );
    ghosts.push(
        GhostActor::new(
            "Inky".to_owned(),
            4010,
            GridVec { x: 12500, y: 12667 },
            Colour { red: 0, green: 255, blue: 255 },
            5000,
        ),
    );
    ghosts.push(
        GhostActor::new(
            "Pinky".to_owned(),
            3990,
            GridVec { x: 13833, y: 13334 },
            Colour { red: 255, green: 0, blue: 255 },
            9000,
        ),
    );
    ghosts.push(
        GhostActor::new(
            "Clyde".to_owned(),
            3980,
            GridVec { x: 15166, y: 12334 },
            Colour { red: 255, green: 255, blue: 0 },
            13000,
        ),
    );
    ghosts
}

/// Sprite row for the eyes, from the heading: right, left, up, down, or
/// the blank row for a neutral heading.
pub fn eyes_sprite_index(direction: Direction) -> (r: usize)
    ensures
        r == (if direction.horizontal is Right {
            0int
        } else if direction.horizontal is Left {
            1int
        } else if direction.vertical is Up {
            2int
        } else if direction.vertical is Down {
            3int
        } else {
            4int
        }),
{
    if matches!(direction.horizontal, Horizontal::Right) {
        0
    } else if matches!(direction.horizontal, Horizontal::Left) {
        1
    } else if matches!(direction.vertical, Vertical::Up) {
        2
    } else if matches!(direction.vertical, Vertical::Down) {
        3
    } else {
        4
    }
}

/// Index of the first occurrence of `d` in `s` (0 when `s` does not hold
/// it).
pub open spec fn spec_first_index(s: Seq<Direction>, d: Direction) -> int
    decreases s.len(),
{
    if s.len() == 0 {
        0
    } else if s[0] == d {
        0
    } else {
        1 + spec_first_index(s.subrange(1, s.len() as int), d)
    }
}

/// A position holding `d`, with nothing equal to `d` before it, is the
/// first occurrence.
pub proof fn lemma_first_index_at(s: Seq<Direction>, d: Direction, i: int)
    requires
        0 <= i < s.len(),
        s[i] == d,
        forall|j: int| 0 <= j < i ==> s[j] != d,
    ensures
        spec_first_index(s, d) == i,
    decreases i,
{
    if i > 0 {
        let t = s.subrange(1, s.len() as int);
        lemma_first_index_at(t, d, i - 1);
    }
}

/// Scans the list for the search heading.  Returns whether no match
/// exists, together with the index of the first match (0 when there is
/// none).
pub fn find_direction_match(available_directions: &Vec<Direction>, search: &Direction) -> (r: (bool, usize))
    ensures
        r.0 == !available_directions@.contains(*search),
        !r.0 ==> r.1 < available_directions@.len() && r.1 == spec_first_index(
            available_directions@,
            *search,
        ) && available_directions@[r.1 as int] == *search,
        r.0 ==> r.1 == 0,
{
    let n = available_directions.len();
    let mut i: usize = 0;
    let mut found = false;
    let mut found_index: usize = 0;
    while i < n
        invariant
            n == available_directions@.len(),
            i <= n,
            !found ==> found_index == 0 && (forall|j: int|
                0 <= j < i ==> available_directions@[j] != *search),
            found ==> found_index < i && available_directions@[found_index as int] == *search && (
            forall|j: int| 0 <= j < found_index ==> available_directions@[j] != *search),
        decreases n - i,
    {
        if !found {
            let candidate = available_directions[i];
            if search.horizontal == candidate.horizontal && search.vertical == candidate.vertical {
                found = true;
                found_index = i;
            }
        }
        i = i + 1;
    }
    proof {
        if found {
            lemma_first_index_at(available_directions@, *search, found_index as int);
        }
    }
    (!found, found_index)
}

/// The pure-horizontal heading toward the aim: right when the aim is not
/// to the left.
pub open spec fn spec_preferred_horizontal(aim_x: int, cur_x: int) -> Direction {
    Direction {
        vertical: Vertical::Zero,
        horizontal: if aim_x - cur_x >= 0 {
            Horizontal::Right
        } else {
            Horizontal::Left
        },
    }
}

/// The pure-vertical heading toward the aim: down when the aim is not
/// above.
pub open spec fn spec_preferred_vertical(aim_y: int, cur_y: int) -> Direction {
    Direction {
        vertical: if aim_y - cur_y >= 0 {
            Vertical::Down
        } else {
            Vertical::Up
        },
        horizontal: Horizontal::Zero,
    }
}

/// The heading tried first by the goal-seeking heuristic: the axis with
/// the strictly larger absolute delta wins; a tie goes to the vertical
/// axis.
pub open spec fn spec_preferred(aim_x: int, aim_y: int, cur_x: int, cur_y: int) -> Direction {
    let hor = aim_x - cur_x;
    let ver = aim_y - cur_y;
    if (if hor >= 0 {
        hor
    } else {
        -hor
    }) > (if ver >= 0 {
        ver
    } else {
        -ver
    }) {
        spec_preferred_horizontal(aim_x, cur_x)
    } else {
        spec_preferred_vertical(aim_y, cur_y)
    }
}

/// The heading tried second: the other axis.
pub open spec fn spec_second_preferred(aim_x: int, aim_y: int, cur_x: int, cur_y: int) -> Direction {
    let hor = aim_x - cur_x;
    let ver = aim_y - cur_y;
    if (if hor >= 0 {
        hor
    } else {
        -hor
    }) > (if ver >= 0 {
        ver
    } else {
        -ver
    }) {
        spec_preferred_vertical(aim_y, cur_y)
    } else {
        spec_preferred_horizontal(aim_x, cur_x)
    }
}

/// The index the goal-seeking heuristic picks from the open headings:
/// the first occurrence of the preferred heading, else of the second
/// preferred, else the caller's fallback draw (0 when only one heading is
/// open).
pub open spec fn spec_goal_choice(aim_x: int, aim_y: int, cur_x: int, cur_y: int, avail: Seq<Direction>, fallback: int) -> int {
    let pref = spec_preferred(aim_x, aim_y, cur_x, cur_y);
    let second = spec_second_preferred(aim_x, aim_y, cur_x, cur_y);
    if avail.contains(pref) {
        spec_first_index(avail, pref)
    } else if avail.contains(second) {
        spec_first_index(avail, second)
    } else if avail.len() > 1 {
        fallback
    } else {
        0
    }
}

/// Picks the index of the heading that best pursues `position_aim` from
/// `current_position`, exactly as [`spec_goal_choice`] says.  `fallback`
/// stands in for the random draw taken when neither preferred heading is
/// open.
pub fn ghost_to_position(position_aim: GridVec, current_position: GridVec, available_directions: &Vec<Direction>, fallback: usize) -> (r: usize)
    requires
        available_directions@.len() > 0,
        fallback < available_directions@.len(),
        -crate::num::COORD_LIMIT <= position_aim.x <= crate::num::COORD_LIMIT,
        -crate::num::COORD_LIMIT <= position_aim.y <= crate::num::COORD_LIMIT,
        -crate::num::COORD_LIMIT <= current_position.x <= crate::num::COORD_LIMIT,
        -crate::num::COORD_LIMIT <= current_position.y <= crate::num::COORD_LIMIT,
    ensures
        r == spec_goal_choice(
            position_aim.x as int,
            position_aim.y as int,
            current_position.x as int,
            current_position.y as int,
            available_directions@,
            fallback as int,
        ),
        r < available_directions@.len(),
{
    let mut decision: usize = 0;

    let hor_diff = position_aim.x - current_position.x;
    let ver_diff = position_aim.y - current_position.y;

    let preferred_horizontal = Direction {
        vertical: Vertical::Zero,
        horizontal: if hor_diff >= 0 {
            Horizontal::Right
        } else {
            Horizontal::Left
        },
    };
    let preferred_vertical = Direction {
        vertical: if ver_diff >= 0 {
            Vertical::Down
        } else {
            Vertical::Up
        },
        horizontal: Horizontal::Zero,
    };

    let hor_abs = if hor_diff >= 0 {
        hor_diff
    } else {
        -hor_diff
    };
    let ver_abs = if ver_diff >= 0 {
        ver_diff
    } else {
        -ver_diff
    };

    let (preferred_direction, second_preferred_direction) = if hor_abs > ver_abs {
        (preferred_horizontal, preferred_vertical)
    } else {
        (preferred_vertical, preferred_horizontal)
    };

    let (direction_not_found, decision_index) = find_direction_match(
        available_directions,
        &preferred_direction,
    );
    if !direction_not_found {
        decision = decision_index;
    } else {
        let (second_not_found, second_index) = find_direction_match(
            available_directions,
            &second_preferred_direction,
        );
        if !second_not_found {
            decision = second_index;
        } else {
            if available_directions.len() > 1 {
                decision = fallback;
            }
        }
    }

    decision
}

/// Straight-line distance between the two positions, in fixed-point
/// units, rounded down.
pub open spec fn spec_distance(ax: int, ay: int, bx: int, by: int) -> int {
    spec_isqrt(((ax - bx) * (ax - bx) + (ay - by) * (ay - by)) as nat) as int
}

/// Computes the straight-line distance between two positions.
pub fn distance_between(a: GridVec, b: GridVec) -> (r: u64)
    requires
        -POS_LIMIT <= a.x <= POS_LIMIT,
        -POS_LIMIT <= a.y <= POS_LIMIT,
        -POS_LIMIT <= b.x <= POS_LIMIT,
        -POS_LIMIT <= b.y <= POS_LIMIT,
    ensures
        r == spec_distance(a.x as int, a.y as int, b.x as int, b.y as int),
{
    let dx = a.x - b.x;
    let dy = a.y - b.y;
    proof {
        assert(dx * dx + dy * dy <= 80_000_000_000_000_000) by (nonlinear_arith)
            requires
                -200_000_000 <= dx <= 200_000_000,
                -200_000_000 <= dy <= 200_000_000,
        ;
        assert(dx * dx >= 0 && dy * dy >= 0) by (nonlinear_arith);
    }
    let sq = (dx * dx + dy * dy) as u64;
    crate::num::isqrt(sq)
}

/// The chance of a random move while chasing: the further the player,
/// the likelier, up to nine in ten — `distance / 30`, in thousandths,
/// capped at 900.
pub open spec fn spec_search_chance(dist: int) -> int {
    if dist / 30 < 900 {
        dist / 30
    } else {
        900
    }
}

/// Whether this tick takes a fresh heading decision: the mover's rounded
/// cell is not the one it last decided at, the decision-point window is
/// open, and at least one heading is open.
pub open spec fn spec_decides(logic: GameLogic, x: int, y: int, dir: Direction, last_dp: GridVec) -> bool {
    &&& (round_milli(x) != last_dp.x || round_milli(y) != last_dp.y)
    &&& spec_at_decision_point(x, y, dir)
    &&& spec_available_directions(logic, x, y, dir).len() > 0
}

/// The index chosen among the open headings: with a single option there
/// is nothing to choose; the coin decides between a uniform random pick
/// and the goal-seeking heuristic.
pub open spec fn spec_decision_index(logic: GameLogic, x: int, y: int, dir: Direction, aim_x: int, aim_y: int, chance: int, coin: int, pick: int, fallback: int) -> int {
    let avail = spec_available_directions(logic, x, y, dir);
    if avail.len() == 1 {
        0
    } else if coin % 1000 < chance {
        pick % (avail.len() as int)
    } else {
        spec_goal_choice(aim_x, aim_y, x, y, avail, fallback % (avail.len() as int))
    }
}

/// The heading after a possible decision: unchanged when no decision is
/// taken, else the chosen open heading.
pub open spec fn spec_new_direction(logic: GameLogic, x: int, y: int, dir: Direction, last_dp: GridVec, aim_x: int, aim_y: int, chance: int, coin: int, pick: int, fallback: int) -> Direction {
    if !spec_decides(logic, x, y, dir, last_dp) {
        dir
    } else {
        spec_available_directions(logic, x, y, dir)[spec_decision_index(
            logic,
            x,
            y,
            dir,
            aim_x,
            aim_y,
            chance,
            coin,
            pick,
            fallback,
        )]
    }
}

/// x after the decision's snap: turning onto a vertical corridor rounds
/// x onto its column.
pub open spec fn spec_decision_snap_x(x: int, dir: Direction, ndir: Direction, decided: bool) -> int {
    if decided && ndir != dir && ndir.horizontal is Zero {
        1000 * round_milli(x)
    } else {
        x
    }
}

/// y after the decision's snap: turning onto a horizontal corridor
/// rounds y onto its row.
pub open spec fn spec_decision_snap_y(y: int, dir: Direction, ndir: Direction, decided: bool) -> int {
    if decided && ndir != dir && !(ndir.horizontal is Zero) && ndir.vertical is Zero {
        1000 * round_milli(y)
    } else {
        y
    }
}

/// One chase-style decision-and-move: at a fresh decision point the ghost
/// may turn (by random pick with probability `chance_of_random`
/// thousandths, else by the goal-seeking heuristic toward
/// `ghost_pos_aim`), snapping onto the corridor it turns into and
/// remembering the cell; then it advances by `movement_amount` under the
/// motion primitive, whose blocked flag is dropped.  `coin`, `pick` and
/// `fallback` stand in for the tick's random draws.
pub fn ghost_decisions(movement_amount: i64, game_logic: &GameLogic, current_pos: GridVec, chance_of_random: u32, ghost: &mut GhostActor, ghost_pos_aim: GridVec, coin: u32, pick: usize, fallback: usize) -> (r: GridVec)
    requires
        game_logic.wf(),
        0 <= movement_amount <= DIST_LIMIT,
        -POS_LIMIT <= current_pos.x <= POS_LIMIT,
        -POS_LIMIT <= current_pos.y <= POS_LIMIT,
        -crate::num::COORD_LIMIT <= ghost_pos_aim.x <= crate::num::COORD_LIMIT,
        -crate::num::COORD_LIMIT <= ghost_pos_aim.y <= crate::num::COORD_LIMIT,
        chance_of_random <= 1000,
    ensures
        ({
            let x = current_pos.x as int;
            let y = current_pos.y as int;
            let dir = old(ghost).direction_of_travel;
            let last = old(ghost).last_decision_point;
            let decided = spec_decides(*game_logic, x, y, dir, last);
            let ndir = spec_new_direction(
                *game_logic,
                x,
                y,
                dir,
                last,
                ghost_pos_aim.x as int,
                ghost_pos_aim.y as int,
                chance_of_random as int,
                coin as int,
                pick as int,
                fallback as int,
            );
            let sx = spec_decision_snap_x(x, dir, ndir, decided);
            let sy = spec_decision_snap_y(y, dir, ndir, decided);
            &&& final(ghost).direction_of_travel == ndir
            &&& final(ghost).last_decision_point.x == (if decided {
                round_milli(x)
            } else {
                last.x as int
            })
            &&& final(ghost).last_decision_point.y == (if decided {
                round_milli(y)
            } else {
                last.y as int
            })
            &&& r.x == spec_move_result_x(*game_logic, sx, sy, ndir, movement_amount as int)
            &&& r.y == spec_move_result_y(*game_logic, sx, sy, ndir, movement_amount as int)
            &&& final(ghost).position == old(ghost).position
            &&& final(ghost).actions_status == old(ghost).actions_status
            &&& final(ghost).position_status == old(ghost).position_status
            &&& final(ghost).time_in_pen == old(ghost).time_in_pen
            &&& final(ghost).time_weakened == old(ghost).time_weakened
            &&& spec_same_identity(*old(ghost), *final(ghost))
            &&& -POS_LIMIT - DIST_LIMIT <= r.x <= POS_LIMIT + DIST_LIMIT
            &&& -POS_LIMIT - DIST_LIMIT <= r.y <= POS_LIMIT + DIST_LIMIT
        }),
{
    let rounded_x = round_to_cell(current_pos.x);
    let rounded_y = round_to_cell(current_pos.y);
    let mut current = current_pos;

    if (rounded_x != ghost.last_decision_point.x || rounded_y != ghost.last_decision_point.y)
        && at_decision_point(current_pos, ghost.direction_of_travel) {
        let available_directions = get_available_directions(
            current_pos,
            ghost.direction_of_travel,
            game_logic,
        );
        if available_directions.len() > 0 {
            let mut decision: usize = 0;
            if available_directions.len() != 1 {
                if coin % 1000 < chance_of_random {
                    decision = pick % available_directions.len();
                } else {
                    decision = ghost_to_position(
                        ghost_pos_aim,
                        current_pos,
                        &available_directions,
                        fallback % available_directions.len(),
                    );
                }
            }
            let new_dir = available_directions[decision];
            let has_changed = new_dir.vertical != ghost.direction_of_travel.vertical
                || new_dir.horizontal != ghost.direction_of_travel.horizontal;
            ghost.direction_of_travel = new_dir;
            if has_changed {
                if matches!(new_dir.horizontal, Horizontal::Zero) {
                    current.x = round_to_milli(current.x);
                } else if matches!(new_dir.vertical, Vertical::Zero) {
                    current.y = round_to_milli(current.y);
                }
            }
            ghost.last_decision_point = GridVec { x: rounded_x, y: rounded_y };
        }
    }

    let new_pos = get_new_position_alt(
        game_logic,
        current,
        ghost.direction_of_travel,
        movement_amount,
    );
    new_pos.0
}

/// The random draws one ghost tick may consume: the coin against the
/// random-action chance, the uniform pick and the heuristic's fallback
/// pick among the open headings, and the left-or-right flip taken at the
/// pen exit and the pen center.
#[derive(Clone, Copy, PartialEq, Eq, Structural, Debug)]
pub struct GhostDraws {
    pub coin: u32,
    pub pick: usize,
    pub fallback: usize,
    pub turn_left: bool,
}

/// One idle tick: shuffle horizontally, bounce off columns 10 and 15,
/// and count the pen timer down; when it runs out this tick, start
/// leaving the pen.
pub open spec fn spec_idle_step(g: GhostActor, g2: GhostActor, delta: int) -> bool {
    let pen = 2 * delta;
    let nx = g.position.x + pen * spec_horizontal_unit(g.direction_of_travel.horizontal);
    let ny = g.position.y + pen * spec_vertical_unit(g.direction_of_travel.vertical);
    &&& g2.position.x == nx
    &&& g2.position.y == ny
    &&& g2.direction_of_travel.horizontal == (if nx > 15000 {
        Horizontal::Left
    } else if nx < 10000 {
        Horizontal::Right
    } else {
        g.direction_of_travel.horizontal
    })
    &&& g2.direction_of_travel.vertical == g.direction_of_travel.vertical
    &&& g2.time_in_pen == (if g.time_in_pen >= delta {
        g.time_in_pen - delta
    } else {
        0int
    })
    &&& g2.actions_status == (if g.time_in_pen > 0 && g.time_in_pen <= delta {
        GhostActionsStatus::LeavingPen
    } else {
        g.actions_status
    })
    &&& g2.position_status == g.position_status
    &&& g2.time_weakened == g.time_weakened
    &&& g2.last_decision_point == g.last_decision_point
    &&& spec_same_identity(g, g2)
}

/// One pen-exit tick: first line up with the exit column, then climb or
/// descend to the exit row, each leg clamped by the pen-shuffle speed;
/// on arrival the ghost is out, heading left or right by the coin flip.
pub open spec fn spec_leaving_step(g: GhostActor, g2: GhostActor, delta: int, turn_left: bool) -> bool {
    let pen = 2 * delta;
    let x = g.position.x as int;
    let y = g.position.y as int;
    if -100 < x - 12500 && x - 12500 < 100 {
        let y_diff = y - 10000;
        let step = if y_diff > 0 {
            if pen < y_diff {
                pen
            } else {
                y_diff
            }
        } else {
            if -pen > y_diff {
                -pen
            } else {
                y_diff
            }
        };
        let ny = y - step;
        let arrived = -10 < ny - 10000 && ny - 10000 < 10;
        &&& g2.position.x == 12500
        &&& g2.position.y == (if arrived {
            10000int
        } else {
            ny
        })
        &&& g2.actions_status == (if arrived {
            GhostActionsStatus::SearchingForPlayer
        } else {
            g.actions_status
        })
        &&& g2.position_status == (if arrived {
            GhostPositionStatus::OutAndAbout
        } else {
            g.position_status
        })
        &&& g2.direction_of_travel.vertical == (if arrived {
            Vertical::Zero
        } else if y_diff > 0 {
            Vertical::Up
        } else {
            Vertical::Down
        })
        &&& g2.direction_of_travel.horizontal == (if arrived {
            if turn_left {
                Horizontal::Left
            } else {
                Horizontal::Right
            }
        } else {
            Horizontal::Zero
        })
        &&& g2.time_in_pen == g.time_in_pen
        &&& g2.time_weakened == g.time_weakened
        &&& g2.last_decision_point == g.last_decision_point
        &&& spec_same_identity(g, g2)
    } else {
        let x_diff = x - 12500;
        let step = if x_diff > 0 {
            if pen < x_diff {
                pen
            } else {
                x_diff
            }
        } else {
            if -pen > x_diff {
                -pen
            } else {
                x_diff
            }
        };
        &&& g2.position.x == x - step
        &&& g2.position.y == y
        &&& g2.direction_of_travel.horizontal == (if x_diff > 0 {
            Horizontal::Left
        } else {
            Horizontal::Right
        })
        &&& g2.direction_of_travel.vertical == Vertical::Zero
        &&& g2.actions_status == g.actions_status
        &&& g2.position_status == g.position_status
        &&& g2.time_in_pen == g.time_in_pen
        &&& g2.time_weakened == g.time_weakened
        &&& g2.last_decision_point == g.last_decision_point
        &&& spec_same_identity(g, g2)
    }
}

/// One chase-style tick: the decision-and-move of [`ghost_decisions`]
/// with the given travel distance, random-action chance and aim, the new
/// position taken over into the ghost.
pub open spec fn spec_chase_step(logic: GameLogic, g: GhostActor, g2: GhostActor, movement: int, chance: int, aim_x: int, aim_y: int, coin: int, pick: int, fallback: int) -> bool {
    let x = g.position.x as int;
    let y = g.position.y as int;
    let dir = g.direction_of_travel;
    let last = g.last_decision_point;
    let decided = spec_decides(logic, x, y, dir, last);
    let ndir = spec_new_direction(logic, x, y, dir, last, aim_x, aim_y, chance, coin, pick, fallback);
    let sx = spec_decision_snap_x(x, dir, ndir, decided);
    let sy = spec_decision_snap_y(y, dir, ndir, decided);
    &&& g2.direction_of_travel == ndir
    &&& g2.last_decision_point.x == (if decided {
        round_milli(x)
    } else {
        last.x as int
    })
    &&& g2.last_decision_point.y == (if decided {
        round_milli(y)
    } else {
        last.y as int
    })
    &&& g2.position.x == spec_move_result_x(logic, sx, sy, ndir, movement)
    &&& g2.position.y == spec_move_result_y(logic, sx, sy, ndir, movement)
    &&& g2.actions_status == g.actions_status
    &&& g2.position_status == g.position_status
    &&& g2.time_in_pen == g.time_in_pen
    &&& g2.time_weakened == g.time_weakened
    &&& spec_same_identity(g, g2)
}

/// One search tick: chase the player at the ghost's own speed; the
/// random-action chance grows with the distance to the player.
pub open spec fn spec_searching_step(logic: GameLogic, g: GhostActor, g2: GhostActor, delta: int, px: int, py: int, coin: int, pick: int, fallback: int) -> bool {
    spec_chase_step(
        logic,
        g,
        g2,
        g.speed * delta / 1000,
        spec_search_chance(spec_distance(px, py, g.position.x as int, g.position.y as int)),
        px,
        py,
        coin,
        pick,
        fallback,
    )
}

/// One weakened tick: flee at the fixed weakened speed toward the point
/// mirroring the player through the ghost, with a fixed one-in-five
/// random-action chance.
pub open spec fn spec_weakened_step(logic: GameLogic, g: GhostActor, g2: GhostActor, delta: int, px: int, py: int, coin: int, pick: int, fallback: int) -> bool {
    spec_chase_step(
        logic,
        g,
        g2,
        GHOST_WEAKENED_SPEED * delta / 1000,
        200,
        2 * g.position.x - px,
        2 * g.position.y - py,
        coin,
        pick,
        fallback,
    )
}

/// One run-home tick: head for the pen exit at the running speed with no
/// random moves; within three tenths of a cell of the exit on both axes,
/// snap onto it and start entering the pen.
pub open spec fn spec_running_step(logic: GameLogic, g: GhostActor, g2: GhostActor, delta: int, coin: int, pick: int, fallback: int) -> bool {
    let x = g.position.x as int;
    let y = g.position.y as int;
    let dir = g.direction_of_travel;
    let last = g.last_decision_point;
    let movement = GHOST_RUNNING_HOME * delta / 1000;
    let decided = spec_decides(logic, x, y, dir, last);
    let ndir = spec_new_direction(logic, x, y, dir, last, 12500, 10000, 0, coin, pick, fallback);
    let sx = spec_decision_snap_x(x, dir, ndir, decided);
    let sy = spec_decision_snap_y(y, dir, ndir, decided);
    let mx = spec_move_result_x(logic, sx, sy, ndir, movement);
    let my = spec_move_result_y(logic, sx, sy, ndir, movement);
    let arrived = -300 < mx - 12500 && mx - 12500 < 300 && -300 < my - 10000 && my - 10000 < 300;
    &&& g2.direction_of_travel == ndir
    &&& g2.last_decision_point.x == (if decided {
        round_milli(x)
    } else {
        last.x as int
    })
    &&& g2.last_decision_point.y == (if decided {
        round_milli(y)
    } else {
        last.y as int
    })
    &&& g2.position.x == (if arrived {
        12500int
    } else {
        mx
    })
    &&& g2.position.y == (if arrived {
        10000int
    } else {
        my
    })
    &&& g2.actions_status == (if arrived {
        GhostActionsStatus::GoingIntoPen
    } else {
        g.actions_status
    })
    &&& g2.position_status == g.position_status
    &&& g2.time_in_pen == g.time_in_pen
    &&& g2.time_weakened == g.time_weakened
    &&& spec_same_identity(g, g2)
}

/// One pen-entry tick: drop straight down the corridor toward the pen
/// center; on arrival the ghost idles in the pen again, with a fresh
/// five-second pen timer and a coin-flipped shuffle heading.
pub open spec fn spec_entering_step(g: GhostActor, g2: GhostActor, delta: int, turn_left: bool) -> bool {
    let pen = 2 * delta;
    let y = g.position.y as int;
    let y_diff = 13000 - y;
    let step = if pen < y_diff {
        pen
    } else {
        y_diff
    };
    let ny = y + step;
    let arrived = -10 < ny - 13000 && ny - 13000 < 10;
    &&& g2.position.x == 12500
    &&& g2.position.y == (if arrived {
        13000int
    } else {
        ny
    })
    &&& g2.actions_status == (if arrived {
        GhostActionsStatus::Idle
    } else {
        g.actions_status
    })
    &&& g2.position_status == (if arrived {
        GhostPositionStatus::InPen
    } else {
        g.position_status
    })
    &&& g2.direction_of_travel.vertical == (if arrived {
        Vertical::Zero
    } else {
        Vertical::Down
    })
    &&& g2.direction_of_travel.horizontal == (if arrived {
        if turn_left {
            Horizontal::Left
        } else {
            Horizontal::Right
        }
    } else {
        Horizontal::Zero
    })
    &&& g2.time_in_pen == (if arrived {
        5000int
    } else {
        g.time_in_pen as int
    })
    &&& g2.time_weakened == g.time_weakened
    &&& g2.last_decision_point == g.last_decision_point
    &&& spec_same_identity(g, g2)
}

/// One full ghost tick: which step applies is decided by the ghost's
/// action status at the start of the tick.
pub open spec fn spec_move_ghost_step(logic: GameLogic, g: GhostActor, g2: GhostActor, px: int, py: int, delta: int, draws: GhostDraws) -> bool {
    match g.actions_status {
        GhostActionsStatus::Idle => spec_idle_step(g, g2, delta),
        GhostActionsStatus::LeavingPen => spec_leaving_step(g, g2, delta, draws.turn_left),
        GhostActionsStatus::SearchingForPlayer => spec_searching_step(
            logic,
            g,
            g2,
            delta,
            px,
            py,
            draws.coin as int,
            draws.pick as int,
            draws.fallback as int,
        ),
        GhostActionsStatus::Weakened => spec_weakened_step(
            logic,
            g,
            g2,
            delta,
            px,
            py,
            draws.coin as int,
            draws.pick as int,
            draws.fallback as int,
        ),
        GhostActionsStatus::RunningToPen => spec_running_step(
            logic,
            g,
            g2,
            delta,
            draws.coin as int,
            draws.pick as int,
            draws.fallback as int,
        ),
        GhostActionsStatus::GoingIntoPen => spec_entering_step(g, g2, delta, draws.turn_left),
    }
}

/// One tick of the ghost state machine, exactly as
/// [`spec_move_ghost_step`] describes for the ghost's current action
/// status.  `draws` stands in for the tick's random draws.
#[verifier::rlimit(100)]
pub fn move_ghost(game_logic: &GameLogic, ghost: &mut GhostActor, player_pos: GridVec, delta_ms: u64, draws: GhostDraws)
    requires
        game_logic.wf(),
        -POS_LIMIT <= old(ghost).position.x <= POS_LIMIT,
        -POS_LIMIT <= old(ghost).position.y <= POS_LIMIT,
        0 <= old(ghost).speed <= SPEED_LIMIT,
        -POS_LIMIT <= player_pos.x <= POS_LIMIT,
        -POS_LIMIT <= player_pos.y <= POS_LIMIT,
        delta_ms <= DELTA_LIMIT,
    ensures
        spec_move_ghost_step(
            *game_logic,
            *old(ghost),
            *final(ghost),
            player_pos.x as int,
            player_pos.y as int,
            delta_ms as int,
            draws,
        ),
{
    let pen_movement = 2 * (delta_ms as i64);

    match ghost.actions_status {
        GhostActionsStatus::Idle => {
            let h = ghost.direction_of_travel.horizontal.unit();
            let v = ghost.direction_of_travel.vertical.unit();
            proof {
                assert(-20_000 <= pen_movement * h <= 20_000 && -20_000 <= pen_movement * v
                    <= 20_000) by (nonlinear_arith)
                    requires
                        0 <= pen_movement <= 20_000,
                        -1 <= h <= 1,
                        -1 <= v <= 1,
                ;
            }
            ghost.position = GridVec {
                x: ghost.position.x + pen_movement * h,
                y: ghost.position.y + pen_movement * v,
            };
            if ghost.position.x > 15000 {
                ghost.direction_of_travel.horizontal = Horizontal::Left;
            } else if ghost.position.x < 10000 {
                ghost.direction_of_travel.horizontal = Horizontal::Right;
            }
            let remaining = ghost.time_in_pen;
            ghost.time_in_pen = if remaining >= delta_ms {
                remaining - delta_ms
            } else {
                0
            };
            if remaining > 0 && remaining <= delta_ms {
                ghost.actions_status = GhostActionsStatus::LeavingPen;
            }
        },
        GhostActionsStatus::LeavingPen => {
            let x_off = ghost.position.x - PEN_EXIT_X;
            if -100 < x_off && x_off < 100 {
                let y_diff = ghost.position.y - PEN_EXIT_Y;
                let step = if y_diff > 0 {
                    ghost.direction_of_travel.vertical = Vertical::Up;
                    if pen_movement < y_diff {
                        pen_movement
                    } else {
                        y_diff
                    }
                } else {
                    ghost.direction_of_travel.vertical = Vertical::Down;
                    if -pen_movement > y_diff {
                        -pen_movement
                    } else {
                        y_diff
                    }
                };
                ghost.position = GridVec { x: PEN_EXIT_X, y: ghost.position.y - step };
                ghost.direction_of_travel.horizontal = Horizontal::Zero;
                let y_off = ghost.position.y - PEN_EXIT_Y;
                if -10 < y_off && y_off < 10 {
                    ghost.position = GridVec { x: PEN_EXIT_X, y: PEN_EXIT_Y };
                    ghost.actions_status = GhostActionsStatus::SearchingForPlayer;
                    ghost.position_status = GhostPositionStatus::OutAndAbout;
                    ghost.direction_of_travel.vertical = Vertical::Zero;
                    ghost.direction_of_travel.horizontal = if draws.turn_left {
                        Horizontal::Left
                    } else {
                        Horizontal::Right
                    };
                }
            } else {
                let step = if x_off > 0 {
                    ghost.direction_of_travel.horizontal = Horizontal::Left;
                    if pen_movement < x_off {
                        pen_movement
                    } else {
                        x_off
                    }
                } else {
                    ghost.direction_of_travel.horizontal = Horizontal::Right;
                    if -pen_movement > x_off {
                        -pen_movement
                    } else {
                        x_off
                    }
                };
                ghost.position = GridVec { x: ghost.position.x - step, y: ghost.position.y };
                ghost.direction_of_travel.vertical = Vertical::Zero;
            }
        },
        GhostActionsStatus::SearchingForPlayer => {
            let movement = movement_for_tick(ghost.speed, delta_ms);
            let dist = distance_between(player_pos, ghost.position);
            let capped = dist / 30;
            let chance: u32 = if capped > 900 {
                900
            } else {
                capped as u32
            };
            let current = ghost.position;
            let new_pos = ghost_decisions(
                movement,
                game_logic,
                current,
                chance,
                ghost,
                player_pos,
                draws.coin,
                draws.pick,
                draws.fallback,
            );
            ghost.position = new_pos;
        },
        GhostActionsStatus::Weakened => {
            let movement = movement_for_tick(GHOST_WEAKENED_SPEED, delta_ms);
            let current = ghost.position;
            let aim = GridVec {
                x: 2 * current.x - player_pos.x,
                y: 2 * current.y - player_pos.y,
            };
            let new_pos = ghost_decisions(
                movement,
                game_logic,
                current,
                200,
                ghost,
                aim,
                draws.coin,
                draws.pick,
                draws.fallback,
            );
            ghost.position = new_pos;
        },
        GhostActionsStatus::RunningToPen => {
            let movement = movement_for_tick(GHOST_RUNNING_HOME, delta_ms);
            let current = ghost.position;
            let aim = GridVec { x: PEN_EXIT_X, y: PEN_EXIT_Y };
            let new_pos = ghost_decisions(
                movement,
                game_logic,
                current,
                0,
                ghost,
                aim,
                draws.coin,
                draws.pick,
                draws.fallback,
            );
            ghost.position = new_pos;
            let dx = ghost.position.x - PEN_EXIT_X;
            let dy = ghost.position.y - PEN_EXIT_Y;
            if -300 < dx && dx < 300 && -300 < dy && dy < 300 {
                ghost.actions_status = GhostActionsStatus::GoingIntoPen;
                ghost.position = GridVec { x: PEN_EXIT_X, y: PEN_EXIT_Y };
            }
        },
        GhostActionsStatus::GoingIntoPen => {
            ghost.direction_of_travel.vertical = Vertical::Down;
            ghost.direction_of_travel.horizontal = Horizontal::Zero;
            let y_diff = PEN_CENTER_Y - ghost.position.y;
            let step = if pen_movement < y_diff {
                pen_movement
            } else {
                y_diff
            };
            ghost.position = GridVec { x: PEN_CENTER_X, y: ghost.position.y + step };
            let y_off = ghost.position.y - PEN_CENTER_Y;
            if -10 < y_off && y_off < 10 {
                ghost.position = GridVec { x: PEN_CENTER_X, y: PEN_CENTER_Y };
                ghost.actions_status = GhostActionsStatus::Idle;
                ghost.position_status = GhostPositionStatus::InPen;
                ghost.direction_of_travel.vertical = Vertical::Zero;
                ghost.time_in_pen = 5000;
                ghost.direction_of_travel.horizontal = if draws.turn_left {
                    Horizontal::Left
                } else {
                    Horizontal::Right
                };
            }
        },
    }
}

/// One tick of the ghost state machine with live randomness: the draws
/// come from the process-wide generator, so the contract promises only
/// that the tick behaved as [`spec_move_ghost_step`] for some draws.
pub fn move_ghost_live(game_logic: &GameLogic, ghost: &mut GhostActor, player_pos: GridVec, delta_ms: u64)
    requires
        game_logic.wf(),
        -POS_LIMIT <= old(ghost).position.x <= POS_LIMIT,
        -POS_LIMIT <= old(ghost).position.y <= POS_LIMIT,
        0 <= old(ghost).speed <= SPEED_LIMIT,
        -POS_LIMIT <= player_pos.x <= POS_LIMIT,
        -POS_LIMIT <= player_pos.y <= POS_LIMIT,
        delta_ms <= DELTA_LIMIT,
    ensures
        exists|draws: GhostDraws|
            spec_move_ghost_step(
                *game_logic,
                *old(ghost),
                *final(ghost),
                player_pos.x as int,
                player_pos.y as int,
                delta_ms as int,
                draws,
            ),
{
    let draws = GhostDraws {
        coin: crate::rng::rand_below(1000),
        pick: crate::rng::rand_below(12) as usize,
        fallback: crate::rng::rand_below(12) as usize,
        turn_left: crate::rng::rand_coin(),
    };
    move_ghost(game_logic, ghost, player_pos, delta_ms, draws);
    proof {
        assert(spec_move_ghost_step(
            *game_logic,
            *old(ghost),
            *ghost,
            player_pos.x as int,
            player_pos.y as int,
            delta_ms as int,
            draws,
        ));
    }
}

/// The effect of entering the weakened state: half speed, the weakened
/// action status, and an armed weakness timer.
pub open spec fn spec_enter_weakened(g: GhostActor, g2: GhostActor, duration_ms: int) -> bool {
    &&& g2.speed == g.speed / 2
    &&& g2.actions_status is Weakened
    &&& g2.time_weakened == Some(duration_ms as u64)
    &&& g2.position == g.position
    &&& g2.direction_of_travel == g.direction_of_travel
    &&& g2.position_status == g.position_status
    &&& g2.time_in_pen == g.time_in_pen
    &&& g2.last_decision_point == g.last_decision_point
    &&& g2.name@ == g.name@
    &&& g2.base_colour == g.base_colour
}

impl GhostActor {
    /// Sends this ghost into the weakened state: its speed halves, and
    /// the weakness timer is armed for `duration_ms`.  The halving is
    /// permanent and cumulative: nothing restores the stored speed when
    /// the weakness expires, and weakened motion itself runs at the
    /// fixed [`GHOST_WEAKENED_SPEED`] — so the halving only slows the
    /// ghost's later chase.  That is the tuned behaviour of the game and
    /// is kept deliberately.
    pub fn enter_weakened(&mut self, duration_ms: u64)
        requires
            old(self).speed >= 0,
        ensures
            spec_enter_weakened(*old(self), *final(self), duration_ms as int),
    {
        self.speed = self.speed / 2;
        self.actions_status = GhostActionsStatus::Weakened;
        self.time_weakened = Some(duration_ms);
    }
}

/// A collected weakness token weakens every ghost, awards fifty points
/// and starts the kill chain over.
pub fn apply_weakness_pickup(ghosts: &mut Vec<GhostActor>, score: &mut Score, kills: &mut ConsecutiveKills, duration_ms: u64)
    requires
        old(score).0 + 50 <= i32::MAX,
        forall|i: int| 0 <= i < old(ghosts)@.len() ==> (#[trigger] old(ghosts)@[i]).speed >= 0,
    ensures
        final(score).0 == old(score).0 + 50,
        final(kills).0 == 0,
        final(ghosts)@.len() == old(ghosts)@.len(),
        forall|i: int|
            0 <= i < old(ghosts)@.len() ==> spec_enter_weakened(
                old(ghosts)@[i],
                #[trigger] final(ghosts)@[i],
                duration_ms as int,
            ),
{
    crate::scoring::collect_weakness_token(score, kills);
    let n = ghosts.len();
    let mut i: usize = 0;
    while i < n
        invariant
            n == ghosts@.len(),
            n == old(ghosts)@.len(),
            i <= n,
            forall|j: int| 0 <= j < old(ghosts)@.len() ==> (#[trigger] old(ghosts)@[j]).speed >= 0,
            forall|j: int| i <= j < n ==> #[trigger] ghosts@[j] == old(ghosts)@[j],
            forall|j: int|
                0 <= j < i ==> spec_enter_weakened(
                    old(ghosts)@[j],
                    #[trigger] ghosts@[j],
                    duration_ms as int,
                ),
        decreases n - i,
    {
        let g = &mut ghosts[i];
        g.enter_weakened(duration_ms);
        i = i + 1;
    }
}

/// Counts a ghost's weakness timer down by the tick's delta; when it
/// runs out, the ghost goes back to hunting and the timer is cleared.
pub fn update_weakened_timers(ghost: &mut GhostActor, delta_ms: u64)
    ensures
        match old(ghost).time_weakened {
            Some(remaining) => if remaining <= delta_ms {
                &&& final(ghost).actions_status is SearchingForPlayer
                &&& final(ghost).time_weakened is None
            } else {
                &&& final(ghost).actions_status == old(ghost).actions_status
                &&& final(ghost).time_weakened == Some((remaining - delta_ms) as u64)
            },
            None => *final(ghost) == *old(ghost),
        },
        final(ghost).position == old(ghost).position,
        final(ghost).direction_of_travel == old(ghost).direction_of_travel,
        final(ghost).position_status == old(ghost).position_status,
        final(ghost).time_in_pen == old(ghost).time_in_pen,
        final(ghost).last_decision_point == old(ghost).last_decision_point,
        spec_same_identity(*old(ghost), *final(ghost)),
{
    match ghost.time_weakened {
        Some(remaining) => {
            if remaining <= delta_ms {
                ghost.actions_status = GhostActionsStatus::SearchingForPlayer;
                ghost.time_weakened = None;
            } else {
                ghost.time_weakened = Some(remaining - delta_ms);
            }
        },
        None => {},
    }
}

/// What touching the player did to a ghost.
#[derive(Clone, Copy, PartialEq, Eq, Structural, Debug)]
pub enum GhostTouchOutcome {
    KillScored,
    LoseLife,
    NoEffect,
}

/// Resolves a possible ghost-player touch.  Without hitbox overlap
/// nothing happens.  On overlap the ghost's action status decides: a
/// weakened ghost is eaten — it runs for the pen, turns intangible and
/// scores the next link of the kill chain; a hunting ghost costs the
/// player a life; a ghost already running home, or still in the pen, is
/// not affected.
pub fn check_ghost_player_collision(player_rect: crate::motion::Rect, ghost_rect: crate::motion::Rect, ghost: &mut GhostActor, score: &mut Score, kills: &mut ConsecutiveKills) -> (r: GhostTouchOutcome)
    requires
        0 <= old(kills).0 <= 20_000_000,
        0 <= old(score).0,
        old(score).0 + 100 * (old(kills).0 + 1) <= i32::MAX,
    ensures
        !crate::motion::spec_check_collision(player_rect, ghost_rect) ==> {
            &&& r is NoEffect
            &&& *final(ghost) == *old(ghost)
            &&& *final(score) == *old(score)
            &&& *final(kills) == *old(kills)
        },
        crate::motion::spec_check_collision(player_rect, ghost_rect) ==> match old(
            ghost,
        ).actions_status {
            GhostActionsStatus::Weakened => {
                &&& r is KillScored
                &&& final(ghost).actions_status is RunningToPen
                &&& final(ghost).position_status is ReturningToPen
                &&& final(ghost).time_weakened is None
                &&& final(ghost).position == old(ghost).position
                &&& final(ghost).direction_of_travel == old(ghost).direction_of_travel
                &&& final(ghost).time_in_pen == old(ghost).time_in_pen
                &&& final(ghost).last_decision_point == old(ghost).last_decision_point
                &&& spec_same_identity(*old(ghost), *final(ghost))
                &&& final(kills).0 == old(kills).0 + 1
                &&& final(score).0 == old(score).0 + spec_kill_award(old(kills).0 as int)
            },
            GhostActionsStatus::SearchingForPlayer => {
                &&& r is LoseLife
                &&& *final(ghost) == *old(ghost)
                &&& *final(score) == *old(score)
                &&& *final(kills) == *old(kills)
            },
            _ => {
                &&& r is NoEffect
                &&& *final(ghost) == *old(ghost)
                &&& *final(score) == *old(score)
                &&& *final(kills) == *old(kills)
            },
        },
{
    if crate::motion::check_collision(player_rect, ghost_rect) {
        match ghost.actions_status {
            GhostActionsStatus::Weakened => {
                ghost.actions_status = GhostActionsStatus::RunningToPen;
                ghost.position_status = GhostPositionStatus::ReturningToPen;
                ghost.time_weakened = None;
                crate::scoring::record_ghost_kill(score, kills);
                GhostTouchOutcome::KillScored
            },
            GhostActionsStatus::SearchingForPlayer => GhostTouchOutcome::LoseLife,
            _ => GhostTouchOutcome::NoEffect,
        }
    } else {
        GhostTouchOutcome::NoEffect
    }
}

} // verus!
