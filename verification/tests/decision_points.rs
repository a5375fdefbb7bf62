//! The decision-point window and the open-heading enumeration.

use pacmaze::board::standard_board;
use pacmaze::decision::{at_decision_point, get_available_directions};
use pacmaze::ghost::{find_direction_match, ghost_to_position};
use pacmaze::heading::{resolve_input, Direction, GridVec, Horizontal, Vertical};

fn left() -> Direction {
    Direction { vertical: Vertical::Zero, horizontal: Horizontal::Left }
}

fn right() -> Direction {
    Direction { vertical: Vertical::Zero, horizontal: Horizontal::Right }
}

fn up() -> Direction {
    Direction { vertical: Vertical::Up, horizontal: Horizontal::Zero }
}

fn down() -> Direction {
    Direction { vertical: Vertical::Down, horizontal: Horizontal::Zero }
}

#[test]
fn decision_window_gates_by_approach_side() {
    // Moving right, only offsets in [-0.1, 0) before the center count:
    // 0.15 past the center may not turn, 0.05 before it must.
    assert!(!at_decision_point(GridVec { x: 5_150, y: 5_000 }, right()));
    assert!(at_decision_point(GridVec { x: 4_950, y: 5_000 }, right()));
    // Dead on the center is already past it for a rightward mover.
    assert!(!at_decision_point(GridVec { x: 5_000, y: 5_000 }, right()));
    // Moving left approaches from the other side.
    assert!(at_decision_point(GridVec { x: 5_050, y: 5_000 }, left()));
    assert!(!at_decision_point(GridVec { x: 4_950, y: 5_000 }, left()));
    // Vertical movers are gated on the y axis.
    assert!(at_decision_point(GridVec { x: 5_432, y: 5_050 }, up()));
    assert!(!at_decision_point(GridVec { x: 5_432, y: 4_950 }, up()));
}

#[test]
fn available_directions_skip_walls_and_reverse() {
    let board = standard_board();
    // (5,4) is an open four-way junction on the standard board.
    let dirs = get_available_directions(GridVec { x: 5_000, y: 4_000 }, right(), &board);
    assert_eq!(dirs, vec![right(), up(), down()]);
    // The reverse never shows up, whatever the heading.
    for d in &dirs {
        assert!(*d != left());
    }
    // At (5,1) left and right neighbours are walls; heading right leaves
    // up and down.
    let dirs = get_available_directions(GridVec { x: 5_000, y: 1_000 }, right(), &board);
    assert_eq!(dirs, vec![up(), down()]);
    // With a neutral heading nothing is excluded as a reverse.
    let dirs = get_available_directions(
        GridVec { x: 5_000, y: 4_000 },
        Direction { vertical: Vertical::Zero, horizontal: Horizontal::Zero },
        &board,
    );
    assert_eq!(dirs, vec![left(), right(), up(), down()]);
}

#[test]
fn direction_match_finds_first_occurrence() {
    let dirs = vec![up(), down(), left(), right()];
    assert_eq!(find_direction_match(&dirs, &up()), (false, 0));
    assert_eq!(find_direction_match(&dirs, &right()), (false, 3));
    let dirs = vec![up(), down()];
    assert_eq!(find_direction_match(&dirs, &right()), (true, 0));
}

#[test]
fn goal_choice_prefers_larger_axis_delta() {
    // The aim is far to the right and slightly below: right wins.
    let avail = vec![left(), right(), up(), down()];
    let choice = ghost_to_position(
        GridVec { x: 20_000, y: 6_000 },
        GridVec { x: 5_000, y: 5_000 },
        &avail,
        0,
    );
    assert_eq!(choice, 1);
    // The aim is far below: down wins over the slight rightward pull.
    let choice = ghost_to_position(
        GridVec { x: 6_000, y: 20_000 },
        GridVec { x: 5_000, y: 5_000 },
        &avail,
        0,
    );
    assert_eq!(choice, 3);
    // Preferred heading walled off: the second preferred axis is taken.
    let avail = vec![up(), down()];
    let choice = ghost_to_position(
        GridVec { x: 20_000, y: 6_000 },
        GridVec { x: 5_000, y: 5_000 },
        &avail,
        0,
    );
    assert_eq!(choice, 1);
    // Neither preferred available: the fallback draw decides.
    let avail = vec![up(), left()];
    let choice = ghost_to_position(
        GridVec { x: 20_000, y: 5_000 },
        GridVec { x: 5_000, y: 5_000 },
        &avail,
        1,
    );
    assert_eq!(choice, 1);
}

#[test]
fn input_resolution_cancels_opposites() {
    let d = resolve_input(true, true, false, false);
    assert_eq!(d.vertical, Vertical::Zero);
    let d = resolve_input(true, false, false, true);
    assert_eq!(d.vertical, Vertical::Up);
    assert_eq!(d.horizontal, Horizontal::Right);
    let d = resolve_input(false, false, true, true);
    assert_eq!(d.horizontal, Horizontal::Zero);
}
