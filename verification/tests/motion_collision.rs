//! The collision and motion primitive: overlap tests, wall blocking and
//! warp teleports.

use pacmaze::board::standard_board;
use pacmaze::heading::{Direction, GridVec, Horizontal, Vertical};
use pacmaze::motion::{check_collision, get_new_position_alt, Rect};
use pacmaze::num::round_to_cell;

fn heading(v: Vertical, h: Horizontal) -> Direction {
    Direction { vertical: v, horizontal: h }
}

#[test]
fn rect_overlap_basic() {
    let a = Rect::from_center_unit(GridVec { x: 5_000, y: 5_000 });
    let b = Rect::from_center_unit(GridVec { x: 5_800, y: 5_000 });
    let c = Rect::from_center_unit(GridVec { x: 7_000, y: 5_000 });
    assert!(check_collision(a, b));
    assert!(check_collision(b, a));
    assert!(!check_collision(a, c));
    // Perpendicular separation also prevents overlap.
    let d = Rect::from_center_unit(GridVec { x: 5_000, y: 7_500 });
    assert!(!check_collision(a, d));
}

#[test]
fn open_path_move_advances_by_distance() {
    let board = standard_board();
    // Row 4 is one long corridor.
    let (pos, blocked) = get_new_position_alt(
        &board,
        GridVec { x: 5_000, y: 4_000 },
        heading(Vertical::Zero, Horizontal::Right),
        300,
    );
    assert!(!blocked);
    assert_eq!((pos.x, pos.y), (5_300, 4_000));
}

#[test]
fn wall_blocks_and_snaps_moving_axis() {
    let board = standard_board();
    // (11,0) is path; (12,0) is wall.  Drifted slightly short of center.
    let (pos, blocked) = get_new_position_alt(
        &board,
        GridVec { x: 10_900, y: 0 },
        heading(Vertical::Zero, Horizontal::Right),
        300,
    );
    assert!(blocked);
    assert_eq!((pos.x, pos.y), (11_000, 0));
}

#[test]
fn wall_never_entered_by_repeated_moves() {
    let board = standard_board();
    // Head right into the wall at (12,0) over and over: the rounded cell
    // never reaches the wall.
    let mut pos = GridVec { x: 11_000, y: 0 };
    for _ in 0..20 {
        let (next, _) = get_new_position_alt(
            &board,
            pos,
            heading(Vertical::Zero, Horizontal::Right),
            300,
        );
        pos = next;
        assert!(round_to_cell(pos.x) <= 11);
        assert_eq!(pos.y, 0);
    }
    // And the same downward, into the wall below (1,0).
    let mut pos = GridVec { x: 1_000, y: 0 };
    for _ in 0..20 {
        let (next, _) = get_new_position_alt(
            &board,
            pos,
            heading(Vertical::Down, Horizontal::Zero),
            300,
        );
        pos = next;
        assert!(round_to_cell(pos.y) <= 0);
        assert_eq!(pos.x, 1_000);
    }
}

#[test]
fn far_wall_does_not_block_early() {
    let board = standard_board();
    // From the center of (10,0), the wall at (12,0) is still a cell away:
    // the probe reads it only once the rounded target is (11,0), and the
    // hitboxes do not yet overlap.
    let (pos, blocked) = get_new_position_alt(
        &board,
        GridVec { x: 10_400, y: 0 },
        heading(Vertical::Zero, Horizontal::Right),
        300,
    );
    assert!(!blocked);
    assert_eq!(pos.x, 10_700);
}

#[test]
fn warp_teleports_to_paired_mouth() {
    let board = standard_board();
    // Walking left into the mouth at (0,13) lands on (25,13).
    let (pos, blocked) = get_new_position_alt(
        &board,
        GridVec { x: 1_000, y: 13_000 },
        heading(Vertical::Zero, Horizontal::Left),
        300,
    );
    assert!(!blocked);
    assert_eq!((pos.x, pos.y), (25_000, 13_000));
}

#[test]
fn warp_pair_mirrors() {
    let board = standard_board();
    // The reverse trip: walking right into the mouth at (25,13) lands on
    // (0,13).
    let (pos, blocked) = get_new_position_alt(
        &board,
        GridVec { x: 24_000, y: 13_000 },
        heading(Vertical::Zero, Horizontal::Right),
        300,
    );
    assert!(!blocked);
    assert_eq!((pos.x, pos.y), (0, 13_000));
}

#[test]
fn board_edge_counts_as_wall() {
    let board = standard_board();
    // Moving up from the top-left corner probes off the grid.
    let (pos, blocked) = get_new_position_alt(
        &board,
        GridVec { x: 0, y: 0 },
        heading(Vertical::Up, Horizontal::Zero),
        300,
    );
    assert!(blocked);
    assert_eq!((pos.x, pos.y), (0, 0));
}
