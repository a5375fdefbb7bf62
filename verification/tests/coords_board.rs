//! Coordinate transform and maze model checks.

use pacmaze::board::{standard_board, BlockReward, BlockType};
use pacmaze::coords::{get_game_board_coords, get_screen_coords};
use pacmaze::heading::GridVec;
use pacmaze::num::{isqrt, round_to_cell, round_to_milli};

#[test]
fn screen_coords_of_origin_cell() {
    let p = get_screen_coords(0, 0);
    assert_eq!(p.x, -187_500);
    assert_eq!(p.y, 200_000);
}

#[test]
fn screen_coords_of_pen_exit() {
    // Column 12.5, row 10 — the pen exit: x = 12.5*15 - 205 + 17.5, y = 18*15 - 220.
    let p = get_screen_coords(12_500, 10_000);
    assert_eq!(p.x, 0);
    assert_eq!(p.y, 50_000);
}

#[test]
fn grid_world_round_trip_is_exact() {
    for &(c, r) in &[(0i64, 0i64), (5_000, 5_000), (12_500, 10_000), (25_000, 28_000), (1, 27_999)]
    {
        let w = get_screen_coords(c, r);
        let g = get_game_board_coords(GridVec { x: w.x, y: w.y });
        assert_eq!((g.x, g.y), (c, r));
    }
}

#[test]
fn rounding_matches_half_away_from_zero() {
    assert_eq!(round_to_cell(5_499), 5);
    assert_eq!(round_to_cell(5_500), 6);
    assert_eq!(round_to_cell(-300), 0);
    assert_eq!(round_to_cell(-500), -1);
    assert_eq!(round_to_milli(5_499), 5_000);
}

#[test]
fn isqrt_exact_values() {
    assert_eq!(isqrt(0), 0);
    assert_eq!(isqrt(1), 1);
    assert_eq!(isqrt(24), 4);
    assert_eq!(isqrt(25), 5);
    assert_eq!(isqrt(25_000_000), 5_000);
}

#[test]
fn standard_board_shape_and_cells() {
    let board = standard_board();
    assert_eq!(board.game_blocks.len(), 29);
    for row in &board.game_blocks {
        assert_eq!(row.len(), 26);
    }
    // The warp pair sits on row 13, and its mouths point at each other.
    match board.cell_at(0, 13).block_type {
        BlockType::Warp(tx, ty) => assert_eq!((tx, ty), (25, 13)),
        _ => panic!("cell (0,13) should be a warp mouth"),
    }
    match board.cell_at(25, 13).block_type {
        BlockType::Warp(tx, ty) => assert_eq!((tx, ty), (0, 13)),
        _ => panic!("cell (25,13) should be a warp mouth"),
    }
    // Weakness tokens in the four corner pockets.
    assert!(matches!(board.cell_at(0, 2).block_reward, BlockReward::GhostWeaknessToken));
    assert!(matches!(board.cell_at(25, 2).block_reward, BlockReward::GhostWeaknessToken));
    assert!(matches!(board.cell_at(0, 22).block_reward, BlockReward::GhostWeaknessToken));
    assert!(matches!(board.cell_at(25, 22).block_reward, BlockReward::GhostWeaknessToken));
    // The pen interior is walled; the corridor above it is open.
    assert!(board.is_wall(12, 11));
    assert!(!board.is_wall(12, 10));
}
