//! Player controller ticks, the ghost state machine, and scoring.

use pacmaze::board::{standard_board, BlockCell, BlockReward, BlockType, GameLogic};
use pacmaze::ghost::{
    apply_weakness_pickup, check_ghost_player_collision, eyes_sprite_index, move_ghost,
    move_ghost_live, spawn_ghosts, update_weakened_timers, Colour, GhostActionsStatus, GhostActor,
    GhostDraws, GhostPositionStatus, GhostTouchOutcome,
};
use pacmaze::heading::{Direction, GridVec, Horizontal, Vertical};
use pacmaze::motion::Rect;
use pacmaze::player::{player_movement, Player};
use pacmaze::scoring::{
    collect_point_token, collect_weakness_token, gain_life, lose_life, ConsecutiveKills,
    LivesLeft, Score,
};

fn heading(v: Vertical, h: Horizontal) -> Direction {
    Direction { vertical: v, horizontal: h }
}

fn draws() -> GhostDraws {
    GhostDraws { coin: 999, pick: 0, fallback: 0, turn_left: false }
}

/// A board of open corridor with a single wall cell, for controlled
/// scenarios.
fn open_board_with_wall(wall_col: usize, wall_row: usize) -> GameLogic {
    let path = BlockCell { block_type: BlockType::Path, block_reward: BlockReward::Nothing };
    let wall = BlockCell { block_type: BlockType::Wall, block_reward: BlockReward::Nothing };
    let mut rows = Vec::new();
    for r in 0..29 {
        let mut row = Vec::new();
        for c in 0..26 {
            row.push(if r == wall_row && c == wall_col {
                wall
            } else {
                path
            });
        }
        rows.push(row);
    }
    GameLogic { game_blocks: rows }
}

#[test]
fn blocked_upturn_falls_back_to_current_heading() {
    // The player runs right through cell (5,5) and presses up inside the
    // decision window, but the cell one row up is a wall: the vertical
    // attempt collides on its probe and the tick carries on rightward.
    let board = open_board_with_wall(5, 4);
    let mut player = Player::new();
    player.direction_of_travel = heading(Vertical::Zero, Horizontal::Right);
    let pos = player_movement(
        &board,
        &mut player,
        GridVec { x: 4_950, y: 5_000 },
        heading(Vertical::Up, Horizontal::Zero),
        50,
    );
    assert_eq!(player.direction_of_travel, heading(Vertical::Zero, Horizontal::Right));
    assert_eq!((pos.x, pos.y), (5_250, 5_000));
}

#[test]
fn open_upturn_is_taken_at_decision_point() {
    let board = open_board_with_wall(20, 20);
    let mut player = Player::new();
    player.direction_of_travel = heading(Vertical::Zero, Horizontal::Right);
    // 0.05 short of the cell center: the window is open and up is free.
    let pos = player_movement(
        &board,
        &mut player,
        GridVec { x: 4_950, y: 5_000 },
        heading(Vertical::Up, Horizontal::Zero),
        50,
    );
    assert_eq!(player.direction_of_travel, heading(Vertical::Up, Horizontal::Zero));
    // The turn rounds x onto the column and the move goes up by 0.3.
    assert_eq!((pos.x, pos.y), (5_000, 4_700));
}

#[test]
fn upturn_refused_outside_decision_window() {
    let board = open_board_with_wall(20, 20);
    let mut player = Player::new();
    player.direction_of_travel = heading(Vertical::Zero, Horizontal::Right);
    // 0.15 past the center: outside the window, so the press is ignored
    // and the run continues.
    let pos = player_movement(
        &board,
        &mut player,
        GridVec { x: 5_150, y: 5_000 },
        heading(Vertical::Up, Horizontal::Zero),
        50,
    );
    assert_eq!(player.direction_of_travel, heading(Vertical::Zero, Horizontal::Right));
    assert_eq!((pos.x, pos.y), (5_450, 5_000));
}

#[test]
fn fully_blocked_player_stops_snapped() {
    let board = standard_board();
    let mut player = Player::new();
    player.direction_of_travel = heading(Vertical::Zero, Horizontal::Right);
    // Pressed nothing, wall dead ahead at (12,0).
    let pos = player_movement(
        &board,
        &mut player,
        GridVec { x: 11_050, y: 40 },
        heading(Vertical::Zero, Horizontal::Zero),
        50,
    );
    assert_eq!(player.direction_of_travel, heading(Vertical::Zero, Horizontal::Zero));
    assert_eq!((pos.x, pos.y), (11_000, 0));
}

#[test]
fn idle_ghost_leaves_pen_when_timer_runs_out() {
    let board = standard_board();
    let mut ghost = GhostActor::new(
        "test".to_owned(),
        4_000,
        GridVec { x: 12_500, y: 13_000 },
        Colour { red: 1, green: 2, blue: 3 },
        1_000,
    );
    // After a full second the pen timer crosses zero on this very tick.
    move_ghost(&board, &mut ghost, GridVec { x: 0, y: 0 }, 1_000, draws());
    assert!(matches!(ghost.actions_status, GhostActionsStatus::LeavingPen));
    assert_eq!(ghost.time_in_pen, 0);
    // Idle shuffling moved it leftward meanwhile.
    assert_eq!(ghost.position.x, 10_500);
}

#[test]
fn idle_ghost_bounces_between_pen_walls() {
    let board = standard_board();
    let mut ghost = GhostActor::new(
        "test".to_owned(),
        4_000,
        GridVec { x: 10_100, y: 13_000 },
        Colour { red: 1, green: 2, blue: 3 },
        60_000,
    );
    move_ghost(&board, &mut ghost, GridVec { x: 0, y: 0 }, 100, draws());
    // Past the left bound the shuffle reverses to the right.
    assert_eq!(ghost.position.x, 9_900);
    assert_eq!(ghost.direction_of_travel.horizontal, Horizontal::Right);
}

#[test]
fn leaving_ghost_reaches_exit_and_starts_hunting() {
    let board = standard_board();
    let mut ghost = GhostActor::new(
        "test".to_owned(),
        4_000,
        GridVec { x: 12_500, y: 10_005 },
        Colour { red: 1, green: 2, blue: 3 },
        1_000,
    );
    ghost.actions_status = GhostActionsStatus::LeavingPen;
    let mut d = draws();
    d.turn_left = false;
    move_ghost(&board, &mut ghost, GridVec { x: 0, y: 0 }, 1_000, d);
    assert!(matches!(ghost.actions_status, GhostActionsStatus::SearchingForPlayer));
    assert!(matches!(ghost.position_status, GhostPositionStatus::OutAndAbout));
    assert_eq!((ghost.position.x, ghost.position.y), (12_500, 10_000));
    assert_eq!(ghost.direction_of_travel.vertical, Vertical::Zero);
    assert_eq!(ghost.direction_of_travel.horizontal, Horizontal::Right);

    // The mirrored coin flip heads out the other way.
    let mut ghost = GhostActor::new(
        "test".to_owned(),
        4_000,
        GridVec { x: 12_500, y: 10_005 },
        Colour { red: 1, green: 2, blue: 3 },
        1_000,
    );
    ghost.actions_status = GhostActionsStatus::LeavingPen;
    let mut d = draws();
    d.turn_left = true;
    move_ghost(&board, &mut ghost, GridVec { x: 0, y: 0 }, 1_000, d);
    assert_eq!(ghost.direction_of_travel.horizontal, Horizontal::Left);
    assert_eq!(ghost.direction_of_travel.vertical, Vertical::Zero);
}

#[test]
fn leaving_ghost_lines_up_with_exit_column_first(){
    let board = standard_board();
    let mut ghost = GhostActor::new(
        "test".to_owned(),
        4_000,
        GridVec { x: 14_000, y: 12_000 },
        Colour { red: 1, green: 2, blue: 3 },
        1_000,
    );
    ghost.actions_status = GhostActionsStatus::LeavingPen;
    move_ghost(&board, &mut ghost, GridVec { x: 0, y: 0 }, 100, draws());
    // Clamped sideways step toward column 12.5; no vertical motion yet.
    assert_eq!((ghost.position.x, ghost.position.y), (13_800, 12_000));
    assert_eq!(ghost.direction_of_travel.horizontal, Horizontal::Left);
}

#[test]
fn searching_ghost_keeps_corridor_course_between_decisions() {
    let board = standard_board();
    let mut ghost = GhostActor::new(
        "test".to_owned(),
        4_000,
        GridVec { x: 5_400, y: 4_000 },
        Colour { red: 1, green: 2, blue: 3 },
        1_000,
    );
    ghost.actions_status = GhostActionsStatus::SearchingForPlayer;
    ghost.position_status = GhostPositionStatus::OutAndAbout;
    ghost.direction_of_travel = heading(Vertical::Zero, Horizontal::Right);
    // Off the decision window, the tick only advances along the heading,
    // whatever the draws.
    move_ghost(&board, &mut ghost, GridVec { x: 20_000, y: 4_000 }, 100, draws());
    assert_eq!((ghost.position.x, ghost.position.y), (5_800, 4_000));
    assert_eq!(ghost.direction_of_travel, heading(Vertical::Zero, Horizontal::Right));
}

#[test]
fn live_randomness_matches_deterministic_course() {
    let board = standard_board();
    let mut ghost = GhostActor::new(
        "test".to_owned(),
        4_000,
        GridVec { x: 5_400, y: 4_000 },
        Colour { red: 1, green: 2, blue: 3 },
        1_000,
    );
    ghost.actions_status = GhostActionsStatus::SearchingForPlayer;
    ghost.position_status = GhostPositionStatus::OutAndAbout;
    ghost.direction_of_travel = heading(Vertical::Zero, Horizontal::Right);
    // Away from any decision point the outcome is the same for every
    // draw, so the live-randomness tick must land exactly there too.
    move_ghost_live(&board, &mut ghost, GridVec { x: 20_000, y: 4_000 }, 100);
    assert_eq!((ghost.position.x, ghost.position.y), (5_800, 4_000));
}

#[test]
fn running_ghost_snaps_into_pen_entry() {
    let board = standard_board();
    let mut ghost = GhostActor::new(
        "test".to_owned(),
        4_000,
        GridVec { x: 12_400, y: 10_100 },
        Colour { red: 1, green: 2, blue: 3 },
        1_000,
    );
    ghost.actions_status = GhostActionsStatus::RunningToPen;
    ghost.position_status = GhostPositionStatus::ReturningToPen;
    ghost.direction_of_travel = heading(Vertical::Zero, Horizontal::Right);
    move_ghost(&board, &mut ghost, GridVec { x: 0, y: 0 }, 10, draws());
    assert!(matches!(ghost.actions_status, GhostActionsStatus::GoingIntoPen));
    assert_eq!((ghost.position.x, ghost.position.y), (12_500, 10_000));
}

#[test]
fn entering_ghost_settles_back_to_idle() {
    let board = standard_board();
    let mut ghost = GhostActor::new(
        "test".to_owned(),
        4_000,
        GridVec { x: 12_500, y: 12_995 },
        Colour { red: 1, green: 2, blue: 3 },
        0,
    );
    ghost.actions_status = GhostActionsStatus::GoingIntoPen;
    ghost.position_status = GhostPositionStatus::ReturningToPen;
    move_ghost(&board, &mut ghost, GridVec { x: 0, y: 0 }, 100, draws());
    assert!(matches!(ghost.actions_status, GhostActionsStatus::Idle));
    assert!(matches!(ghost.position_status, GhostPositionStatus::InPen));
    assert_eq!((ghost.position.x, ghost.position.y), (12_500, 13_000));
    assert_eq!(ghost.time_in_pen, 5_000);
    assert_eq!(ghost.direction_of_travel.vertical, Vertical::Zero);
}

#[test]
fn weakness_pickup_weakens_all_and_resets_chain() {
    let mut ghosts = spawn_ghosts();
    let mut score = Score(0);
    let mut kills = ConsecutiveKills(2);
    apply_weakness_pickup(&mut ghosts, &mut score, &mut kills, 7_000);
    assert_eq!(score.0, 50);
    assert_eq!(kills.0, 0);
    for g in &ghosts {
        assert!(matches!(g.actions_status, GhostActionsStatus::Weakened));
        assert_eq!(g.time_weakened, Some(7_000));
    }
    // Speeds halved from the roster values.
    assert_eq!(ghosts[0].speed, 2_000);
    assert_eq!(ghosts[1].speed, 2_005);
}

#[test]
fn weakness_timer_expiry_resumes_hunting() {
    let mut ghost = GhostActor::new(
        "test".to_owned(),
        4_000,
        GridVec { x: 5_000, y: 4_000 },
        Colour { red: 1, green: 2, blue: 3 },
        1_000,
    );
    ghost.actions_status = GhostActionsStatus::Weakened;
    ghost.time_weakened = Some(500);
    update_weakened_timers(&mut ghost, 200);
    assert_eq!(ghost.time_weakened, Some(300));
    assert!(matches!(ghost.actions_status, GhostActionsStatus::Weakened));
    update_weakened_timers(&mut ghost, 300);
    assert_eq!(ghost.time_weakened, None);
    assert!(matches!(ghost.actions_status, GhostActionsStatus::SearchingForPlayer));
}

#[test]
fn kill_chain_scores_one_two_three_hundred() {
    let mut score = Score(0);
    let mut kills = ConsecutiveKills(0);
    let player_rect = Rect::from_center_unit(GridVec { x: 5_000, y: 5_000 });
    let ghost_rect = Rect::from_center_unit(GridVec { x: 5_200, y: 5_000 });
    let mut total = 0;
    for expected in [100, 200, 300] {
        let mut ghost = GhostActor::new(
            "test".to_owned(),
            4_000,
            GridVec { x: 5_200, y: 5_000 },
            Colour { red: 1, green: 2, blue: 3 },
            1_000,
        );
        ghost.actions_status = GhostActionsStatus::Weakened;
        ghost.time_weakened = Some(5_000);
        let outcome = check_ghost_player_collision(
            player_rect,
            ghost_rect,
            &mut ghost,
            &mut score,
            &mut kills,
        );
        assert!(matches!(outcome, GhostTouchOutcome::KillScored));
        assert!(matches!(ghost.actions_status, GhostActionsStatus::RunningToPen));
        assert!(matches!(ghost.position_status, GhostPositionStatus::ReturningToPen));
        assert_eq!(ghost.time_weakened, None);
        total += expected;
        assert_eq!(score.0, total);
    }
    assert_eq!(kills.0, 3);
}

#[test]
fn hunting_ghost_contact_costs_a_life() {
    let mut score = Score(10);
    let mut kills = ConsecutiveKills(0);
    let player_rect = Rect::from_center_unit(GridVec { x: 5_000, y: 5_000 });
    let ghost_rect = Rect::from_center_unit(GridVec { x: 5_200, y: 5_000 });
    let mut ghost = GhostActor::new(
        "test".to_owned(),
        4_000,
        GridVec { x: 5_200, y: 5_000 },
        Colour { red: 1, green: 2, blue: 3 },
        1_000,
    );
    ghost.actions_status = GhostActionsStatus::SearchingForPlayer;
    let outcome = check_ghost_player_collision(
        player_rect,
        ghost_rect,
        &mut ghost,
        &mut score,
        &mut kills,
    );
    assert!(matches!(outcome, GhostTouchOutcome::LoseLife));
    assert_eq!(score.0, 10);
    // A ghost already running home is fair passage.
    ghost.actions_status = GhostActionsStatus::RunningToPen;
    let outcome = check_ghost_player_collision(
        player_rect,
        ghost_rect,
        &mut ghost,
        &mut score,
        &mut kills,
    );
    assert!(matches!(outcome, GhostTouchOutcome::NoEffect));
    // Out of reach, nothing happens either.
    let far_rect = Rect::from_center_unit(GridVec { x: 9_000, y: 5_000 });
    ghost.actions_status = GhostActionsStatus::SearchingForPlayer;
    let outcome = check_ghost_player_collision(
        player_rect,
        far_rect,
        &mut ghost,
        &mut score,
        &mut kills,
    );
    assert!(matches!(outcome, GhostTouchOutcome::NoEffect));
}

#[test]
fn token_scores_and_lives() {
    let mut score = Score(0);
    collect_point_token(&mut score);
    assert_eq!(score.0, 10);
    let mut kills = ConsecutiveKills(3);
    collect_weakness_token(&mut score, &mut kills);
    assert_eq!(score.0, 60);
    assert_eq!(kills.0, 0);
    let mut lives = LivesLeft(3);
    assert!(!lose_life(&mut lives));
    assert_eq!(lives.0, 2);
    let mut lives = LivesLeft(1);
    assert!(lose_life(&mut lives));
    gain_life(&mut lives);
    assert_eq!(lives.0, 1);
    let mut lives = LivesLeft(5);
    gain_life(&mut lives);
    assert_eq!(lives.0, 5);
}

#[test]
fn roster_and_eyes() {
    let ghosts = spawn_ghosts();
    assert_eq!(ghosts.len(), 4);
    assert_eq!(ghosts[0].name, "Blinky");
    assert_eq!(ghosts[3].name, "Clyde");
    assert_eq!(ghosts[0].speed, 4_000);
    assert_eq!(ghosts[3].speed, 3_980);
    assert_eq!(ghosts[0].time_in_pen, 1_000);
    assert_eq!(ghosts[1].time_in_pen, 5_000);
    assert_eq!(ghosts[2].time_in_pen, 9_000);
    assert_eq!(ghosts[3].time_in_pen, 13_000);
    for g in &ghosts {
        assert!(matches!(g.actions_status, GhostActionsStatus::Idle));
        assert!(matches!(g.position_status, GhostPositionStatus::InPen));
    }
    assert_eq!(eyes_sprite_index(heading(Vertical::Zero, Horizontal::Right)), 0);
    assert_eq!(eyes_sprite_index(heading(Vertical::Zero, Horizontal::Left)), 1);
    assert_eq!(eyes_sprite_index(heading(Vertical::Up, Horizontal::Zero)), 2);
    assert_eq!(eyes_sprite_index(heading(Vertical::Down, Horizontal::Zero)), 3);
    assert_eq!(eyes_sprite_index(heading(Vertical::Zero, Horizontal::Zero)), 4);
}
