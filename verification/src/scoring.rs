//! Score, lives and the consecutive-kill chain.
//!
//! A point token is worth 10, a weakness token 50, and each weakened
//! ghost eaten during one weakness activation is worth `100 * n` where
//! `n` counts the kills since the last weakness-token pickup — the
//! counter resets only on a new pickup, never on the kill itself.

use vstd::prelude::*;

verus! {

/// The running score.
#[derive(Clone, Copy, PartialEq, Eq, Structural, Debug)]
pub struct Score(pub i32);

/// Kills since the last weakness-token pickup.
#[derive(Clone, Copy, PartialEq, Eq, Structural, Debug)]
pub struct ConsecutiveKills(pub i32);

/// Lives the player still has.
#[derive(Clone, Copy, PartialEq, Eq, Structural, Debug)]
pub struct LivesLeft(pub i32);

/// Points awarded for the kill that follows `kills_so_far` kills in the
/// current chain: 100, then 200, then 300, ... — uncapped.
pub open spec fn spec_kill_award(kills_so_far: int) -> int {
    100 * (kills_so_far + 1)
}

/// Awards a collected point token: ten points.
pub fn collect_point_token(score: &mut Score)
    requires
        old(score).0 + 10 <= i32::MAX,
    ensures
        final(score).0 == old(score).0 + 10,
{
    score.0 = score.0 + 10;
}

/// Awards a collected weakness token: fifty points, and the kill chain
/// starts over.
pub fn collect_weakness_token(score: &mut Score, kills: &mut ConsecutiveKills)
    requires
        old(score).0 + 50 <= i32::MAX,
    ensures
        final(score).0 == old(score).0 + 50,
        final(kills).0 == 0,
{
    score.0 = score.0 + 50;
    kills.0 = 0;
}

/// Scores one weakened-ghost kill: the chain counter goes up first, then
/// the award is 100 times the new count.
pub fn record_ghost_kill(score: &mut Score, kills: &mut ConsecutiveKills)
    requires
        0 <= old(kills).0 <= 20_000_000,
        old(score).0 + 100 * (old(kills).0 + 1) <= i32::MAX,
        old(score).0 + 100 * (old(kills).0 + 1) >= i32::MIN,
    ensures
        final(kills).0 == old(kills).0 + 1,
        final(score).0 == old(score).0 + spec_kill_award(old(kills).0 as int),
{
    kills.0 = kills.0 + 1;
    score.0 = score.0 + 100 * kills.0;
}

/// Kill-chain law: three kills in one weakness activation, starting from
/// a fresh chain, award 100, 200 and 300 points in that order.
pub proof fn lemma_kill_chain_scores(start: int)
    ensures
        spec_kill_award(0) == 100,
        spec_kill_award(1) == 200,
        spec_kill_award(2) == 300,
        start + spec_kill_award(0) + spec_kill_award(1) + spec_kill_award(2) == start + 600,
{
}

/// Takes one life; reports whether that was the last one.
pub fn lose_life(lives: &mut LivesLeft) -> (game_over: bool)
    requires
        old(lives).0 > i32::MIN,
    ensures
        final(lives).0 == old(lives).0 - 1,
        game_over == (final(lives).0 == 0),
{
    lives.0 = lives.0 - 1;
    lives.0 == 0
}

/// Grants the level-complete bonus life, capped at five.
pub fn gain_life(lives: &mut LivesLeft)
    requires
        old(lives).0 < i32::MAX,
    ensures
        final(lives).0 == if old(lives).0 + 1 > 5 {
            5int
        } else {
            old(lives).0 + 1
        },
{
    lives.0 = lives.0 + 1;
    if lives.0 > 5 {
        lives.0 = 5;
    }
}

} // verus!
