//! Grid-constrained motion and AI decision engine for an arcade maze-chase
//! game.
//!
//! The engine is the logical core of a Pac-Man-style game: a fixed maze of
//! wall, path and warp cells, actors (the player and four ghosts) that move
//! continuously through the grid, collision and snapping rules that keep
//! them on the corridors, a decision-point protocol that governs cornering,
//! and the ghost behaviour state machine.
//!
//! Continuous positions are held in fixed-point coordinates: one maze cell
//! (and one world unit) is [`num::MILLI`] = 1000 units, so an actor at
//! x = 12500 stands halfway across column 12.  All motion, thresholds and
//! timers are exact integer arithmetic over this scale; rendering, input
//! polling and everything else the engine does not own converts at the
//! boundary.

pub mod board;
pub mod coords;
pub mod decision;
pub mod ghost;
pub mod heading;
pub mod motion;
pub mod num;
pub mod player;
pub mod rng;
pub mod scoring;
