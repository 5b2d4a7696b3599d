//! A single-screen, turn-stepped dungeon-crawl simulation.
//!
//! A player entity moves on a fixed-size grid bounded by walls, periodically
//! encounters spawned enemy entities, and resolves melee/ranged combat through
//! a small deterministic stat model.  The crate holds the simulation engine:
//! the grid/collision model, the entity and combat data model, enemy spawning
//! and AI movement, and the turn/tick state machine.  Rendering, keyboard
//! decoding and the entropy source behind the random-number generator are
//! external collaborators.

use vstd::prelude::*;

pub mod entity;
pub mod game;
pub mod grid;
pub mod rng;

verus! {

/// Width of the character grid (the rendering surface's width in cells).
pub const GRID_WIDTH: usize = 80;

/// Height of the character grid (the rendering surface's height in cells).
pub const GRID_HEIGHT: usize = 25;

} // verus!
