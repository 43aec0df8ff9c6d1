//! Core logic of a small 2D tile-based role-playing game: an overworld with
//! player movement, tile collision, random-encounter timing, and a combat
//! screen, connected by a timed fade transition.
//!
//! All spatial quantities are fixed-point integers: one world unit is
//! `SUBUNITS_PER_WORLD_UNIT` subunits, and a tile is `TILE` subunits wide.
//! All durations are integer milliseconds.

use vstd::prelude::*;

pub mod collision;
pub mod combat;
pub mod fadeout;
pub mod player;
pub mod sprites;
pub mod tilemap;
pub mod timer;

verus! {

/// Subunits per world unit of the fixed-point coordinate system.
pub const SUBUNITS_PER_WORLD_UNIT: i64 = 1000;

/// Side length of a map tile, in subunits (a tenth of a world unit).
pub const TILE: i64 = 100;

/// Half the side length of a tile, in subunits.
pub const TILE_HALF: i64 = 50;

/// Half the side length of the player's collision box, in subunits
/// (the box is nine tenths of a tile wide).
pub const PLAYER_HALF: i64 = 45;

/// Largest coordinate magnitude the game works with, in subunits.
/// Keeping positions inside this bound keeps every position update
/// far from `i64` overflow.
pub const WORLD_BOUND: i64 = 0x1000_0000_0000;

/// A position in the world, in subunits.
#[derive(Clone, Copy, PartialEq, Eq, Structural, Debug)]
pub struct Pos {
    pub x: i64,
    pub y: i64,
}

/// Whether a position lies within the world's coordinate bound.
pub open spec fn in_world(p: Pos) -> bool {
    -WORLD_BOUND <= p.x <= WORLD_BOUND && -WORLD_BOUND <= p.y <= WORLD_BOUND
}

/// The two screens of the game.
#[derive(Clone, Copy, PartialEq, Eq, Structural, Hash, Debug)]
pub enum GameState {
    Overworld,
    Combat,
}

} // verus!
