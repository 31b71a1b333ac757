//! The square-grid vocabulary of the standalone shroom prototype.
use vstd::prelude::*;

verus! {

/// A cell of the square grid.
#[derive(Clone, Copy, Debug, PartialEq, Eq, Hash, Structural)]
pub struct GridPos {
    pub x: i32,
    pub y: i32,
}

#[derive(Clone, Copy, Debug, PartialEq, Eq, Hash, Structural)]
pub enum Terrain {
    Soil,
    Rock,
    Water,
    Ruins,
}

/// Marks an entity owned by the player.
#[derive(Clone, Copy, Debug, PartialEq, Eq, Structural)]
pub struct PlayerOwned;

/// Marks an entity owned by the rival.
#[derive(Clone, Copy, Debug, PartialEq, Eq, Structural)]
pub struct RivalOwned;

/// Turn counter and pause flag of the prototype.
#[derive(Clone, Copy, Debug, PartialEq, Eq, Structural)]
pub struct GameState {
    pub turn: u32,
    pub paused: bool,
}

impl GameState {
    /// Turn zero, running.
    pub fn new() -> (g: GameState)
        ensures
            g.turn == 0,
            !g.paused,
    {
        GameState { turn: 0, paused: false }
    }
}

} // verus!
