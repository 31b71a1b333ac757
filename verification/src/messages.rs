//! Events that the rules emit for the rest of the game to react to.
use vstd::prelude::*;

use crate::hex::Hex;
use crate::region::RegionId;
use crate::tile::{FragmentId, TileContents};

verus! {

/// One simulation turn has passed.
#[derive(Clone, Copy, Debug, PartialEq, Eq, Structural)]
pub struct TurnAdvanced;

/// A tile came into view, with what it holds.
#[derive(Clone, Copy, Debug, PartialEq, Eq, Structural)]
pub struct TileDiscovered {
    pub pos: Hex,
    pub contents: Option<TileContents>,
}

/// A network finished breaking down the contents of a tile.
#[derive(Clone, Copy, Debug, PartialEq, Eq, Structural)]
pub struct DecompositionComplete {
    pub pos: Hex,
    pub was_unique: bool,
}

/// A fragment was fused into the network.
#[derive(Clone, Copy, Debug, PartialEq, Eq, Structural)]
pub struct FragmentFused {
    pub fragment_id: FragmentId,
}

/// A hive changed hands to a network.
#[derive(Clone, Copy, Debug, PartialEq, Eq, Structural)]
pub struct HiveCaptured {
    pub hive_pos: Hex,
    pub region_id: RegionId,
}

/// A founder seeded a new network.
#[derive(Clone, Copy, Debug, PartialEq, Eq, Structural)]
pub struct NetworkFounded {
    pub region_id: RegionId,
    pub seed: Hex,
}

} // verus!
