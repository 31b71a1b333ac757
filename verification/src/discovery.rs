//! Decomposers break down the unique decomposables on network tiles.
use vstd::prelude::*;

use crate::abilities::{UnlockOption, UnlockPool};
use crate::hex::Hex;
use crate::messages::DecompositionComplete;
use crate::tile::{Occupant, Tile, TileContents};

verus! {

/// The slot machine is to roll unlocks from `pool`.
#[derive(Debug)]
pub struct SlotMachineTriggered {
    pub pool: UnlockPool,
    pub options: Vec<UnlockOption>,
}

/// A tile that a decomposer is working on: held by a player network and
/// holding a unique decomposable.
pub open spec fn spec_is_decomposition_site(t: Tile) -> bool {
    &&& t.occupant is Player
    &&& t.contents matches Some(c) && c is UniqueDecomposable
}

pub fn is_decomposition_site(tile: &Tile) -> (res: bool)
    ensures
        res == spec_is_decomposition_site(*tile),
{
    match tile.occupant {
        Occupant::Player(_) => matches!(tile.contents, Some(TileContents::UniqueDecomposable(_))),
        _ => false,
    }
}

/// The decomposable at `pos` is used up: the tile is emptied, and the
/// completion is announced together with a roll of the decomposition pool.
pub fn finish_decomposition(pos: Hex, tile: &mut Tile) -> (res: (DecompositionComplete, SlotMachineTriggered))
    ensures
        *final(tile) == (Tile { contents: None, ..*old(tile) }),
        res.0 == (DecompositionComplete { pos, was_unique: spec_is_decomposition_site(*old(tile)) }),
        res.1.pool == UnlockPool::Decomposition,
        res.1.options@.len() == 0,
{
    let was_unique = is_decomposition_site(tile);
    tile.contents = None;
    (
        DecompositionComplete { pos, was_unique },
        SlotMachineTriggered { pool: UnlockPool::Decomposition, options: Vec::new() },
    )
}

/// Decomposers work exactly on network tiles holding a unique decomposable:
/// a tile is a site when a player network occupies it and its contents are
/// `UniqueDecomposable(id)` for some id; empty tiles, tiles holding anything
/// else (organic matter, minerals, artifacts, fragments, neutral fungi, plant
/// roots) and tiles not held by a player network are not.
pub proof fn lemma_decomposition_sites(t: Tile)
    ensures
        spec_is_decomposition_site(t) <==> (exists|r: crate::region::RegionId|
            t.occupant == Occupant::Player(r)) && (exists|id: u32|
            t.contents == Some(TileContents::UniqueDecomposable(id))),
        t.contents is None ==> !spec_is_decomposition_site(t),
        (t.contents matches Some(c) && !(c is UniqueDecomposable)) ==> !spec_is_decomposition_site(t),
        !(t.occupant is Player) ==> !spec_is_decomposition_site(t),
{
    if spec_is_decomposition_site(t) {
        let r = t.occupant->Player_0;
        assert(t.occupant == Occupant::Player(r));
        let id = t.contents->Some_0->UniqueDecomposable_0;
        assert(t.contents == Some(TileContents::UniqueDecomposable(id)));
    }
}

} // verus!
