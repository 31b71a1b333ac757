//! Per-entity game data that the rules read and write.
use vstd::prelude::*;

use crate::hex::Hex;
use crate::region::RegionId;
use crate::tile::FragmentId;

verus! {

/// A bacteria colony spreads every `spread_interval` ticks.
#[derive(Clone, Copy, Debug, PartialEq, Eq, Structural)]
pub struct BacteriaColonyAgent {
    pub spread_timer: u32,
    pub spread_interval: u32,
}

#[derive(Clone, Copy, Debug, PartialEq, Eq, Structural)]
pub struct FragmentAgent {
    pub fragment_id: FragmentId,
    pub fused: bool,
}

/// A hive on the map: `None` = neutral; `Some` = the owning network. (Its
/// production progress towards the next founder is a continuous quantity
/// kept by the simulation.)
#[derive(Clone, Copy, Debug, PartialEq, Eq, Structural)]
pub struct Hive {
    pub captured_by: Option<RegionId>,
}

/// The selected region and the selected tile.
#[derive(Clone, Copy, Debug, PartialEq, Eq, Structural)]
pub struct SelectedRegion {
    pub region_id: Option<RegionId>,
    pub selected_pos: Option<Hex>,
}

impl SelectedRegion {
    pub fn none() -> (s: SelectedRegion)
        ensures
            s.region_id is None,
            s.selected_pos is None,
    {
        SelectedRegion { region_id: None, selected_pos: None }
    }
}

#[derive(Clone, Copy, Debug, PartialEq, Eq, Structural)]
pub enum UnitKind {
    Founder,
}

/// A unit and the network that produced it (and pays its upkeep).
#[derive(Clone, Copy, Debug, PartialEq, Eq, Structural)]
pub struct Unit {
    pub kind: UnitKind,
    pub owner: RegionId,
}

/// The selected unit, by entity id.
#[derive(Clone, Copy, Debug, PartialEq, Eq, Structural)]
pub struct SelectedUnit(pub Option<u64>);

/// Set for one frame to request that the selected founder found a network.
#[derive(Clone, Copy, Debug, PartialEq, Eq, Structural)]
pub struct FoundNetworkRequest(pub bool);

} // verus!
