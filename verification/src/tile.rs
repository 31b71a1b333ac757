//! What a map tile holds: terrain, occupant and contents.
use vstd::prelude::*;

use crate::region::RegionId;

verus! {

#[derive(Clone, Copy, Debug, PartialEq, Eq, Hash, Structural)]
pub enum TerrainType {
    Soil,
    Rock,
    Water,
    Root,
    Ruin,
    Toxic,
    Surface,
}

/// Terrain that networks may grow into and units may walk over.
pub open spec fn terrain_passable(t: TerrainType) -> bool {
    t is Soil || t is Root || t is Ruin || t is Surface
}

impl TerrainType {
    /// The single shared definition of passable terrain.
    pub fn is_passable(&self) -> (res: bool)
        ensures
            res == terrain_passable(*self),
    {
        match self {
            TerrainType::Soil | TerrainType::Root | TerrainType::Ruin | TerrainType::Surface => {
                true
            },
            _ => false,
        }
    }

    /// Display name of the terrain.
    pub fn name(&self) -> (s: &'static str)
        ensures
            s@ == terrain_name(*self),
    {
        match self {
            TerrainType::Soil => "Soil",
            TerrainType::Rock => "Rock",
            TerrainType::Water => "Water",
            TerrainType::Root => "Root",
            TerrainType::Ruin => "Ruin",
            TerrainType::Toxic => "Toxic",
            TerrainType::Surface => "Surface",
        }
    }
}

/// The display name of each terrain.
pub open spec fn terrain_name(t: TerrainType) -> Seq<char> {
    match t {
        TerrainType::Soil => "Soil"@,
        TerrainType::Rock => "Rock"@,
        TerrainType::Water => "Water"@,
        TerrainType::Root => "Root"@,
        TerrainType::Ruin => "Ruin"@,
        TerrainType::Toxic => "Toxic"@,
        TerrainType::Surface => "Surface"@,
    }
}

#[derive(Clone, Copy, Debug, PartialEq, Eq, Hash, Structural)]
pub struct RivalId(pub u32);

#[derive(Clone, Copy, Debug, PartialEq, Eq, Hash, Structural)]
pub struct FragmentId(pub u32);

#[derive(Clone, Copy, Debug, PartialEq, Eq, Hash, Structural)]
pub enum Occupant {
    Empty,
    Player(RegionId),
    Rival(RivalId),
}

/// The player region that occupies a tile, if any.
pub open spec fn occupant_region(o: Occupant) -> Option<RegionId> {
    match o {
        Occupant::Player(id) => Some(id),
        _ => None,
    }
}

impl Occupant {
    pub fn is_player(&self) -> (res: bool)
        ensures
            res == (*self is Player),
    {
        matches!(self, Occupant::Player(_))
    }

    pub fn is_rival(&self) -> (res: bool)
        ensures
            res == (*self is Rival),
    {
        matches!(self, Occupant::Rival(_))
    }

    pub fn region_id(&self) -> (res: Option<RegionId>)
        ensures
            res == occupant_region(*self),
    {
        match self {
            Occupant::Player(id) => Some(*id),
            _ => None,
        }
    }
}

#[derive(Clone, Copy, Debug, PartialEq, Eq, Hash, Structural)]
pub enum TileContents {
    OrganicMatter,
    Mineral,
    Artifact,
    Fragment(FragmentId),
    UniqueDecomposable(u32),
    NeutralFungus(u32),
    PlantRoot(u32),
}

/// The discrete state of a tile. The continuous quantities of a tile
/// (nutrients, moisture, biomass and the two steering vectors) are kept by
/// the renderer-side copy of the tile; the rules here never read them.
#[derive(Clone, Copy, Debug, PartialEq, Eq, Structural)]
pub struct Tile {
    pub terrain: TerrainType,
    pub occupant: Occupant,
    pub discovered: bool,
    pub contents: Option<TileContents>,
}

/// A tile is owned when a player network occupies it.
pub open spec fn tile_owner(t: Tile) -> Option<RegionId> {
    occupant_region(t.occupant)
}

impl Tile {
    /// Fresh undiscovered, unoccupied, empty soil.
    pub fn new_default() -> (t: Tile)
        ensures
            t.terrain == TerrainType::Soil,
            t.occupant == Occupant::Empty,
            !t.discovered,
            t.contents is None,
    {
        Tile {
            terrain: TerrainType::Soil,
            occupant: Occupant::Empty,
            discovered: false,
            contents: None,
        }
    }

    /// The region that owns this tile, if any.
    pub fn region_id(&self) -> (res: Option<RegionId>)
        ensures
            res == tile_owner(*self),
    {
        self.occupant.region_id()
    }

    pub fn is_owned(&self) -> (res: bool)
        ensures
            res == (tile_owner(*self) is Some),
    {
        self.occupant.is_player()
    }
}

impl Default for Tile {
    fn default() -> (t: Tile)
        ensures
            t == Tile::spec_default(),
    {
        Tile::new_default()
    }
}

impl Tile {
    pub open spec fn spec_default() -> Tile {
        Tile {
            terrain: TerrainType::Soil,
            occupant: Occupant::Empty,
            discovered: false,
            contents: None,
        }
    }
}

/// Soil, roots, ruins and the surface can be entered; rock, water and toxic
/// ground cannot.
pub proof fn lemma_passable_terrains(t: TerrainType)
    ensures
        terrain_passable(t) <==> (t == TerrainType::Soil || t == TerrainType::Root || t
            == TerrainType::Ruin || t == TerrainType::Surface),
        terrain_passable(TerrainType::Ruin),
        terrain_passable(TerrainType::Soil),
        !terrain_passable(TerrainType::Rock),
        !terrain_passable(TerrainType::Water),
        !terrain_passable(TerrainType::Toxic),
{
}

} // verus!
