//! Where a founder may seed a new network, and the founding itself.
use vstd::prelude::*;

use crate::components::{FoundNetworkRequest, SelectedUnit, Unit, UnitKind};
use crate::grid::GridWorld;
use crate::hex::{hex_distance, lemma_distance_basics, Hex};
use crate::messages::NetworkFounded;
use crate::region::{initial_region_state, RegionId, RegionStates};
use crate::tile::{terrain_passable, tile_owner, Occupant, Tile};

verus! {

/// A new network must keep at least this many hexes from every owned tile.
pub const MIN_FOUNDING_DISTANCE: u32 = 6;

/// `hex` is a legal place to found a new network: it is on the map, has
/// passable terrain, is unclaimed, and no owned tile of any region lies
/// strictly within `MIN_FOUNDING_DISTANCE` of it.
pub open spec fn site_is_valid(g: Map<Hex, Tile>, hex: Hex) -> bool {
    &&& g.contains_key(hex)
    &&& terrain_passable(g[hex].terrain)
    &&& tile_owner(g[hex]) is None
    &&& forall|h: Hex|
        #![trigger g.contains_key(h)]
        g.contains_key(h) && tile_owner(g[h]) is Some ==> hex_distance(hex, h)
            >= MIN_FOUNDING_DISTANCE
}

/// An owned tile near `hex` among the offsets already scanned: columns left
/// of `dx`, and rows below `dy` in column `dx`.
pub open spec fn owned_near_scanned(g: Map<Hex, Tile>, hex: Hex, h: Hex, dx: int, dy: int) -> bool {
    &&& g.contains_key(h)
    &&& tile_owner(g[h]) is Some
    &&& hex_distance(hex, h) < MIN_FOUNDING_DISTANCE
    &&& (h.x - hex.x < dx || (h.x - hex.x == dx && h.y - hex.y < dy))
}

/// True when `hex` is a legal place to found a new network (see
/// `site_is_valid`). Only the disc of radius `MIN_FOUNDING_DISTANCE - 1`
/// around `hex` is scanned, so the cost does not grow with the map.
pub fn is_valid_site(hex: Hex, grid: &GridWorld) -> (res: bool)
    ensures
        res == site_is_valid(grid@, hex),
{
    let tile = match grid.get_tile(&hex) {
        Some(t) => t,
        None => {
            return false;
        },
    };
    if !tile.terrain.is_passable() || tile.region_id().is_some() {
        return false;
    }
    let reach: i64 = MIN_FOUNDING_DISTANCE as i64 - 1;
    let mut dx: i64 = -reach;
    while dx <= reach
        invariant
            reach == MIN_FOUNDING_DISTANCE - 1,
            -reach <= dx <= reach + 1,
            forall|h: Hex| #![trigger grid@.contains_key(h)] grid@.contains_key(h) ==> !owned_near_scanned(grid@, hex, h, dx as int, -reach),
        decreases reach + 1 - dx,
    {
        let mut dy: i64 = -reach;
        while dy <= reach
            invariant
                reach == MIN_FOUNDING_DISTANCE - 1,
                -reach <= dx <= reach,
                -reach <= dy <= reach + 1,
                forall|h: Hex| #![trigger grid@.contains_key(h)] grid@.contains_key(h) ==> !owned_near_scanned(grid@, hex, h, dx as int, dy as int),
            decreases reach + 1 - dy,
        {
            let cx: i64 = hex.x as i64 + dx;
            let cy: i64 = hex.y as i64 + dy;
            if i32::MIN as i64 <= cx && cx <= i32::MAX as i64 && i32::MIN as i64 <= cy && cy
                <= i32::MAX as i64 {
                let cand = Hex { x: cx as i32, y: cy as i32 };
                if cand.distance_to(&hex) < MIN_FOUNDING_DISTANCE as u64 {
                    match grid.get_tile(&cand) {
                        Some(t) => {
                            if t.is_owned() {
                                proof {
                                    lemma_distance_basics(hex, cand);
                                }
                                return false;
                            }
                        },
                        None => {},
                    }
                }
                proof {
                    lemma_distance_basics(hex, cand);
                }
            }
            assert forall|h: Hex| #![trigger grid@.contains_key(h)] grid@.contains_key(h) implies !owned_near_scanned(grid@, hex, h, dx as int, dy + 1) by {
                if owned_near_scanned(grid@, hex, h, dx as int, dy + 1) && !owned_near_scanned(
                    grid@,
                    hex,
                    h,
                    dx as int,
                    dy as int,
                ) {
                    assert(h.x == cx && h.y == cy);
                    lemma_distance_basics(hex, h);
                }
            }
            dy = dy + 1;
        }
        assert forall|h: Hex| #![trigger grid@.contains_key(h)] grid@.contains_key(h) implies !owned_near_scanned(grid@, hex, h, dx + 1, -reach) by {
            if owned_near_scanned(grid@, hex, h, dx + 1, -reach) {
                lemma_distance_basics(hex, h);
                assert(owned_near_scanned(grid@, hex, h, dx as int, reach + 1));
            }
        }
        dx = dx + 1;
    }
    assert forall|h: Hex|
        #![trigger grid@.contains_key(h)]
        grid@.contains_key(h) && tile_owner(grid@[h]) is Some implies hex_distance(hex, h)
        >= MIN_FOUNDING_DISTANCE by {
        lemma_distance_basics(hex, h);
        assert(!owned_near_scanned(grid@, hex, h, reach + 1, -reach));
    }
    true
}

/// What the rules need to know of the selected unit: its kind and owner,
/// where it stands, and whether it has no move left to make.
#[derive(Clone, Copy, Debug, PartialEq, Eq, Structural)]
pub struct UnitSnapshot {
    pub unit: Unit,
    pub pos: Hex,
    pub idle: bool,
}

/// The founding request succeeds: it was made, a unit is selected and was
/// found, it is an idle founder, and it stands on a valid site.
pub open spec fn founding_succeeds(
    request: bool,
    selected: Option<u64>,
    unit: Option<UnitSnapshot>,
    g: Map<Hex, Tile>,
) -> bool {
    &&& request
    &&& selected is Some
    &&& unit is Some
    &&& unit->Some_0.unit.kind == UnitKind::Founder
    &&& unit->Some_0.idle
    &&& site_is_valid(g, unit->Some_0.pos)
}

/// The tile at a freshly founded seed: taken by the new region.
pub open spec fn seeded_tile(t: Tile, id: RegionId) -> Tile {
    Tile { occupant: Occupant::Player(id), ..t }
}

/// Consumes this frame's founding request. When it succeeds, a new region
/// is created, the seed tile becomes its first tile, the selection is
/// cleared (the founder is spent: the caller despawns it) and the returned
/// message announces the network. Otherwise nothing but the request changes.
/// `unit` is the selected unit as found in the world, if it was.
pub fn founding_system(
    request: &mut FoundNetworkRequest,
    selected: &mut SelectedUnit,
    grid: &mut GridWorld,
    region_states: &mut RegionStates,
    unit: Option<UnitSnapshot>,
) -> (founded: Option<NetworkFounded>)
    requires
        old(region_states).next_id() < u32::MAX,
    ensures
        !final(request).0,
        final(grid).width == old(grid).width,
        final(grid).height == old(grid).height,
        founding_succeeds(old(request).0, old(selected).0, unit, old(grid)@) ==> {
            let pos = unit->Some_0.pos;
            let id = RegionId(old(region_states).next_id() as u32);
            &&& founded == Some(NetworkFounded { region_id: id, seed: pos })
            &&& final(region_states).next_id() == old(region_states).next_id() + 1
            &&& final(region_states)@ == old(region_states)@.insert(id, initial_region_state(id))
            &&& final(grid)@ == old(grid)@.insert(pos, seeded_tile(old(grid)@[pos], id))
            &&& final(selected).0 is None
        },
        !founding_succeeds(old(request).0, old(selected).0, unit, old(grid)@) ==> {
            &&& founded is None
            &&& final(region_states).next_id() == old(region_states).next_id()
            &&& final(region_states)@ == old(region_states)@
            &&& final(grid)@ == old(grid)@
            &&& *final(selected) == *old(selected)
        },
{
    let requested = request.0;
    request.0 = false;
    if !requested {
        return None;
    }
    if selected.0.is_none() {
        return None;
    }
    let snapshot = match unit {
        Some(u) => u,
        None => {
            return None;
        },
    };
    if snapshot.unit.kind != UnitKind::Founder || !snapshot.idle {
        return None;
    }
    let seed = snapshot.pos;
    if !is_valid_site(seed, grid) {
        return None;
    }
    let region_id = region_states.create_region();
    match grid.get_tile(&seed) {
        Some(tile) => {
            let taken = Tile { occupant: Occupant::Player(region_id), ..tile };
            grid.insert_tile(seed, taken);
        },
        None => {},
    }
    selected.0 = None;
    Some(NetworkFounded { region_id, seed })
}

/// Founding closes the area around the new seed: no hex strictly within
/// `MIN_FOUNDING_DISTANCE` of it is a valid site any more.
pub proof fn lemma_founding_blocks_neighbourhood(g: Map<Hex, Tile>, seed: Hex, id: RegionId, h: Hex)
    requires
        g.contains_key(seed),
        hex_distance(h, seed) < MIN_FOUNDING_DISTANCE,
    ensures
        !site_is_valid(g.insert(seed, seeded_tile(g[seed], id)), h),
{
    let g2 = g.insert(seed, seeded_tile(g[seed], id));
    assert(g2.contains_key(seed));
    assert(tile_owner(g2[seed]) is Some);
}

/// Founding and path finding share one notion of passable: every valid
/// site is a cell a unit may walk onto.
pub proof fn lemma_valid_site_is_walkable(g: Map<Hex, Tile>, hex: Hex)
    requires
        site_is_valid(g, hex),
    ensures
        crate::pathfinding::cell_passable(g, hex),
{
}

/// On a map where no tile is owned, every unclaimed cell of passable
/// terrain (soil, root, ruin or surface) is a valid founding site; a cell of
/// rock, water or toxic ground never is.
pub proof fn lemma_unclaimed_passable_cell_is_site(g: Map<Hex, Tile>, hex: Hex)
    requires
        g.contains_key(hex),
        forall|h: Hex| #![trigger g.contains_key(h)] g.contains_key(h) ==> tile_owner(g[h]) is None,
    ensures
        (g[hex].terrain == crate::tile::TerrainType::Soil || g[hex].terrain
            == crate::tile::TerrainType::Root || g[hex].terrain == crate::tile::TerrainType::Ruin
            || g[hex].terrain == crate::tile::TerrainType::Surface) ==> site_is_valid(g, hex),
        (g[hex].terrain == crate::tile::TerrainType::Rock || g[hex].terrain
            == crate::tile::TerrainType::Water || g[hex].terrain == crate::tile::TerrainType::Toxic)
            ==> !site_is_valid(g, hex),
{
}

} // verus!
