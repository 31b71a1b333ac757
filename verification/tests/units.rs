use fungai::components::{FoundNetworkRequest, Hive, SelectedUnit, Unit, UnitKind};
use fungai::founding::{founding_system, is_valid_site, UnitSnapshot, MIN_FOUNDING_DISTANCE};
use fungai::grid::GridWorld;
use fungai::hex::Hex;
use fungai::hive::hive_capture_system;
use fungai::messages::{HiveCaptured, NetworkFounded};
use fungai::pathfinding::find_path;
use fungai::region::{RegionId, RegionStates};
use fungai::tile::{Occupant, TerrainType, Tile};

fn tile(terrain: TerrainType, region: Option<RegionId>) -> Tile {
    let occupant = match region {
        Some(rid) => Occupant::Player(rid),
        None => Occupant::Empty,
    };
    Tile { terrain, occupant, ..Tile::default() }
}

fn add_tile(grid: &mut GridWorld, pos: Hex, terrain: TerrainType, region: Option<RegionId>) {
    grid.insert_tile(pos, tile(terrain, region));
}

#[test]
fn accepts_unclaimed_passable_far_hex() {
    let mut grid = GridWorld::new(0, 0);
    // An owned tile far away; the candidate site is unclaimed and passable.
    add_tile(&mut grid, Hex::new(0, 0), TerrainType::Soil, Some(RegionId(0)));
    add_tile(&mut grid, Hex::new(20, 0), TerrainType::Soil, None);
    assert!(is_valid_site(Hex::new(20, 0), &grid));
}

#[test]
fn rejects_hex_near_an_owned_tile() {
    let mut grid = GridWorld::new(0, 0);
    // Owned tile at (0,0); candidate (3,0) is within MIN_FOUNDING_DISTANCE (6).
    add_tile(&mut grid, Hex::new(0, 0), TerrainType::Soil, Some(RegionId(0)));
    add_tile(&mut grid, Hex::new(3, 0), TerrainType::Soil, None);
    assert!(!is_valid_site(Hex::new(3, 0), &grid));
}

#[test]
fn rejects_claimed_or_impassable_hex() {
    let mut grid = GridWorld::new(0, 0);
    add_tile(&mut grid, Hex::new(20, 0), TerrainType::Rock, None);
    assert!(!is_valid_site(Hex::new(20, 0), &grid));
    let mut grid2 = GridWorld::new(0, 0);
    add_tile(&mut grid2, Hex::new(20, 0), TerrainType::Soil, Some(RegionId(0)));
    assert!(!is_valid_site(Hex::new(20, 0), &grid2));
}

#[test]
fn founding_distance_boundary_is_exclusive() {
    assert_eq!(MIN_FOUNDING_DISTANCE, 6);
    let mut grid = GridWorld::new(0, 0);
    add_tile(&mut grid, Hex::new(0, 0), TerrainType::Soil, Some(RegionId(0)));
    // Distance 6 along q is allowed, 5 is not; a diagonal (3, 3) is 6 away.
    add_tile(&mut grid, Hex::new(6, 0), TerrainType::Soil, None);
    add_tile(&mut grid, Hex::new(5, 0), TerrainType::Soil, None);
    add_tile(&mut grid, Hex::new(3, 3), TerrainType::Root, None);
    add_tile(&mut grid, Hex::new(-3, 2), TerrainType::Ruin, None);
    assert!(is_valid_site(Hex::new(6, 0), &grid));
    assert!(!is_valid_site(Hex::new(5, 0), &grid));
    assert!(is_valid_site(Hex::new(3, 3), &grid));
    assert!(!is_valid_site(Hex::new(-3, 2), &grid));
    // Off the map is never valid.
    assert!(!is_valid_site(Hex::new(40, 40), &grid));
}

#[test]
fn founding_creates_a_region_and_spends_the_founder() {
    let mut grid = GridWorld::new(0, 0);
    add_tile(&mut grid, Hex::new(10, 0), TerrainType::Soil, None);
    let mut regions = RegionStates::new();
    let existing = regions.create_region();
    let mut request = FoundNetworkRequest(true);
    let mut selected = SelectedUnit(Some(77));
    let unit = UnitSnapshot {
        unit: Unit { kind: UnitKind::Founder, owner: existing },
        pos: Hex::new(10, 0),
        idle: true,
    };
    let founded = founding_system(&mut request, &mut selected, &mut grid, &mut regions, Some(unit));
    assert_eq!(founded, Some(NetworkFounded { region_id: RegionId(1), seed: Hex::new(10, 0) }));
    assert!(!request.0);
    assert_eq!(selected.0, None);
    assert_eq!(grid.get_tile(&Hex::new(10, 0)).unwrap().region_id(), Some(RegionId(1)));
    assert_eq!(regions.get(RegionId(1)).unwrap().region_id, RegionId(1));
    // The neighbourhood of the new seed is closed to founders.
    add_tile(&mut grid, Hex::new(12, 0), TerrainType::Soil, None);
    assert!(!is_valid_site(Hex::new(12, 0), &grid));
}

#[test]
fn founding_without_request_or_idle_founder_does_nothing() {
    let mut grid = GridWorld::new(0, 0);
    add_tile(&mut grid, Hex::new(10, 0), TerrainType::Soil, None);
    let mut regions = RegionStates::new();
    let unit = UnitSnapshot {
        unit: Unit { kind: UnitKind::Founder, owner: RegionId(0) },
        pos: Hex::new(10, 0),
        idle: false,
    };
    let mut request = FoundNetworkRequest(true);
    let mut selected = SelectedUnit(Some(1));
    assert_eq!(founding_system(&mut request, &mut selected, &mut grid, &mut regions, Some(unit)), None);
    assert!(!request.0);
    assert_eq!(selected.0, Some(1));
    assert!(regions.get(RegionId(0)).is_none());
    let idle = UnitSnapshot { idle: true, ..unit };
    let mut request = FoundNetworkRequest(false);
    assert_eq!(founding_system(&mut request, &mut selected, &mut grid, &mut regions, Some(idle)), None);
    let mut request = FoundNetworkRequest(true);
    let mut nobody = SelectedUnit(None);
    assert_eq!(founding_system(&mut request, &mut nobody, &mut grid, &mut regions, Some(idle)), None);
    assert_eq!(grid.get_tile(&Hex::new(10, 0)).unwrap().region_id(), None);
}

fn captures_after(hives: &mut Vec<(Hex, Hive)>, grid: &GridWorld, log: &mut Vec<(Hex, RegionId)>) {
    for msg in hive_capture_system(hives, grid) {
        let HiveCaptured { hive_pos, region_id } = msg;
        log.push((hive_pos, region_id));
    }
}

#[test]
fn hive_on_owned_tile_is_captured() {
    let mut regions = RegionStates::new();
    let rid = regions.create_region();
    let pos = Hex::new(3, 3);
    let mut grid = GridWorld::new(0, 0);
    add_tile(&mut grid, pos, TerrainType::Soil, Some(rid));
    let mut hives = vec![(pos, Hive { captured_by: None })];
    hive_capture_system(&mut hives, &grid);
    assert_eq!(hives[0].1.captured_by, Some(rid));
}

#[test]
fn hive_on_unowned_tile_is_neutral() {
    let pos = Hex::new(4, 4);
    let mut grid = GridWorld::new(0, 0);
    add_tile(&mut grid, pos, TerrainType::Soil, None);
    let mut hives = vec![(pos, Hive { captured_by: Some(RegionId(7)) })];
    let msgs = hive_capture_system(&mut hives, &grid);
    assert_eq!(hives[0].1.captured_by, None);
    assert!(msgs.is_empty());
}

#[test]
fn capture_fires_message_on_none_to_some() {
    let mut regions = RegionStates::new();
    let rid = regions.create_region();
    let pos = Hex::new(2, 5);
    let mut grid = GridWorld::new(0, 0);
    add_tile(&mut grid, pos, TerrainType::Soil, Some(rid));
    let mut hives = vec![(pos, Hive { captured_by: None })];
    let mut log = Vec::new();
    captures_after(&mut hives, &grid, &mut log);
    assert_eq!(log, vec![(pos, rid)], "a None -> Some capture must emit exactly one HiveCaptured");
}

#[test]
fn owner_change_updates_state_and_refires() {
    let mut regions = RegionStates::new();
    let rid_a = regions.create_region();
    let rid_b = regions.create_region();
    let pos = Hex::new(6, 1);
    let mut grid = GridWorld::new(0, 0);
    add_tile(&mut grid, pos, TerrainType::Soil, Some(rid_a));
    let mut hives = vec![(pos, Hive { captured_by: None })];
    let mut log = Vec::new();

    captures_after(&mut hives, &grid, &mut log);
    assert_eq!(hives[0].1.captured_by, Some(rid_a));

    add_tile(&mut grid, pos, TerrainType::Soil, Some(rid_b));
    captures_after(&mut hives, &grid, &mut log);
    assert_eq!(hives[0].1.captured_by, Some(rid_b), "captured_by must follow the new tile owner");
    assert_eq!(log, vec![(pos, rid_a), (pos, rid_b)], "each owner change must emit a fresh HiveCaptured");
}

#[test]
fn quiet_tick_fires_no_message() {
    let mut regions = RegionStates::new();
    let rid = regions.create_region();
    let pos = Hex::new(8, 8);
    let mut grid = GridWorld::new(0, 0);
    add_tile(&mut grid, pos, TerrainType::Soil, Some(rid));
    let mut hives = vec![(pos, Hive { captured_by: None })];
    let mut log = Vec::new();

    captures_after(&mut hives, &grid, &mut log);
    assert_eq!(log.len(), 1, "first tick captures the hive");

    // Nothing changes on the tile: a quiet tick must stay silent.
    captures_after(&mut hives, &grid, &mut log);
    assert_eq!(log.len(), 1, "a tick with no ownership change must not emit HiveCaptured");
}

#[test]
fn hive_off_the_map_turns_neutral_silently() {
    let grid = GridWorld::new(0, 0);
    let mut hives = vec![
        (Hex::new(1, 1), Hive { captured_by: Some(RegionId(3)) }),
        (Hex::new(2, 2), Hive { captured_by: None }),
    ];
    let msgs = hive_capture_system(&mut hives, &grid);
    assert!(msgs.is_empty());
    assert_eq!(hives[0].1.captured_by, None);
    assert_eq!(hives[1].0, Hex::new(2, 2));
}

fn world_with(passable: &[Hex], blocked: &[Hex]) -> GridWorld {
    let mut grid = GridWorld::new(0, 0);
    for &h in passable {
        add_tile(&mut grid, h, TerrainType::Soil, None);
    }
    for &h in blocked {
        add_tile(&mut grid, h, TerrainType::Rock, None);
    }
    grid
}

#[test]
fn finds_a_straight_path() {
    let line: Vec<Hex> = (0..5).map(|q| Hex::new(q, 0)).collect();
    let grid = world_with(&line, &[]);
    let path = find_path(Hex::new(0, 0), Hex::new(4, 0), &grid);
    let path = path.expect("path exists");
    assert_eq!(*path.last().unwrap(), Hex::new(4, 0));
    assert!(!path.contains(&Hex::new(0, 0)), "path excludes the start hex");
}

#[test]
fn returns_none_for_unreachable_target() {
    let grid = world_with(&[Hex::new(0, 0)], &[Hex::new(5, 5)]);
    let path = find_path(Hex::new(0, 0), Hex::new(5, 5), &grid);
    assert!(path.is_none());
}

#[test]
fn path_is_shortest_and_avoids_rock() {
    // A 5x5 patch of soil with a rock wall at q = 2 except for r = 4.
    let mut soil = Vec::new();
    let mut rock = Vec::new();
    for q in 0..5 {
        for r in 0..5 {
            if q == 2 && r != 4 {
                rock.push(Hex::new(q, r));
            } else {
                soil.push(Hex::new(q, r));
            }
        }
    }
    let grid = world_with(&soil, &rock);
    let path = find_path(Hex::new(0, 0), Hex::new(4, 0), &grid).expect("detour exists");
    assert_eq!(*path.last().unwrap(), Hex::new(4, 0));
    assert!(path.iter().all(|h| !rock.contains(h)));
    let mut prev = Hex::new(0, 0);
    for &h in &path {
        assert_eq!(prev.unsigned_distance_to(&h), 1);
        prev = h;
    }
    // Six steps to the gap at (2, 4), four more to the goal.
    assert_eq!(path.len(), 10);
    let straight = find_path(Hex::new(0, 0), Hex::new(1, 0), &grid).unwrap();
    assert_eq!(straight, vec![Hex::new(1, 0)]);
    assert!(find_path(Hex::new(0, 0), Hex::new(0, 0), &grid).is_none());
    assert!(find_path(Hex::new(0, 0), Hex::new(9, 9), &grid).is_none());
}

#[test]
fn sealed_goal_is_unreachable() {
    let goal = Hex::new(0, 0);
    let mut ring = Vec::new();
    for k in 0..6 {
        ring.push(goal.neighbor(k).unwrap());
    }
    let mut soil = vec![goal, Hex::new(5, 0)];
    soil.retain(|h| !ring.contains(h));
    let grid = world_with(&soil, &ring);
    assert!(find_path(Hex::new(5, 0), goal, &grid).is_none());
}
