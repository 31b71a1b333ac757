use fungai::components::SelectedRegion;
use fungai::discovery::{finish_decomposition, is_decomposition_site};
use fungai::abilities::{SporeAction, UnlockPool};
use fungai::grid::GridWorld;
use fungai::hex::Hex;
use fungai::network::{
    count_node_edges, edge_base_seed, lcg_step, outline_sides, particle_pool_seeds, respawn_draw,
    strand_seed, wobble_hash, BranchEdge, NodePos, RespawnEdge, PARTICLE_POOL_SIZE, SPLINE_SAMPLES,
    STRANDS_PER_EDGE,
};
use fungai::popover::{append_int, format_region_line, format_tile_head};
use fungai::region::{RegionId, RegionState, RegionStates, SpecializationType};
use fungai::selection::{selection_system, specialization_input_system, TileTapped};
use fungai::tile::{FragmentId, Occupant, RivalId, TerrainType, Tile, TileContents};
use fungai::wisp::{
    nearest_owned_distance, network_proximity_steps, refresh_owned, wisp_input_system, WispAction, WispInput,
    WispPhase, WispState,
};

#[test]
fn wisp_state_default_is_idle() {
    let s: WispState<(f32, f32, f32)> = WispState::new();
    assert!(matches!(s.phase, WispPhase::Idle));
    assert!(s.owned.is_empty());
}

fn input(pressed: bool, just_pressed: bool, just_released: bool, cursor: u32) -> WispInput<u32> {
    WispInput {
        playing: true,
        ui_busy: false,
        cursor: Some(cursor),
        pressed,
        just_pressed,
        just_released,
        within_tap: false,
        beyond_drag: false,
        sample_due: false,
    }
}

#[test]
fn wisp_tap_and_stroke_gestures() {
    let mut phase: WispPhase<u32> = WispPhase::Idle;
    assert!(matches!(wisp_input_system(&mut phase, &input(true, true, false, 1)), WispAction::Nothing));
    assert!(matches!(phase, WispPhase::Primed { start: 1 }));
    let release = WispInput { within_tap: true, ..input(false, false, true, 2) };
    assert!(matches!(wisp_input_system(&mut phase, &release), WispAction::Tap(1)));
    assert!(matches!(phase, WispPhase::Idle));

    wisp_input_system(&mut phase, &input(true, true, false, 10));
    let drag = WispInput { beyond_drag: true, ..input(true, false, false, 20) };
    assert!(matches!(wisp_input_system(&mut phase, &drag), WispAction::Paint { from: 10, to: 20 }));
    assert!(matches!(phase, WispPhase::Stroking { last_sample: 20 }));
    assert!(matches!(wisp_input_system(&mut phase, &input(true, false, false, 21)), WispAction::Nothing));
    assert!(matches!(phase, WispPhase::Stroking { last_sample: 20 }));
    let due = WispInput { sample_due: true, ..input(true, false, false, 30) };
    assert!(matches!(wisp_input_system(&mut phase, &due), WispAction::Paint { from: 20, to: 30 }));
    assert!(matches!(wisp_input_system(&mut phase, &input(false, false, true, 31)), WispAction::Nothing));
    assert!(matches!(phase, WispPhase::Idle));
}

#[test]
fn wisp_resets_outside_play_and_ignores_ui() {
    let mut phase: WispPhase<u32> = WispPhase::Stroking { last_sample: 5 };
    let busy = WispInput { ui_busy: true, ..input(false, false, true, 6) };
    wisp_input_system(&mut phase, &busy);
    assert!(matches!(phase, WispPhase::Stroking { last_sample: 5 }));
    let off = WispInput { playing: false, ..input(true, true, false, 6) };
    wisp_input_system(&mut phase, &off);
    assert!(matches!(phase, WispPhase::Idle));
    // A slow or far release is no tap.
    let mut phase: WispPhase<u32> = WispPhase::Primed { start: 3 };
    assert!(matches!(wisp_input_system(&mut phase, &input(false, false, true, 4)), WispAction::Nothing));
    assert!(matches!(phase, WispPhase::Idle));
}

#[test]
fn owned_cells_and_proximity() {
    let owned_tile = Tile { occupant: Occupant::Player(RegionId(0)), ..Tile::default() };
    let tiles = vec![
        (Hex::new(0, 0), owned_tile),
        (Hex::new(1, 0), Tile::default()),
        (Hex::new(4, 0), owned_tile),
    ];
    let mut owned = vec![Hex::new(9, 9)];
    refresh_owned(&mut owned, &tiles);
    assert_eq!(owned, vec![Hex::new(0, 0), Hex::new(4, 0)]);
    assert_eq!(nearest_owned_distance(&Hex::new(2, 0), &owned), Some(2));
    assert_eq!(nearest_owned_distance(&Hex::new(2, 0), &Vec::new()), None);
    assert_eq!(network_proximity_steps(&Hex::new(7, 0), &owned, 3), Some(3));
    assert_eq!(network_proximity_steps(&Hex::new(8, 0), &owned, 3), None);
    assert_eq!(network_proximity_steps(&Hex::new(0, 0), &Vec::new(), 3), None);
}

#[test]
fn selection_follows_the_last_tap() {
    let mut grid = GridWorld::new(0, 0);
    grid.insert_tile(Hex::new(1, 1), Tile { occupant: Occupant::Player(RegionId(4)), ..Tile::default() });
    grid.insert_tile(Hex::new(2, 2), Tile::default());
    let mut selected = SelectedRegion::none();
    selection_system(&vec![TileTapped { pos: Hex::new(2, 2) }, TileTapped { pos: Hex::new(1, 1) }], &grid, &mut selected);
    assert_eq!(selected.selected_pos, Some(Hex::new(1, 1)));
    assert_eq!(selected.region_id, Some(RegionId(4)));
    selection_system(&vec![TileTapped { pos: Hex::new(50, 50) }], &grid, &mut selected);
    assert_eq!(selected.selected_pos, Some(Hex::new(1, 1)));
    selection_system(&vec![TileTapped { pos: Hex::new(2, 2) }], &grid, &mut selected);
    assert_eq!(selected.region_id, None);
    selection_system(&Vec::new(), &grid, &mut selected);
    assert_eq!(selected.selected_pos, Some(Hex::new(2, 2)));
}

#[test]
fn digit_keys_set_specialization() {
    let mut regions = RegionStates::new();
    let rid = regions.create_region();
    let selected = SelectedRegion { region_id: Some(rid), selected_pos: None };
    let mut digits = [false; 8];
    specialization_input_system(&digits, &selected, &mut regions);
    assert_eq!(regions.get(rid).unwrap().target_specialization, None);
    digits[3] = true;
    digits[6] = true;
    specialization_input_system(&digits, &selected, &mut regions);
    assert_eq!(regions.get(rid).unwrap().target_specialization, Some(SpecializationType::Explorer));
    let none = SelectedRegion::none();
    specialization_input_system(&[true; 8], &none, &mut regions);
    assert_eq!(regions.get(rid).unwrap().target_specialization, Some(SpecializationType::Explorer));
    regions.remove(rid);
    specialization_input_system(&[true; 8], &selected, &mut regions);
    assert!(regions.get(rid).is_none());
}

#[test]
fn region_ids_are_fresh_and_read_back() {
    let mut regions = RegionStates::new();
    let a = regions.create_region();
    let b = regions.create_region();
    assert_eq!((a, b), (RegionId(0), RegionId(1)));
    assert_eq!(*regions.get(a).unwrap(), RegionState::new(a));
    assert_eq!(regions.remove(a), Some(RegionState::new(a)));
    assert!(regions.get(a).is_none());
    assert_eq!(regions.remove(a), None);
    let c = regions.create_region();
    assert_eq!(c, RegionId(2));
    if let Some(s) = regions.get_mut(c) {
        s.tile_count = 9;
    }
    assert_eq!(regions.get(c).unwrap().tile_count, 9);
    assert!(regions.update(b, RegionState { tile_count: 3, ..RegionState::new(b) }));
    assert!(!regions.update(a, RegionState::new(a)));
    assert_eq!(regions.get(b).unwrap().tile_count, 3);
}

#[test]
fn decomposer_breaks_down_unique_decomposable() {
    let pos = Hex::new(2, 2);
    let mut tile = Tile {
        occupant: Occupant::Player(RegionId(0)),
        contents: Some(TileContents::UniqueDecomposable(0)),
        ..Tile::default()
    };
    // Progress 0.95 plus one tick's 0.1 completes the work.
    let mut progress: f32 = 0.95;
    assert!(is_decomposition_site(&tile));
    progress += 0.1;
    assert!(progress >= 1.0);
    let (done, roll) = finish_decomposition(pos, &mut tile);
    assert!(
        tile.contents.is_none() || !matches!(tile.contents, Some(TileContents::UniqueDecomposable(_))),
        "decomposable should be consumed on completion"
    );
    assert_eq!(done.pos, pos);
    assert!(done.was_unique);
    assert_eq!(roll.pool, UnlockPool::Decomposition);
    assert!(roll.options.is_empty());
    let rival = Tile { occupant: Occupant::Rival(RivalId(1)), ..tile };
    assert!(!is_decomposition_site(&rival));
}

#[test]
fn spore_action_starts_ready() {
    let s = SporeAction::default();
    assert_eq!((s.cooldown_remaining, s.cooldown_max, s.triggered), (0, 10, false));
}

#[test]
fn particle_pool_size_is_40() {
    assert_eq!(PARTICLE_POOL_SIZE, 40);
    let draws = particle_pool_seeds();
    assert_eq!(draws.len(), 40);
    // 42 * 1664525 + 1013904223 = 1083814273 (no wrap yet).
    assert_eq!(draws[0].0, 1_083_814_273);
    assert_eq!(draws[0].1, lcg_step(draws[0].0));
    assert_eq!(draws[1].0, lcg_step(draws[0].3));
}

#[test]
fn seeds_and_hashes_match_their_formulas() {
    assert_eq!(SPLINE_SAMPLES, 12);
    assert_eq!(STRANDS_PER_EDGE, 3);
    let e = BranchEdge { from: NodePos { x: 2, y: 7 }, to: NodePos { x: -4, y: -1 } };
    let expected = (2i32.wrapping_mul(73_856_093) ^ (-1i32).wrapping_mul(19_349_663)) as u32;
    assert_eq!(edge_base_seed(&e), expected);
    assert_eq!(strand_seed(10, 1), 10u32.wrapping_add(2_654_435_761));
    assert_eq!(wobble_hash(1, 2), 2_654_435_761u32.wrapping_add(147_712_186));
    assert_eq!(lcg_step(u32::MAX), u32::MAX.wrapping_mul(1_664_525).wrapping_add(1_013_904_223));
    assert_eq!(respawn_draw(0, 0), (0, RespawnEdge::Top, 0));
    assert_eq!(respawn_draw(0, 1), (1, RespawnEdge::Right, 2_654_435_761));
    assert_eq!(respawn_draw(0, 2).1, RespawnEdge::Bottom);
    assert_eq!(respawn_draw(0, 3).1, RespawnEdge::Left);
    assert_eq!(respawn_draw(1, 0).0, 1_664_525);
}

#[test]
fn junction_counts_tally_edge_ends() {
    let a = NodePos { x: 0, y: 0 };
    let b = NodePos { x: 1, y: 0 };
    let c = NodePos { x: 0, y: 1 };
    let d = NodePos { x: -1, y: 0 };
    let edges = vec![
        BranchEdge { from: a, to: b },
        BranchEdge { from: a, to: c },
        BranchEdge { from: d, to: a },
    ];
    let counts = count_node_edges(&edges);
    assert_eq!(counts, vec![(a, 3), (b, 1), (c, 1), (d, 1)]);
    let total: usize = counts.iter().map(|(_, n)| *n).sum();
    assert_eq!(total, 2 * edges.len());
    assert!(count_node_edges(&Vec::new()).is_empty());
    assert_eq!(fungai::network::junction_nodes(&counts), vec![a]);
}

#[test]
fn outline_of_cells() {
    let single = outline_sides(&vec![Hex::new(0, 0)]);
    assert_eq!(single.len(), 6);
    assert_eq!(single[0], (Hex::new(0, 0), 0));
    assert_eq!(single[5], (Hex::new(0, 0), 5));
    // Two neighbours share one side each.
    let pair = outline_sides(&vec![Hex::new(0, 0), Hex::new(1, 0)]);
    assert_eq!(pair.len(), 10);
    assert!(!pair.contains(&(Hex::new(0, 0), 0)));
    assert!(!pair.contains(&(Hex::new(1, 0), 3)));
    assert!(outline_sides(&Vec::new()).is_empty());
}

#[test]
fn popover_text() {
    let tile = Tile {
        terrain: TerrainType::Ruin,
        occupant: Occupant::Player(RegionId(3)),
        discovered: false,
        contents: Some(TileContents::Fragment(FragmentId(12))),
    };
    assert_eq!(
        format_tile_head(Hex::new(-4, 107), &tile),
        "(-4, 107)\nTerrain: Ruin\nOccupant: Player (region 3)\nContents: Fragment #12\n(undiscovered)"
    );
    let plain = Tile { discovered: true, contents: None, occupant: Occupant::Rival(RivalId(0)), ..tile };
    assert_eq!(format_tile_head(Hex::new(0, 0), &plain), "(0, 0)\nTerrain: Ruin\nOccupant: Rival 0");
    let mut regions = RegionStates::new();
    regions.create_region();
    regions.create_region();
    regions.create_region();
    let r3 = regions.create_region();
    if let Some(s) = regions.get_mut(r3) {
        s.tile_count = 41;
    }
    assert_eq!(format_region_line(&tile, &regions), "\nRegion 3 | tiles 41");
    assert_eq!(format_region_line(&plain, &regions), "");
    let mut s = String::new();
    append_int(&mut s, i32::MIN);
    assert_eq!(s, "-2147483648");
}

#[test]
fn terrain_and_occupant_queries() {
    assert!(TerrainType::Soil.is_passable());
    assert!(TerrainType::Surface.is_passable());
    assert!(!TerrainType::Water.is_passable());
    assert!(!TerrainType::Toxic.is_passable());
    assert_eq!(TerrainType::Toxic.name(), "Toxic");
    assert!(Occupant::Player(RegionId(1)).is_player());
    assert!(Occupant::Rival(RivalId(1)).is_rival());
    assert_eq!(Occupant::Rival(RivalId(1)).region_id(), None);
    assert_eq!(Occupant::Player(RegionId(5)).region_id(), Some(RegionId(5)));
    let t = Tile::default();
    assert_eq!(t.terrain, TerrainType::Soil);
    assert!(!t.is_owned());
}

#[test]
fn hex_metric_and_neighbours() {
    let o = Hex::new(0, 0);
    assert_eq!(o.unsigned_distance_to(&Hex::new(3, -1)), 3);
    assert_eq!(Hex::new(3, 3).distance_to(&o), 6);
    assert_eq!(Hex::new(i32::MIN, 0).distance_to(&Hex::new(i32::MAX, 0)), u32::MAX as u64);
    for k in 0..6 {
        assert_eq!(o.distance_to(&o.neighbor(k).unwrap()), 1);
    }
    assert_eq!(Hex::new(i32::MAX, 0).neighbor(0), None);
    let mut grid = GridWorld::new(4, 4);
    grid.insert_tile(Hex::new(1, 0), Tile::default());
    grid.insert_tile(Hex::new(0, 1), Tile { terrain: TerrainType::Rock, ..Tile::default() });
    grid.insert_tile(Hex::new(5, 5), Tile::default());
    assert_eq!(grid.neighbors(o), vec![Hex::new(1, 0), Hex::new(0, 1)]);
    let steps = grid.passable_steps(&o);
    assert_eq!(steps, vec![(Hex::new(1, 0), 1)]);
    assert!(grid.contains(&Hex::new(5, 5)));
    assert!(!grid.contains(&Hex::new(-5, 5)));
    assert_eq!(grid.width, 4);
}

#[test]
fn orphaned_sprites_follow_removed_organisms() {
    let links = vec![(100, 1), (101, 2), (102, 1), (103, 3)];
    assert_eq!(fungai::sprites::orphaned_sprites(&vec![1, 9], &links), vec![100, 102]);
    assert!(fungai::sprites::orphaned_sprites(&Vec::new(), &links).is_empty());
    assert_eq!(fungai::sprites::orphaned_sprites(&vec![3], &links), vec![103]);
}

#[test]
fn shroom_prototype_state() {
    let g = fungai::shroom::GameState::new();
    assert_eq!((g.turn, g.paused), (0, false));
    assert_ne!(fungai::shroom::GridPos { x: 1, y: 2 }, fungai::shroom::GridPos { x: 2, y: 1 });
    assert_ne!(fungai::shroom::Terrain::Soil, fungai::shroom::Terrain::Ruins);
}

#[test]
fn organism_sprites_pick_their_image() {
    let k = fungai::sprites::OrganismKind::FruitingBody;
    assert_eq!(fungai::sprites::sprite_image(k), fungai::sprites::SpriteImage::Mushroom);
    assert!(fungai::sprites::keeps_natural_colour(k));
    let f = fungai::sprites::OrganismKind::Fauna;
    assert_eq!(fungai::sprites::sprite_image(f), fungai::sprites::SpriteImage::Fauna);
    assert!(!fungai::sprites::keeps_natural_colour(f));
}
