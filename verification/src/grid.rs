//! The hex map: which cells exist and what each holds.
use std::collections::HashMap;
use vstd::prelude::*;

use crate::hex::{direction_dx, direction_dy, is_neighbor, is_neighbor_in, Hex};
use crate::tile::{terrain_passable, Tile};

verus! {

broadcast use vstd::std_specs::hash::group_hash_axioms;

/// The map key of a hex: its two coordinates packed into one `i64`.
pub open spec fn hex_key(h: Hex) -> i64 {
    (h.x * 0x1_0000_0000 + (h.y + 0x8000_0000)) as i64
}

/// Distinct hexes have distinct keys.
pub proof fn lemma_hex_key_injective(a: Hex, b: Hex)
    ensures
        hex_key(a) == hex_key(b) <==> a == b,
{
    let ka: int = a.x * 0x1_0000_0000 + (a.y + 0x8000_0000);
    let kb: int = b.x * 0x1_0000_0000 + (b.y + 0x8000_0000);
    assert(i64::MIN <= ka <= i64::MAX) by (nonlinear_arith)
        requires
            i32::MIN <= a.x <= i32::MAX,
            i32::MIN <= a.y <= i32::MAX,
            ka == a.x * 0x1_0000_0000 + (a.y + 0x8000_0000),
    ;
    assert(i64::MIN <= kb <= i64::MAX) by (nonlinear_arith)
        requires
            i32::MIN <= b.x <= i32::MAX,
            i32::MIN <= b.y <= i32::MAX,
            kb == b.x * 0x1_0000_0000 + (b.y + 0x8000_0000),
    ;
    if ka == kb {
        assert(a.x == b.x) by (nonlinear_arith)
            requires
                ka == a.x * 0x1_0000_0000 + (a.y + 0x8000_0000),
                kb == b.x * 0x1_0000_0000 + (b.y + 0x8000_0000),
                ka == kb,
                0 <= a.y + 0x8000_0000 < 0x1_0000_0000,
                0 <= b.y + 0x8000_0000 < 0x1_0000_0000,
        ;
    }
}

/// A unit may step from `a` to `b`: `b` shares a side with `a`, is on the
/// map and has passable terrain.
pub open spec fn passable_step(g: Map<Hex, Tile>, a: Hex, b: Hex) -> bool {
    &&& is_neighbor(a, b)
    &&& g.contains_key(b)
    &&& terrain_passable(g[b].terrain)
}

/// The neighbour of `pos` in direction `k` when its coordinates fit.
pub open spec fn neighbor_at(pos: Hex, k: int) -> Option<Hex> {
    let nx = pos.x + direction_dx(k);
    let ny = pos.y + direction_dy(k);
    if i32::MIN <= nx <= i32::MAX && i32::MIN <= ny <= i32::MAX {
        Some(Hex { x: nx as i32, y: ny as i32 })
    } else {
        None
    }
}

/// The neighbours of `pos` in directions `0..k` that are on the map, in
/// direction order.
pub open spec fn present_neighbors(g: Map<Hex, Tile>, pos: Hex, k: int) -> Seq<Hex>
    decreases k,
{
    if k <= 0 {
        Seq::empty()
    } else {
        let prev = present_neighbors(g, pos, k - 1);
        match neighbor_at(pos, k - 1) {
            Some(n) => if g.contains_key(n) {
                prev.push(n)
            } else {
                prev
            },
            None => prev,
        }
    }
}

/// The map cell an entity stands on.
#[derive(Clone, Copy, Debug, PartialEq, Eq, Hash, Structural)]
pub struct GridPos(pub Hex);

/// Cells of the map keyed by position.
pub struct TileMap {
    cells: HashMap<i64, Tile>,
}

impl View for TileMap {
    type V = Map<Hex, Tile>;

    /// The cells on the map and their tiles.
    closed spec fn view(&self) -> Map<Hex, Tile> {
        Map::new(
            |h: Hex| self.cells@.contains_key(hex_key(h)),
            |h: Hex| self.cells@[hex_key(h)],
        )
    }
}

impl TileMap {
    fn key_of(h: &Hex) -> (k: i64)
        ensures
            k == hex_key(*h),
    {
        proof {
            lemma_hex_key_injective(*h, *h);
        }
        (h.x as i64) * 0x1_0000_0000i64 + (h.y as i64 + 0x8000_0000i64)
    }

    pub fn new() -> (m: TileMap)
        ensures
            m@ == Map::<Hex, Tile>::empty(),
    {
        let m = TileMap { cells: HashMap::new() };
        assert(m@ =~= Map::<Hex, Tile>::empty());
        m
    }

    /// Put `tile` at `pos`, replacing what was there.
    pub fn insert(&mut self, pos: Hex, tile: Tile)
        ensures
            final(self)@ == old(self)@.insert(pos, tile),
    {
        let k: i64 = TileMap::key_of(&pos);
        self.cells.insert(k, tile);
        assert forall|h: Hex| #[trigger] hex_key(h) == k implies h == pos by {
            lemma_hex_key_injective(h, pos);
        }
        assert(self@ =~= old(self)@.insert(pos, tile));
    }

    pub fn get(&self, pos: &Hex) -> (res: Option<Tile>)
        ensures
            match res {
                Some(t) => self@.contains_key(*pos) && t == self@[*pos],
                None => !self@.contains_key(*pos),
            },
    {
        let k: i64 = TileMap::key_of(pos);
        match self.cells.get(&k) {
            Some(t) => Some(*t),
            None => None,
        }
    }

    pub fn contains_key(&self, pos: &Hex) -> (res: bool)
        ensures
            res == self@.contains_key(*pos),
    {
        let k: i64 = TileMap::key_of(pos);
        self.cells.contains_key(&k)
    }
}

/// The map: its cells and its extent.
pub struct GridWorld {
    pub tiles: TileMap,
    pub width: i32,
    pub height: i32,
}

impl View for GridWorld {
    type V = Map<Hex, Tile>;

    open spec fn view(&self) -> Map<Hex, Tile> {
        self.tiles@
    }
}

impl GridWorld {
    /// An empty map of the given extent.
    pub fn new(width: i32, height: i32) -> (g: GridWorld)
        ensures
            g@ == Map::<Hex, Tile>::empty(),
            g.width == width,
            g.height == height,
    {
        GridWorld { tiles: TileMap::new(), width, height }
    }

    /// Put `tile` at `pos`, replacing what was there.
    pub fn insert_tile(&mut self, pos: Hex, tile: Tile)
        ensures
            final(self)@ == old(self)@.insert(pos, tile),
            final(self).width == old(self).width,
            final(self).height == old(self).height,
    {
        self.tiles.insert(pos, tile);
    }

    pub fn get_tile(&self, pos: &Hex) -> (res: Option<Tile>)
        ensures
            match res {
                Some(t) => self@.contains_key(*pos) && t == self@[*pos],
                None => !self@.contains_key(*pos),
            },
    {
        self.tiles.get(pos)
    }

    pub fn contains(&self, pos: &Hex) -> (res: bool)
        ensures
            res == self@.contains_key(*pos),
    {
        self.tiles.contains_key(pos)
    }

    /// The neighbours of `pos` that are on the map, in direction order.
    pub fn neighbors(&self, pos: Hex) -> (res: Vec<Hex>)
        ensures
            res@ == present_neighbors(self@, pos, 6),
    {
        let mut res: Vec<Hex> = Vec::new();
        let mut k: usize = 0;
        while k < 6
            invariant
                0 <= k <= 6,
                res@ == present_neighbors(self@, pos, k as int),
            decreases 6 - k,
        {
            match pos.neighbor(k) {
                Some(n) => {
                    if self.contains(&n) {
                        res.push(n);
                    }
                },
                None => {},
            }
            k = k + 1;
        }
        res
    }

    /// The cells a unit standing on `pos` may step to, each at cost one.
    pub fn passable_steps(&self, pos: &Hex) -> (res: Vec<(Hex, u64)>)
        ensures
            forall|j: int| #![trigger res@[j]] 0 <= j < res@.len() ==> res@[j].1 == 1 && passable_step(self@, *pos, res@[j].0),
            forall|n: Hex| passable_step(self@, *pos, n) ==> exists|j: int| 0 <= j < res@.len() && #[trigger] res@[j].0 == n,
    {
        let mut res: Vec<(Hex, u64)> = Vec::new();
        let mut k: usize = 0;
        while k < 6
            invariant
                0 <= k <= 6,
                forall|j: int| #![trigger res@[j]] 0 <= j < res@.len() ==> res@[j].1 == 1 && passable_step(self@, *pos, res@[j].0),
                forall|n: Hex, d: int| 0 <= d < k && is_neighbor_in(*pos, n, d) && passable_step(self@, *pos, n) ==> exists|j: int| 0 <= j < res@.len() && #[trigger] res@[j].0 == n,
            decreases 6 - k,
        {
            let ghost prev = res@;
            match pos.neighbor(k) {
                Some(n) => {
                    assert(is_neighbor(*pos, n));
                    match self.get_tile(&n) {
                        Some(t) => {
                            if t.terrain.is_passable() {
                                assert(passable_step(self@, *pos, n));
                                res.push((n, 1));
                                assert(res@[res@.len() - 1].0 == n);
                                assert(res@[res@.len() - 1].1 == 1);
                                assert(forall|j: int| 0 <= j < prev.len() ==> res@[j] == prev[j]);
                            }
                        },
                        None => {},
                    }
                },
                None => {},
            }
            assert forall|m: Hex, d: int|
                0 <= d < k + 1 && is_neighbor_in(*pos, m, d) && passable_step(self@, *pos, m) implies exists|j: int|
                0 <= j < res@.len() && #[trigger] res@[j].0 == m by {
                if d < k {
                    let j = choose|j: int| 0 <= j < prev.len() && #[trigger] prev[j].0 == m;
                    assert(res@[j] == prev[j]);
                } else {
                    assert(res@[res@.len() - 1].0 == m);
                }
            }
            k = k + 1;
        }
        assert forall|m: Hex| passable_step(self@, *pos, m) implies exists|j: int|
            0 <= j < res@.len() && #[trigger] res@[j].0 == m by {
            let d = choose|d: int| is_neighbor_in(*pos, m, d);
            assert(0 <= d < 6 && is_neighbor_in(*pos, m, d));
        }
        res
    }
}

} // verus!
