//! The discrete side of drawing the networks: which branch nodes are
//! junctions, which sides of a region form its outline, and the integer
//! hashes that make strand wobble and ambient dust deterministic.
use vstd::prelude::*;

use crate::grid::neighbor_at;
use crate::hex::Hex;

verus! {

/// Centre-line samples per spline segment.
pub const SPLINE_SAMPLES: usize = 12;

/// Sub-strands drawn per network edge.
pub const STRANDS_PER_EDGE: usize = 3;

/// Ambient dust particles kept alive at once.
pub const PARTICLE_POOL_SIZE: usize = 40;

/// The seed of the dust generator.
pub const PARTICLE_SEED: u32 = 42;

/// A node of the branch graph, in tile coordinates.
#[derive(Clone, Copy, Debug, PartialEq, Eq, Hash, Structural)]
pub struct NodePos {
    pub x: i32,
    pub y: i32,
}

/// An edge of the branch graph.
#[derive(Clone, Copy, Debug, PartialEq, Eq, Structural)]
pub struct BranchEdge {
    pub from: NodePos,
    pub to: NodePos,
}

/// The ends of all edges, in order: `from` then `to` of each edge.
pub open spec fn edge_ends(edges: Seq<BranchEdge>) -> Seq<NodePos>
    decreases edges.len(),
{
    if edges.len() == 0 {
        Seq::empty()
    } else {
        let e = edges[edges.len() - 1];
        edge_ends(edges.drop_last()).push(e.from).push(e.to)
    }
}

/// How often `n` occurs in `s`.
pub open spec fn occurrences(s: Seq<NodePos>, n: NodePos) -> nat
    decreases s.len(),
{
    if s.len() == 0 {
        0
    } else {
        occurrences(s.drop_last(), n) + (if s[s.len() - 1] == n {
            1nat
        } else {
            0nat
        })
    }
}

/// `counts` tallies `s`: it lists every node of `s` exactly once, each with
/// its number of occurrences, and nothing else.
pub open spec fn tallies(counts: Seq<(NodePos, usize)>, s: Seq<NodePos>) -> bool {
    &&& forall|i: int| 0 <= i < counts.len() ==> #[trigger] counts[i].1 == occurrences(s, counts[i].0)
    &&& forall|i: int, j: int| 0 <= i < j < counts.len() ==> counts[i].0 != counts[j].0
    &&& forall|n: NodePos|
        occurrences(s, n) > 0 <==> exists|i: int| 0 <= i < counts.len() && #[trigger] counts[i].0 == n
}

proof fn lemma_occurrences_bounded(s: Seq<NodePos>, n: NodePos)
    ensures
        occurrences(s, n) <= s.len(),
    decreases s.len(),
{
    if s.len() > 0 {
        lemma_occurrences_bounded(s.drop_last(), n);
    }
}

proof fn lemma_edge_ends_len(edges: Seq<BranchEdge>)
    ensures
        edge_ends(edges).len() == 2 * edges.len(),
    decreases edges.len(),
{
    if edges.len() > 0 {
        lemma_edge_ends_len(edges.drop_last());
    }
}

/// Counts one more occurrence of `n`.
fn tally(counts: &mut Vec<(NodePos, usize)>, n: NodePos, Ghost(s): Ghost<Seq<NodePos>>)
    requires
        tallies(old(counts)@, s),
        s.len() < usize::MAX,
    ensures
        tallies(final(counts)@, s.push(n)),
{
    let ghost t = s.push(n);
    assert(t.drop_last() =~= s);
    assert forall|m: NodePos| #[trigger] occurrences(t, m) == occurrences(s, m) + (if m == n {
        1nat
    } else {
        0nat
    }) by {}
    let mut i: usize = 0;
    while i < counts.len()
        invariant
            0 <= i <= counts@.len(),
            counts@ == old(counts)@,
            tallies(old(counts)@, s),
            s.len() < usize::MAX,
            t == s.push(n),
            forall|m: NodePos| #[trigger] occurrences(t, m) == occurrences(s, m) + (if m == n {
                1nat
            } else {
                0nat
            }),
            forall|k: int| 0 <= k < i ==> (#[trigger] counts@[k]).0 != n,
        decreases counts@.len() - i,
    {
        if counts[i].0 == n {
            let (pos, c) = counts[i];
            proof {
                lemma_occurrences_bounded(s, n);
                assert(counts@[i as int].1 == occurrences(s, counts@[i as int].0));
            }
            counts.set(i, (pos, c + 1));
            assert forall|m: NodePos|
                occurrences(t, m) > 0 implies exists|k: int|
                    0 <= k < counts@.len() && #[trigger] counts@[k].0 == m by {
                if m == n {
                    assert(counts@[i as int].0 == m);
                } else {
                    assert(occurrences(s, m) > 0);
                    let k = choose|k: int| 0 <= k < old(counts)@.len() && #[trigger] old(counts)@[k].0 == m;
                    assert(counts@[k].0 == m);
                }
            }
            assert forall|m: NodePos|
                (exists|k: int| 0 <= k < counts@.len() && #[trigger] counts@[k].0 == m) implies
                occurrences(t, m) > 0 by {
                let k = choose|k: int| 0 <= k < counts@.len() && #[trigger] counts@[k].0 == m;
                assert(old(counts)@[k].0 == m);
            }
            assert(forall|k: int| 0 <= k < counts@.len() && k != i ==> counts@[k] == old(counts)@[k]);
            return;
        }
        i = i + 1;
    }
    assert(occurrences(s, n) == 0) by {
        if occurrences(s, n) > 0 {
            let k = choose|k: int| 0 <= k < old(counts)@.len() && #[trigger] old(counts)@[k].0 == n;
            assert(counts@[k].0 != n);
        }
    }
    counts.push((n, 1));
    assert forall|m: NodePos|
        occurrences(t, m) > 0 implies exists|k: int|
            0 <= k < counts@.len() && #[trigger] counts@[k].0 == m by {
        if m == n {
            assert(counts@[counts@.len() - 1].0 == m);
        } else {
            assert(occurrences(s, m) > 0);
            let k = choose|k: int| 0 <= k < old(counts)@.len() && #[trigger] old(counts)@[k].0 == m;
            assert(counts@[k].0 == m);
        }
    }
    assert forall|m: NodePos|
        (exists|k: int| 0 <= k < counts@.len() && #[trigger] counts@[k].0 == m) implies
        occurrences(t, m) > 0 by {
        let k = choose|k: int| 0 <= k < counts@.len() && #[trigger] counts@[k].0 == m;
        if k < old(counts)@.len() {
            assert(old(counts)@[k].0 == m);
        }
    }
}

/// For every node an edge touches, the number of edge ends at it (a node
/// with three or more is a junction): each such node once, in order of
/// first appearance.
pub fn count_node_edges(edges: &Vec<BranchEdge>) -> (counts: Vec<(NodePos, usize)>)
    requires
        edges@.len() < usize::MAX / 2,
    ensures
        tallies(counts@, edge_ends(edges@)),
{
    let mut counts: Vec<(NodePos, usize)> = Vec::new();
    let mut e: usize = 0;
    while e < edges.len()
        invariant
            0 <= e <= edges@.len(),
            edges@.len() < usize::MAX / 2,
            tallies(counts@, edge_ends(edges@.subrange(0, e as int))),
        decreases edges@.len() - e,
    {
        let edge = edges[e];
        let ghost prefix = edges@.subrange(0, e as int);
        proof {
            assert(edges@.subrange(0, e + 1).drop_last() =~= prefix);
            lemma_edge_ends_len(prefix);
        }
        tally(&mut counts, edge.from, Ghost(edge_ends(prefix)));
        tally(&mut counts, edge.to, Ghost(edge_ends(prefix).push(edge.from)));
        e = e + 1;
    }
    assert(edges@.subrange(0, edges@.len() as int) =~= edges@);
    counts
}

/// Nodes where three or more edge ends meet.
pub open spec fn junctions(counts: Seq<(NodePos, usize)>) -> Seq<NodePos>
    decreases counts.len(),
{
    if counts.len() == 0 {
        Seq::empty()
    } else {
        let last = counts[counts.len() - 1];
        let prev = junctions(counts.drop_last());
        if last.1 >= 3 {
            prev.push(last.0)
        } else {
            prev
        }
    }
}

/// The branching nodes (three or more edge ends) of a tally, in its order;
/// each gets a junction disc.
pub fn junction_nodes(counts: &Vec<(NodePos, usize)>) -> (res: Vec<NodePos>)
    ensures
        res@ == junctions(counts@),
{
    let mut res: Vec<NodePos> = Vec::new();
    let mut i: usize = 0;
    while i < counts.len()
        invariant
            0 <= i <= counts@.len(),
            res@ == junctions(counts@.subrange(0, i as int)),
        decreases counts@.len() - i,
    {
        let (node, n) = counts[i];
        if n >= 3 {
            res.push(node);
        }
        assert(counts@.subrange(0, i + 1).drop_last() =~= counts@.subrange(0, i as int));
        i = i + 1;
    }
    assert(counts@.subrange(0, counts@.len() as int) =~= counts@);
    res
}

/// One step of the dust generator (a linear congruential generator modulo
/// 2^32).
pub open spec fn lcg_next(s: u32) -> u32 {
    s.wrapping_mul(1_664_525).wrapping_add(1_013_904_223)
}

/// The generator state after `n` steps from `PARTICLE_SEED`.
pub open spec fn lcg_state(n: nat) -> u32
    decreases n,
{
    if n == 0 {
        PARTICLE_SEED
    } else {
        lcg_next(lcg_state((n - 1) as nat))
    }
}

pub fn lcg_step(s: u32) -> (r: u32)
    ensures
        r == lcg_next(s),
{
    s.wrapping_mul(1_664_525).wrapping_add(1_013_904_223)
}

/// The raw draws for the initial dust pool: per particle four successive
/// generator states (x, y, vx, vy before scaling to the viewport).
pub fn particle_pool_seeds() -> (draws: Vec<(u32, u32, u32, u32)>)
    ensures
        draws@.len() == PARTICLE_POOL_SIZE,
        forall|i: int|
            0 <= i < draws@.len() ==> #[trigger] draws@[i] == (
                lcg_state((4 * i + 1) as nat),
                lcg_state((4 * i + 2) as nat),
                lcg_state((4 * i + 3) as nat),
                lcg_state((4 * i + 4) as nat),
            ),
{
    let mut draws: Vec<(u32, u32, u32, u32)> = Vec::new();
    let mut state: u32 = PARTICLE_SEED;
    let mut i: usize = 0;
    while i < PARTICLE_POOL_SIZE
        invariant
            0 <= i <= PARTICLE_POOL_SIZE,
            draws@.len() == i,
            state == lcg_state((4 * i) as nat),
            forall|k: int|
                0 <= k < i ==> #[trigger] draws@[k] == (
                    lcg_state((4 * k + 1) as nat),
                    lcg_state((4 * k + 2) as nat),
                    lcg_state((4 * k + 3) as nat),
                    lcg_state((4 * k + 4) as nat),
                ),
        decreases PARTICLE_POOL_SIZE - i,
    {
        let a: u32 = lcg_step(state);
        let b: u32 = lcg_step(a);
        let c: u32 = lcg_step(b);
        let d: u32 = lcg_step(c);
        assert(a == lcg_state((4 * i + 1) as nat));
        assert(b == lcg_state((4 * i + 2) as nat));
        assert(c == lcg_state((4 * i + 3) as nat));
        assert(d == lcg_state((4 * i + 4) as nat));
        draws.push((a, b, c, d));
        state = d;
        i = i + 1;
    }
    draws
}

/// The wobble seed of a branch edge, from its end coordinates.
pub fn edge_base_seed(edge: &BranchEdge) -> (seed: u32)
    ensures
        seed == (edge.from.x.wrapping_mul(73_856_093) ^ edge.to.y.wrapping_mul(19_349_663)) as u32,
{
    (edge.from.x.wrapping_mul(73_856_093) ^ edge.to.y.wrapping_mul(19_349_663)) as u32
}

/// The wobble seed of sub-strand `strand` of an edge.
pub fn strand_seed(base: u32, strand: u32) -> (seed: u32)
    ensures
        seed == base.wrapping_add(strand.wrapping_mul(2_654_435_761)),
{
    base.wrapping_add(strand.wrapping_mul(2_654_435_761))
}

/// The noise hash of interior sample `i` of a wobbled spline.
pub fn wobble_hash(seed: u32, i: u32) -> (hash: u32)
    requires
        i < SPLINE_SAMPLES,
    ensures
        hash == seed.wrapping_mul(2_654_435_761).wrapping_add((i * 73_856_093) as u32),
{
    seed.wrapping_mul(2_654_435_761).wrapping_add(i * 73_856_093)
}

/// The viewport edge a drifting dust particle re-enters from.
#[derive(Clone, Copy, Debug, PartialEq, Eq, Structural)]
pub enum RespawnEdge {
    Top,
    Bottom,
    Right,
    Left,
}

/// Even seeds re-enter along the horizontal edges, odd ones along the
/// vertical edges; bit 1 of the seed picks the positive side.
pub open spec fn spec_respawn_edge(seed: u32) -> RespawnEdge {
    if seed % 2 == 0 {
        if seed % 4 < 2 {
            RespawnEdge::Top
        } else {
            RespawnEdge::Bottom
        }
    } else {
        if seed % 4 < 2 {
            RespawnEdge::Right
        } else {
            RespawnEdge::Left
        }
    }
}

/// The re-entry draw of a particle that drifted out of view, from its x
/// position bits and the clock bits: the seed (whose fraction of `u32::MAX`
/// places it along the edge), the edge it re-enters from, and the seed of
/// its new velocity.
pub fn respawn_draw(x_bits: u32, time_bits: u32) -> (res: (u32, RespawnEdge, u32))
    ensures
        res.0 == x_bits.wrapping_mul(1_664_525).wrapping_add(time_bits),
        res.1 == spec_respawn_edge(res.0),
        res.2 == res.0.wrapping_mul(2_654_435_761),
{
    let seed: u32 = x_bits.wrapping_mul(1_664_525).wrapping_add(time_bits);
    let edge = if seed % 2 == 0 {
        if seed % 4 < 2 {
            RespawnEdge::Top
        } else {
            RespawnEdge::Bottom
        }
    } else {
        if seed % 4 < 2 {
            RespawnEdge::Right
        } else {
            RespawnEdge::Left
        }
    };
    (seed, edge, seed.wrapping_mul(2_654_435_761))
}

/// The sides `0..k` of `h` that border no cell of `tiles`.
pub open spec fn open_sides(tiles: Seq<Hex>, h: Hex, k: int) -> Seq<(Hex, usize)>
    decreases k,
{
    if k <= 0 {
        Seq::empty()
    } else {
        let prev = open_sides(tiles, h, k - 1);
        match neighbor_at(h, k - 1) {
            Some(n) => if tiles.contains(n) {
                prev
            } else {
                prev.push((h, (k - 1) as usize))
            },
            None => prev.push((h, (k - 1) as usize)),
        }
    }
}

/// The outline of a region: for each of its cells in order, the sides (in
/// direction order) that border no cell of the region.
pub open spec fn outline(tiles: Seq<Hex>, upto: int) -> Seq<(Hex, usize)>
    decreases upto,
{
    if upto <= 0 {
        Seq::empty()
    } else {
        outline(tiles, upto - 1) + open_sides(tiles, tiles[upto - 1], 6)
    }
}

fn contains_hex(tiles: &Vec<Hex>, h: &Hex) -> (res: bool)
    ensures
        res == tiles@.contains(*h),
{
    let mut i: usize = 0;
    while i < tiles.len()
        invariant
            0 <= i <= tiles@.len(),
            forall|k: int| 0 <= k < i ==> tiles@[k] != *h,
        decreases tiles@.len() - i,
    {
        if tiles[i].same_as(h) {
            return true;
        }
        i = i + 1;
    }
    false
}

/// The boundary sides of a region of cells, as (cell, side) pairs: side `k`
/// of a cell runs between its corners `k` and `k + 1` and faces the
/// neighbour in direction `k`.
pub fn outline_sides(tiles: &Vec<Hex>) -> (sides: Vec<(Hex, usize)>)
    ensures
        sides@ == outline(tiles@, tiles@.len() as int),
{
    let mut sides: Vec<(Hex, usize)> = Vec::new();
    let mut t: usize = 0;
    while t < tiles.len()
        invariant
            0 <= t <= tiles@.len(),
            sides@ == outline(tiles@, t as int),
        decreases tiles@.len() - t,
    {
        let h = tiles[t];
        let mut k: usize = 0;
        while k < 6
            invariant
                0 <= t < tiles@.len(),
                h == tiles@[t as int],
                0 <= k <= 6,
                sides@ == outline(tiles@, t as int) + open_sides(tiles@, h, k as int),
            decreases 6 - k,
        {
            let open = match h.neighbor(k) {
                Some(n) => !contains_hex(tiles, &n),
                None => true,
            };
            if open {
                sides.push((h, k));
            }
            assert(outline(tiles@, t as int) + open_sides(tiles@, h, k + 1) =~= sides@);
            k = k + 1;
        }
        t = t + 1;
    }
    sides
}

/// A lone cell is outlined on all six sides.
pub proof fn lemma_single_cell_outline(h: Hex)
    ensures
        outline(seq![h], 1).len() == 6,
{
    let tiles = seq![h];
    assert(outline(tiles, 0) =~= Seq::<(Hex, usize)>::empty());
    assert forall|k: int| 0 <= k < 6 implies !(#[trigger] neighbor_at(h, k) matches Some(n) && tiles.contains(n)) by {
        if let Some(n) = neighbor_at(h, k) {
            if tiles.contains(n) {
                assert(tiles[0] == n);
            }
        }
    }
    reveal_with_fuel(open_sides, 7);
    assert(open_sides(tiles, h, 6).len() == 6);
}

} // verus!
