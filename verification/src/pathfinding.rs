//! Shortest walks across passable terrain, found with the A* search of the
//! `pathfinding` crate.
use vstd::prelude::*;

use crate::grid::{passable_step, GridWorld};
use crate::hex::{hex_distance, lemma_distance_triangle, lemma_neighbor_distance, Hex};
use crate::tile::{terrain_passable, Tile};

verus! {

/// `r` is a walk from `start` to `goal` in which every step enters a
/// neighbouring passable cell of the map (`start` itself may be anything).
pub open spec fn is_route(g: Map<Hex, Tile>, r: Seq<Hex>, start: Hex, goal: Hex) -> bool {
    &&& r.len() >= 1
    &&& r[0] == start
    &&& r[r.len() - 1] == goal
    &&& forall|i: int| #![trigger r[i]] 0 < i < r.len() ==> passable_step(g, r[i - 1], r[i])
}

/// `goal` can be reached from `start` at all.
pub open spec fn reachable(g: Map<Hex, Tile>, start: Hex, goal: Hex) -> bool {
    exists|r: Seq<Hex>| is_route(g, r, start, goal)
}

/// `r` is a route of the fewest steps.
pub open spec fn is_shortest_route(g: Map<Hex, Tile>, r: Seq<Hex>, start: Hex, goal: Hex) -> bool {
    &&& is_route(g, r, start, goal)
    &&& forall|q: Seq<Hex>| is_route(g, q, start, goal) ==> r.len() <= q.len()
}

/// A cell a unit may end its move on.
pub open spec fn cell_passable(g: Map<Hex, Tile>, h: Hex) -> bool {
    g.contains_key(h) && terrain_passable(g[h].terrain)
}

/// The hex distance never exceeds the number of steps of a route, so it is
/// an admissible estimate of the remaining cost; and it drops by at most one
/// per step, so it is also consistent.
pub proof fn lemma_distance_bounds_route(g: Map<Hex, Tile>, r: Seq<Hex>, start: Hex, goal: Hex)
    requires
        is_route(g, r, start, goal),
    ensures
        hex_distance(start, goal) <= r.len() - 1,
    decreases r.len(),
{
    if r.len() > 1 {
        let rest = r.drop_first();
        assert(passable_step(g, r[0], r[1]));
        assert forall|i: int| #![trigger rest[i]] 0 < i < rest.len() implies passable_step(
            g,
            rest[i - 1],
            rest[i],
        ) by {
            assert(passable_step(g, r[i], r[i + 1]));
        }
        lemma_distance_bounds_route(g, rest, r[1], goal);
        lemma_neighbor_distance(r[0], r[1]);
        lemma_distance_triangle(start, r[1], goal);
    }
}

/// Consistency of the estimate along a single step.
pub proof fn lemma_distance_consistent(g: Map<Hex, Tile>, a: Hex, b: Hex, goal: Hex)
    requires
        passable_step(g, a, b),
    ensures
        hex_distance(a, goal) <= 1 + hex_distance(b, goal),
{
    lemma_neighbor_distance(a, b);
    lemma_distance_triangle(a, b, goal);
}

/// A shortest route never comes back to its start: only its first cell is
/// `start`, and it is non-trivial whenever `start != goal`.
pub proof fn lemma_shortest_route_leaves_start(g: Map<Hex, Tile>, r: Seq<Hex>, start: Hex, goal: Hex)
    requires
        is_shortest_route(g, r, start, goal),
    ensures
        forall|i: int| 1 <= i < r.len() ==> r[i] != start,
        start != goal ==> r.len() >= 2,
{
    assert forall|i: int| 1 <= i < r.len() implies r[i] != start by {
        if r[i] == start {
            let q = r.subrange(i, r.len() as int);
            assert forall|k: int| #![trigger q[k]] 0 < k < q.len() implies passable_step(
                g,
                q[k - 1],
                q[k],
            ) by {
                assert(q[k] == r[i + k]);
                assert(q[k - 1] == r[i + k - 1]);
            }
            assert(is_route(g, q, start, goal));
        }
    }
}

/// `pathfinding::directed::astar::astar`, run from `start` over the passable
/// steps of the map with the hex distance to `goal` as estimate (admissible
/// and consistent, see above) and arrival at `goal` as success.
/// As the crate documents it, it returns a route of least total cost from
/// `start` to `goal`, start and end included, with that cost, or `None` when
/// no route exists. Every step costs one, so the cost is the number of steps.
#[verifier::external_body]
fn astar_route(start: &Hex, goal: &Hex, grid: &GridWorld) -> (res: Option<(Vec<Hex>, u64)>)
    ensures
        match res {
            Some((p, cost)) => is_shortest_route(grid@, p@, *start, *goal) && cost == p@.len()
                - 1,
            None => !reachable(grid@, *start, *goal),
        },
{
    pathfinding::prelude::astar(
        start,
        |p: &Hex| grid.passable_steps(p),
        |p: &Hex| p.distance_to(goal),
        |p: &Hex| p.same_as(goal),
    )
}

/// A* over the hex grid: the hexes to traverse from `start` (exclusive) to
/// `goal` (inclusive), or `None` when `goal` is unreachable, impassable or
/// the unit already stands on it. Passable means passable terrain, the same
/// rule that founding uses.
pub fn find_path(start: Hex, goal: Hex, grid: &GridWorld) -> (res: Option<Vec<Hex>>)
    ensures
        start == goal || !cell_passable(grid@, goal) ==> res is None,
        start != goal && cell_passable(grid@, goal) ==> match res {
            Some(p) => is_shortest_route(grid@, seq![start] + p@, start, goal),
            None => !reachable(grid@, start, goal),
        },
        res matches Some(p) ==> p@.len() >= 1 && p@[p@.len() - 1] == goal && !p@.contains(start),
{
    if start.same_as(&goal) {
        return None;
    }
    match grid.get_tile(&goal) {
        None => {
            return None;
        },
        Some(t) => {
            if !t.terrain.is_passable() {
                return None;
            }
        },
    }
    match astar_route(&start, &goal, grid) {
        None => None,
        Some((route, _cost)) => {
            // The unit already stands on `route[0]`; the move order is the rest.
            let mut path: Vec<Hex> = Vec::new();
            let mut i: usize = 1;
            while i < route.len()
                invariant
                    1 <= i <= route@.len(),
                    path@ == route@.subrange(1, i as int),
                decreases route@.len() - i,
            {
                path.push(route[i]);
                i = i + 1;
            }
            assert(seq![start] + path@ =~= route@);
            proof {
                lemma_shortest_route_leaves_start(grid@, route@, start, goal);
                assert forall|j: int| 0 <= j < path@.len() implies path@[j] != start by {
                    assert(path@[j] == route@[j + 1]);
                }
            }
            Some(path)
        },
    }
}

/// A ruin (like soil, roots or the surface) is a cell a path may end on.
pub proof fn lemma_ruin_is_walkable(g: Map<Hex, Tile>, h: Hex)
    requires
        g.contains_key(h),
        g[h].terrain == crate::tile::TerrainType::Ruin,
    ensures
        cell_passable(g, h),
{
}

} // verus!
