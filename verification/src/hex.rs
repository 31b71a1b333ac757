//! Axial hex coordinates: the six neighbour directions, the hex metric and
//! the discs it induces.
use vstd::prelude::*;

verus! {

/// A hex cell in axial coordinates (`x` = q, `y` = r).
#[derive(Clone, Copy, Debug, PartialEq, Eq, Hash, Structural)]
pub struct Hex {
    pub x: i32,
    pub y: i32,
}

/// Absolute value on mathematical integers.
pub open spec fn abs_int(v: int) -> int {
    if v < 0 {
        -v
    } else {
        v
    }
}

/// Number of unit steps between `a` and `b` on the hex lattice
/// (the cube metric written in axial coordinates).
pub open spec fn hex_distance(a: Hex, b: Hex) -> int {
    let dx = b.x - a.x;
    let dy = b.y - a.y;
    (abs_int(dx) + abs_int(dy) + abs_int(dx + dy)) / 2
}

/// The axial offset of neighbour direction `k` (0..6), counter-clockwise
/// starting from the `+x` side.
pub open spec fn direction_dx(k: int) -> int {
    if k == 0 {
        1
    } else if k == 1 {
        1
    } else if k == 2 {
        0
    } else if k == 3 {
        -1
    } else if k == 4 {
        -1
    } else {
        0
    }
}

pub open spec fn direction_dy(k: int) -> int {
    if k == 0 {
        0
    } else if k == 1 {
        -1
    } else if k == 2 {
        -1
    } else if k == 3 {
        0
    } else if k == 4 {
        1
    } else {
        1
    }
}

/// `b` lies one step from `a` in direction `k`.
pub open spec fn is_neighbor_in(a: Hex, b: Hex, k: int) -> bool {
    &&& 0 <= k < 6
    &&& b.x == a.x + direction_dx(k)
    &&& b.y == a.y + direction_dy(k)
}

/// `b` is one of the six hexes that share a side with `a`.
pub open spec fn is_neighbor(a: Hex, b: Hex) -> bool {
    exists|k: int| is_neighbor_in(a, b, k)
}

impl Hex {
    pub fn new(x: i32, y: i32) -> (h: Hex)
        ensures
            h.x == x,
            h.y == y,
    {
        Hex { x, y }
    }

    /// Coordinate equality, usable where a plain function is needed.
    pub fn same_as(&self, other: &Hex) -> (res: bool)
        ensures
            res <==> *self == *other,
    {
        self.x == other.x && self.y == other.y
    }

    /// Hex distance, widened so that it never overflows.
    pub fn distance_to(&self, other: &Hex) -> (d: u64)
        ensures
            d == hex_distance(*self, *other),
    {
        let dx: i64 = other.x as i64 - self.x as i64;
        let dy: i64 = other.y as i64 - self.y as i64;
        let dz: i64 = dx + dy;
        let ax: i64 = if dx < 0 { -dx } else { dx };
        let ay: i64 = if dy < 0 { -dy } else { dy };
        let az: i64 = if dz < 0 { -dz } else { dz };
        ((ax + ay + az) / 2) as u64
    }

    /// Hex distance as a `u32`, for distances that fit in one.
    pub fn unsigned_distance_to(&self, other: &Hex) -> (d: u32)
        requires
            hex_distance(*self, *other) <= u32::MAX,
        ensures
            d == hex_distance(*self, *other),
    {
        let d: u64 = self.distance_to(other);
        d as u32
    }

    /// The neighbour of `self` in direction `k`, or `None` where that
    /// neighbour's coordinates leave the `i32` range.
    pub fn neighbor(&self, k: usize) -> (res: Option<Hex>)
        requires
            k < 6,
        ensures
            match res {
                Some(n) => is_neighbor_in(*self, n, k as int),
                None => !(i32::MIN <= self.x + direction_dx(k as int) <= i32::MAX
                    && i32::MIN <= self.y + direction_dy(k as int) <= i32::MAX),
            },
    {
        let dx: i64 = if k == 0 || k == 1 {
            1
        } else if k == 2 || k == 5 {
            0
        } else {
            -1
        };
        let dy: i64 = if k == 0 || k == 3 {
            0
        } else if k == 1 || k == 2 {
            -1
        } else {
            1
        };
        let nx: i64 = self.x as i64 + dx;
        let ny: i64 = self.y as i64 + dy;
        if nx < i32::MIN as i64 || nx > i32::MAX as i64 || ny < i32::MIN as i64 || ny
            > i32::MAX as i64 {
            None
        } else {
            Some(Hex { x: nx as i32, y: ny as i32 })
        }
    }
}

/// The hex metric is symmetric and zero exactly on the diagonal.
pub proof fn lemma_distance_basics(a: Hex, b: Hex)
    ensures
        hex_distance(a, b) == hex_distance(b, a),
        hex_distance(a, b) >= 0,
        hex_distance(a, b) == 0 <==> a == b,
        abs_int(b.x - a.x) <= hex_distance(a, b),
        abs_int(b.y - a.y) <= hex_distance(a, b),
{
}

/// Each neighbour lies at distance exactly one.
pub proof fn lemma_neighbor_distance(a: Hex, b: Hex)
    requires
        is_neighbor(a, b),
    ensures
        hex_distance(a, b) == 1,
{
}

/// Triangle inequality of the hex metric.
pub proof fn lemma_distance_triangle(a: Hex, b: Hex, c: Hex)
    ensures
        hex_distance(a, c) <= hex_distance(a, b) + hex_distance(b, c),
{
}

} // verus!
