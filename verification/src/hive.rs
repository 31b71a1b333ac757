//! Hives follow the ownership of the tile they stand on.
use vstd::prelude::*;

use crate::components::Hive;
use crate::grid::GridWorld;
use crate::hex::Hex;
use crate::messages::HiveCaptured;
use crate::region::RegionId;
use crate::tile::{tile_owner, Tile};

verus! {

/// The region owning the tile at `pos`; `None` off the map or unowned.
pub open spec fn owner_at(g: Map<Hex, Tile>, pos: Hex) -> Option<RegionId> {
    if g.contains_key(pos) {
        tile_owner(g[pos])
    } else {
        None
    }
}

/// The capture message, if any, that one hive produces in one tick: a hive
/// whose tile changed hands to a network announces the new owner.
pub open spec fn capture_message(g: Map<Hex, Tile>, pos: Hex, hive: Hive) -> Seq<HiveCaptured> {
    let owner = owner_at(g, pos);
    if owner != hive.captured_by && owner is Some {
        seq![HiveCaptured { hive_pos: pos, region_id: owner->Some_0 }]
    } else {
        Seq::empty()
    }
}

/// All capture messages of one tick, in hive order.
pub open spec fn capture_messages(g: Map<Hex, Tile>, hives: Seq<(Hex, Hive)>) -> Seq<HiveCaptured>
    decreases hives.len(),
{
    if hives.len() == 0 {
        Seq::empty()
    } else {
        let last = hives[hives.len() - 1];
        capture_messages(g, hives.drop_last()) + capture_message(g, last.0, last.1)
    }
}

/// Every hive already records the owner of its tile.
pub open spec fn hives_settled(g: Map<Hex, Tile>, hives: Seq<(Hex, Hive)>) -> bool {
    forall|i: int| 0 <= i < hives.len() ==> (#[trigger] hives[i]).1.captured_by == owner_at(g, hives[i].0)
}

/// One tick of hive capture: each hive (with its position) takes the owner of
/// its tile; the returned messages announce every change to a network.
pub fn hive_capture_system(hives: &mut Vec<(Hex, Hive)>, grid: &GridWorld) -> (captured: Vec<HiveCaptured>)
    ensures
        final(hives)@.len() == old(hives)@.len(),
        forall|i: int| 0 <= i < old(hives)@.len() ==> (#[trigger] final(hives)@[i]).0 == old(hives)@[i].0,
        hives_settled(grid@, final(hives)@),
        captured@ == capture_messages(grid@, old(hives)@),
        captured@.len() == newly_captured_count(grid@, old(hives)@),
{
    let mut captured: Vec<HiveCaptured> = Vec::new();
    let mut i: usize = 0;
    while i < hives.len()
        invariant
            0 <= i <= hives@.len(),
            hives@.len() == old(hives)@.len(),
            forall|j: int| 0 <= j < hives@.len() ==> (#[trigger] hives@[j]).0 == old(hives)@[j].0,
            forall|j: int| i <= j < hives@.len() ==> (#[trigger] hives@[j]) == old(hives)@[j],
            forall|j: int| 0 <= j < i ==> (#[trigger] hives@[j]).1.captured_by == owner_at(grid@, hives@[j].0),
            captured@ == capture_messages(grid@, old(hives)@.subrange(0, i as int)),
        decreases hives@.len() - i,
    {
        let (pos, hive) = hives[i];
        let new_owner: Option<RegionId> = match grid.get_tile(&pos) {
            Some(t) => if t.is_owned() {
                t.region_id()
            } else {
                None
            },
            None => None,
        };
        if new_owner != hive.captured_by {
            match new_owner {
                Some(region_id) => {
                    captured.push(HiveCaptured { hive_pos: pos, region_id });
                },
                None => {},
            }
            hives.set(i, (pos, Hive { captured_by: new_owner }));
        }
        assert(old(hives)@.subrange(0, i + 1).drop_last() =~= old(hives)@.subrange(0, i as int));
        i = i + 1;
    }
    assert(old(hives)@.subrange(0, old(hives)@.len() as int) =~= old(hives)@);
    proof {
        lemma_capture_count(grid@, old(hives)@);
    }
    captured
}

/// A tick on settled hives announces nothing.
pub proof fn lemma_settled_hives_are_quiet(g: Map<Hex, Tile>, hives: Seq<(Hex, Hive)>)
    requires
        hives_settled(g, hives),
    ensures
        capture_messages(g, hives) == Seq::<HiveCaptured>::empty(),
    decreases hives.len(),
{
    if hives.len() > 0 {
        let rest = hives.drop_last();
        assert(hives_settled(g, rest)) by {
            assert forall|i: int| 0 <= i < rest.len() implies (#[trigger] rest[i]).1.captured_by
                == owner_at(g, rest[i].0) by {
                assert(rest[i] == hives[i]);
            }
        }
        lemma_settled_hives_are_quiet(g, rest);
        assert(hives[hives.len() - 1].1.captured_by == owner_at(g, hives[hives.len() - 1].0));
        assert(capture_messages(g, hives) =~= Seq::<HiveCaptured>::empty());
    }
}

/// One tick over a list of hives announces, in order, what a tick over each
/// part announces: the messages of `a + b` are those of `a` followed by
/// those of `b`. A single hive at `pos` announces one capture by the owner
/// of its tile exactly when that tile is owned and its owner differs from
/// the hive's record, and nothing otherwise.
pub proof fn lemma_capture_messages_compose(
    g: Map<Hex, Tile>,
    a: Seq<(Hex, Hive)>,
    b: Seq<(Hex, Hive)>,
)
    ensures
        capture_messages(g, a + b) == capture_messages(g, a) + capture_messages(g, b),
    decreases b.len(),
{
    if b.len() == 0 {
        assert(a + b =~= a);
        assert(capture_messages(g, a) + capture_messages(g, b) =~= capture_messages(g, a));
    } else {
        let ab = a + b;
        assert(ab.drop_last() =~= a + b.drop_last());
        assert(ab[ab.len() - 1] == b[b.len() - 1]);
        lemma_capture_messages_compose(g, a, b.drop_last());
        assert(capture_messages(g, a + b) =~= capture_messages(g, a) + capture_messages(g, b));
    }
}

/// What a single hive announces.
pub proof fn lemma_single_hive_message(g: Map<Hex, Tile>, pos: Hex, hive: Hive)
    ensures
        ({
            let msgs = capture_messages(g, seq![(pos, hive)]);
            &&& (g.contains_key(pos) && tile_owner(g[pos]) is Some && tile_owner(g[pos])
                != hive.captured_by) ==> msgs == seq![
                HiveCaptured { hive_pos: pos, region_id: tile_owner(g[pos])->Some_0 },
            ]
            &&& !(g.contains_key(pos) && tile_owner(g[pos]) is Some && tile_owner(g[pos])
                != hive.captured_by) ==> msgs.len() == 0
        }),
{
    let s = seq![(pos, hive)];
    assert(s.drop_last() =~= Seq::<(Hex, Hive)>::empty());
    assert(s[s.len() - 1] == (pos, hive));
    assert(capture_messages(g, s.drop_last()) == Seq::<HiveCaptured>::empty());
    assert(capture_messages(g, s) == capture_messages(g, s.drop_last()) + capture_message(g, pos, hive));
    assert(capture_messages(g, s) =~= capture_message(g, pos, hive));
}

/// The number of hives whose tile changed hands to a network.
pub open spec fn newly_captured_count(g: Map<Hex, Tile>, hives: Seq<(Hex, Hive)>) -> nat
    decreases hives.len(),
{
    if hives.len() == 0 {
        0
    } else {
        let (pos, hive) = hives[0];
        newly_captured_count(g, hives.drop_first()) + (if g.contains_key(pos) && tile_owner(g[pos])
            is Some && tile_owner(g[pos]) != hive.captured_by {
            1nat
        } else {
            0nat
        })
    }
}

/// A tick announces exactly one message per hive newly captured.
pub proof fn lemma_capture_count(g: Map<Hex, Tile>, hives: Seq<(Hex, Hive)>)
    ensures
        capture_messages(g, hives).len() == newly_captured_count(g, hives),
    decreases hives.len(),
{
    if hives.len() > 0 {
        let head = seq![hives[0]];
        let tail = hives.drop_first();
        assert(head + tail =~= hives);
        lemma_capture_messages_compose(g, head, tail);
        lemma_single_hive_message(g, hives[0].0, hives[0].1);
        lemma_capture_count(g, tail);
    }
}

} // verus!
