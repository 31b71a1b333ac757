//! Selecting tiles and steering the selected region.
use vstd::prelude::*;

use crate::components::SelectedRegion;
use crate::grid::GridWorld;
use crate::hex::Hex;
use crate::region::{RegionStates, SpecializationType};
use crate::tile::tile_owner;

verus! {

/// A confirmed tap (a short press without drag) on a tile.
#[derive(Clone, Copy, Debug, PartialEq, Eq, Structural)]
pub struct TileTapped {
    pub pos: Hex,
}

/// Applies this frame's taps to the selection. If several taps arrive in one
/// frame the last one wins; a tap off the map is ignored. A tap on a tile
/// selects that tile and the region that owns it (or no region).
pub fn selection_system(taps: &Vec<TileTapped>, grid: &GridWorld, selected: &mut SelectedRegion)
    ensures
        taps@.len() == 0 ==> *final(selected) == *old(selected),
        taps@.len() > 0 ==> {
            let pos = taps@[taps@.len() - 1].pos;
            &&& !grid@.contains_key(pos) ==> *final(selected) == *old(selected)
            &&& grid@.contains_key(pos) ==> *final(selected) == SelectedRegion {
                region_id: tile_owner(grid@[pos]),
                selected_pos: Some(pos),
            }
        },
{
    let n: usize = taps.len();
    if n == 0 {
        return;
    }
    let tap = taps[n - 1];
    match grid.get_tile(&tap.pos) {
        Some(tile) => {
            selected.selected_pos = Some(tap.pos);
            selected.region_id = tile.region_id();
        },
        None => {},
    }
}

/// The specialisation bound to digit key `i + 1`.
pub open spec fn digit_specialization(i: int) -> SpecializationType {
    if i == 0 {
        SpecializationType::Decomposer
    } else if i == 1 {
        SpecializationType::Parasite
    } else if i == 2 {
        SpecializationType::Symbiont
    } else if i == 3 {
        SpecializationType::Explorer
    } else if i == 4 {
        SpecializationType::Hunter
    } else if i == 5 {
        SpecializationType::Transporter
    } else if i == 6 {
        SpecializationType::Infiltrator
    } else {
        SpecializationType::Researcher
    }
}

fn specialization_for_digit(i: usize) -> (s: SpecializationType)
    requires
        i < 8,
    ensures
        s == digit_specialization(i as int),
{
    if i == 0 {
        SpecializationType::Decomposer
    } else if i == 1 {
        SpecializationType::Parasite
    } else if i == 2 {
        SpecializationType::Symbiont
    } else if i == 3 {
        SpecializationType::Explorer
    } else if i == 4 {
        SpecializationType::Hunter
    } else if i == 5 {
        SpecializationType::Transporter
    } else if i == 6 {
        SpecializationType::Infiltrator
    } else {
        SpecializationType::Researcher
    }
}

/// The lowest digit key pressed this frame (0-based), if any.
pub open spec fn first_pressed(pressed: Seq<bool>) -> Option<int> {
    if exists|i: int| 0 <= i < 8 && pressed[i] {
        Some(choose|i: int| 0 <= i < 8 && pressed[i] && forall|j: int| 0 <= j < i ==> !pressed[j])
    } else {
        None
    }
}

/// Keys 1-8 assign a target specialisation to the selected region; when
/// several are pressed in one frame the lowest digit wins. Nothing happens
/// without a pressed digit, a selected region, or when that region is gone.
pub fn specialization_input_system(
    digits_pressed: &[bool; 8],
    selected: &SelectedRegion,
    region_states: &mut RegionStates,
)
    ensures
        final(region_states).next_id() == old(region_states).next_id(),
        ({
            let first = first_pressed(digits_pressed@);
            if first is Some && selected.region_id is Some && old(region_states)@.contains_key(
                selected.region_id->Some_0,
            ) {
                let id = selected.region_id->Some_0;
                final(region_states)@ == old(region_states)@.insert(
                    id,
                    crate::region::RegionState {
                        target_specialization: Some(digit_specialization(first->Some_0)),
                        ..old(region_states)@[id]
                    },
                )
            } else {
                final(region_states)@ == old(region_states)@
            }
        }),
{
    let mut found: Option<usize> = None;
    let mut i: usize = 0;
    while i < 8
        invariant
            0 <= i <= 8,
            found is None ==> forall|j: int| 0 <= j < i ==> !digits_pressed@[j],
            found matches Some(f) ==> f < 8 && digits_pressed@[f as int] && forall|j: int|
                0 <= j < f ==> !digits_pressed@[j],
        decreases 8 - i,
    {
        if found.is_none() && digits_pressed[i] {
            found = Some(i);
        }
        i = i + 1;
    }
    let target = match found {
        Some(f) => {
            proof {
                let fi: int = f as int;
                assert(0 <= fi < 8 && digits_pressed@[fi]);
                let c = choose|k: int| 0 <= k < 8 && digits_pressed@[k] && forall|j: int|
                    0 <= j < k ==> !digits_pressed@[j];
                assert(c == fi) by {
                    if c < fi {
                        assert(!digits_pressed@[c]);
                    } else if c > fi {
                        assert(!digits_pressed@[fi]);
                    }
                }
            }
            specialization_for_digit(f)
        },
        None => {
            return;
        },
    };
    let rid = match selected.region_id {
        Some(r) => r,
        None => {
            return;
        },
    };
    match region_states.get_mut(rid) {
        Some(state) => {
            state.target_specialization = Some(target);
        },
        None => {},
    }
}

/// Digit key `k + 1` pressed on its own selects the `k`-th of Decomposer,
/// Parasite, Symbiont, Explorer, Hunter, Transporter, Infiltrator,
/// Researcher: key 1 is Decomposer, key 2 Parasite, and so on.
pub proof fn lemma_single_digit_key(pressed: Seq<bool>, k: int)
    requires
        pressed.len() == 8,
        0 <= k < 8,
        forall|j: int| 0 <= j < 8 ==> (pressed[j] <==> j == k),
    ensures
        first_pressed(pressed) == Some(k),
        digit_specialization(k) == seq![
            SpecializationType::Decomposer,
            SpecializationType::Parasite,
            SpecializationType::Symbiont,
            SpecializationType::Explorer,
            SpecializationType::Hunter,
            SpecializationType::Transporter,
            SpecializationType::Infiltrator,
            SpecializationType::Researcher,
        ][k],
{
    assert(pressed[k]);
    let c = choose|i: int| 0 <= i < 8 && pressed[i] && forall|j: int| 0 <= j < i ==> !pressed[j];
    assert(c == k);
}

/// The eight digit keys select eight different specialisations.
pub proof fn lemma_digit_keys_distinct(a: int, b: int)
    requires
        0 <= a < 8,
        0 <= b < 8,
        a != b,
    ensures
        digit_specialization(a) != digit_specialization(b),
{
}

} // verus!
