//! Regions (player networks) and the registry that hands out their ids.
use vstd::prelude::*;

verus! {

#[derive(Clone, Copy, Debug, PartialEq, Eq, Hash, Structural)]
pub struct RegionId(pub u32);

/// The specialisations a region can be steered towards.
#[derive(Clone, Copy, Debug, PartialEq, Eq, Hash, Structural)]
pub enum SpecializationType {
    Decomposer,
    Parasite,
    Symbiont,
    Explorer,
    Hunter,
    Transporter,
    Infiltrator,
    Researcher,
}

/// The discrete state of a region. Its continuous resources (nutrients,
/// energy, biomass) are kept beside it by the simulation, which starts a
/// new region at ten nutrients and no energy or biomass.
#[derive(Clone, Copy, Debug, PartialEq, Eq, Structural)]
pub struct RegionState {
    pub region_id: RegionId,
    pub tile_count: u32,
    pub target_specialization: Option<SpecializationType>,
}

/// The state a freshly created region starts in.
pub open spec fn initial_region_state(id: RegionId) -> RegionState {
    RegionState { region_id: id, tile_count: 0, target_specialization: None }
}

impl RegionState {
    pub fn new(id: RegionId) -> (s: RegionState)
        ensures
            s == initial_region_state(id),
    {
        RegionState { region_id: id, tile_count: 0, target_specialization: None }
    }
}

/// All regions, keyed by id. Ids are handed out in increasing order and
/// never reused: slot `i` holds region `i`, or `None` once it was removed.
#[derive(Debug)]
pub struct RegionStates {
    slots: Vec<Option<RegionState>>,
}

impl View for RegionStates {
    type V = Map<RegionId, RegionState>;

    /// The live regions.
    closed spec fn view(&self) -> Map<RegionId, RegionState> {
        Map::new(
            |id: RegionId| 0 <= id.0 < self.slots@.len() && self.slots@[id.0 as int] is Some,
            |id: RegionId| self.slots@[id.0 as int]->Some_0,
        )
    }
}

impl RegionStates {
    /// The id the next created region receives.
    pub closed spec fn next_id(&self) -> nat {
        self.slots@.len()
    }

    /// Every live region has an id below the next one to be handed out, so
    /// `create_region` (which hands out `next_id` and raises it, while no
    /// other operation lowers it) never hands out an id twice.
    pub proof fn lemma_ids_below_next(&self, id: RegionId)
        requires
            self@.contains_key(id),
        ensures
            id.0 < self.next_id(),
    {
    }

    pub fn new() -> (r: RegionStates)
        ensures
            r@ == Map::<RegionId, RegionState>::empty(),
            r.next_id() == 0,
    {
        let r = RegionStates { slots: Vec::new() };
        assert(r@ =~= Map::<RegionId, RegionState>::empty());
        r
    }

    /// Register a new region and return its id.
    pub fn create_region(&mut self) -> (id: RegionId)
        requires
            old(self).next_id() < u32::MAX,
        ensures
            id.0 == old(self).next_id(),
            !old(self)@.contains_key(id),
            final(self).next_id() == old(self).next_id() + 1,
            final(self)@ == old(self)@.insert(id, initial_region_state(id)),
    {
        let n: usize = self.slots.len();
        let id = RegionId(n as u32);
        self.slots.push(Some(RegionState::new(id)));
        assert(self@ =~= old(self)@.insert(id, initial_region_state(id)));
        id
    }

    pub fn get(&self, id: RegionId) -> (res: Option<&RegionState>)
        ensures
            match res {
                Some(s) => self@.contains_key(id) && *s == self@[id],
                None => !self@.contains_key(id),
            },
    {
        let i: usize = id.0 as usize;
        if i < self.slots.len() {
            match &self.slots[i] {
                Some(s) => Some(s),
                None => None,
            }
        } else {
            None
        }
    }

    /// Mutable access to the state of a live region.
    pub fn get_mut(&mut self, id: RegionId) -> (res: Option<&mut RegionState>)
        ensures
            final(self).next_id() == old(self).next_id(),
            match res {
                Some(s) => {
                    &&& old(self)@.contains_key(id)
                    &&& *s == old(self)@[id]
                    &&& final(self)@ == old(self)@.insert(id, *final(s))
                },
                None => !old(self)@.contains_key(id) && final(self)@ == old(self)@,
            },
    {
        let i: usize = id.0 as usize;
        if i < self.slots.len() {
            match &mut self.slots[i] {
                Some(s) => Some(s),
                None => None,
            }
        } else {
            None
        }
    }

    /// Replace the state of a live region; returns whether it was live.
    pub fn update(&mut self, id: RegionId, state: RegionState) -> (found: bool)
        ensures
            found == old(self)@.contains_key(id),
            final(self).next_id() == old(self).next_id(),
            found ==> final(self)@ == old(self)@.insert(id, state),
            !found ==> final(self)@ == old(self)@,
    {
        let i: usize = id.0 as usize;
        if i < self.slots.len() && self.slots[i].is_some() {
            self.slots.set(i, Some(state));
            assert(self@ =~= old(self)@.insert(id, state));
            true
        } else {
            false
        }
    }

    /// Drop a region, returning its last state.
    pub fn remove(&mut self, id: RegionId) -> (res: Option<RegionState>)
        ensures
            final(self).next_id() == old(self).next_id(),
            final(self)@ == old(self)@.remove(id),
            match res {
                Some(s) => old(self)@.contains_key(id) && s == old(self)@[id],
                None => !old(self)@.contains_key(id),
            },
    {
        let i: usize = id.0 as usize;
        if i < self.slots.len() {
            let prev = self.slots[i];
            self.slots.set(i, None);
            assert(self@ =~= old(self)@.remove(id));
            prev
        } else {
            assert(self@ =~= old(self)@.remove(id));
            None
        }
    }
}

/// Reading back: right after `create_region` returned `id`, the registry
/// holds `id` in its initial state and every other region as before; right
/// after `remove(id)`, it no longer holds `id` and every other region is
/// untouched.
pub proof fn lemma_read_back(
    before: Map<RegionId, RegionState>,
    created: Map<RegionId, RegionState>,
    removed: Map<RegionId, RegionState>,
    id: RegionId,
    other: RegionId,
)
    requires
        created == before.insert(id, initial_region_state(id)),
        removed == before.remove(id),
        other != id,
    ensures
        created.contains_key(id),
        created[id] == initial_region_state(id),
        created[id].region_id == id,
        created.contains_key(other) == before.contains_key(other),
        before.contains_key(other) ==> created[other] == before[other],
        !removed.contains_key(id),
        removed.contains_key(other) == before.contains_key(other),
        before.contains_key(other) ==> removed[other] == before[other],
{
}

} // verus!
