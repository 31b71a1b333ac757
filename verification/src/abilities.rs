//! Unlocks, the spore action and timed ability effects.
use vstd::prelude::*;

use crate::region::RegionId;

verus! {

/// The pool an unlock is drawn from.
#[derive(Clone, Copy, Debug, PartialEq, Eq, Hash, Structural)]
pub enum UnlockPool {
    Organic,
    Mineral,
    Ruins,
    Decomposition,
}

/// One offer of the unlock slot machine.
#[derive(Debug)]
pub struct UnlockOption {
    pub name: String,
    pub description: String,
    pub pool: UnlockPool,
}

/// Which offered mutation the player picked, if any.
#[derive(Clone, Copy, Debug, PartialEq, Eq, Structural)]
pub struct MutationSelection {
    pub selected_index: Option<usize>,
}

/// The spore action and its cooldown (in ticks).
#[derive(Clone, Copy, Debug, PartialEq, Eq, Structural)]
pub struct SporeAction {
    pub cooldown_remaining: u32,
    pub cooldown_max: u32,
    pub triggered: bool,
}

impl Default for SporeAction {
    /// Ready at once, with a ten-tick cooldown after use.
    fn default() -> (a: SporeAction)
        ensures
            a.cooldown_remaining == 0,
            a.cooldown_max == 10,
            !a.triggered,
    {
        SporeAction { cooldown_remaining: 0, cooldown_max: 10, triggered: false }
    }
}

#[derive(Clone, Copy, Debug, PartialEq, Eq, Hash, Structural)]
pub enum AbilityEffectType {
    DoubleNutrientProduction,
    StealBiomass,
    RevealRadius,
    DoubleTradeEnergy,
    KillFauna,
    InfiltrateRival,
    DoubleTransport,
    DoubleStudySpeed,
}

/// An ability effect running on a region for some more ticks.
#[derive(Clone, Copy, Debug, PartialEq, Eq, Structural)]
pub struct ActiveEffect {
    pub region_id: RegionId,
    pub effect_type: AbilityEffectType,
    pub ticks_remaining: u32,
}

/// All running ability effects.
#[derive(Debug)]
pub struct ActiveAbilityEffects {
    pub effects: Vec<ActiveEffect>,
}

} // verus!
