//! Launch configuration: the world seed.
use vstd::prelude::*;

verus! {

/// The fixed seed of development builds, so that every run sees the same map.
pub const DEVELOPMENT_SEED: u64 = 420;

/// `rand::random::<u64>()`: a draw from the thread-local generator that
/// `rand::rng()` returns. Nothing is promised of the value.
#[verifier::external_body]
fn random_u64() -> u64 {
    rand::random::<u64>()
}

/// The seed a launch uses when none is given: the fixed development seed in
/// a debug build, a random one otherwise.
pub fn default_seed(debug_build: bool) -> (seed: u64)
    ensures
        debug_build ==> seed == DEVELOPMENT_SEED,
{
    if debug_build {
        DEVELOPMENT_SEED
    } else {
        random_u64()
    }
}

#[derive(Clone, Copy, Debug, PartialEq, Eq, Structural)]
pub struct LaunchConfig {
    pub seed: u64,
}

impl LaunchConfig {
    /// The configuration of a launch without options, for a debug or a
    /// release build.
    pub fn for_build(debug_build: bool) -> (c: LaunchConfig)
        ensures
            debug_build ==> c.seed == DEVELOPMENT_SEED,
    {
        LaunchConfig { seed: default_seed(debug_build) }
    }

    /// The configuration with an explicitly chosen seed, or the default one.
    pub fn with_seed(seed: Option<u64>, debug_build: bool) -> (c: LaunchConfig)
        ensures
            seed matches Some(s) ==> c.seed == s,
            seed is None && debug_build ==> c.seed == DEVELOPMENT_SEED,
    {
        match seed {
            Some(s) => LaunchConfig { seed: s },
            None => LaunchConfig::for_build(debug_build),
        }
    }
}

} // verus!
