//! Simulation speed, its keyboard controls, game phases and the victory rule.
use vstd::prelude::*;

verus! {

#[derive(Clone, Copy, Debug, PartialEq, Eq, Hash, Structural)]
pub enum SimulationSpeed {
    Paused,
    Normal,
    Fast,
    Fastest,
}

/// Position of a speed on the dial, `Paused` lowest.
pub open spec fn speed_rank(s: SimulationSpeed) -> int {
    match s {
        SimulationSpeed::Paused => 0,
        SimulationSpeed::Normal => 1,
        SimulationSpeed::Fast => 2,
        SimulationSpeed::Fastest => 3,
    }
}

/// Milliseconds between simulation ticks at each speed (a paused game keeps
/// the normal interval).
pub open spec fn spec_tick_millis(s: SimulationSpeed) -> u32 {
    match s {
        SimulationSpeed::Paused => 1000,
        SimulationSpeed::Normal => 1000,
        SimulationSpeed::Fast => 500,
        SimulationSpeed::Fastest => 250,
    }
}

pub open spec fn spec_cycle_next(s: SimulationSpeed) -> SimulationSpeed {
    match s {
        SimulationSpeed::Paused => SimulationSpeed::Normal,
        SimulationSpeed::Normal => SimulationSpeed::Fast,
        SimulationSpeed::Fast => SimulationSpeed::Fastest,
        SimulationSpeed::Fastest => SimulationSpeed::Paused,
    }
}

pub open spec fn spec_speed_up(s: SimulationSpeed) -> SimulationSpeed {
    match s {
        SimulationSpeed::Paused => SimulationSpeed::Normal,
        SimulationSpeed::Normal => SimulationSpeed::Fast,
        SimulationSpeed::Fast | SimulationSpeed::Fastest => SimulationSpeed::Fastest,
    }
}

pub open spec fn spec_slow_down(s: SimulationSpeed) -> SimulationSpeed {
    match s {
        SimulationSpeed::Paused | SimulationSpeed::Normal => SimulationSpeed::Paused,
        SimulationSpeed::Fast => SimulationSpeed::Normal,
        SimulationSpeed::Fastest => SimulationSpeed::Fast,
    }
}

pub open spec fn spec_label(s: SimulationSpeed) -> Seq<char> {
    match s {
        SimulationSpeed::Paused => "\u{23f8} Paused"@,
        SimulationSpeed::Normal => "\u{25b6} 1x"@,
        SimulationSpeed::Fast => "\u{25b6}\u{25b6} 2x"@,
        SimulationSpeed::Fastest => "\u{25b6}\u{25b6}\u{25b6} 4x"@,
    }
}

impl SimulationSpeed {
    /// The speed a new game starts at.
    pub fn default_speed() -> (s: SimulationSpeed)
        ensures
            s == SimulationSpeed::Normal,
    {
        SimulationSpeed::Normal
    }

    /// Tick interval in milliseconds.
    pub fn tick_millis(self) -> (ms: u32)
        ensures
            ms == spec_tick_millis(self),
    {
        match self {
            SimulationSpeed::Paused => 1000,
            SimulationSpeed::Normal => 1000,
            SimulationSpeed::Fast => 500,
            SimulationSpeed::Fastest => 250,
        }
    }

    pub fn is_paused(self) -> (res: bool)
        ensures
            res == (self == SimulationSpeed::Paused),
    {
        matches!(self, SimulationSpeed::Paused)
    }

    pub fn cycle_next(self) -> (s: SimulationSpeed)
        ensures
            s == spec_cycle_next(self),
    {
        match self {
            SimulationSpeed::Paused => SimulationSpeed::Normal,
            SimulationSpeed::Normal => SimulationSpeed::Fast,
            SimulationSpeed::Fast => SimulationSpeed::Fastest,
            SimulationSpeed::Fastest => SimulationSpeed::Paused,
        }
    }

    pub fn speed_up(self) -> (s: SimulationSpeed)
        ensures
            s == spec_speed_up(self),
    {
        match self {
            SimulationSpeed::Paused => SimulationSpeed::Normal,
            SimulationSpeed::Normal => SimulationSpeed::Fast,
            SimulationSpeed::Fast | SimulationSpeed::Fastest => SimulationSpeed::Fastest,
        }
    }

    pub fn slow_down(self) -> (s: SimulationSpeed)
        ensures
            s == spec_slow_down(self),
    {
        match self {
            SimulationSpeed::Paused | SimulationSpeed::Normal => SimulationSpeed::Paused,
            SimulationSpeed::Fast => SimulationSpeed::Normal,
            SimulationSpeed::Fastest => SimulationSpeed::Fast,
        }
    }

    pub fn label(self) -> (s: &'static str)
        ensures
            s@ == spec_label(self),
    {
        match self {
            SimulationSpeed::Paused => "\u{23f8} Paused",
            SimulationSpeed::Normal => "\u{25b6} 1x",
            SimulationSpeed::Fast => "\u{25b6}\u{25b6} 2x",
            SimulationSpeed::Fastest => "\u{25b6}\u{25b6}\u{25b6} 4x",
        }
    }
}

/// Cycling through the dial comes back after four presses.
pub proof fn lemma_cycle_has_period_four(s: SimulationSpeed)
    ensures
        spec_cycle_next(spec_cycle_next(spec_cycle_next(spec_cycle_next(s)))) == s,
        spec_cycle_next(s) != s,
{
}

/// Speeding up never lowers the speed and never pauses; slowing down never
/// raises it; each undoes the other away from the ends of the dial.
pub proof fn lemma_speed_steps(s: SimulationSpeed)
    ensures
        speed_rank(spec_speed_up(s)) >= speed_rank(s),
        speed_rank(spec_slow_down(s)) <= speed_rank(s),
        spec_speed_up(s) != SimulationSpeed::Paused,
        s != SimulationSpeed::Fastest ==> spec_slow_down(spec_speed_up(s)) == s,
        s != SimulationSpeed::Paused ==> spec_speed_up(spec_slow_down(s)) == s,
        s == SimulationSpeed::Fastest ==> spec_speed_up(s) == s,
        s == SimulationSpeed::Paused ==> spec_slow_down(s) == s,
{
}

/// The speed keys pressed during one frame.
#[derive(Clone, Copy, Debug, PartialEq, Eq, Structural)]
pub struct SpeedKeys {
    pub toggle_pause: bool,
    pub speed_up: bool,
    pub slow_down: bool,
}

/// The speed after applying the frame's key presses in order: pause toggle,
/// then speed up, then slow down.
pub open spec fn speed_after_keys(s: SimulationSpeed, keys: SpeedKeys) -> SimulationSpeed {
    let s1 = if keys.toggle_pause {
        if s == SimulationSpeed::Paused {
            SimulationSpeed::Normal
        } else {
            SimulationSpeed::Paused
        }
    } else {
        s
    };
    let s2 = if keys.speed_up {
        spec_speed_up(s1)
    } else {
        s1
    };
    if keys.slow_down {
        spec_slow_down(s2)
    } else {
        s2
    }
}

/// The tick interval to install after the keys of one frame: one is
/// installed when some key was pressed and the game is left running.
pub open spec fn timer_reset_after_keys(s: SimulationSpeed, keys: SpeedKeys) -> Option<u32> {
    let next = speed_after_keys(s, keys);
    if (keys.toggle_pause || keys.speed_up || keys.slow_down) && next != SimulationSpeed::Paused {
        Some(spec_tick_millis(next))
    } else {
        None
    }
}

/// Applies the speed keys pressed this frame to `speed`; returns the tick
/// interval (milliseconds) the tick timer must be set to, if any.
pub fn speed_input_system(keys: SpeedKeys, speed: &mut SimulationSpeed) -> (reset: Option<u32>)
    ensures
        *final(speed) == speed_after_keys(*old(speed), keys),
        reset == timer_reset_after_keys(*old(speed), keys),
{
    let mut changed = false;
    if keys.toggle_pause {
        *speed = if speed.is_paused() {
            SimulationSpeed::Normal
        } else {
            SimulationSpeed::Paused
        };
        changed = true;
    }
    if keys.speed_up {
        *speed = speed.speed_up();
        changed = true;
    }
    if keys.slow_down {
        *speed = speed.slow_down();
        changed = true;
    }
    if changed && !speed.is_paused() {
        Some(speed.tick_millis())
    } else {
        None
    }
}

/// Pressing the pause toggle twice resumes a paused game at normal speed,
/// and pauses a running game and then resumes it at normal speed.
pub proof fn lemma_toggle_twice(s: SimulationSpeed)
    ensures
        ({
            let toggle = SpeedKeys { toggle_pause: true, speed_up: false, slow_down: false };
            let once = speed_after_keys(s, toggle);
            &&& (s == SimulationSpeed::Paused ==> once == SimulationSpeed::Normal)
            &&& (s != SimulationSpeed::Paused ==> once == SimulationSpeed::Paused)
            &&& speed_after_keys(once, toggle) == (if s == SimulationSpeed::Paused {
                SimulationSpeed::Paused
            } else {
                SimulationSpeed::Normal
            })
        }),
{
}

/// A frame without speed keys changes nothing and never touches the timer.
pub proof fn lemma_no_keys_no_change(s: SimulationSpeed)
    ensures
        ({
            let none = SpeedKeys { toggle_pause: false, speed_up: false, slow_down: false };
            speed_after_keys(s, none) == s && timer_reset_after_keys(s, none) is None
        }),
{
}

#[derive(Clone, Copy, Debug, PartialEq, Eq, Hash, Structural)]
pub enum GamePhase {
    Title,
    Playing,
    Victory,
    Defeat,
    Restarting,
}

impl GamePhase {
    /// A new session starts on the title screen.
    pub fn default_phase() -> (p: GamePhase)
        ensures
            p == GamePhase::Title,
    {
        GamePhase::Title
    }
}

#[derive(Clone, Copy, Debug, PartialEq, Eq, Structural)]
pub struct GameState {
    pub turn: u32,
    pub paused: bool,
    pub fragments_total: u32,
    pub fragments_fused: u32,
    pub mushrooms_fruited: u32,
    pub mushrooms_required: u32,
}

/// The game is won once every fragment is fused and enough mushrooms have
/// fruited, provided the map has fragments at all.
pub open spec fn spec_victory(g: GameState) -> bool {
    &&& g.fragments_fused >= g.fragments_total
    &&& g.mushrooms_fruited >= g.mushrooms_required
    &&& g.fragments_total > 0
}

impl GameState {
    pub fn new() -> (g: GameState)
        ensures
            g.turn == 0 && !g.paused && g.fragments_total == 0 && g.fragments_fused == 0
                && g.mushrooms_fruited == 0 && g.mushrooms_required == 0,
    {
        GameState {
            turn: 0,
            paused: false,
            fragments_total: 0,
            fragments_fused: 0,
            mushrooms_fruited: 0,
            mushrooms_required: 0,
        }
    }

    pub fn victory(&self) -> (won: bool)
        ensures
            won == spec_victory(*self),
    {
        self.fragments_fused >= self.fragments_total && self.mushrooms_fruited
            >= self.mushrooms_required && self.fragments_total > 0
    }
}

/// A map without fragments can never be won, whatever else holds.
pub proof fn lemma_no_victory_without_fragments(g: GameState)
    requires
        g.fragments_total == 0,
    ensures
        !spec_victory(g),
{
}

/// Whether on-screen hints are shown; they start visible.
#[derive(Clone, Copy, Debug, PartialEq, Eq, Structural)]
pub struct HintsVisible(pub bool);

impl Default for HintsVisible {
    fn default() -> (h: HintsVisible)
        ensures
            h.0,
    {
        HintsVisible(true)
    }
}

} // verus!
