//! The "wisp": one mouse button that either taps a tile or paints steering
//! strokes across the network. This is its state machine; the pointer
//! geometry (distances and timings in screen space) is judged by the caller,
//! which hands in the verdicts as flags.
use vstd::prelude::*;

use crate::hex::{hex_distance, Hex};
use crate::tile::{tile_owner, Tile};

verus! {

/// Where the wisp is in a gesture. `S` is a pointer sample: where the
/// cursor was and when.
#[derive(Clone, Copy, Debug)]
pub enum WispPhase<S> {
    /// No gesture in progress.
    Idle,
    /// The button went down at `start`; tap or stroke is not decided yet.
    Primed { start: S },
    /// A stroke is being painted; `last_sample` is its latest point.
    Stroking { last_sample: S },
}

/// One frame of pointer input, with the caller's geometric verdicts about
/// the current cursor sample relative to the sample the phase holds.
#[derive(Clone, Copy, Debug)]
pub struct WispInput<S> {
    /// The game is in the playing phase.
    pub playing: bool,
    /// The pointer is over an interactive UI element.
    pub ui_busy: bool,
    /// The cursor sample, when the cursor is over the world.
    pub cursor: Option<S>,
    pub pressed: bool,
    pub just_pressed: bool,
    pub just_released: bool,
    /// The release counts as a tap: close to the primed start and quick.
    pub within_tap: bool,
    /// The cursor has left the drag threshold around the primed start.
    pub beyond_drag: bool,
    /// Enough time or distance has passed since the last stroke sample.
    pub sample_due: bool,
}

/// What the caller must do after a step.
#[derive(Clone, Copy, Debug)]
pub enum WispAction<S> {
    Nothing,
    /// Emit a tap on the tile under this sample.
    Tap(S),
    /// Refresh the owned set and paint a stroke segment between the samples.
    Paint { from: S, to: S },
}

/// The next phase and action of the wisp.
pub open spec fn wisp_transition<S>(phase: WispPhase<S>, input: WispInput<S>) -> (WispPhase<S>, WispAction<S>) {
    if !input.playing {
        (WispPhase::Idle, WispAction::Nothing)
    } else if input.ui_busy || input.cursor is None || (!input.pressed && !input.just_pressed
        && !input.just_released) {
        (phase, WispAction::Nothing)
    } else {
        let cursor = input.cursor->Some_0;
        match phase {
            WispPhase::Idle => if input.just_pressed {
                (WispPhase::Primed { start: cursor }, WispAction::Nothing)
            } else {
                (WispPhase::Idle, WispAction::Nothing)
            },
            WispPhase::Primed { start } => if input.just_released {
                if input.within_tap {
                    (WispPhase::Idle, WispAction::Tap(start))
                } else {
                    (WispPhase::Idle, WispAction::Nothing)
                }
            } else if input.pressed && input.beyond_drag {
                (WispPhase::Stroking { last_sample: cursor }, WispAction::Paint { from: start, to: cursor })
            } else {
                (phase, WispAction::Nothing)
            },
            WispPhase::Stroking { last_sample } => if input.just_released {
                (WispPhase::Idle, WispAction::Nothing)
            } else if input.pressed {
                if input.sample_due {
                    (
                        WispPhase::Stroking { last_sample: cursor },
                        WispAction::Paint { from: last_sample, to: cursor },
                    )
                } else {
                    (phase, WispAction::Nothing)
                }
            } else {
                (WispPhase::Idle, WispAction::Nothing)
            },
        }
    }
}

/// Advances the wisp by one frame and returns what must be done.
pub fn wisp_input_system<S: Copy>(phase: &mut WispPhase<S>, input: &WispInput<S>) -> (action: WispAction<S>)
    ensures
        (*final(phase), action) == wisp_transition(*old(phase), *input),
{
    if !input.playing {
        *phase = WispPhase::Idle;
        return WispAction::Nothing;
    }
    if input.ui_busy {
        return WispAction::Nothing;
    }
    let cursor = match input.cursor {
        Some(c) => c,
        None => {
            return WispAction::Nothing;
        },
    };
    if !input.pressed && !input.just_pressed && !input.just_released {
        return WispAction::Nothing;
    }
    match *phase {
        WispPhase::Idle => {
            if input.just_pressed {
                *phase = WispPhase::Primed { start: cursor };
            }
            WispAction::Nothing
        },
        WispPhase::Primed { start } => {
            if input.just_released {
                *phase = WispPhase::Idle;
                if input.within_tap {
                    WispAction::Tap(start)
                } else {
                    WispAction::Nothing
                }
            } else if input.pressed && input.beyond_drag {
                *phase = WispPhase::Stroking { last_sample: cursor };
                WispAction::Paint { from: start, to: cursor }
            } else {
                WispAction::Nothing
            }
        },
        WispPhase::Stroking { last_sample } => {
            if input.just_released {
                *phase = WispPhase::Idle;
                WispAction::Nothing
            } else if input.pressed {
                if input.sample_due {
                    *phase = WispPhase::Stroking { last_sample: cursor };
                    WispAction::Paint { from: last_sample, to: cursor }
                } else {
                    WispAction::Nothing
                }
            } else {
                *phase = WispPhase::Idle;
                WispAction::Nothing
            }
        },
    }
}

/// Gesture laws: leaving the playing phase resets the wisp; a handled
/// release ends the gesture in progress; taps come only from a primed press
/// being released, and painting only while the button is held, leaving the
/// wisp stroking from the newest sample.
pub proof fn lemma_wisp_gestures<S>(phase: WispPhase<S>, input: WispInput<S>)
    ensures
        ({
            let (next, action) = wisp_transition(phase, input);
            &&& !input.playing ==> next is Idle && action is Nothing
            &&& (input.playing && !input.ui_busy && input.cursor is Some && input.just_released
                && !(phase is Idle)) ==> next is Idle
            &&& action is Tap ==> phase is Primed && input.just_released && input.within_tap
                && action->Tap_0 == phase->start
            &&& action is Paint ==> input.pressed && !input.just_released && next is Stroking
                && next->last_sample == input.cursor->Some_0 && action->to == input.cursor->Some_0
        }),
{
}

/// The positions of the tiles owned by some network, in the given order.
pub open spec fn owned_positions(tiles: Seq<(Hex, Tile)>) -> Seq<Hex>
    decreases tiles.len(),
{
    if tiles.len() == 0 {
        Seq::empty()
    } else {
        let last = tiles[tiles.len() - 1];
        let prev = owned_positions(tiles.drop_last());
        if tile_owner(last.1) is Some {
            prev.push(last.0)
        } else {
            prev
        }
    }
}

/// The wisp's state between frames: its gesture phase and the owned cells
/// it last saw.
#[derive(Debug)]
pub struct WispState<S> {
    pub phase: WispPhase<S>,
    pub owned: Vec<Hex>,
}

impl<S> WispState<S> {
    /// Idle, with no owned cells seen yet.
    pub fn new() -> (w: WispState<S>)
        ensures
            w.phase is Idle,
            w.owned@.len() == 0,
    {
        WispState { phase: WispPhase::Idle, owned: Vec::new() }
    }
}

/// Replaces `owned` by the positions of the owned tiles.
pub fn refresh_owned(owned: &mut Vec<Hex>, tiles: &Vec<(Hex, Tile)>)
    ensures
        final(owned)@ == owned_positions(tiles@),
{
    owned.clear();
    let mut i: usize = 0;
    while i < tiles.len()
        invariant
            0 <= i <= tiles@.len(),
            owned@ == owned_positions(tiles@.subrange(0, i as int)),
        decreases tiles@.len() - i,
    {
        let (pos, tile) = tiles[i];
        if tile.is_owned() {
            owned.push(pos);
        }
        assert(tiles@.subrange(0, i + 1).drop_last() =~= tiles@.subrange(0, i as int));
        i = i + 1;
    }
    assert(tiles@.subrange(0, tiles@.len() as int) =~= tiles@);
}

/// `d` is the distance from `hex` to the nearest of `owned`.
pub open spec fn is_nearest_distance(hex: Hex, owned: Seq<Hex>, d: int) -> bool {
    &&& exists|i: int| 0 <= i < owned.len() && hex_distance(hex, #[trigger] owned[i]) == d
    &&& forall|i: int| 0 <= i < owned.len() ==> d <= hex_distance(hex, #[trigger] owned[i])
}

/// Distance from `hex` to the nearest owned cell; `None` when none is owned.
pub fn nearest_owned_distance(hex: &Hex, owned: &Vec<Hex>) -> (res: Option<u64>)
    ensures
        owned@.len() == 0 <==> res is None,
        res matches Some(d) ==> is_nearest_distance(*hex, owned@, d as int),
{
    if owned.len() == 0 {
        return None;
    }
    let mut best: u64 = hex.distance_to(&owned[0]);
    let mut i: usize = 1;
    while i < owned.len()
        invariant
            1 <= i <= owned@.len(),
            exists|k: int| 0 <= k < i && hex_distance(*hex, #[trigger] owned@[k]) == best,
            forall|k: int| 0 <= k < i ==> best <= hex_distance(*hex, #[trigger] owned@[k]),
        decreases owned@.len() - i,
    {
        let d: u64 = hex.distance_to(&owned[i]);
        if d < best {
            best = d;
        }
        i = i + 1;
    }
    Some(best)
}

/// How far `hex` is from the network when it is within `radius` of an owned
/// cell; `None` when nothing is owned or the nearest owned cell is farther.
/// (Strokes are felt with strength `1 - steps / (radius + 1)`.)
pub fn network_proximity_steps(hex: &Hex, owned: &Vec<Hex>, radius: u32) -> (res: Option<u64>)
    ensures
        res matches Some(d) ==> d <= radius && is_nearest_distance(*hex, owned@, d as int),
        res is None ==> owned@.len() == 0 || forall|i: int|
            0 <= i < owned@.len() ==> hex_distance(*hex, #[trigger] owned@[i]) > radius,
{
    match nearest_owned_distance(hex, owned) {
        None => None,
        Some(d) => {
            if d > radius as u64 {
                None
            } else {
                Some(d)
            }
        },
    }
}

/// A press that has not left the drag threshold stays a press: from a
/// primed phase, a handled frame with the button held and not released and
/// the cursor within the threshold keeps the phase and does nothing. Hence a
/// stroke starts from a primed phase only once the cursor is beyond the drag
/// threshold, and a stroke paints again only when a sample is due.
pub proof fn lemma_press_within_threshold_stays_primed<S>(start: S, input: WispInput<S>)
    ensures
        (input.playing && !input.ui_busy && input.cursor is Some && input.pressed
            && !input.just_released && !input.beyond_drag) ==> ({
            let (next, action) = wisp_transition(WispPhase::Primed { start }, input);
            next == WispPhase::Primed { start } && action is Nothing
        }),
        wisp_transition(WispPhase::Primed { start }, input).1 is Paint ==> input.beyond_drag
            && input.pressed,
        wisp_transition(WispPhase::Primed { start }, input).1 is Paint ==> wisp_transition(
            WispPhase::Primed { start },
            input,
        ).1->from == start,
        wisp_transition(WispPhase::Stroking { last_sample: start }, input).1 is Paint
            ==> input.sample_due,
{
}

/// A click (press, then a quick release without leaving the drag threshold)
/// yields exactly one tap, at the press position.
pub proof fn lemma_click_taps<S>(at: S, press: WispInput<S>, hold: WispInput<S>, release: WispInput<S>)
    requires
        press.playing && !press.ui_busy && press.cursor == Some(at) && press.just_pressed,
        hold.playing && !hold.ui_busy && hold.cursor is Some && hold.pressed && !hold.just_released
            && !hold.beyond_drag,
        release.playing && !release.ui_busy && release.cursor is Some && release.just_released
            && release.within_tap,
    ensures
        ({
            let (p1, a1) = wisp_transition(WispPhase::<S>::Idle, press);
            let (p2, a2) = wisp_transition(p1, hold);
            let (p3, a3) = wisp_transition(p2, release);
            &&& a1 is Nothing && a2 is Nothing
            &&& a3 == WispAction::Tap(at)
            &&& p3 is Idle
        }),
{
}

} // verus!
