//! Layer-crossing moments. The game has three vertical layers — ice
//! surface, underwater, sky — and every crossing between them gets a short,
//! authored moment: the penguin dives in, hops out, backflips off the
//! cannon, or noses down for splashdown. Steering locks while a transition
//! plays so the animation reads.
use vstd::prelude::*;

use crate::states::{is_biome_edge, Biome};
use crate::timer::{new_timer_spec, tick_spec, Timer, TimerMode, TimerState};
use crate::tuning::{
    TRANSITION_DIVE_US, TRANSITION_LAUNCH_US, TRANSITION_SPLASHDOWN_US, TRANSITION_SURFACE_US,
};

verus! {

/// The authored moment of a layer crossing.
#[derive(Clone, Copy, PartialEq, Eq, Structural, Debug)]
pub enum TransitionKind {
    /// Ice -> Water: nose-first dive.
    Dive,
    /// Water -> Ice: hop out onto the shelf.
    Surface,
    /// Ground -> Sky: cannon backflip.
    Launch,
    /// Sky -> Water: nose-down re-entry.
    Splashdown,
}

/// The moment (and its length in microseconds) that a biome change plays.
pub open spec fn transition_spec(exited: Biome, entered: Biome) -> Option<(TransitionKind, u64)> {
    match (exited, entered) {
        (Biome::Ice, Biome::Water) => Some((TransitionKind::Dive, TRANSITION_DIVE_US)),
        (Biome::Water, Biome::Ice) => Some((TransitionKind::Surface, TRANSITION_SURFACE_US)),
        (Biome::Ice, Biome::Sky) => Some((TransitionKind::Launch, TRANSITION_LAUNCH_US)),
        (Biome::Water, Biome::Sky) => Some((TransitionKind::Launch, TRANSITION_LAUNCH_US)),
        (Biome::Sky, Biome::Water) => Some((TransitionKind::Splashdown, TRANSITION_SPLASHDOWN_US)),
        _ => None,
    }
}

/// The moment a biome change plays, if any.
pub fn transition_for(exited: Biome, entered: Biome) -> (r: Option<(TransitionKind, u64)>)
    ensures
        r == transition_spec(exited, entered),
{
    match (exited, entered) {
        (Biome::Ice, Biome::Water) => Some((TransitionKind::Dive, TRANSITION_DIVE_US)),
        (Biome::Water, Biome::Ice) => Some((TransitionKind::Surface, TRANSITION_SURFACE_US)),
        (Biome::Ice, Biome::Sky) => Some((TransitionKind::Launch, TRANSITION_LAUNCH_US)),
        (Biome::Water, Biome::Sky) => Some((TransitionKind::Launch, TRANSITION_LAUNCH_US)),
        (Biome::Sky, Biome::Water) => Some((TransitionKind::Splashdown, TRANSITION_SPLASHDOWN_US)),
        _ => None,
    }
}

/// Whether a biome change pierces the water surface (dive-in and
/// splashdown), kicking up droplets.
pub fn splashes(exited: Biome, entered: Biome) -> (r: bool)
    ensures
        r == (entered == Biome::Water && (exited == Biome::Ice || exited == Biome::Sky)),
{
    entered == Biome::Water && (exited == Biome::Ice || exited == Biome::Sky)
}

/// A layer-crossing animation in progress.
#[derive(Debug)]
pub struct LayerTransition {
    pub kind: TransitionKind,
    pub timer: Timer,
}

impl LayerTransition {
    /// A moment of `kind` lasting `duration` microseconds, just started.
    pub fn new(kind: TransitionKind, duration: u64) -> (r: LayerTransition)
        ensures
            r.kind == kind,
            r.timer@ == new_timer_spec(duration, TimerMode::Once),
    {
        LayerTransition { kind, timer: Timer::new(duration, TimerMode::Once) }
    }
}

/// Run condition: no layer transition is currently animating.
pub fn transition_inactive(transition: &Option<LayerTransition>) -> (r: bool)
    ensures
        r == transition is None,
{
    transition.is_none()
}

/// Start the moment of a biome change (replacing any moment still
/// playing); changes without a moment leave the current one alone.
pub fn start_transition(active: &mut Option<LayerTransition>, exited: Biome, entered: Biome)
    ensures
        transition_spec(exited, entered) is Some ==> ({
            let t = transition_spec(exited, entered)->0;
            &&& *final(active) is Some
            &&& (*final(active))->0.kind == t.0
            &&& (*final(active))->0.timer@ == new_timer_spec(t.1, TimerMode::Once)
        }),
        transition_spec(exited, entered) is None ==> *final(active) == *old(active),
{
    match transition_for(exited, entered) {
        Some((kind, duration)) => {
            *active = Some(LayerTransition::new(kind, duration));
        },
        None => {},
    }
}

/// Progress through a timer, in parts per million (complete for a timer of
/// no duration; saturating at `u64::MAX`).
pub open spec fn progress_spec(t: TimerState) -> int {
    if t.duration == 0 {
        1_000_000
    } else if t.elapsed * 1_000_000int / (t.duration as int) > u64::MAX {
        u64::MAX as int
    } else {
        t.elapsed * 1_000_000int / (t.duration as int)
    }
}

/// One frame of the active moment.
#[derive(Clone, Copy, PartialEq, Eq, Structural, Debug)]
pub struct TransitionFrame {
    pub kind: TransitionKind,
    /// Progress through the moment, in parts per million.
    pub progress: u64,
    /// Whether the moment ended this frame (it is then cleared and the
    /// penguin's pose returns to level).
    pub finished: bool,
}

/// Drive the active moment by `delta` microseconds; once its time is up it
/// is cleared.
pub fn animate_transition(active: &mut Option<LayerTransition>, delta: u64) -> (r: Option<
    TransitionFrame,
>)
    ensures
        *old(active) is None ==> r is None && *final(active) is None,
        *old(active) is Some ==> ({
            let t = tick_spec((*old(active))->0.timer@, delta);
            &&& r is Some
            &&& r->0.kind == (*old(active))->0.kind
            &&& r->0.progress == progress_spec(t)
            &&& r->0.finished == t.finished
            &&& t.finished ==> *final(active) is None
            &&& !t.finished ==> *final(active) is Some && (*final(active))->0.kind == (*old(active))->0.kind && (*final(active))->0.timer@ == t
        }),
{
    match active {
        None => None,
        Some(tr) => {
            tr.timer.tick(delta);
            let elapsed = tr.timer.elapsed();
            let duration = tr.timer.duration();
            let progress: u64 = if duration == 0 {
                1_000_000
            } else {
                assert(elapsed * 1_000_000int <= 0xffff_ffff_ffff_ffffu128 * 1_000_000) by (
                nonlinear_arith)
                    requires
                        elapsed <= 0xffff_ffff_ffff_ffffu64,
                ;
                let p: u128 = (elapsed as u128) * 1_000_000u128 / (duration as u128);
                if p > 0xffff_ffff_ffff_ffffu128 {
                    0xffff_ffff_ffff_ffffu64
                } else {
                    p as u64
                }
            };
            let kind = tr.kind;
            let finished = tr.timer.finished();
            if finished {
                *active = None;
            }
            Some(TransitionFrame { kind, progress, finished })
        },
    }
}

/// A one-shot moment's progress never passes completion.
pub proof fn lemma_progress_bounded(t: TimerState)
    requires
        t.elapsed <= t.duration,
    ensures
        0 <= progress_spec(t) <= 1_000_000,
{
    if t.duration > 0 {
        assert(t.elapsed * 1_000_000int / (t.duration as int) <= 1_000_000) by (nonlinear_arith)
            requires
                t.elapsed <= t.duration,
                t.duration > 0,
        ;
        assert(t.elapsed * 1_000_000int / (t.duration as int) >= 0) by (nonlinear_arith)
            requires
                t.duration > 0,
        ;
    }
}

/// Every layer crossing of the biome graph — and nothing else — has its
/// authored moment: dives and splashdowns into the water, the hop out onto
/// the ice, the cannon backflip into the sky.
pub proof fn lemma_every_crossing_has_a_moment(exited: Biome, entered: Biome)
    ensures
        transition_spec(exited, entered) is Some <==> is_biome_edge(exited, entered),
{
}

/// Each crossing plays its own moment, with that moment's length: the dive
/// only from the ice into the water, the hop out only from the water onto
/// the ice, the cannon backflip only from the ground into the sky, the
/// splashdown only from the sky into the water; staying put plays nothing.
pub proof fn lemma_each_crossing_plays_its_own_moment(exited: Biome, entered: Biome)
    ensures
        exited == entered ==> transition_spec(exited, entered) is None,
        transition_spec(exited, entered) is Some ==> {
            let (kind, duration) = transition_spec(exited, entered)->0;
            &&& (kind == TransitionKind::Dive) == (exited == Biome::Ice && entered == Biome::Water)
            &&& (kind == TransitionKind::Surface) == (exited == Biome::Water && entered == Biome::Ice)
            &&& (kind == TransitionKind::Launch) == (exited != Biome::Sky && entered == Biome::Sky)
            &&& (kind == TransitionKind::Splashdown) == (exited == Biome::Sky && entered
                == Biome::Water)
            &&& kind == TransitionKind::Dive ==> duration == TRANSITION_DIVE_US
            &&& kind == TransitionKind::Surface ==> duration == TRANSITION_SURFACE_US
            &&& kind == TransitionKind::Launch ==> duration == TRANSITION_LAUNCH_US
            &&& kind == TransitionKind::Splashdown ==> duration == TRANSITION_SPLASHDOWN_US
        },
{
}

} // verus!
