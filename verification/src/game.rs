//! One run's headless rules, frame by frame: pending biome and run-state
//! changes are applied at the start of a frame (with their enter and
//! transition hooks), then the frame's systems run under their conditions:
//!
//! - the Ice/Water cycle ticks while running on a ground biome,
//! - the altitude drains while running in the sky,
//! - the chase (gap bookkeeping, then the catch check) runs while running
//!   on a ground biome.
//!
//! Hooks: entering the sky grants full altitude and restarts the biome
//! cycle; a splashdown (sky to water) grants the splashdown gap.
use vstd::prelude::*;

use crate::chase::{
    grant_splashdown_gap, orca_catches, splashdown_gap_spec, update_gap, update_gap_spec,
    OrcaGap,
};
use crate::states::{
    cycle_ground_biomes, drain_altitude, enter_sky, in_ground_biome, is_biome_edge, is_ground,
    next_ground_biome, sink_spec, Altitude, Biome, BiomeCycle, RunState, SkyPitch,
};
use crate::timer::{new_timer_spec, reset_spec, tick_spec, TimerMode, TimerState};
use crate::tuning::{
    BIOME_CYCLE_US, ORCA_CATCH_GAP, ORCA_MAX_GAP, ORCA_SPLASHDOWN_GAP, ORCA_START_GAP,
    SKY_ALTITUDE_MAX,
};

verus! {

/// Plain snapshot of a run: what the contracts speak of.
pub struct RunView {
    pub biome: Biome,
    pub run_state: RunState,
    pub next_biome: Option<Biome>,
    pub next_run_state: Option<RunState>,
    pub altitude: u64,
    pub cycle: TimerState,
    pub pitch: SkyPitch,
    pub gap: i64,
}

/// The state of one run: current and pending biome and run state, the Sky
/// altitude, the biome cycle timer, the pitch intent, and the orca gap.
#[derive(Debug)]
pub struct RunCore {
    pub biome: Biome,
    pub run_state: RunState,
    /// Biome to switch to at the start of the next frame.
    pub next_biome: Option<Biome>,
    /// Run state to switch to at the start of the next frame.
    pub next_run_state: Option<RunState>,
    pub altitude: Altitude,
    pub cycle: BiomeCycle,
    pub pitch: SkyPitch,
    pub gap: OrcaGap,
}

impl View for RunCore {
    type V = RunView;

    open spec fn view(&self) -> RunView {
        RunView {
            biome: self.biome,
            run_state: self.run_state,
            next_biome: self.next_biome,
            next_run_state: self.next_run_state,
            altitude: self.altitude.0,
            cycle: self.cycle.0@,
            pitch: self.pitch,
            gap: self.gap.0,
        }
    }
}

/// A fresh run: on the ice, running, nothing pending, no altitude, a fresh
/// biome cycle, level pitch, and the orca at its start gap.
pub open spec fn initial_spec() -> RunView {
    RunView {
        biome: Biome::Ice,
        run_state: RunState::Running,
        next_biome: None,
        next_run_state: None,
        altitude: 0,
        cycle: new_timer_spec(BIOME_CYCLE_US, TimerMode::Repeating),
        pitch: SkyPitch::Level,
        gap: ORCA_START_GAP,
    }
}

/// Apply a pending biome change. A change to a different biome runs the
/// splashdown hook (sky to water) and the sky-entry hook; a change to the
/// current biome runs no hook.
pub open spec fn apply_biome_transition_spec(v: RunView) -> RunView {
    match v.next_biome {
        None => v,
        Some(entered) => {
            let v1 = RunView { next_biome: None, ..v };
            if entered == v.biome {
                v1
            } else {
                let v2 = RunView { biome: entered, ..v1 };
                let v3 = if v.biome == Biome::Sky && entered == Biome::Water {
                    RunView { gap: splashdown_gap_spec(v2.gap), ..v2 }
                } else {
                    v2
                };
                if entered == Biome::Sky {
                    RunView { altitude: SKY_ALTITUDE_MAX, cycle: reset_spec(v3.cycle), ..v3 }
                } else {
                    v3
                }
            }
        },
    }
}

/// Apply a pending run-state change.
pub open spec fn apply_run_transition_spec(v: RunView) -> RunView {
    match v.next_run_state {
        None => v,
        Some(s) => RunView { run_state: s, next_run_state: None, ..v },
    }
}

/// The state once the pending changes of a frame have been applied.
pub open spec fn settle_spec(v: RunView) -> RunView {
    apply_run_transition_spec(apply_biome_transition_spec(v))
}

/// The frame's systems on a settled state, `delta` microseconds after the
/// previous frame, with `hits` obstacle hits reported for this frame.
pub open spec fn systems_spec(v: RunView, delta: u64, hits: u32) -> RunView {
    let running = v.run_state == RunState::Running;
    let v1 = if running && is_ground(v.biome) {
        let c = tick_spec(v.cycle, delta);
        RunView {
            cycle: c,
            next_biome: if c.times_finished_this_tick > 0 {
                Some(next_ground_biome(v.biome))
            } else {
                v.next_biome
            },
            ..v
        }
    } else {
        v
    };
    let v2 = if running && v.biome == Biome::Sky {
        let sink = sink_spec(v.pitch, delta);
        if sink >= v1.altitude {
            RunView { altitude: 0, next_biome: Some(Biome::Water), ..v1 }
        } else {
            RunView { altitude: (v1.altitude - sink) as u64, ..v1 }
        }
    } else {
        v1
    };
    if running && is_ground(v.biome) {
        let g = update_gap_spec(v2.gap, delta, hits);
        RunView {
            gap: g,
            next_run_state: if g <= ORCA_CATCH_GAP {
                Some(RunState::GameOver)
            } else {
                v2.next_run_state
            },
            ..v2
        }
    } else {
        v2
    }
}

/// One whole frame: settle the pending changes, then run the systems.
pub open spec fn frame_spec(v: RunView, delta: u64, hits: u32) -> RunView {
    systems_spec(settle_spec(v), delta, hits)
}

/// A restart: the orca back at its start gap, no altitude, a fresh biome
/// cycle, level pitch, and the ice and a live run pending for the next
/// frame.
pub open spec fn restart_spec(v: RunView) -> RunView {
    RunView {
        next_biome: Some(Biome::Ice),
        next_run_state: Some(RunState::Running),
        altitude: 0,
        cycle: new_timer_spec(BIOME_CYCLE_US, TimerMode::Repeating),
        pitch: SkyPitch::Level,
        gap: ORCA_START_GAP,
        ..v
    }
}

impl RunCore {
    /// A fresh run.
    pub fn new() -> (r: RunCore)
        ensures
            r@ == initial_spec(),
    {
        RunCore {
            biome: Biome::Ice,
            run_state: RunState::Running,
            next_biome: None,
            next_run_state: None,
            altitude: Altitude(0),
            cycle: BiomeCycle::default(),
            pitch: SkyPitch::Level,
            gap: OrcaGap::default(),
        }
    }

    /// Apply the pending biome and run-state changes with their hooks.
    pub fn apply_transitions(&mut self)
        ensures
            final(self)@ == settle_spec(old(self)@),
    {
        if let Some(entered) = self.next_biome {
            self.next_biome = None;
            if entered != self.biome {
                let exited = self.biome;
                self.biome = entered;
                if exited == Biome::Sky && entered == Biome::Water {
                    grant_splashdown_gap(&mut self.gap);
                }
                if entered == Biome::Sky {
                    enter_sky(&mut self.altitude, &mut self.cycle);
                }
            }
        }
        if let Some(s) = self.next_run_state {
            self.run_state = s;
            self.next_run_state = None;
        }
    }

    /// Run the frame's systems under their run conditions.
    pub fn run_systems(&mut self, delta: u64, hits: u32)
        ensures
            final(self)@ == systems_spec(old(self)@, delta, hits),
    {
        let running = self.run_state == RunState::Running;
        let ground = in_ground_biome(self.biome);
        let biome = self.biome;
        if running && ground {
            cycle_ground_biomes(delta, &mut self.cycle, biome, &mut self.next_biome);
        }
        if running && biome == Biome::Sky {
            drain_altitude(delta, self.pitch, &mut self.altitude, &mut self.next_biome);
        }
        if running && ground {
            update_gap(delta, hits, &mut self.gap);
            orca_catches(&self.gap, &mut self.next_run_state);
        }
    }

    /// Advance the run by one frame, `delta` microseconds after the previous
    /// one, with `hits` obstacle hits reported for this frame.
    pub fn update(&mut self, delta: u64, hits: u32)
        ensures
            final(self)@ == frame_spec(old(self)@, delta, hits),
    {
        self.apply_transitions();
        self.run_systems(delta, hits);
    }

    /// The cannon pickup fires the penguin skyward at the next frame.
    pub fn launch_to_sky(&mut self)
        ensures
            final(self)@ == (RunView { next_biome: Some(Biome::Sky), ..old(self)@ }),
    {
        crate::states::launch_to_sky(&mut self.next_biome);
    }

    /// Full reset of the run's rules: the orca, altitude, biome cycle and sky
    /// pitch go back to their starting values, and the ice and a live run
    /// are scheduled for the next frame.
    pub fn restart(&mut self)
        ensures
            final(self)@ == restart_spec(old(self)@),
    {
        self.gap = OrcaGap::default();
        self.altitude = Altitude::default();
        self.cycle = BiomeCycle::default();
        self.pitch = SkyPitch::Level;
        self.next_biome = Some(Biome::Ice);
        self.next_run_state = Some(RunState::Running);
    }
}

/// A fresh run starts live on the ice.
pub proof fn lemma_starts_on_ice(delta: u64, hits: u32)
    ensures
        frame_spec(initial_spec(), delta, hits).biome == Biome::Ice,
        settle_spec(initial_spec()).run_state == RunState::Running,
{
}

/// The ice/water cycle does not run during the bonus phase: a frame spent
/// in the sky leaves the cycle timer as the frame's transitions left it.
pub proof fn lemma_biome_cycle_paused_in_sky(v: RunView, delta: u64, hits: u32)
    requires
        settle_spec(v).biome == Biome::Sky,
    ensures
        frame_spec(v, delta, hits).cycle == settle_spec(v).cycle,
{
}

/// The orca does not act during the bonus phase: a frame spent in the sky
/// neither moves the gap nor schedules a game over.
pub proof fn lemma_chase_suspended_in_sky(v: RunView, delta: u64, hits: u32)
    requires
        settle_spec(v).biome == Biome::Sky,
    ensures
        frame_spec(v, delta, hits).gap == settle_spec(v).gap,
        frame_spec(v, delta, hits).next_run_state == settle_spec(v).next_run_state,
        frame_spec(v, delta, hits).run_state == settle_spec(v).run_state,
{
}

/// The cannon launch reaches the sky with full altitude and a restarted
/// biome cycle.
pub proof fn lemma_cannon_launch_reaches_sky_with_full_altitude(v: RunView, hits: u32)
    requires
        v.biome != Biome::Sky,
        v.next_biome == Some(Biome::Sky),
    ensures
        settle_spec(v).biome == Biome::Sky,
        settle_spec(v).altitude == SKY_ALTITUDE_MAX,
        settle_spec(v).cycle.elapsed == 0,
        frame_spec(v, 0, hits).biome == Biome::Sky,
        frame_spec(v, 0, hits).altitude == SKY_ALTITUDE_MAX,
{
}

/// A cannon taken in the sky changes nothing: the sky is not re-entered,
/// so no altitude is granted and the cycle is not restarted.
pub proof fn lemma_launch_in_the_sky_changes_nothing(v: RunView)
    requires
        v.biome == Biome::Sky,
        v.next_biome == Some(Biome::Sky),
    ensures
        apply_biome_transition_spec(v) == (RunView { next_biome: None, ..v }),
{
}

/// The sky splashes down into the water when the altitude runs out: the
/// altitude bottoms out at zero and the water is scheduled.
pub proof fn lemma_sky_splashes_down_into_water(v: RunView, delta: u64, hits: u32)
    requires
        settle_spec(v).biome == Biome::Sky,
        settle_spec(v).run_state == RunState::Running,
        sink_spec(settle_spec(v).pitch, delta) >= settle_spec(v).altitude,
    ensures
        frame_spec(v, delta, hits).altitude == 0,
        frame_spec(v, delta, hits).next_biome == Some(Biome::Water),
        frame_spec(frame_spec(v, delta, hits), 0, 0).biome == Biome::Water,
{
}

/// Splashdown grants breathing room: landing in the water from the sky
/// (with no hit in that frame) leaves the orca at least the splashdown gap
/// behind.
pub proof fn lemma_splashdown_grants_breathing_room(v: RunView, delta: u64)
    requires
        v.biome == Biome::Sky,
        v.next_biome == Some(Biome::Water),
    ensures
        frame_spec(v, delta, 0).biome == Biome::Water,
        frame_spec(v, delta, 0).gap >= ORCA_SPLASHDOWN_GAP,
{
    let s = settle_spec(v);
    assert(s.gap >= ORCA_SPLASHDOWN_GAP);
    if s.run_state == RunState::Running {
        crate::chase::lemma_clean_running_regains_up_to_cap(s.gap, delta);
    }
}

/// The ground biomes alternate on the cycle timer: when the cycle completes
/// during a live ground frame, the other ground biome is scheduled and is
/// the biome of the following frame.
pub proof fn lemma_ground_biomes_alternate(v: RunView, delta: u64, hits: u32, hits2: u32)
    requires
        is_ground(settle_spec(v).biome),
        settle_spec(v).run_state == RunState::Running,
        tick_spec(settle_spec(v).cycle, delta).times_finished_this_tick > 0,
    ensures
        frame_spec(v, delta, hits).next_biome == Some(next_ground_biome(settle_spec(v).biome)),
        frame_spec(frame_spec(v, delta, hits), 0, hits2).biome == next_ground_biome(
            settle_spec(v).biome,
        ),
{
}

/// The orca catches the player when the gap closes: a live ground frame that
/// ends with the gap at or below the catch distance schedules the game over,
/// which holds from the following frame on.
pub proof fn lemma_orca_catches_when_gap_closes(v: RunView, delta: u64, hits: u32, hits2: u32)
    requires
        is_ground(settle_spec(v).biome),
        settle_spec(v).run_state == RunState::Running,
        update_gap_spec(settle_spec(v).gap, delta, hits) <= ORCA_CATCH_GAP,
    ensures
        frame_spec(v, delta, hits).next_run_state == Some(RunState::GameOver),
        frame_spec(frame_spec(v, delta, hits), 0, hits2).run_state == RunState::GameOver,
{
}

/// Once the orca has won, frames change nothing but the pending changes
/// they apply.
pub proof fn lemma_game_over_freezes_the_run(v: RunView, delta: u64, hits: u32)
    requires
        settle_spec(v).run_state == RunState::GameOver,
    ensures
        frame_spec(v, delta, hits) == settle_spec(v),
{
}

/// Clean running never pushes the orca beyond the cap.
pub proof fn lemma_gap_never_exceeds_cap(v: RunView, delta: u64)
    requires
        is_ground(settle_spec(v).biome),
        settle_spec(v).run_state == RunState::Running,
    ensures
        frame_spec(v, delta, 0).gap <= ORCA_MAX_GAP,
{
    crate::chase::lemma_clean_running_regains_up_to_cap(settle_spec(v).gap, delta);
}

/// Every biome change a frame schedules on its own is an edge of the biome
/// graph: the timed cycle between ice and water, and the splashdown from the
/// sky into the water. The sky itself is only reached through the cannon.
pub proof fn lemma_scheduled_biomes_follow_the_graph(v: RunView, delta: u64, hits: u32)
    ensures
        frame_spec(v, delta, hits).next_biome is None || is_biome_edge(
            settle_spec(v).biome,
            frame_spec(v, delta, hits).next_biome->0,
        ),
        frame_spec(v, delta, hits).next_biome != Some(Biome::Sky),
        settle_spec(v).biome == Biome::Sky ==> frame_spec(v, delta, hits).next_biome is None
            || frame_spec(v, delta, hits).next_biome == Some(Biome::Water),
{
}

/// A restart runs it back from the ice: once the restart's pending changes
/// apply, the run is in exactly the state of a fresh run, field for field,
/// so every following frame matches a fresh run's too.
pub proof fn lemma_restart_runs_it_back_from_the_ice(v: RunView, delta: u64, hits: u32)
    ensures
        settle_spec(restart_spec(v)) == settle_spec(initial_spec()),
        frame_spec(restart_spec(v), delta, hits) == frame_spec(initial_spec(), delta, hits),
{
}

/// Applying a pending biome change moves the run into that biome and runs
/// only the hooks of its edge: the orca gap moves only on a splashdown (sky
/// to water), where it becomes at least the splashdown gap and is otherwise
/// kept; altitude and the biome cycle change only on entering the sky from
/// elsewhere, where the altitude becomes full and the cycle restarts from
/// zero. Nothing else about the run changes.
pub proof fn lemma_biome_change_runs_only_its_hooks(v: RunView)
    ensures
        ({
            let a = apply_biome_transition_spec(v);
            &&& a.next_biome is None
            &&& v.next_biome is Some ==> a.biome == v.next_biome->0
            &&& v.next_biome is None ==> a == v
            &&& a.run_state == v.run_state
            &&& a.next_run_state == v.next_run_state
            &&& a.pitch == v.pitch
            &&& !(v.biome == Biome::Sky && v.next_biome == Some(Biome::Water)) ==> a.gap == v.gap
            &&& v.biome == Biome::Sky && v.next_biome == Some(Biome::Water) ==> {
                &&& a.gap >= ORCA_SPLASHDOWN_GAP
                &&& v.gap >= ORCA_SPLASHDOWN_GAP ==> a.gap == v.gap
                &&& v.gap < ORCA_SPLASHDOWN_GAP ==> a.gap == ORCA_SPLASHDOWN_GAP
            }
            &&& !(v.biome != Biome::Sky && v.next_biome == Some(Biome::Sky)) ==> {
                &&& a.altitude == v.altitude
                &&& a.cycle == v.cycle
            }
            &&& v.biome != Biome::Sky && v.next_biome == Some(Biome::Sky) ==> {
                &&& a.altitude == SKY_ALTITUDE_MAX
                &&& a.cycle.elapsed == 0
                &&& !a.cycle.finished
                &&& a.cycle.times_finished_this_tick == 0
                &&& a.cycle.duration == v.cycle.duration
                &&& a.cycle.mode == v.cycle.mode
            }
        }),
{
}

/// A timed dive or climb between the ice and the water keeps the orca where
/// it was: settling such a change leaves the gap as it was.
pub proof fn lemma_ground_crossings_keep_the_gap(v: RunView)
    requires
        is_ground(v.biome),
    ensures
        settle_spec(v).gap == v.gap,
{
    lemma_biome_change_runs_only_its_hooks(v);
}

} // verus!
