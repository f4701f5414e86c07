use penguin_cannon::chase::OrcaGap;
use penguin_cannon::game::RunCore;
use penguin_cannon::states::{Biome, RunState, SkyPitch};
use penguin_cannon::tuning::{
    BIOME_CYCLE_US, ORCA_CATCH_GAP, ORCA_HIT_PENALTY, ORCA_MAX_GAP, ORCA_SPLASHDOWN_GAP,
    SKY_ALTITUDE_MAX, SKY_SINK_RATE,
};

/// Microseconds in `secs` seconds.
fn secs(secs: u64) -> u64 {
    secs * 1_000_000
}

/// Time for the full altitude to drain at the base sink rate, plus a second.
fn full_sky_phase_plus_a_second() -> u64 {
    SKY_ALTITUDE_MAX * 1_000_000 / SKY_SINK_RATE + secs(1)
}

fn launch(core: &mut RunCore) {
    core.launch_to_sky();
    core.update(0, 0);
}

// --- Biome state machine ------------------------------------------------------------

#[test]
fn starts_on_ice() {
    let mut core = RunCore::new();
    core.update(0, 0);
    assert_eq!(core.biome, Biome::Ice);
}

#[test]
fn ground_biomes_alternate_on_cycle_timer() {
    let mut core = RunCore::new();
    core.update(0, 0);

    core.update(BIOME_CYCLE_US + 100_000, 0);
    core.update(0, 0);
    assert_eq!(core.biome, Biome::Water, "ice shelf should end in water");

    core.update(BIOME_CYCLE_US + 100_000, 0);
    core.update(0, 0);
    assert_eq!(core.biome, Biome::Ice, "penguin should climb back out");
}

#[test]
fn cannon_launch_reaches_sky_with_full_altitude() {
    let mut core = RunCore::new();
    core.update(0, 0);

    launch(&mut core);
    assert_eq!(core.biome, Biome::Sky);
    assert_eq!(core.altitude.0, SKY_ALTITUDE_MAX, "OnEnter(Sky) must grant full altitude");
}

#[test]
fn sky_splashes_down_into_water_when_altitude_runs_out() {
    let mut core = RunCore::new();
    core.update(0, 0);
    launch(&mut core);

    // Drain more than the full altitude's worth of time.
    core.update(full_sky_phase_plus_a_second(), 0);
    core.update(0, 0);
    assert_eq!(core.biome, Biome::Water, "splashdown must land in water");
    assert_eq!(core.altitude.0, 0);
}

#[test]
fn biome_cycle_is_paused_in_the_sky() {
    let mut core = RunCore::new();
    core.update(0, 0);
    launch(&mut core);

    // Longer than the ground cycle, shorter than the full sky phase.
    core.update(BIOME_CYCLE_US + secs(1), 0);
    core.update(0, 0);
    assert_eq!(
        core.biome,
        Biome::Sky,
        "the ice/water cycle must not run during the bonus phase"
    );
}

#[test]
fn pitching_up_sinks_slower_than_diving() {
    let drained_after = |pitch: SkyPitch| {
        let mut core = RunCore::new();
        core.update(0, 0);
        launch(&mut core);
        core.pitch = pitch;
        core.update(secs(10), 0);
        core.altitude.0
    };

    let up = drained_after(SkyPitch::Up);
    let level = drained_after(SkyPitch::Level);
    let dive = drained_after(SkyPitch::Dive);
    assert!(up > level && level > dive, "up={up} level={level} dive={dive}");
}

// --- Orca chase -------------------------------------------------------------------------

#[test]
fn obstacle_hits_close_the_gap() {
    let mut core = RunCore::new();
    core.update(0, 0);
    let before = core.gap.0;
    core.update(0, 1);
    let after = core.gap.0;
    assert_eq!(
        before - after,
        ORCA_HIT_PENALTY,
        "hit should cost {ORCA_HIT_PENALTY}: before={before} after={after}"
    );
}

#[test]
fn orca_catches_player_when_gap_closes() {
    let mut core = RunCore::new();
    core.update(0, 0);
    core.gap = OrcaGap(ORCA_CATCH_GAP + 100_000);
    core.update(0, 1); // hit lands, gap drops below the catch distance
    core.update(0, 0); // catch applies
    assert_eq!(core.run_state, RunState::GameOver);
}

#[test]
fn clean_running_regains_ground() {
    let mut core = RunCore::new();
    core.update(0, 0);
    core.gap = OrcaGap(10_000_000);
    core.update(secs(5), 0);
    let gap = core.gap.0;
    assert!(gap > 10_000_000, "gap should regenerate: {gap}");
    assert!(gap <= ORCA_MAX_GAP);
}

#[test]
fn gap_never_exceeds_cap() {
    let mut core = RunCore::new();
    core.update(0, 0);
    core.update(secs(1000), 0);
    assert!(core.gap.0 <= ORCA_MAX_GAP);
}

#[test]
fn chase_is_suspended_in_the_sky() {
    let mut core = RunCore::new();
    core.update(0, 0);
    core.next_biome = Some(Biome::Sky);
    core.update(0, 0);
    core.gap = OrcaGap(0);
    core.update(secs(1), 0);
    core.update(0, 0);
    assert_eq!(
        core.run_state,
        RunState::Running,
        "the orca must not catch anyone during the bonus phase"
    );
}

#[test]
fn splashdown_grants_breathing_room() {
    let mut core = RunCore::new();
    core.update(0, 0);
    core.next_biome = Some(Biome::Sky);
    core.update(0, 0);
    core.gap = OrcaGap(3_000_000);
    // Drain the whole sky phase so it splashes down into water.
    core.update(full_sky_phase_plus_a_second(), 0);
    core.update(0, 0);
    assert_eq!(core.biome, Biome::Water);
    assert!(
        core.gap.0 >= ORCA_SPLASHDOWN_GAP,
        "splashdown must reset the orca to a generous distance"
    );
}
