use penguin_cannon::audio::{
    ambience_for, cue_sound, mute_action, should_play, toggle_mute, volume, AudioCue, MuteAction,
    Muted, Sound,
};
use penguin_cannon::chase::{
    grant_splashdown_gap, orca_catches, orca_target_z, orca_visible, threat_danger_permille,
    update_gap, OrcaGap,
};
use penguin_cannon::game::RunCore;
use penguin_cannon::hud::{biome_label, mute_label, restart_requested, restart_run, PlayerPose};
use penguin_cannon::player::{
    any_swipe_up, apply_lane_position, enter_biome_motion, enter_biome_physics, lane_step, over_delta, steer_lanes,
    vertical_ice, vertical_sky, vertical_water, BiomePhysics, LaneDrift, TargetLane, Vertical,
};
use penguin_cannon::rng::GameRng;
use penguin_cannon::spawn::{
    advance_mover, collectible_z, collide_player, overlaps, player_half, score_distance, spawn_cannon,
    spawn_collectible_line, spawn_decor, spawn_obstacle, spawn_tick, CollectibleContact, Extents, ObstacleContact, ObstacleKind,
    RunSpeed, Score, SpawnTimers,
};
use penguin_cannon::states::{
    cycle_ground_biomes, drain_altitude, enter_sky, in_ground_biome, launch_to_sky, sink_factor,
    Altitude, Biome, BiomeCycle, RunState, SkyPitch,
};
use penguin_cannon::timer::{Timer, TimerMode};
use penguin_cannon::touch::{
    classify_swipe, hud_cutoff, read_touches, ActiveTouches, TouchAction, TouchIntent, TouchPoint,
};
use penguin_cannon::transitions::{
    animate_transition, splashes, start_transition, transition_for, transition_inactive,
    TransitionKind,
};
use penguin_cannon::tuning::{
    DESPAWN_Z, FISH_POINTS, GRAVITY_ICE, GROUND_Y, HIT_SLOWDOWN_US, JUMP_IMPULSE, LANE_LERP_ICE,
    LANE_LERP_SKY, LANE_LERP_WATER, LANE_OVERSHOOT_ICE, LANE_WIDTH, ORCA_CATCH_GAP, ORCA_HIT_PENALTY, ORCA_MAX_GAP,
    ORCA_SPLASHDOWN_GAP, ORCA_START_GAP, ORCA_VISUAL_Z_FAR, ORCA_VISUAL_Z_NEAR, RUN_SPEED_BASE,
    RUN_SPEED_MAX, SHRIMP_POINTS, SKY_ALTITUDE_MAX, SKY_HIT_ALTITUDE_PENALTY, SKY_Y_HIGH,
    SKY_Y_LOW, SPAWN_Z, SWIM_BAND_HIGH, SWIM_BAND_LOW, TOUCH_HOLD_US, TRANSITION_DIVE_US,
    TRANSITION_LAUNCH_US,
};

// --- Timer ---------------------------------------------------------------------------

#[test]
fn once_timer_stops_at_its_duration_and_stays_finished() {
    let mut t = Timer::new(1_000_000, TimerMode::Once);
    t.tick(600_000);
    assert!(!t.finished());
    assert_eq!(t.elapsed(), 600_000);
    t.tick(600_000);
    assert!(t.finished());
    assert!(t.just_finished());
    assert_eq!(t.elapsed(), 1_000_000);
    t.tick(5_000_000);
    assert!(t.finished());
    assert!(!t.just_finished());
    t.reset();
    assert!(!t.finished());
    assert_eq!(t.elapsed(), 0);
}

#[test]
fn repeating_timer_wraps_and_counts_completions() {
    let mut t = Timer::new(1_000_000, TimerMode::Repeating);
    t.tick(2_500_000);
    assert!(t.just_finished());
    assert_eq!(t.times_finished_this_tick(), 2);
    assert_eq!(t.elapsed(), 500_000);
    t.tick(100_000);
    assert!(!t.finished());
    assert_eq!(t.times_finished_this_tick(), 0);
}

// --- States ----------------------------------------------------------------------------

#[test]
fn cycle_schedules_the_other_ground_biome() {
    let mut cycle = BiomeCycle::default();
    let mut next = None;
    cycle_ground_biomes(29_000_000, &mut cycle, Biome::Ice, &mut next);
    assert_eq!(next, None);
    cycle_ground_biomes(2_000_000, &mut cycle, Biome::Ice, &mut next);
    assert_eq!(next, Some(Biome::Water));
    let mut next = None;
    cycle_ground_biomes(30_000_000, &mut cycle, Biome::Water, &mut next);
    assert_eq!(next, Some(Biome::Ice));
}

#[test]
fn drain_follows_pitch_factor_exactly() {
    assert_eq!(sink_factor(SkyPitch::Level), 1000);
    assert_eq!(sink_factor(SkyPitch::Up), 400);
    assert_eq!(sink_factor(SkyPitch::Dive), 2500);
    let mut alt = Altitude(SKY_ALTITUDE_MAX);
    let mut next = None;
    // 10 s level: 2.2 m/s * 10 s = 22 m.
    drain_altitude(10_000_000, SkyPitch::Level, &mut alt, &mut next);
    assert_eq!(alt.0, 78_000_000);
    assert_eq!(next, None);
    // 10 s diving: 55 m.
    drain_altitude(10_000_000, SkyPitch::Dive, &mut alt, &mut next);
    assert_eq!(alt.0, 23_000_000);
    // 10 s pitching up: 8.8 m.
    drain_altitude(10_000_000, SkyPitch::Up, &mut alt, &mut next);
    assert_eq!(alt.0, 14_200_000);
    drain_altitude(60_000_000, SkyPitch::Up, &mut alt, &mut next);
    assert_eq!(alt.0, 0);
    assert_eq!(next, Some(Biome::Water));
}

#[test]
fn entering_the_sky_refills_altitude_and_restarts_cycle() {
    let mut alt = Altitude(3);
    let mut cycle = BiomeCycle::default();
    cycle.0.tick(12_000_000);
    enter_sky(&mut alt, &mut cycle);
    assert_eq!(alt.0, SKY_ALTITUDE_MAX);
    assert_eq!(cycle.0.elapsed(), 0);
    let mut next = None;
    launch_to_sky(&mut next);
    assert_eq!(next, Some(Biome::Sky));
    assert!(in_ground_biome(Biome::Ice));
    assert!(in_ground_biome(Biome::Water));
    assert!(!in_ground_biome(Biome::Sky));
}

#[test]
fn game_over_freezes_the_run() {
    let mut core = RunCore::new();
    core.update(0, 0);
    core.next_run_state = Some(RunState::GameOver);
    core.update(0, 0);
    let gap = core.gap.0;
    core.update(50_000_000, 3);
    assert_eq!(core.run_state, RunState::GameOver);
    assert_eq!(core.gap.0, gap);
    assert_eq!(core.biome, Biome::Ice);
    assert_eq!(core.next_biome, None);
}

#[test]
fn restart_runs_it_back_from_the_ice() {
    let mut core = RunCore::new();
    core.update(0, 0);
    core.launch_to_sky();
    core.update(0, 0);
    core.pitch = SkyPitch::Dive;
    core.next_run_state = Some(RunState::GameOver);
    core.update(1_000_000, 0);
    assert_eq!(core.biome, Biome::Sky);
    let mut score = Score::new();
    score.add_points(40);
    let mut speed = RunSpeed::new();
    speed.apply_hit_slowdown();
    let mut timers = SpawnTimers::new();
    let mut transition = None;
    start_transition(&mut transition, Biome::Ice, Biome::Sky);
    let mut lane = TargetLane(1);
    let mut drift = LaneDrift { lane: 1, side: 1 };
    let mut vertical = Vertical { velocity: 3, grounded: false, sliding: false };
    let mut pose = PlayerPose { x: 5, y: 9 };
    restart_run(
        &mut core,
        &mut score,
        &mut speed,
        &mut timers,
        &mut transition,
        &mut lane,
        &mut drift,
        &mut vertical,
        &mut pose,
    );
    assert_eq!(core.pitch, SkyPitch::Level);
    assert_eq!(drift, LaneDrift { lane: 0, side: 0 });
    core.update(0, 0);
    assert_eq!(core.biome, Biome::Ice);
    assert_eq!(core.run_state, RunState::Running);
    assert_eq!(core.gap.0, ORCA_START_GAP);
    assert_eq!(core.altitude.0, 0);
    assert_eq!(score.points(), 0);
    assert!(!speed.is_slowed());
    assert_eq!(speed.base(), RUN_SPEED_BASE);
    assert!(transition.is_none());
    assert_eq!(lane.0, 0);
    assert!(vertical.grounded);
    assert_eq!(pose.y, GROUND_Y);
}

// --- Chase ----------------------------------------------------------------------------------

#[test]
fn gap_rules_on_concrete_values() {
    let mut gap = OrcaGap(10_000_000);
    // 0.8 m/s for 2.5 s = 2 m, then two hits.
    update_gap(2_500_000, 2, &mut gap);
    assert_eq!(gap.0, 12_000_000 - 2 * ORCA_HIT_PENALTY);
    let mut gap = OrcaGap(ORCA_MAX_GAP - 1);
    update_gap(60_000_000, 0, &mut gap);
    assert_eq!(gap.0, ORCA_MAX_GAP);
    let mut gap = OrcaGap(3_000_000);
    grant_splashdown_gap(&mut gap);
    assert_eq!(gap.0, ORCA_SPLASHDOWN_GAP);
    let mut gap = OrcaGap(ORCA_MAX_GAP);
    grant_splashdown_gap(&mut gap);
    assert_eq!(gap.0, ORCA_MAX_GAP);
    let mut next = None;
    orca_catches(&OrcaGap(ORCA_CATCH_GAP + 1), &mut next);
    assert_eq!(next, None);
    orca_catches(&OrcaGap(ORCA_CATCH_GAP), &mut next);
    assert_eq!(next, Some(RunState::GameOver));
}

#[test]
fn orca_screen_mapping_and_threat() {
    assert_eq!(orca_target_z(&OrcaGap(0)), ORCA_VISUAL_Z_NEAR);
    assert_eq!(orca_target_z(&OrcaGap(-5)), ORCA_VISUAL_Z_NEAR);
    assert_eq!(orca_target_z(&OrcaGap(ORCA_MAX_GAP)), ORCA_VISUAL_Z_FAR);
    assert_eq!(orca_target_z(&OrcaGap(14_000_000)), 900_000 + 5_300_000);
    assert_eq!(threat_danger_permille(&OrcaGap(ORCA_CATCH_GAP)), 1000);
    assert_eq!(threat_danger_permille(&OrcaGap(ORCA_START_GAP + ORCA_CATCH_GAP)), 0);
    assert_eq!(threat_danger_permille(&OrcaGap(ORCA_CATCH_GAP + 9_000_000)), 500);
    assert!(orca_visible(Biome::Water));
    assert!(!orca_visible(Biome::Sky));
}

// --- Generator and spawn tables ----------------------------------------------------------------

#[test]
fn generator_sequence_is_xorshift64() {
    let mut rng = GameRng::from_seed(0);
    assert_eq!(rng.state(), 1);
    assert_eq!(rng.next(), 1_082_269_761);
    assert_eq!(rng.next(), 1_152_992_998_833_853_505);
    let mut rng = GameRng::from_seed(0);
    assert_eq!(rng.lane(), -1);
    assert_eq!(rng.unit(), 1_048_641);
}

#[test]
fn generator_ranges_stay_in_bounds() {
    let mut rng = GameRng::from_seed(12_345);
    for _ in 0..1000 {
        let v = rng.range(800_000, 1_600_000);
        assert!((800_000..1_600_000).contains(&v));
        let l = rng.lane();
        assert!((-1..=1).contains(&l));
        let r = rng.range(10, -10);
        assert!((-10..=10).contains(&r));
    }
    assert_ne!(rng.state(), 0);
}

#[test]
fn obstacle_table_follows_the_roll() {
    // Seed 0: lane -1, roll 1_048_641 (below one half): an ice chunk.
    let mut rng = GameRng::from_seed(0);
    let ob = spawn_obstacle(&mut rng, Biome::Ice);
    assert_eq!(ob.kind, ObstacleKind::IceChunk);
    assert_eq!(ob.x, -LANE_WIDTH);
    assert_eq!(ob.y, 1_000_000);
    assert_eq!(ob.wing_phase, None);
    let mut rng = GameRng::from_seed(0);
    let ob = spawn_obstacle(&mut rng, Biome::Water);
    assert_eq!(ob.kind, ObstacleKind::Iceberg);
    let mut rng = GameRng::from_seed(0);
    let ob = spawn_obstacle(&mut rng, Biome::Sky);
    assert_eq!(ob.kind, ObstacleKind::Plane);
    let mut rng = GameRng::from_seed(99);
    for _ in 0..200 {
        let ob = spawn_obstacle(&mut rng, Biome::Sky);
        assert!(matches!(ob.kind, ObstacleKind::Plane | ObstacleKind::Bird));
        assert_eq!(ob.wing_phase.is_some(), ob.kind == ObstacleKind::Bird);
        let ob = spawn_obstacle(&mut rng, Biome::Water);
        assert!(matches!(ob.kind, ObstacleKind::Iceberg | ObstacleKind::Crab));
    }
}

#[test]
fn collectible_lines_are_fish_or_shrimp() {
    let mut rng = GameRng::from_seed(7);
    let mut saw_fish = false;
    let mut saw_shrimp = false;
    for _ in 0..200 {
        let line = spawn_collectible_line(&mut rng, Biome::Water);
        assert!(line.points == FISH_POINTS || line.points == SHRIMP_POINTS);
        assert!((1_200_000..3_100_000).contains(&line.y));
        saw_fish |= line.points == FISH_POINTS;
        saw_shrimp |= line.points == SHRIMP_POINTS;
        let sky = spawn_collectible_line(&mut rng, Biome::Sky);
        assert_eq!(sky.half.y, 1_500_000);
    }
    assert!(saw_fish && saw_shrimp);
}

#[test]
fn cannon_never_spawns_in_the_sky() {
    let mut rng = GameRng::from_seed(3);
    let mut timers = SpawnTimers::new();
    for _ in 0..200 {
        let plan = spawn_tick(1_000_000, Biome::Sky, &mut rng, &mut timers);
        assert!(plan.cannon.is_none());
    }
    let mut timers = SpawnTimers::new();
    let plan = spawn_tick(20_000_000, Biome::Ice, &mut rng, &mut timers);
    assert!(plan.cannon.is_some());
    assert!(plan.obstacle.is_some());
    assert!(plan.collectible.is_some());
    assert!(plan.decor.is_some());
}

// --- Speed, score, collisions ---------------------------------------------------------------

#[test]
fn hit_slowdown_lasts_its_window() {
    let mut speed = RunSpeed::new();
    assert!(!speed.is_slowed());
    assert_eq!(speed.current(), RUN_SPEED_BASE);
    speed.apply_hit_slowdown();
    assert!(speed.is_slowed());
    assert_eq!(speed.current(), RUN_SPEED_BASE * 600 / 1000);
    speed.ramp(HIT_SLOWDOWN_US - 1);
    assert!(speed.is_slowed());
    speed.ramp(1);
    assert!(!speed.is_slowed());
    speed.ramp(10_000_000_000);
    assert_eq!(speed.base(), RUN_SPEED_MAX);
}

#[test]
fn distance_scores_a_point_per_ten_metres() {
    let speed = RunSpeed::new();
    let mut score = Score::new();
    // 12 m/s for 2 s = 24 m: two points, 4 m carried.
    score_distance(&mut score, &speed, 2_000_000);
    assert_eq!(score.points(), 2);
    assert_eq!(score.distance_acc(), 4_000_000);
    score_distance(&mut score, &speed, 500_000);
    assert_eq!(score.points(), 3);
    assert_eq!(score.distance_acc(), 0);
    assert_eq!(speed.travel(1_000_000), 12_000_000);
}

#[test]
fn collisions_hit_score_and_launch() {
    let mut speed = RunSpeed::new();
    let mut score = Score::new();
    let mut alt = Altitude(20_000_000);
    let mut next = None;
    let obstacles = vec![
        ObstacleContact { kind: ObstacleKind::Hole, overlapping: true },
        ObstacleContact { kind: ObstacleKind::Bird, overlapping: false },
        ObstacleContact { kind: ObstacleKind::Plane, overlapping: true },
    ];
    let collectibles = vec![
        CollectibleContact { points: FISH_POINTS, overlapping: true },
        CollectibleContact { points: SHRIMP_POINTS, overlapping: false },
        CollectibleContact { points: SHRIMP_POINTS, overlapping: true },
    ];
    let cannons = vec![false, true];
    // Airborne: the hole is cleared, the plane hits.
    let report = collide_player(
        &mut speed,
        &mut score,
        &mut alt,
        &mut next,
        Biome::Sky,
        false,
        &obstacles,
        &collectibles,
        &cannons,
    );
    assert_eq!(report.obstacle, Some(2));
    assert!(speed.is_slowed());
    assert_eq!(alt.0, 20_000_000 - SKY_HIT_ALTITUDE_PENALTY);
    assert_eq!(report.collected, vec![0, 2]);
    assert_eq!(score.points(), FISH_POINTS + SHRIMP_POINTS);
    assert_eq!(report.cannons, vec![1]);
    assert_eq!(
        report.cues,
        vec![AudioCue::CollectFish, AudioCue::CollectShrimp, AudioCue::CannonLaunch]
    );
    assert_eq!(next, Some(Biome::Sky));
    // Staggered: a second pass while slowed takes no hit.
    let report = collide_player(
        &mut speed,
        &mut score,
        &mut alt,
        &mut next,
        Biome::Sky,
        true,
        &obstacles,
        &vec![],
        &vec![],
    );
    assert_eq!(report.obstacle, None);
    assert_eq!(alt.0, 5_000_000);
}

#[test]
fn grounded_penguin_trips_on_holes() {
    let mut speed = RunSpeed::new();
    let mut score = Score::new();
    let mut alt = Altitude(0);
    let mut next = None;
    let obstacles = vec![ObstacleContact { kind: ObstacleKind::Crack, overlapping: true }];
    let report = collide_player(
        &mut speed,
        &mut score,
        &mut alt,
        &mut next,
        Biome::Ice,
        true,
        &obstacles,
        &vec![],
        &vec![],
    );
    assert_eq!(report.obstacle, Some(0));
    assert_eq!(alt.0, 0);
    assert_eq!(next, None);
}

#[test]
fn box_overlap_and_sliding_hitbox() {
    let center = Extents { x: 0, y: GROUND_Y, z: 0 };
    let half = Extents { x: 800_000, y: 1_000_000, z: 700_000 };
    let other = Extents { x: 1_100_000, y: 1_000_000, z: 0 };
    assert!(overlaps(center, player_half(false), other, half));
    let far = Extents { x: 1_200_000, y: 1_000_000, z: 0 };
    assert!(!overlaps(center, player_half(false), far, half));
    assert_eq!(player_half(true).y, 357_500);
    assert_eq!(player_half(false).y, 650_000);
    assert_eq!(advance_mover(DESPAWN_Z - 5, 10), (DESPAWN_Z + 5, true));
    assert_eq!(advance_mover(0, 10), (10, false));
}

// --- Player ----------------------------------------------------------------------------------

#[test]
fn lanes_clamp_at_the_edges() {
    let swipes = vec![TouchAction::SwipeRight, TouchAction::Tap, TouchAction::SwipeRight];
    assert_eq!(lane_step(false, true, &swipes), 3);
    assert_eq!(lane_step(true, true, &vec![]), 0);
    let mut lane = TargetLane(0);
    steer_lanes(&mut lane, 3);
    assert_eq!(lane.0, 1);
    steer_lanes(&mut lane, 1);
    assert_eq!(lane.0, 1);
    steer_lanes(&mut lane, -1);
    assert_eq!(lane.0, 0);
    steer_lanes(&mut lane, -5);
    assert_eq!(lane.0, -1);
}

#[test]
fn lane_follow_heads_past_the_lane_on_ice() {
    let ice = BiomePhysics::default();
    // Ice: 6 per second over 0.1 s closes 60% of the distance to the point
    // 0.15 m past the new lane.
    let mut drift = LaneDrift::default();
    let x = apply_lane_position(0, TargetLane(1), &ice, &mut drift, 100_000);
    assert_eq!(x, 1_590_000);
    assert_eq!(drift, LaneDrift { lane: 1, side: 1 });
    let mut drift = LaneDrift::default();
    let x = apply_lane_position(0, TargetLane(-1), &ice, &mut drift, 100_000);
    assert_eq!(x, -1_590_000);
    assert_eq!(drift, LaneDrift { lane: -1, side: -1 });
    // The sky has no overshoot: a long frame snaps onto the lane.
    let mut sky = ice;
    enter_biome_physics(Biome::Sky, &mut sky);
    let mut drift = LaneDrift::default();
    let x = apply_lane_position(123, TargetLane(1), &sky, &mut drift, 1_000_000);
    assert_eq!(x, LANE_WIDTH);
    assert_eq!(drift.side, 0);
}

#[test]
fn ice_lane_change_overshoots_slightly_then_settles() {
    let ice = BiomePhysics::default();
    let mut drift = LaneDrift::default();
    let mut x: i64 = 0;
    let mut furthest: i64 = 0;
    for _ in 0..400 {
        x = apply_lane_position(x, TargetLane(1), &ice, &mut drift, 16_667);
        furthest = furthest.max(x);
    }
    // It slid past the lane, by no more than the ice overshoot...
    assert_eq!(furthest, 2_511_317);
    assert!(furthest > LANE_WIDTH);
    assert!(furthest <= LANE_WIDTH + LANE_OVERSHOOT_ICE as i64);
    // ...and then eased back onto it.
    assert_eq!(x, 2_500_009);
    assert_eq!(drift, LaneDrift { lane: 1, side: 0 });
}

#[test]
fn water_lane_change_never_overshoots() {
    let mut water = BiomePhysics::default();
    enter_biome_physics(Biome::Water, &mut water);
    let mut drift = LaneDrift::default();
    let mut x: i64 = 0;
    for _ in 0..400 {
        x = apply_lane_position(x, TargetLane(1), &water, &mut drift, 16_667);
        assert!(x <= LANE_WIDTH);
    }
    assert!(x > LANE_WIDTH - 10);
}

#[test]
fn jump_arc_lands_on_the_ice() {
    let mut v = Vertical::standing();
    let mut y = GROUND_Y;
    assert!(vertical_ice(&mut v, &mut y, true, false, GRAVITY_ICE, 16_000));
    // 7.5 m/s minus 22 m/s² over 16 ms.
    assert_eq!(v.velocity, JUMP_IMPULSE - 352_000);
    assert!(!v.grounded);
    // No double jump.
    assert!(!vertical_ice(&mut v, &mut y, true, false, GRAVITY_ICE, 10_000));
    assert!(y > GROUND_Y);
    let mut frames = 0;
    while !v.grounded && frames < 1000 {
        vertical_ice(&mut v, &mut y, false, false, GRAVITY_ICE, 16_000);
        assert!(y >= GROUND_Y);
        frames += 1;
    }
    assert!(v.grounded);
    assert_eq!(y, GROUND_Y);
    assert_eq!(v.velocity, 0);
    // Belly-slide only while grounded.
    vertical_ice(&mut v, &mut y, false, true, GRAVITY_ICE, 16_000);
    assert!(v.sliding);
    assert_eq!(over_delta(-22_000_000, 500_000), -11_000_000);
}

#[test]
fn swimming_stays_in_the_band_and_sky_height_follows_altitude() {
    let mut v = Vertical::default();
    let mut y = 2_000_000;
    vertical_water(&mut v, &mut y, true, false, 10_000_000);
    assert_eq!(y, SWIM_BAND_HIGH);
    vertical_water(&mut v, &mut y, false, true, 100_000);
    assert_eq!(y, SWIM_BAND_HIGH - 400_000);
    vertical_water(&mut v, &mut y, false, true, 10_000_000);
    assert_eq!(y, SWIM_BAND_LOW);
    assert_eq!(vertical_sky(false, false, SKY_ALTITUDE_MAX), (SkyPitch::Level, SKY_Y_HIGH));
    assert_eq!(vertical_sky(true, true, 0), (SkyPitch::Up, SKY_Y_LOW));
    assert_eq!(vertical_sky(false, true, 50_000_000), (SkyPitch::Dive, 3_000_000));
}

#[test]
fn biome_physics_swap() {
    let mut physics = BiomePhysics::default();
    let mut v = Vertical::standing();
    enter_biome_physics(Biome::Water, &mut physics);
    enter_biome_motion(Biome::Water, &mut v);
    assert_eq!(physics.lane_lerp, LANE_LERP_WATER);
    assert!(!v.grounded);
    enter_biome_physics(Biome::Sky, &mut physics);
    assert_eq!(physics.lane_lerp, LANE_LERP_SKY);
    assert_eq!(physics.gravity, penguin_cannon::tuning::GRAVITY_WATER);
    let mut standing = Vertical::standing();
    enter_biome_motion(Biome::Ice, &mut standing);
    assert!(standing.grounded);
    enter_biome_physics(Biome::Ice, &mut physics);
    assert_eq!(
        physics,
        BiomePhysics {
            lane_lerp: LANE_LERP_ICE,
            lane_overshoot: LANE_OVERSHOOT_ICE,
            gravity: GRAVITY_ICE
        }
    );
    assert!(any_swipe_up(&vec![TouchAction::Tap, TouchAction::SwipeUp]));
    assert!(!any_swipe_up(&vec![TouchAction::SwipeDown]));
}

// --- Touch ------------------------------------------------------------------------------------

#[test]
fn swipe_classification() {
    assert_eq!(classify_swipe(10_000, 10_000), None);
    assert_eq!(classify_swipe(60_000, 10_000), Some(TouchAction::SwipeRight));
    assert_eq!(classify_swipe(-60_000, 10_000), Some(TouchAction::SwipeLeft));
    assert_eq!(classify_swipe(1_000, -60_000), Some(TouchAction::SwipeUp));
    assert_eq!(classify_swipe(1_000, 60_000), Some(TouchAction::SwipeDown));
    assert_eq!(classify_swipe(34_000, 34_000), Some(TouchAction::SwipeDown));
    assert_eq!(hud_cutoff(Some(1_000_000)), 180_000);
    assert_eq!(hud_cutoff(None), 80_000);
}

#[test]
fn gestures_over_frames() {
    let mut state = ActiveTouches::new();
    let mut intent = TouchIntent::new();
    let down = vec![TouchPoint { id: 7, x: 100_000, y: 500_000 }];
    let acts = read_touches(&mut state, &mut intent, &down, &down, &vec![], &vec![], 80_000);
    assert!(acts.is_empty());
    // Finger travels up by 60 px: a swipe up, held for the window.
    let moved = vec![TouchPoint { id: 7, x: 100_000, y: 440_000 }];
    let acts = read_touches(&mut state, &mut intent, &vec![], &moved, &vec![], &vec![], 80_000);
    assert_eq!(acts, vec![TouchAction::SwipeUp]);
    assert!(intent.up_held());
    assert!(!intent.down_held());
    // Further travel of the same touch is not a second swipe; lifting it is no tap.
    let more = vec![TouchPoint { id: 7, x: 100_000, y: 300_000 }];
    let acts = read_touches(&mut state, &mut intent, &vec![], &more, &vec![7], &vec![], 80_000);
    assert!(acts.is_empty());
    assert!(state.touches.is_empty());
    intent.tick(TOUCH_HOLD_US);
    assert!(!intent.up_held());
    // A quick touch below the HUD strip is a tap; one inside it is not.
    let tap = vec![TouchPoint { id: 1, x: 0, y: 500_000 }, TouchPoint { id: 2, x: 0, y: 10_000 }];
    let acts = read_touches(&mut state, &mut intent, &tap, &tap, &vec![1, 2], &vec![], 80_000);
    assert_eq!(acts, vec![TouchAction::Tap]);
    assert!(state.touches.is_empty());
    intent.press_down();
    assert!(intent.down_held());
    intent.press_up();
    assert!(!intent.down_held());
}

// --- Transitions, audio, HUD -----------------------------------------------------------------------

#[test]
fn layer_crossings_play_their_moment() {
    assert_eq!(transition_for(Biome::Ice, Biome::Water), Some((TransitionKind::Dive, TRANSITION_DIVE_US)));
    assert_eq!(transition_for(Biome::Water, Biome::Sky), Some((TransitionKind::Launch, TRANSITION_LAUNCH_US)));
    assert_eq!(transition_for(Biome::Sky, Biome::Ice), None);
    assert!(splashes(Biome::Sky, Biome::Water));
    assert!(!splashes(Biome::Water, Biome::Ice));
    let mut active = None;
    assert!(transition_inactive(&active));
    start_transition(&mut active, Biome::Ice, Biome::Water);
    assert!(!transition_inactive(&active));
    let frame = animate_transition(&mut active, 300_000).unwrap();
    assert_eq!(frame.kind, TransitionKind::Dive);
    assert_eq!(frame.progress, 500_000);
    assert!(!frame.finished);
    let frame = animate_transition(&mut active, 300_000).unwrap();
    assert!(frame.finished);
    assert_eq!(frame.progress, 1_000_000);
    assert!(active.is_none());
    assert!(animate_transition(&mut active, 1).is_none());
}

#[test]
fn audio_routing() {
    assert_eq!(cue_sound(AudioCue::CannonLaunch), Sound::Cannon);
    assert_eq!(volume(Sound::Cannon), 900);
    assert_eq!(volume(Sound::Hit), 800);
    assert_eq!(ambience_for(Biome::Water), Sound::AmbienceWater);
    assert_eq!(volume(ambience_for(Biome::Sky)), 300);
    let mut muted = Muted::default();
    assert!(should_play(muted));
    toggle_mute(&mut muted);
    assert!(!should_play(muted));
    assert_eq!(mute_action(true, false, muted), MuteAction::SilenceAll);
    assert_eq!(mute_action(true, false, Muted(false)), MuteAction::RestartAmbience);
    assert_eq!(mute_action(true, true, muted), MuteAction::Nothing);
    assert_eq!(mute_action(false, false, muted), MuteAction::Nothing);
}

#[test]
fn hud_wording_and_restart_input() {
    assert_eq!(biome_label(Biome::Water), "WATER");
    assert_eq!(biome_label(Biome::Ice), "ICE");
    assert_eq!(mute_label(true), "SOUND OFF");
    assert_eq!(mute_label(false), "SOUND ON");
    assert!(restart_requested(false, false, &vec![TouchAction::SwipeUp, TouchAction::Tap]));
    assert!(!restart_requested(false, false, &vec![TouchAction::SwipeUp]));
    assert!(restart_requested(true, false, &vec![]));
}

#[test]
fn hit_slowdown_spans_several_frames() {
    let mut speed = RunSpeed::new();
    speed.apply_hit_slowdown();
    speed.ramp(400_000);
    speed.ramp(400_000);
    speed.ramp(399_999);
    assert!(speed.is_slowed());
    assert_eq!(speed.current(), speed.base() * 600 / 1000);
    speed.ramp(1);
    assert!(!speed.is_slowed());
    assert_eq!(speed.current(), speed.base());
    // 1.2 s of ramp at 0.05 m/s², each frame's gain rounded down.
    assert_eq!(speed.base(), RUN_SPEED_BASE + 59_999);
}

#[test]
fn everything_spawns_at_the_far_end() {
    let mut rng = GameRng::from_seed(7);
    assert_eq!(spawn_obstacle(&mut rng, Biome::Ice).z, SPAWN_Z);
    assert_eq!(spawn_cannon(&mut rng).z, SPAWN_Z);
    assert_eq!(spawn_decor(&mut rng, Biome::Sky).z, SPAWN_Z);
    assert_eq!(collectible_z(0), SPAWN_Z);
    assert_eq!(collectible_z(3), SPAWN_Z - 3 * 2_200_000);
    assert_eq!(collectible_z(4_000_000_000_000), SPAWN_Z - 4_000_000_000_000 * 2_200_000);
}

fn shareable<T: Send + Sync + 'static>() {}

#[test]
fn run_state_can_be_shared_across_threads() {
    shareable::<RunCore>();
    shareable::<Timer>();
    shareable::<RunSpeed>();
    shareable::<Score>();
    shareable::<SpawnTimers>();
    shareable::<TouchIntent>();
    shareable::<GameRng>();
}
