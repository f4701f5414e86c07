//! The biome state machine and every transition rule between biomes.
//!
//! Transition graph:
//!
//! ```text
//!         timed cycle              cannon pickup
//!   Ice <--------------> Water -----------------> Sky
//!    |                     ^                       |
//!    +-- cannon pickup ----+-----------------------+
//!                          +---- altitude <= 0 (splashdown)
//! ```
use vstd::prelude::*;

use crate::timer::{new_timer_spec, reset_spec, tick_spec, Timer, TimerMode};
use crate::tuning::{
    BIOME_CYCLE_US, SKY_ALTITUDE_MAX, SKY_DIVE_PERMILLE, SKY_LEVEL_PERMILLE,
    SKY_PITCH_UP_PERMILLE, SKY_SINK_RATE,
};

verus! {

/// The three environments the penguin runs, swims, and flies through.
#[derive(Clone, Copy, PartialEq, Eq, Structural, Debug, Hash)]
pub enum Biome {
    /// Ground level: running and belly-sliding on the ice shelf.
    Ice,
    /// Submerged: swimming between icebergs and crabs.
    Water,
    /// Cannon bonus phase: gliding, orca disabled, altitude draining.
    Sky,
}

impl Default for Biome {
    fn default() -> (r: Biome)
        ensures
            r == Biome::Ice,
    {
        Biome::Ice
    }
}

/// Whether the run is live or the orca has won.
#[derive(Clone, Copy, PartialEq, Eq, Structural, Debug, Hash)]
pub enum RunState {
    Running,
    GameOver,
}

impl Default for RunState {
    fn default() -> (r: RunState)
        ensures
            r == RunState::Running,
    {
        RunState::Running
    }
}

/// Remaining altitude during the Sky bonus phase, in micrometres.
#[derive(Clone, Copy, PartialEq, Eq, Structural, Debug)]
pub struct Altitude(pub u64);

impl Default for Altitude {
    fn default() -> (r: Altitude)
        ensures
            r.0 == 0,
    {
        Altitude(0)
    }
}

/// Timer driving the timed Ice <-> Water alternation (the ice shelf "ends"
/// and the penguin dives in; later it climbs back out).
#[derive(Debug)]
pub struct BiomeCycle(pub Timer);

impl Default for BiomeCycle {
    fn default() -> (r: BiomeCycle)
        ensures
            r.0@ == new_timer_spec(BIOME_CYCLE_US, TimerMode::Repeating),
    {
        BiomeCycle(Timer::new(BIOME_CYCLE_US, TimerMode::Repeating))
    }
}

/// Vertical intent during the Sky phase. Written by the input handling,
/// read by [`drain_altitude`].
#[derive(Clone, Copy, PartialEq, Eq, Structural, Debug)]
pub enum SkyPitch {
    Level,
    /// Pitching up: sink slower.
    Up,
    /// Diving: sink faster.
    Dive,
}

impl Default for SkyPitch {
    fn default() -> (r: SkyPitch)
        ensures
            r == SkyPitch::Level,
    {
        SkyPitch::Level
    }
}

/// The penguin is on (or under) the surface, where the orca hunts and the
/// ice/water cycle applies.
pub open spec fn is_ground(biome: Biome) -> bool {
    biome == Biome::Ice || biome == Biome::Water
}

/// Where the timed cycle leads from a ground biome.
pub open spec fn next_ground_biome(biome: Biome) -> Biome {
    match biome {
        Biome::Ice => Biome::Water,
        _ => Biome::Ice,
    }
}

/// The edges of the biome graph: the timed cycle between the ground
/// biomes, the cannon from either ground biome into the sky, and the
/// splashdown from the sky into the water.
pub open spec fn is_biome_edge(from: Biome, to: Biome) -> bool {
    ||| from == Biome::Ice && to == Biome::Water
    ||| from == Biome::Water && to == Biome::Ice
    ||| is_ground(from) && to == Biome::Sky
    ||| from == Biome::Sky && to == Biome::Water
}

/// Sink multiplier for a pitch, in per-mille.
pub open spec fn sink_factor_spec(pitch: SkyPitch) -> u64 {
    match pitch {
        SkyPitch::Level => SKY_LEVEL_PERMILLE,
        SkyPitch::Up => SKY_PITCH_UP_PERMILLE,
        SkyPitch::Dive => SKY_DIVE_PERMILLE,
    }
}

/// Altitude lost over `delta` microseconds at the given pitch, in micrometres.
pub open spec fn sink_spec(pitch: SkyPitch, delta: u64) -> int {
    (SKY_SINK_RATE * sink_factor_spec(pitch) * delta) / 1_000_000_000int
}

/// Run condition: the penguin is on (or under) the surface.
pub fn in_ground_biome(biome: Biome) -> (r: bool)
    ensures
        r == is_ground(biome),
{
    match biome {
        Biome::Ice | Biome::Water => true,
        Biome::Sky => false,
    }
}

/// The ice shelf periodically ends and the penguin dives into the sea —
/// and later climbs back out onto the next shelf. Advances the cycle timer
/// by `delta` microseconds; when it completes, the other ground biome is
/// scheduled as the next biome.
pub fn cycle_ground_biomes(
    delta: u64,
    cycle: &mut BiomeCycle,
    biome: Biome,
    next: &mut Option<Biome>,
)
    ensures
        final(cycle).0@ == tick_spec(old(cycle).0@, delta),
        *final(next) == (if tick_spec(old(cycle).0@, delta).times_finished_this_tick > 0 {
            Some(next_ground_biome(biome))
        } else {
            *old(next)
        }),
{
    cycle.0.tick(delta);
    if cycle.0.just_finished() {
        *next = Some(
            match biome {
                Biome::Ice => Biome::Water,
                _ => Biome::Ice,
            },
        );
    }
}

/// Sink multiplier for a pitch, in per-mille.
pub fn sink_factor(pitch: SkyPitch) -> (r: u64)
    ensures
        r == sink_factor_spec(pitch),
{
    match pitch {
        SkyPitch::Level => SKY_LEVEL_PERMILLE,
        SkyPitch::Up => SKY_PITCH_UP_PERMILLE,
        SkyPitch::Dive => SKY_DIVE_PERMILLE,
    }
}

/// Altitude lost over `delta` microseconds at the given pitch.
pub fn altitude_sink(pitch: SkyPitch, delta: u64) -> (r: u128)
    ensures
        r == sink_spec(pitch, delta),
{
    let factor = sink_factor(pitch);
    assert(factor <= 2500);
    assert(SKY_SINK_RATE == 2_200_000);
    assert((SKY_SINK_RATE as u128) * (factor as u128) <= 5_500_000_000u128) by (nonlinear_arith)
        requires
            SKY_SINK_RATE == 2_200_000,
            factor <= 2500,
    ;
    let rate_factor: u128 = SKY_SINK_RATE as u128 * factor as u128;
    assert(rate_factor <= 5_500_000_000u128);
    assert(rate_factor * delta <= 5_500_000_000u128 * 0xffff_ffff_ffff_ffffu128) by (nonlinear_arith)
        requires
            rate_factor <= 5_500_000_000u128,
            delta <= 0xffff_ffff_ffff_ffffu64,
    ;
    let product: u128 = rate_factor * delta as u128;
    product / 1_000_000_000u128
}

/// Sky bonus phase: the penguin continuously loses altitude until it drops
/// back into the water, where the orca chase resumes.
pub fn drain_altitude(
    delta: u64,
    pitch: SkyPitch,
    altitude: &mut Altitude,
    next: &mut Option<Biome>,
)
    ensures
        sink_spec(pitch, delta) >= old(altitude).0 ==> {
            &&& final(altitude).0 == 0
            &&& *final(next) == Some(Biome::Water)
        },
        sink_spec(pitch, delta) < old(altitude).0 ==> {
            &&& final(altitude).0 == old(altitude).0 - sink_spec(pitch, delta)
            &&& *final(next) == *old(next)
        },
{
    let sink = altitude_sink(pitch, delta);
    if sink >= altitude.0 as u128 {
        altitude.0 = 0;
        *next = Some(Biome::Water);
    } else {
        altitude.0 = altitude.0 - sink as u64;
    }
}

/// Entering the sky grants full altitude and restarts the biome cycle so the
/// post-splashdown water stretch gets its full duration.
pub fn enter_sky(altitude: &mut Altitude, cycle: &mut BiomeCycle)
    ensures
        final(altitude).0 == SKY_ALTITUDE_MAX,
        final(cycle).0@ == reset_spec(old(cycle).0@),
{
    altitude.0 = SKY_ALTITUDE_MAX;
    cycle.0.reset();
}

/// The cannon pickup fires the penguin skyward.
pub fn launch_to_sky(next: &mut Option<Biome>)
    ensures
        *final(next) == Some(Biome::Sky),
{
    *next = Some(Biome::Sky);
}

/// Pitching up sinks slower than flying level, which sinks slower than
/// diving: over any positive stretch of time the altitude lost is strictly
/// ordered Up < Level < Dive (and over no time, all lose nothing).
pub proof fn lemma_pitch_orders_sink(delta: u64)
    ensures
        sink_spec(SkyPitch::Up, delta) <= sink_spec(SkyPitch::Level, delta),
        sink_spec(SkyPitch::Level, delta) <= sink_spec(SkyPitch::Dive, delta),
        delta > 0 ==> sink_spec(SkyPitch::Up, delta) < sink_spec(SkyPitch::Level, delta),
        delta > 0 ==> sink_spec(SkyPitch::Level, delta) < sink_spec(SkyPitch::Dive, delta),
        delta == 0 ==> sink_spec(SkyPitch::Dive, delta) == 0,
{
    let d = delta as int;
    let up = 2_200_000int * 400 * d;
    let level = 2_200_000int * 1000 * d;
    let dive = 2_200_000int * 2500 * d;
    assert(up + 1_320_000_000int * d == level) by (nonlinear_arith)
        requires
            up == 2_200_000int * 400 * d,
            level == 2_200_000int * 1000 * d,
    ;
    assert(level + 3_300_000_000int * d == dive) by (nonlinear_arith)
        requires
            dive == 2_200_000int * 2500 * d,
            level == 2_200_000int * 1000 * d,
    ;
    assert(d > 0 ==> up / 1_000_000_000int < level / 1_000_000_000int) by (nonlinear_arith)
        requires
            up + 1_320_000_000int * d == level,
            d >= 0,
            up >= 0,
    ;
    assert(d > 0 ==> level / 1_000_000_000int < dive / 1_000_000_000int) by (nonlinear_arith)
        requires
            level + 3_300_000_000int * d == dive,
            d >= 0,
            level >= 0,
    ;
    assert(up / 1_000_000_000int <= level / 1_000_000_000int) by (nonlinear_arith)
        requires
            up + 1_320_000_000int * d == level,
            d >= 0,
            up >= 0,
    ;
    assert(level / 1_000_000_000int <= dive / 1_000_000_000int) by (nonlinear_arith)
        requires
            level + 3_300_000_000int * d == dive,
            d >= 0,
            level >= 0,
    ;
}

/// The timed cycle always leads to the other ground biome, and two laps
/// lead back: ice and water alternate.
pub proof fn lemma_cycle_alternates(b: Biome)
    requires
        is_ground(b),
    ensures
        is_ground(next_ground_biome(b)),
        next_ground_biome(b) != b,
        next_ground_biome(next_ground_biome(b)) == b,
        is_biome_edge(b, next_ground_biome(b)),
{
}

/// Flying level, the penguin sinks exactly the sink rate every second, and
/// the loss never decreases with time at any pitch.
pub proof fn lemma_sink_rate_per_second(pitch: SkyPitch, secs: u64, d1: u64, d2: u64)
    requires
        secs <= 1_000_000,
        d1 <= d2,
    ensures
        sink_spec(SkyPitch::Level, (secs * 1_000_000) as u64) == secs * SKY_SINK_RATE,
        sink_spec(pitch, d1) <= sink_spec(pitch, d2),
        sink_spec(pitch, d1) >= 0,
{
    let f = sink_factor_spec(pitch) as int;
    assert(SKY_SINK_RATE * 1000int * (secs * 1_000_000) == (secs * SKY_SINK_RATE) * 1_000_000_000int)
        by (nonlinear_arith)
        requires
            SKY_SINK_RATE == 2_200_000,
    ;
    assert(SKY_SINK_RATE * f * d1 <= SKY_SINK_RATE * f * d2) by (nonlinear_arith)
        requires
            d1 <= d2,
            f >= 0,
            SKY_SINK_RATE == 2_200_000,
    ;
    assert(SKY_SINK_RATE * f * d1 >= 0) by (nonlinear_arith)
        requires
            d1 >= 0,
            f >= 0,
            SKY_SINK_RATE == 2_200_000,
    ;
    assert((SKY_SINK_RATE * f * d1) / 1_000_000_000int <= (SKY_SINK_RATE * f * d2)
        / 1_000_000_000int) by (nonlinear_arith)
        requires
            SKY_SINK_RATE * f * d1 <= SKY_SINK_RATE * f * d2,
    ;
    assert((SKY_SINK_RATE * f * d1) / 1_000_000_000int >= 0) by (nonlinear_arith)
        requires
            SKY_SINK_RATE * f * d1 >= 0,
    ;
}

} // verus!
