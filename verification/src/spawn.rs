//! Forward speed, scoring, spawning decisions, world scrolling and
//! collision rules.
//!
//! The penguin never moves forward; the world scrolls toward the camera at
//! [`RunSpeed`]. Each biome has its own obstacle and collectible tables.
//! Collision is axis-aligned boxes on micrometre coordinates.
use vstd::prelude::*;

use crate::audio::AudioCue;
use crate::rng::{range_spec, unit_spec, xorshift_spec, GameRng};
use crate::states::{Altitude, Biome};
use crate::timer::{new_timer_spec, reset_spec, tick_spec, Timer, TimerMode, TimerState};
use crate::tuning::{
    CANNON_INTERVAL_MAX_US, CANNON_INTERVAL_MIN_US, COLLECTIBLE_INTERVAL_MAX_US,
    COLLECTIBLE_INTERVAL_MIN_US, COLLECTIBLE_SPACING, DECOR_INTERVAL_MAX_US,
    DECOR_INTERVAL_MIN_US, DESPAWN_Z, DISTANCE_PER_POINT, FISH_POINTS, HIT_SLOWDOWN_PERMILLE,
    HIT_SLOWDOWN_US, LANE_WIDTH, OBSTACLE_INTERVAL_MAX_US, OBSTACLE_INTERVAL_MIN_US,
    RUN_SPEED_BASE, RUN_SPEED_MAX, RUN_SPEED_RAMP, SHRIMP_POINTS, SKY_HIT_ALTITUDE_PENALTY,
    SPAWN_Z,
};

verus! {

// --- Forward speed -------------------------------------------------------------

/// Plain snapshot of the run speed.
pub struct RunSpeedView {
    pub base: u64,
    pub slowdown: TimerState,
}

/// Forward speed of the run (µm/s), including the post-hit slowdown window.
#[derive(Debug)]
pub struct RunSpeed {
    base: u64,
    slowdown: Timer,
}

impl View for RunSpeed {
    type V = RunSpeedView;

    closed spec fn view(&self) -> RunSpeedView {
        RunSpeedView { base: self.base, slowdown: self.slowdown@ }
    }
}

/// The slowdown window is a one-shot timer of the slowdown duration. Every
/// `RunSpeed` satisfies this: it is the type's invariant, and every method
/// states it of the speed it reads or leaves.
pub open spec fn speed_wf(s: RunSpeedView) -> bool {
    s.slowdown.mode == TimerMode::Once && s.slowdown.duration == HIT_SLOWDOWN_US
}

impl RunSpeed {
    #[verifier::type_invariant]
    spec fn inv(self) -> bool {
        speed_wf(self@)
    }
}

pub open spec fn slowed_spec(s: RunSpeedView) -> bool {
    !s.slowdown.finished
}

/// Current forward speed: the base speed, or its slowed share while the
/// slowdown window is open.
pub open spec fn current_speed_spec(s: RunSpeedView) -> int {
    if s.slowdown.finished {
        s.base as int
    } else {
        s.base * HIT_SLOWDOWN_PERMILLE / 1000int
    }
}

/// Speed gained over `delta` microseconds.
pub open spec fn ramp_gain_spec(delta: u64) -> int {
    RUN_SPEED_RAMP * delta / 1_000_000int
}

/// Difficulty creep: the base speed ramps up toward its cap, and the
/// slowdown window ticks.
pub open spec fn ramp_spec(s: RunSpeedView, delta: u64) -> RunSpeedView {
    RunSpeedView {
        base: if s.base + ramp_gain_spec(delta) >= RUN_SPEED_MAX {
            RUN_SPEED_MAX
        } else {
            (s.base + ramp_gain_spec(delta)) as u64
        },
        slowdown: tick_spec(s.slowdown, delta),
    }
}

/// Distance travelled over `delta` microseconds at `speed` µm/s (saturating).
pub open spec fn travel_spec(speed: int, delta: u64) -> int {
    if speed * delta / 1_000_000int > u64::MAX {
        u64::MAX as int
    } else {
        speed * delta / 1_000_000int
    }
}

impl RunSpeed {
    /// The starting speed, with the slowdown window already expired.
    pub fn new() -> (r: RunSpeed)
        ensures
            r@.base == RUN_SPEED_BASE,
            r@.slowdown == tick_spec(new_timer_spec(HIT_SLOWDOWN_US, TimerMode::Once), HIT_SLOWDOWN_US),
            speed_wf(r@),
            !slowed_spec(r@),
    {
        RunSpeed { base: RUN_SPEED_BASE, slowdown: Timer::expired(HIT_SLOWDOWN_US) }
    }

    /// The base speed in µm/s, before any slowdown.
    pub fn base(&self) -> (r: u64)
        ensures
            r == self@.base,
            speed_wf(self@),
    {
        proof {
            use_type_invariant(self);
        }
        self.base
    }

    /// Current forward speed in µm/s.
    pub fn current(&self) -> (r: u64)
        ensures
            r == current_speed_spec(self@),
            speed_wf(self@),
    {
        proof {
            use_type_invariant(self);
        }
        if self.slowdown.finished() {
            self.base
        } else {
            assert(self.base * 600 / 1000int <= self.base) by (nonlinear_arith);
            ((self.base as u128) * (HIT_SLOWDOWN_PERMILLE as u128) / 1000u128) as u64
        }
    }

    /// Open the slowdown window (again) from its start.
    pub fn apply_hit_slowdown(&mut self)
        ensures
            final(self)@ == (RunSpeedView { slowdown: reset_spec(old(self)@.slowdown), ..old(self)@ }),
            speed_wf(old(self)@),
            speed_wf(final(self)@),
    {
        proof {
            use_type_invariant(&*self);
        }
        let mut t = self.slowdown.clone();
        t.reset();
        self.slowdown = t;
    }

    /// Whether the slowdown window is open.
    pub fn is_slowed(&self) -> (r: bool)
        ensures
            r == slowed_spec(self@),
            speed_wf(self@),
    {
        proof {
            use_type_invariant(self);
        }
        !self.slowdown.finished()
    }

    /// Difficulty creep over `delta` microseconds.
    pub fn ramp(&mut self, delta: u64)
        ensures
            final(self)@ == ramp_spec(old(self)@, delta),
            speed_wf(old(self)@),
            speed_wf(final(self)@),
    {
        proof {
            use_type_invariant(&*self);
        }
        assert((RUN_SPEED_RAMP as u128) * (delta as u128) <= 50_000u128 * 0xffff_ffff_ffff_ffffu128)
            by (nonlinear_arith)
            requires
                RUN_SPEED_RAMP == 50_000,
        ;
        let gain: u128 = (RUN_SPEED_RAMP as u128) * (delta as u128) / 1_000_000u128;
        let raised: u128 = self.base as u128 + gain;
        self.base = if raised >= RUN_SPEED_MAX as u128 {
            RUN_SPEED_MAX
        } else {
            raised as u64
        };
        let mut t = self.slowdown.clone();
        t.tick(delta);
        self.slowdown = t;
    }

    /// Distance travelled over `delta` microseconds at the current speed.
    pub fn travel(&self, delta: u64) -> (r: u64)
        ensures
            r == travel_spec(current_speed_spec(self@), delta),
            speed_wf(self@),
    {
        let speed = self.current();
        assert((speed as u128) * (delta as u128) <= 0xffff_ffff_ffff_ffffu128 * 0xffff_ffff_ffff_ffffu128)
            by (nonlinear_arith);
        let d: u128 = (speed as u128) * (delta as u128) / 1_000_000u128;
        if d > 0xffff_ffff_ffff_ffffu128 {
            0xffff_ffff_ffff_ffffu64
        } else {
            d as u64
        }
    }
}

/// The post-hit slowdown lasts exactly its duration: right after a hit the
/// run is slowed (to the slowed share of its base speed), it stays slowed
/// while less than the slowdown duration passes, and the window has closed
/// once the full duration has passed.
pub proof fn lemma_hit_slowdown_window(s: RunSpeedView, delta: u64)
    requires
        speed_wf(s),
    ensures
        ({
            let hit = RunSpeedView { slowdown: reset_spec(s.slowdown), ..s };
            &&& slowed_spec(hit)
            &&& current_speed_spec(hit) == s.base * HIT_SLOWDOWN_PERMILLE / 1000int
            &&& delta < HIT_SLOWDOWN_US ==> slowed_spec(ramp_spec(hit, delta))
            &&& delta >= HIT_SLOWDOWN_US ==> !slowed_spec(ramp_spec(hit, delta))
            &&& speed_wf(ramp_spec(hit, delta))
        }),
{
}

/// The speed after a run of frames, `deltas[i]` microseconds each.
pub open spec fn ramp_frames_spec(s: RunSpeedView, deltas: Seq<u64>) -> RunSpeedView
    decreases deltas.len(),
{
    if deltas.len() == 0 {
        s
    } else {
        ramp_spec(ramp_frames_spec(s, deltas.drop_last()), deltas.last())
    }
}

/// Total time of a run of frames, in microseconds.
pub open spec fn total_time_spec(deltas: Seq<u64>) -> int
    decreases deltas.len(),
{
    if deltas.len() == 0 {
        0
    } else {
        total_time_spec(deltas.drop_last()) + deltas.last()
    }
}

proof fn lemma_total_time_monotone(deltas: Seq<u64>)
    requires
        deltas.len() > 0,
    ensures
        total_time_spec(deltas.drop_last()) <= total_time_spec(deltas),
{
}

/// Over any run of frames after a hit, the slowdown window is open exactly
/// while less than the slowdown duration has passed in total, and until then
/// it has been open for exactly that total.
proof fn lemma_slowdown_over_frames_inner(s: RunSpeedView, deltas: Seq<u64>)
    requires
        speed_wf(s),
        s.slowdown.elapsed == 0,
        !s.slowdown.finished,
    ensures
        speed_wf(ramp_frames_spec(s, deltas)),
        slowed_spec(ramp_frames_spec(s, deltas)) <==> total_time_spec(deltas) < HIT_SLOWDOWN_US,
        slowed_spec(ramp_frames_spec(s, deltas)) ==> ramp_frames_spec(s, deltas).slowdown.elapsed
            == total_time_spec(deltas),
        s.base <= RUN_SPEED_MAX ==> s.base <= ramp_frames_spec(s, deltas).base <= RUN_SPEED_MAX,
    decreases deltas.len(),
{
    if deltas.len() > 0 {
        let prev = deltas.drop_last();
        lemma_slowdown_over_frames_inner(s, prev);
        lemma_total_time_monotone(deltas);
        let before = ramp_frames_spec(s, prev);
        if before.base <= RUN_SPEED_MAX {
            lemma_speed_ramp_is_capped(before, deltas.last());
        }
        assert(ramp_gain_spec(deltas.last()) >= 0) by (nonlinear_arith)
            requires
                RUN_SPEED_RAMP == 50_000,
        ;
    }
}

/// The post-hit slowdown lasts exactly its duration over any run of frames:
/// after a hit, the run is slowed exactly while the frames since the hit
/// add up to less than the slowdown duration, and meanwhile the base speed
/// keeps ramping without passing its cap.
pub proof fn lemma_hit_slowdown_over_frames(s: RunSpeedView, deltas: Seq<u64>)
    requires
        speed_wf(s),
    ensures
        ({
            let hit = RunSpeedView { slowdown: reset_spec(s.slowdown), ..s };
            let after = ramp_frames_spec(hit, deltas);
            &&& slowed_spec(after) <==> total_time_spec(deltas) < HIT_SLOWDOWN_US
            &&& speed_wf(after)
            &&& s.base <= RUN_SPEED_MAX ==> s.base <= after.base <= RUN_SPEED_MAX
        }),
{
    let hit = RunSpeedView { slowdown: reset_spec(s.slowdown), ..s };
    lemma_slowdown_over_frames_inner(hit, deltas);
}

/// The speed ramp never passes the cap and never slows the run down.
pub proof fn lemma_speed_ramp_is_capped(s: RunSpeedView, delta: u64)
    requires
        s.base <= RUN_SPEED_MAX,
    ensures
        s.base <= ramp_spec(s, delta).base <= RUN_SPEED_MAX,
        current_speed_spec(s) <= s.base,
{
    assert(ramp_gain_spec(delta) >= 0) by (nonlinear_arith)
        requires
            RUN_SPEED_RAMP == 50_000,
    ;
    assert(s.base * HIT_SLOWDOWN_PERMILLE / 1000int <= s.base) by (nonlinear_arith)
        requires
            HIT_SLOWDOWN_PERMILLE == 600,
    ;
}

// --- Score ---------------------------------------------------------------------

/// Plain snapshot of the score.
pub struct ScoreView {
    pub points: u32,
    pub distance_acc: u64,
}

/// Score: collectibles plus distance travelled.
#[derive(Debug)]
pub struct Score {
    points: u32,
    distance_acc: u64,
}

impl View for Score {
    type V = ScoreView;

    closed spec fn view(&self) -> ScoreView {
        ScoreView { points: self.points, distance_acc: self.distance_acc }
    }
}

/// Points for the distance carried over plus `travel`.
pub open spec fn distance_points_spec(acc: u64, travel: u64) -> int {
    (acc + travel) / (DISTANCE_PER_POINT as int)
}

impl Score {
    /// No points, no distance carried over.
    pub fn new() -> (r: Score)
        ensures
            r@.points == 0,
            r@.distance_acc == 0,
    {
        Score { points: 0, distance_acc: 0 }
    }

    /// Points scored so far.
    pub fn points(&self) -> (r: u32)
        ensures
            r == self@.points,
    {
        self.points
    }

    /// Distance carried over toward the next point.
    pub fn distance_acc(&self) -> (r: u64)
        ensures
            r == self@.distance_acc,
    {
        self.distance_acc
    }

    /// Add a collectible's points.
    pub fn add_points(&mut self, points: u32)
        requires
            old(self)@.points + points <= u32::MAX,
        ensures
            final(self)@ == (ScoreView { points: (old(self)@.points + points) as u32, ..old(self)@ }),
    {
        self.points = self.points + points;
    }

    /// Distance is worth points too — surviving IS scoring: every full
    /// stretch of the distance per point scores one point, the remainder is
    /// carried over.
    pub fn score_distance(&mut self, travel: u64)
        requires
            old(self)@.points + distance_points_spec(old(self)@.distance_acc, travel) <= u32::MAX,
        ensures
            final(self)@.points == old(self)@.points + distance_points_spec(
                old(self)@.distance_acc,
                travel,
            ),
            final(self)@.distance_acc == (old(self)@.distance_acc + travel) % (
            DISTANCE_PER_POINT as int),
    {
        let total: u128 = self.distance_acc as u128 + travel as u128;
        let gained: u128 = total / (DISTANCE_PER_POINT as u128);
        self.points = (self.points as u128 + gained) as u32;
        self.distance_acc = (total % (DISTANCE_PER_POINT as u128)) as u64;
    }
}

/// Distance scoring loses nothing: the distance accounted for (points times
/// the distance per point, plus the carry) grows by exactly the distance
/// travelled, the carry stays below one point's worth, and the score never
/// goes down.
pub proof fn lemma_distance_scoring_is_exact(points: u32, acc: u64, travel: u64)
    ensures
        ({
            let p = points + distance_points_spec(acc, travel);
            let a = (acc + travel) % (DISTANCE_PER_POINT as int);
            &&& p * DISTANCE_PER_POINT + a == points * DISTANCE_PER_POINT + acc + travel
            &&& 0 <= a < DISTANCE_PER_POINT
            &&& p >= points
        }),
{
    let t = acc + travel;
    let d = DISTANCE_PER_POINT as int;
    assert(t == (t / d) * d + t % d) by (nonlinear_arith)
        requires
            d == 10_000_000,
    ;
    assert((points + t / d) * d == points * d + (t / d) * d) by (nonlinear_arith);
    assert(t / d >= 0) by (nonlinear_arith)
        requires
            t >= 0,
            d == 10_000_000,
    ;
}

/// Distance is worth points too: score the distance travelled over
/// `delta` microseconds at the current speed.
pub fn score_distance(score: &mut Score, speed: &RunSpeed, delta: u64)
    requires
        old(score)@.points + distance_points_spec(
            old(score)@.distance_acc,
            travel_spec(current_speed_spec(speed@), delta) as u64,
        ) <= u32::MAX,
    ensures
        ({
            let travel = travel_spec(current_speed_spec(speed@), delta) as u64;
            &&& final(score)@.points == old(score)@.points + distance_points_spec(
                old(score)@.distance_acc,
                travel,
            )
            &&& final(score)@.distance_acc == (old(score)@.distance_acc + travel) % (
            DISTANCE_PER_POINT as int)
        }),
{
    let travel = speed.travel(delta);
    score.score_distance(travel);
}

// --- World scrolling -----------------------------------------------------------

/// Move a scrolling object toward the camera by `dz`; report whether it is
/// now behind the despawn line.
pub fn advance_mover(z: i64, dz: u64) -> (r: (i64, bool))
    ensures
        r.0 == (if z + dz > i64::MAX {
            i64::MAX as int
        } else {
            z + dz
        }),
        r.1 == (r.0 > DESPAWN_Z),
{
    let moved: i128 = z as i128 + dz as i128;
    let nz: i64 = if moved > i64::MAX as i128 {
        i64::MAX
    } else {
        moved as i64
    };
    (nz, nz > DESPAWN_Z)
}

// --- Spawn tables ----------------------------------------------------------------

/// A point or half-extent in micrometres.
#[derive(Clone, Copy, PartialEq, Eq, Structural, Debug)]
pub struct Extents {
    pub x: i64,
    pub y: i64,
    pub z: i64,
}

/// Every obstacle type, by biome.
#[derive(Clone, Copy, PartialEq, Eq, Structural, Debug)]
pub enum ObstacleKind {
    // Ice
    IceChunk,
    Hole,
    Crack,
    // Water
    Iceberg,
    Crab,
    // Sky
    Plane,
    Bird,
}

/// An obstacle on the track.
#[derive(Clone, Copy, PartialEq, Eq, Structural, Debug)]
pub struct Obstacle {
    pub kind: ObstacleKind,
}

/// A collectible worth `points`.
#[derive(Clone, Copy, PartialEq, Eq, Structural, Debug)]
pub struct Collectible {
    pub points: u32,
}

/// The cannon pickup.
#[derive(Clone, Copy, PartialEq, Eq, Structural, Debug)]
pub struct CannonPickup;

/// Anything that scrolls toward the camera and despawns behind it.
#[derive(Clone, Copy, PartialEq, Eq, Structural, Debug)]
pub struct Mover;

/// Axis-aligned collision half-extents around an object's position.
#[derive(Clone, Copy, PartialEq, Eq, Structural, Debug)]
pub struct Collider {
    pub half: Extents,
}

/// Wing pivot on a bird obstacle: `side` is -1 or 1, `phase` (a 24-bit
/// share of a full turn) staggers the flap so a flock never beats in unison.
#[derive(Clone, Copy, PartialEq, Eq, Structural, Debug)]
pub struct BirdWing {
    pub side: i8,
    pub phase: u32,
}

/// Holes and cracks only trip a grounded penguin — a jump clears them.
pub open spec fn grounded_only_spec(kind: ObstacleKind) -> bool {
    kind == ObstacleKind::Hole || kind == ObstacleKind::Crack
}

/// The obstacles each biome can produce.
pub open spec fn obstacle_in_biome(kind: ObstacleKind, biome: Biome) -> bool {
    match biome {
        Biome::Ice => kind == ObstacleKind::IceChunk || kind == ObstacleKind::Hole || kind
            == ObstacleKind::Crack,
        Biome::Water => kind == ObstacleKind::Iceberg || kind == ObstacleKind::Crab,
        Biome::Sky => kind == ObstacleKind::Plane || kind == ObstacleKind::Bird,
    }
}

/// 24-bit thresholds of the obstacle table (the rolls 0.5, 0.75, 0.55 and
/// 0.45 over 2^24) and of the shrimp-line chance (0.3).
pub const ROLL_HALF: u32 = 8_388_608;
pub const ROLL_THREE_QUARTERS: u32 = 12_582_912;
pub const ROLL_ICEBERG: u32 = 9_227_469;
pub const ROLL_PLANE: u32 = 7_549_747;
pub const SHRIMP_LINE_CHANCE: u32 = 5_033_165;

/// Obstacle table: kind, height and collider half-extents for a biome and
/// a 24-bit roll.
pub open spec fn obstacle_table_spec(biome: Biome, roll: u32) -> (ObstacleKind, i64, Extents) {
    match biome {
        Biome::Ice => if roll < ROLL_HALF {
            // Dodge: too tall to jump.
            (ObstacleKind::IceChunk, 1_000_000, Extents { x: 800_000, y: 1_000_000, z: 700_000 })
        } else if roll < ROLL_THREE_QUARTERS {
            // Jump: flat, only hits a grounded penguin.
            (ObstacleKind::Hole, 30_000, Extents { x: 1_100_000, y: 100_000, z: 1_000_000 })
        } else {
            (ObstacleKind::Crack, 30_000, Extents { x: 1_150_000, y: 100_000, z: 350_000 })
        },
        Biome::Water => if roll < ROLL_ICEBERG {
            // Upper band: dive under or dodge.
            (ObstacleKind::Iceberg, 3_200_000, Extents { x: 900_000, y: 1_100_000, z: 800_000 })
        } else {
            // Sea floor: swim up or dodge.
            (ObstacleKind::Crab, 800_000, Extents { x: 750_000, y: 400_000, z: 600_000 })
        },
        Biome::Sky => if roll < ROLL_PLANE {
            // Full-column hazards: the lane dodge is the reliable evade.
            (ObstacleKind::Plane, 3_000_000, Extents { x: 900_000, y: 1_500_000, z: 1_300_000 })
        } else {
            (ObstacleKind::Bird, 3_000_000, Extents { x: 400_000, y: 1_500_000, z: 400_000 })
        },
    }
}

/// A lane index drawn from a generator output.
pub open spec fn lane_of(x: u64) -> int {
    (x % 3) as int - 1
}

/// An obstacle to spawn at the far end of the track.
#[derive(Clone, Copy, PartialEq, Eq, Structural, Debug)]
pub struct ObstacleSpawn {
    pub kind: ObstacleKind,
    pub x: i64,
    pub y: i64,
    /// Depth along the track: the far end, where everything spawns.
    pub z: i64,
    pub half: Extents,
    /// Flap phase of a bird's wings (24-bit share of a full turn).
    pub wing_phase: Option<u32>,
}

/// The obstacle drawn from generator state `s`, and the state after the draws.
pub open spec fn obstacle_spawn_spec(s: u64, biome: Biome) -> (u64, ObstacleSpawn) {
    let s1 = xorshift_spec(s);
    let s2 = xorshift_spec(s1);
    let t = obstacle_table_spec(biome, unit_spec(s2));
    let x = (lane_of(s1) * LANE_WIDTH) as i64;
    if t.0 == ObstacleKind::Bird {
        let s3 = xorshift_spec(s2);
        (s3, ObstacleSpawn { kind: t.0, x, y: t.1, z: SPAWN_Z, half: t.2, wing_phase: Some(unit_spec(s3)) })
    } else {
        (s2, ObstacleSpawn { kind: t.0, x, y: t.1, z: SPAWN_Z, half: t.2, wing_phase: None })
    }
}

/// A line of collectibles in one lane.
#[derive(Clone, Copy, PartialEq, Eq, Structural, Debug)]
pub struct CollectibleLine {
    pub x: i64,
    pub y: i64,
    pub points: u32,
    pub half: Extents,
}

/// The collectible line drawn from generator state `s`, and the state after.
pub open spec fn collectible_spawn_spec(s: u64, biome: Biome) -> (u64, CollectibleLine) {
    let s1 = xorshift_spec(s);
    let x = (lane_of(s1) * LANE_WIDTH) as i64;
    let (s2, y) = match biome {
        Biome::Ice => (s1, 1_100_000i64),
        Biome::Water => {
            let s2 = xorshift_spec(s1);
            (s2, range_spec(1_200_000, 3_100_000, unit_spec(s2)) as i64)
        },
        Biome::Sky => (s1, 3_000_000i64),
    };
    let s3 = xorshift_spec(s2);
    let shrimp = unit_spec(s3) < SHRIMP_LINE_CHANCE;
    (
        s3,
        CollectibleLine {
            x,
            y,
            points: if shrimp {
                SHRIMP_POINTS
            } else {
                FISH_POINTS
            },
            half: Extents {
                x: 450_000,
                y: if biome == Biome::Sky {
                    1_500_000
                } else {
                    500_000
                },
                z: 450_000,
            },
        },
    )
}

/// Where the `i`-th item of a collectible line starts.
pub open spec fn collectible_z_spec(i: int) -> int {
    SPAWN_Z - i * COLLECTIBLE_SPACING
}

/// A cannon to spawn.
#[derive(Clone, Copy, PartialEq, Eq, Structural, Debug)]
pub struct CannonSpawn {
    pub x: i64,
    pub y: i64,
    /// Depth along the track: the far end, where everything spawns.
    pub z: i64,
    pub half: Extents,
}

pub open spec fn cannon_spawn_spec(s: u64) -> (u64, CannonSpawn) {
    let s1 = xorshift_spec(s);
    (
        s1,
        CannonSpawn {
            x: (lane_of(s1) * LANE_WIDTH) as i64,
            y: 1_000_000,
            z: SPAWN_Z,
            half: Extents { x: 1_000_000, y: 2_000_000, z: 800_000 },
        },
    )
}

/// Ambient decor (pebbles, bubbles, clouds): position and per-mille scale.
#[derive(Clone, Copy, PartialEq, Eq, Structural, Debug)]
pub struct DecorSpawn {
    pub x: i64,
    pub y: i64,
    /// Depth along the track: the far end, where everything spawns.
    pub z: i64,
    pub scale: Extents,
}

pub open spec fn decor_spawn_spec(s: u64, biome: Biome) -> (u64, DecorSpawn) {
    let s1 = xorshift_spec(s);
    let s2 = xorshift_spec(s1);
    match biome {
        Biome::Ice => {
            let x = range_spec(-6_000_000i64, 6_000_000, unit_spec(s1)) as i64;
            let sc = range_spec(600, 1400, unit_spec(s2)) as i64;
            (s2, DecorSpawn { x, y: 100_000, z: SPAWN_Z, scale: Extents { x: sc, y: sc, z: sc } })
        },
        Biome::Water => {
            let s3 = xorshift_spec(s2);
            let x = range_spec(-6_000_000i64, 6_000_000, unit_spec(s1)) as i64;
            let y = range_spec(300_000, 5_000_000, unit_spec(s2)) as i64;
            let sc = range_spec(500, 1200, unit_spec(s3)) as i64;
            (s3, DecorSpawn { x, y, z: SPAWN_Z, scale: Extents { x: sc, y: sc, z: sc } })
        },
        Biome::Sky => {
            let s3 = xorshift_spec(s2);
            let s4 = xorshift_spec(s3);
            let x = range_spec(-9_000_000i64, 9_000_000, unit_spec(s1)) as i64;
            let y = range_spec(200_000, 5_500_000, unit_spec(s2)) as i64;
            let sx = range_spec(1200, 2200, unit_spec(s3)) as i64;
            let sz = range_spec(1000, 1800, unit_spec(s4)) as i64;
            (s4, DecorSpawn { x, y, z: SPAWN_Z, scale: Extents { x: sx, y: 700, z: sz } })
        },
    }
}

/// Draw an obstacle for the biome.
pub fn spawn_obstacle(rng: &mut GameRng, biome: Biome) -> (r: ObstacleSpawn)
    ensures
        (final(rng)@, r) == obstacle_spawn_spec(old(rng)@, biome),
        obstacle_in_biome(r.kind, biome),
{
    let lane = rng.lane();
    let roll = rng.unit();
    let x: i64 = lane as i64 * LANE_WIDTH;
    let (kind, y, half) = match biome {
        Biome::Ice => if roll < ROLL_HALF {
            (ObstacleKind::IceChunk, 1_000_000i64, Extents { x: 800_000, y: 1_000_000, z: 700_000 })
        } else if roll < ROLL_THREE_QUARTERS {
            (ObstacleKind::Hole, 30_000i64, Extents { x: 1_100_000, y: 100_000, z: 1_000_000 })
        } else {
            (ObstacleKind::Crack, 30_000i64, Extents { x: 1_150_000, y: 100_000, z: 350_000 })
        },
        Biome::Water => if roll < ROLL_ICEBERG {
            (ObstacleKind::Iceberg, 3_200_000i64, Extents { x: 900_000, y: 1_100_000, z: 800_000 })
        } else {
            (ObstacleKind::Crab, 800_000i64, Extents { x: 750_000, y: 400_000, z: 600_000 })
        },
        Biome::Sky => if roll < ROLL_PLANE {
            (ObstacleKind::Plane, 3_000_000i64, Extents { x: 900_000, y: 1_500_000, z: 1_300_000 })
        } else {
            (ObstacleKind::Bird, 3_000_000i64, Extents { x: 400_000, y: 1_500_000, z: 400_000 })
        },
    };
    let wing_phase = if kind == ObstacleKind::Bird {
        Some(rng.unit())
    } else {
        None
    };
    ObstacleSpawn { kind, x, y, z: SPAWN_Z, half, wing_phase }
}

/// Draw a collectible line for the biome: a shrimp line (worth the shrimp
/// points) with a 0.3 chance, a fish line otherwise.
pub fn spawn_collectible_line(rng: &mut GameRng, biome: Biome) -> (r: CollectibleLine)
    ensures
        (final(rng)@, r) == collectible_spawn_spec(old(rng)@, biome),
{
    let lane = rng.lane();
    let x: i64 = lane as i64 * LANE_WIDTH;
    let y: i64 = match biome {
        Biome::Ice => 1_100_000,
        Biome::Water => rng.range(1_200_000, 3_100_000),
        Biome::Sky => 3_000_000,
    };
    let shrimp = rng.chance(SHRIMP_LINE_CHANCE);
    let points = if shrimp {
        SHRIMP_POINTS
    } else {
        FISH_POINTS
    };
    let half_y: i64 = if biome == Biome::Sky {
        1_500_000
    } else {
        500_000
    };
    CollectibleLine { x, y, points, half: Extents { x: 450_000, y: half_y, z: 450_000 } }
}

/// Where the `i`-th item of a collectible line starts.
pub fn collectible_z(i: usize) -> (r: i64)
    requires
        collectible_z_spec(i as int) >= i64::MIN,
    ensures
        r == collectible_z_spec(i as int),
{
    assert(0 <= (i as int) * COLLECTIBLE_SPACING <= 0xffff_ffff_ffff_ffffu64 * 2_200_000int)
        by (nonlinear_arith)
        requires
            0 <= i <= 0xffff_ffff_ffff_ffffu64,
            COLLECTIBLE_SPACING == 2_200_000,
    ;
    let z: i128 = SPAWN_Z as i128 - (i as i128) * (COLLECTIBLE_SPACING as i128);
    z as i64
}

/// Draw a cannon.
pub fn spawn_cannon(rng: &mut GameRng) -> (r: CannonSpawn)
    ensures
        (final(rng)@, r) == cannon_spawn_spec(old(rng)@),
{
    let lane = rng.lane();
    CannonSpawn {
        x: lane as i64 * LANE_WIDTH,
        y: 1_000_000,
        z: SPAWN_Z,
        half: Extents { x: 1_000_000, y: 2_000_000, z: 800_000 },
    }
}

/// Draw an ambient decor piece for the biome.
pub fn spawn_decor(rng: &mut GameRng, biome: Biome) -> (r: DecorSpawn)
    ensures
        (final(rng)@, r) == decor_spawn_spec(old(rng)@, biome),
{
    match biome {
        Biome::Ice => {
            let x = rng.range(-6_000_000, 6_000_000);
            let sc = rng.range(600, 1400);
            DecorSpawn { x, y: 100_000, z: SPAWN_Z, scale: Extents { x: sc, y: sc, z: sc } }
        },
        Biome::Water => {
            let x = rng.range(-6_000_000, 6_000_000);
            let y = rng.range(300_000, 5_000_000);
            let sc = rng.range(500, 1200);
            DecorSpawn { x, y, z: SPAWN_Z, scale: Extents { x: sc, y: sc, z: sc } }
        },
        Biome::Sky => {
            let x = rng.range(-9_000_000, 9_000_000);
            let y = rng.range(200_000, 5_500_000);
            let sx = rng.range(1200, 2200);
            let sz = rng.range(1000, 1800);
            DecorSpawn { x, y, z: SPAWN_Z, scale: Extents { x: sx, y: 700, z: sz } }
        },
    }
}

// --- Spawn timers ------------------------------------------------------------------

/// Plain snapshot of the spawn timers.
pub struct SpawnTimersView {
    pub obstacle: TimerState,
    pub collectible: TimerState,
    pub cannon: TimerState,
    pub decor: TimerState,
}

/// Independent randomized timers per spawn category.
#[derive(Debug)]
pub struct SpawnTimers {
    obstacle: Timer,
    collectible: Timer,
    cannon: Timer,
    decor: Timer,
}

impl View for SpawnTimers {
    type V = SpawnTimersView;

    closed spec fn view(&self) -> SpawnTimersView {
        SpawnTimersView {
            obstacle: self.obstacle@,
            collectible: self.collectible@,
            cannon: self.cannon@,
            decor: self.decor@,
        }
    }
}

impl SpawnTimers {
    /// The first obstacle after the longest interval, everything else after
    /// its shortest interval.
    pub fn new() -> (r: SpawnTimers)
        ensures
            r@.obstacle == new_timer_spec(OBSTACLE_INTERVAL_MAX_US, TimerMode::Once),
            r@.collectible == new_timer_spec(COLLECTIBLE_INTERVAL_MIN_US, TimerMode::Once),
            r@.cannon == new_timer_spec(CANNON_INTERVAL_MIN_US, TimerMode::Once),
            r@.decor == new_timer_spec(DECOR_INTERVAL_MIN_US, TimerMode::Once),
    {
        SpawnTimers {
            obstacle: Timer::new(OBSTACLE_INTERVAL_MAX_US, TimerMode::Once),
            collectible: Timer::new(COLLECTIBLE_INTERVAL_MIN_US, TimerMode::Once),
            cannon: Timer::new(CANNON_INTERVAL_MIN_US, TimerMode::Once),
            decor: Timer::new(DECOR_INTERVAL_MIN_US, TimerMode::Once),
        }
    }
}

/// What one frame of the spawner emits.
#[derive(Clone, Copy, PartialEq, Eq, Structural, Debug)]
pub struct SpawnPlan {
    pub obstacle: Option<ObstacleSpawn>,
    pub collectible: Option<CollectibleLine>,
    pub cannon: Option<CannonSpawn>,
    pub decor: Option<DecorSpawn>,
}

/// One spawn category's timer for a frame: tick it; when it runs out,
/// draw the next interval from `[lo, hi)` as a fresh one-shot timer. Gives
/// the timer, the generator state, and whether the category fires.
pub open spec fn interval_step_spec(t: TimerState, s: u64, delta: u64, lo: u64, hi: u64) -> (
    TimerState,
    u64,
    bool,
) {
    let ticked = tick_spec(t, delta);
    if ticked.finished {
        let s1 = xorshift_spec(s);
        (new_timer_spec(range_spec(lo as i64, hi as i64, unit_spec(s1)) as u64, TimerMode::Once), s1, true)
    } else {
        (ticked, s, false)
    }
}

/// One frame of the spawner from timers `t` and generator state `s`:
/// obstacles, collectible lines, cannons (ground biomes only — the sky IS
/// the cannon reward; the cannon timer does not run in the sky), decor.
/// Each firing category draws its next interval, then its spawn.
pub open spec fn spawn_tick_spec(t: SpawnTimersView, s: u64, delta: u64, biome: Biome) -> (
    SpawnTimersView,
    u64,
    SpawnPlan,
) {
    let ob = interval_step_spec(t.obstacle, s, delta, OBSTACLE_INTERVAL_MIN_US, OBSTACLE_INTERVAL_MAX_US);
    let obd = obstacle_spawn_spec(ob.1, biome);
    let s_ob = if ob.2 { obd.0 } else { ob.1 };
    let co = interval_step_spec(t.collectible, s_ob, delta, COLLECTIBLE_INTERVAL_MIN_US, COLLECTIBLE_INTERVAL_MAX_US);
    let cod = collectible_spawn_spec(co.1, biome);
    let s_co = if co.2 { cod.0 } else { co.1 };
    let ca = if biome != Biome::Sky {
        interval_step_spec(t.cannon, s_co, delta, CANNON_INTERVAL_MIN_US, CANNON_INTERVAL_MAX_US)
    } else {
        (t.cannon, s_co, false)
    };
    let cad = cannon_spawn_spec(ca.1);
    let s_ca = if ca.2 { cad.0 } else { ca.1 };
    let de = interval_step_spec(t.decor, s_ca, delta, DECOR_INTERVAL_MIN_US, DECOR_INTERVAL_MAX_US);
    let ded = decor_spawn_spec(de.1, biome);
    let s_de = if de.2 { ded.0 } else { de.1 };
    (
        SpawnTimersView { obstacle: ob.0, collectible: co.0, cannon: ca.0, decor: de.0 },
        s_de,
        SpawnPlan {
            obstacle: if ob.2 { Some(obd.1) } else { None },
            collectible: if co.2 { Some(cod.1) } else { None },
            cannon: if ca.2 { Some(cad.1) } else { None },
            decor: if de.2 { Some(ded.1) } else { None },
        },
    )
}

/// Draw a spawn interval in `[lo, hi)` microseconds.
fn draw_interval(rng: &mut GameRng, lo: u64, hi: u64) -> (r: u64)
    requires
        lo < hi <= i64::MAX,
    ensures
        r == range_spec(lo as i64, hi as i64, unit_spec(xorshift_spec(old(rng)@))) as u64,
        lo <= r < hi,
        final(rng)@ == xorshift_spec(old(rng)@),
{
    let v = rng.range(lo as i64, hi as i64);
    v as u64
}

/// One spawner to rule them all: rolls each category's timer and emits
/// biome-appropriate obstacles, collectible lines, cannons, and decor.
pub fn spawn_tick(delta: u64, biome: Biome, rng: &mut GameRng, timers: &mut SpawnTimers) -> (r:
    SpawnPlan)
    ensures
        (final(timers)@, final(rng)@, r) == spawn_tick_spec(old(timers)@, old(rng)@, delta, biome),
{
    let mut plan = SpawnPlan { obstacle: None, collectible: None, cannon: None, decor: None };

    timers.obstacle.tick(delta);
    if timers.obstacle.finished() {
        let secs = draw_interval(rng, OBSTACLE_INTERVAL_MIN_US, OBSTACLE_INTERVAL_MAX_US);
        timers.obstacle = Timer::new(secs, TimerMode::Once);
        plan.obstacle = Some(spawn_obstacle(rng, biome));
    }

    timers.collectible.tick(delta);
    if timers.collectible.finished() {
        let secs = draw_interval(rng, COLLECTIBLE_INTERVAL_MIN_US, COLLECTIBLE_INTERVAL_MAX_US);
        timers.collectible = Timer::new(secs, TimerMode::Once);
        plan.collectible = Some(spawn_collectible_line(rng, biome));
    }

    if biome != Biome::Sky {
        timers.cannon.tick(delta);
        if timers.cannon.finished() {
            let secs = draw_interval(rng, CANNON_INTERVAL_MIN_US, CANNON_INTERVAL_MAX_US);
            timers.cannon = Timer::new(secs, TimerMode::Once);
            plan.cannon = Some(spawn_cannon(rng));
        }
    }

    timers.decor.tick(delta);
    if timers.decor.finished() {
        let secs = draw_interval(rng, DECOR_INTERVAL_MIN_US, DECOR_INTERVAL_MAX_US);
        timers.decor = Timer::new(secs, TimerMode::Once);
        plan.decor = Some(spawn_decor(rng, biome));
    }
    plan
}

/// The cannon only spawns at ground level, and every obstacle fits its
/// biome.
pub proof fn lemma_spawns_fit_the_biome(t: SpawnTimersView, s: u64, delta: u64, biome: Biome)
    ensures
        biome == Biome::Sky ==> spawn_tick_spec(t, s, delta, biome).2.cannon is None,
        biome == Biome::Sky ==> spawn_tick_spec(t, s, delta, biome).0.cannon == t.cannon,
        spawn_tick_spec(t, s, delta, biome).2.obstacle is Some ==> obstacle_in_biome(
            spawn_tick_spec(t, s, delta, biome).2.obstacle->0.kind,
            biome,
        ),
{
}

// --- Collisions ------------------------------------------------------------------

pub open spec fn abs_int(x: int) -> int {
    if x < 0 {
        -x
    } else {
        x
    }
}

/// Two boxes overlap when, on every axis, the centers are closer than the
/// sum of the half-extents.
pub open spec fn overlaps_spec(center: Extents, player_half: Extents, other: Extents, half: Extents) -> bool {
    &&& abs_int(other.x - center.x) < half.x + player_half.x
    &&& abs_int(other.y - center.y) < half.y + player_half.y
    &&& abs_int(other.z - center.z) < half.z + player_half.z
}

/// Axis-aligned box overlap between the player and another collider.
pub fn overlaps(center: Extents, player_half: Extents, other: Extents, half: Extents) -> (r: bool)
    ensures
        r == overlaps_spec(center, player_half, other, half),
{
    let dx: i128 = other.x as i128 - center.x as i128;
    let dy: i128 = other.y as i128 - center.y as i128;
    let dz: i128 = other.z as i128 - center.z as i128;
    let ax: i128 = if dx < 0 {
        -dx
    } else {
        dx
    };
    let ay: i128 = if dy < 0 {
        -dy
    } else {
        dy
    };
    let az: i128 = if dz < 0 {
        -dz
    } else {
        dz
    };
    ax < half.x as i128 + player_half.x as i128 && ay < half.y as i128 + player_half.y as i128 && az
        < half.z as i128 + player_half.z as i128
}

/// Overlap is a genuine three-axis box test: two boxes overlap exactly when,
/// on each of the three axes, their centers are closer than the sum of their
/// half-extents; boxes separated on any one axis (across lanes, in height,
/// or along the track) never overlap.
pub proof fn lemma_overlap_is_a_box_test(
    center: Extents,
    player_half: Extents,
    other: Extents,
    half: Extents,
)
    ensures
        overlaps_spec(center, player_half, other, half) <==> ({
            &&& other.x - center.x < half.x + player_half.x
            &&& center.x - other.x < half.x + player_half.x
            &&& other.y - center.y < half.y + player_half.y
            &&& center.y - other.y < half.y + player_half.y
            &&& other.z - center.z < half.z + player_half.z
            &&& center.z - other.z < half.z + player_half.z
        }),
        other.x - center.x >= half.x + player_half.x || center.x - other.x >= half.x
            + player_half.x ==> !overlaps_spec(center, player_half, other, half),
        other.y - center.y >= half.y + player_half.y || center.y - other.y >= half.y
            + player_half.y ==> !overlaps_spec(center, player_half, other, half),
        other.z - center.z >= half.z + player_half.z || center.z - other.z >= half.z
            + player_half.z ==> !overlaps_spec(center, player_half, other, half),
{
}

/// The player's hitbox half-extents: belly-sliding squashes the penguin
/// and shrinks the hitbox height to 0.55 of its standing height.
pub fn player_half(sliding: bool) -> (r: Extents)
    ensures
        r == (Extents { x: 400_000, y: if sliding { 357_500 } else { 650_000 }, z: 400_000 }),
{
    Extents {
        x: 400_000,
        y: if sliding {
            357_500
        } else {
            650_000
        },
        z: 400_000,
    }
}

/// An obstacle's kind and whether it overlaps the player.
#[derive(Clone, Copy, PartialEq, Eq, Structural, Debug)]
pub struct ObstacleContact {
    pub kind: ObstacleKind,
    pub overlapping: bool,
}

/// A collectible's worth and whether it overlaps the player.
#[derive(Clone, Copy, PartialEq, Eq, Structural, Debug)]
pub struct CollectibleContact {
    pub points: u32,
    pub overlapping: bool,
}

/// An overlapping obstacle counts as a hit unless it is a hole or crack
/// that the airborne penguin clears.
pub open spec fn counts_as_hit(c: ObstacleContact, grounded: bool) -> bool {
    c.overlapping && !(grounded_only_spec(c.kind) && !grounded)
}

/// The first obstacle (in order) that counts as a hit.
pub open spec fn first_hit_spec(contacts: Seq<ObstacleContact>, grounded: bool) -> Option<usize> {
    if exists|i: int| 0 <= i < contacts.len() && counts_as_hit(contacts[i], grounded) {
        let i = choose|i: int|
            0 <= i < contacts.len() && counts_as_hit(contacts[i], grounded) && forall|j: int|
                0 <= j < i ==> !counts_as_hit(#[trigger] contacts[j], grounded);
        Some(i as usize)
    } else {
        None
    }
}

/// The cue a collectible of `points` plays.
pub open spec fn collect_cue_spec(points: u32) -> AudioCue {
    if points == FISH_POINTS {
        AudioCue::CollectFish
    } else {
        AudioCue::CollectShrimp
    }
}

/// Sum of the points of the overlapping collectibles among the first `n`.
pub open spec fn overlap_points_spec(items: Seq<CollectibleContact>, n: int) -> int
    decreases n,
{
    if n <= 0 {
        0
    } else {
        overlap_points_spec(items, n - 1) + if items[n - 1].overlapping {
            items[n - 1].points as int
        } else {
            0
        }
    }
}

/// The indices of the overlapping items among the first `n`, in order.
pub open spec fn overlapping_indices(items: Seq<CollectibleContact>, n: int) -> Seq<usize>
    decreases n,
{
    if n <= 0 {
        Seq::empty()
    } else {
        let prev = overlapping_indices(items, n - 1);
        if items[n - 1].overlapping {
            prev.push((n - 1) as usize)
        } else {
            prev
        }
    }
}

/// The indices of the `true` entries among the first `n`, in order.
pub open spec fn true_indices(flags: Seq<bool>, n: int) -> Seq<usize>
    decreases n,
{
    if n <= 0 {
        Seq::empty()
    } else {
        let prev = true_indices(flags, n - 1);
        if flags[n - 1] {
            prev.push((n - 1) as usize)
        } else {
            prev
        }
    }
}

/// The cues of a collision pass: one per taken collectible (by its worth),
/// then one cannon launch per taken cannon.
pub open spec fn cues_spec(
    collectibles: Seq<CollectibleContact>,
    collected: Seq<usize>,
    cannons_taken: nat,
    cues: Seq<AudioCue>,
) -> bool {
    &&& cues.len() == collected.len() + cannons_taken
    &&& forall|k: int|
        0 <= k < collected.len() ==> #[trigger] cues[k] == collect_cue_spec(
            collectibles[collected[k] as int].points,
        )
    &&& forall|k: int| collected.len() <= k < cues.len() ==> #[trigger] cues[k] == AudioCue::CannonLaunch
}

proof fn lemma_overlap_points_monotone(items: Seq<CollectibleContact>, i: int, n: int)
    requires
        0 <= i <= n <= items.len(),
    ensures
        overlap_points_spec(items, i) <= overlap_points_spec(items, n),
        overlap_points_spec(items, i) >= 0,
    decreases n - i,
{
    if i < n {
        lemma_overlap_points_monotone(items, i, n - 1);
    } else {
        lemma_overlap_points_nonneg(items, n);
    }
}

proof fn lemma_overlap_points_nonneg(items: Seq<CollectibleContact>, n: int)
    ensures
        overlap_points_spec(items, n) >= 0,
    decreases n,
{
    if n > 0 {
        lemma_overlap_points_nonneg(items, n - 1);
    }
}

/// What one collision pass did.
#[derive(Debug)]
pub struct CollisionReport {
    /// The obstacle that hit the player, if any (at most one per pass).
    pub obstacle: Option<usize>,
    /// The collectibles taken, in order.
    pub collected: Vec<usize>,
    /// The cannons taken, in order.
    pub cannons: Vec<usize>,
    /// The sound cues, in order: one per collectible, then one per cannon.
    pub cues: Vec<AudioCue>,
}

/// Find the first obstacle that counts as a hit.
pub fn first_obstacle_hit(contacts: &Vec<ObstacleContact>, grounded: bool) -> (r: Option<usize>)
    ensures
        r == first_hit_spec(contacts@, grounded),
        r is Some ==> r->0 < contacts@.len() && counts_as_hit(contacts@[r->0 as int], grounded),
        r is Some ==> forall|j: int| 0 <= j < r->0 ==> !counts_as_hit(#[trigger] contacts@[j], grounded),
        r is None ==> forall|j: int|
            0 <= j < contacts@.len() ==> !counts_as_hit(#[trigger] contacts@[j], grounded),
{
    let mut i: usize = 0;
    while i < contacts.len()
        invariant
            i <= contacts.len(),
            forall|j: int| 0 <= j < i ==> !counts_as_hit(#[trigger] contacts@[j], grounded),
        decreases contacts.len() - i,
    {
        let c = contacts[i];
        if c.overlapping && !((c.kind == ObstacleKind::Hole || c.kind == ObstacleKind::Crack)
            && !grounded) {
            assert(counts_as_hit(contacts@[i as int], grounded));
            let ghost k = choose|k: int|
                0 <= k < contacts@.len() && counts_as_hit(contacts@[k], grounded) && forall|j: int|
                    0 <= j < k ==> !counts_as_hit(#[trigger] contacts@[j], grounded);
            assert(k == i as int) by {
                if k < i as int {
                    assert(!counts_as_hit(contacts@[k], grounded));
                } else if k > i as int {
                    assert(!counts_as_hit(contacts@[i as int], grounded));
                }
            }
            return Some(i);
        }
        i += 1;
    }
    None
}

/// Player box against everything with a collider. Obstacles slow the run
/// (and, in the sky, cost altitude); collectibles score; cannons fire the
/// penguin skyward. A slowed player is briefly "staggered": no obstacle hits
/// count while the slowdown window is open, so the same obstacle cluster
/// cannot double-penalize.
pub fn collide_player(
    speed: &mut RunSpeed,
    score: &mut Score,
    altitude: &mut Altitude,
    next_biome: &mut Option<Biome>,
    biome: Biome,
    grounded: bool,
    obstacles: &Vec<ObstacleContact>,
    collectibles: &Vec<CollectibleContact>,
    cannons: &Vec<bool>,
) -> (r: CollisionReport)
    requires
        old(score)@.points + overlap_points_spec(collectibles@, collectibles@.len() as int)
            <= u32::MAX,
    ensures
        r.obstacle == (if slowed_spec(old(speed)@) {
            None
        } else {
            first_hit_spec(obstacles@, grounded)
        }),
        r.obstacle is Some ==> r.obstacle->0 < obstacles@.len() && counts_as_hit(
            obstacles@[r.obstacle->0 as int],
            grounded,
        ),
        r.obstacle is Some ==> forall|j: int|
            0 <= j < r.obstacle->0 ==> !counts_as_hit(#[trigger] obstacles@[j], grounded),
        r.obstacle is None && !slowed_spec(old(speed)@) ==> forall|j: int|
            0 <= j < obstacles@.len() ==> !counts_as_hit(#[trigger] obstacles@[j], grounded),
        r.obstacle is Some ==> final(speed)@ == (RunSpeedView {
            slowdown: reset_spec(old(speed)@.slowdown),
            ..old(speed)@
        }),
        r.obstacle is None ==> final(speed)@ == old(speed)@,
        final(altitude).0 == (if r.obstacle is Some && biome == Biome::Sky {
            if old(altitude).0 >= SKY_HIT_ALTITUDE_PENALTY {
                (old(altitude).0 - SKY_HIT_ALTITUDE_PENALTY) as u64
            } else {
                0
            }
        } else {
            old(altitude).0
        }),
        r.collected@ == overlapping_indices(collectibles@, collectibles@.len() as int),
        final(score)@ == (ScoreView {
            points: (old(score)@.points + overlap_points_spec(
                collectibles@,
                collectibles@.len() as int,
            )) as u32,
            ..old(score)@
        }),
        r.cannons@ == true_indices(cannons@, cannons@.len() as int),
        cues_spec(collectibles@, r.collected@, r.cannons@.len(), r.cues@),
        *final(next_biome) == (if r.cannons@.len() > 0 {
            Some(Biome::Sky)
        } else {
            *old(next_biome)
        }),
{
    let mut obstacle: Option<usize> = None;
    if !speed.is_slowed() {
        obstacle = first_obstacle_hit(obstacles, grounded);
        if obstacle.is_some() {
            speed.apply_hit_slowdown();
            if biome == Biome::Sky {
                altitude.0 = altitude.0.saturating_sub(SKY_HIT_ALTITUDE_PENALTY);
            }
        }
    }

    let mut collected: Vec<usize> = Vec::new();
    let mut cues: Vec<AudioCue> = Vec::new();
    let ghost base_points = score@.points;
    let mut i: usize = 0;
    while i < collectibles.len()
        invariant
            i <= collectibles.len(),
            base_points == old(score)@.points,
            base_points + overlap_points_spec(collectibles@, collectibles@.len() as int) <= u32::MAX,
            score@ == (ScoreView {
                points: (base_points + overlap_points_spec(collectibles@, i as int)) as u32,
                ..old(score)@
            }),
            collected@ == overlapping_indices(collectibles@, i as int),
            cues_spec(collectibles@, collected@, 0, cues@),
        decreases collectibles.len() - i,
    {
        let c = collectibles[i];
        proof {
            lemma_overlap_points_monotone(collectibles@, i as int + 1, collectibles@.len() as int);
            lemma_overlap_points_nonneg(collectibles@, i as int);
        }
        if c.overlapping {
            score.add_points(c.points);
            collected.push(i);
            cues.push(
                if c.points == FISH_POINTS {
                    AudioCue::CollectFish
                } else {
                    AudioCue::CollectShrimp
                },
            );
        }
        i += 1;
    }

    let mut taken: Vec<usize> = Vec::new();
    let mut j: usize = 0;
    while j < cannons.len()
        invariant
            j <= cannons.len(),
            taken@ == true_indices(cannons@, j as int),
            cues_spec(collectibles@, collected@, taken@.len(), cues@),
            collected@ == overlapping_indices(collectibles@, collectibles@.len() as int),
            *next_biome == (if taken@.len() > 0 {
                Some(Biome::Sky)
            } else {
                *old(next_biome)
            }),
        decreases cannons.len() - j,
    {
        if cannons[j] {
            taken.push(j);
            cues.push(AudioCue::CannonLaunch);
            crate::states::launch_to_sky(next_biome);
        }
        j += 1;
    }
    CollisionReport { obstacle, collected, cannons: taken, cues }
}

/// Sky hits cost altitude, floored at zero.
pub fn sky_hit_penalty(altitude: &mut Altitude)
    ensures
        final(altitude).0 == (if old(altitude).0 >= SKY_HIT_ALTITUDE_PENALTY {
            (old(altitude).0 - SKY_HIT_ALTITUDE_PENALTY) as u64
        } else {
            0
        }),
{
    altitude.0 = altitude.0.saturating_sub(SKY_HIT_ALTITUDE_PENALTY);
}

/// Holes and cracks only trip a grounded penguin — a jump clears them —
/// while every other obstacle hits whenever it overlaps, airborne or not;
/// nothing that does not overlap ever hits.
pub proof fn lemma_jumps_clear_only_holes_and_cracks(c: ObstacleContact, grounded: bool)
    ensures
        !c.overlapping ==> !counts_as_hit(c, grounded),
        c.overlapping && grounded ==> counts_as_hit(c, grounded),
        c.overlapping && !grounded ==> (counts_as_hit(c, grounded) <==> (c.kind
            != ObstacleKind::Hole && c.kind != ObstacleKind::Crack)),
{
}

/// A fish plays the fish cue and a shrimp the shrimp cue; every collectible
/// cue is one of the two.
pub proof fn lemma_collect_cues_match_the_catch(points: u32)
    ensures
        points == FISH_POINTS ==> collect_cue_spec(points) == AudioCue::CollectFish,
        points != FISH_POINTS ==> collect_cue_spec(points) == AudioCue::CollectShrimp,
{
}

/// A spawn category fires exactly when its timer runs out, and then waits a
/// fresh, unfinished one-shot interval drawn from `[lo, hi)` before the
/// next; otherwise its timer just ticks and the generator is untouched.
pub proof fn lemma_spawn_intervals_stay_in_range(
    t: TimerState,
    s: u64,
    delta: u64,
    lo: u64,
    hi: u64,
)
    requires
        lo < hi <= i64::MAX,
    ensures
        ({
            let r = interval_step_spec(t, s, delta, lo, hi);
            &&& r.2 == tick_spec(t, delta).finished
            &&& r.2 ==> {
                &&& lo <= r.0.duration < hi
                &&& r.0.elapsed == 0
                &&& !r.0.finished
                &&& r.0.mode == TimerMode::Once
                &&& r.1 == xorshift_spec(s)
            }
            &&& !r.2 ==> r.0 == tick_spec(t, delta) && r.1 == s
        }),
{
    let u = unit_spec(xorshift_spec(s));
    assert(u < 0x100_0000) by (bit_vector)
        requires
            u == (xorshift_spec(s) >> 40u64) as u32,
    ;
    let span = hi - lo;
    assert(0 <= u * span / 0x100_0000int < span) by (nonlinear_arith)
        requires
            0 <= u < 0x100_0000,
            span > 0,
    ;
}

/// While the slowdown window is open the run moves at the slowed share of
/// its base speed, otherwise at the base speed, and never faster than the
/// base speed.
pub proof fn lemma_slowdown_slows_the_run(s: RunSpeedView)
    ensures
        slowed_spec(s) ==> current_speed_spec(s) == s.base * HIT_SLOWDOWN_PERMILLE / 1000int,
        !slowed_spec(s) ==> current_speed_spec(s) == s.base,
        0 <= current_speed_spec(s) <= s.base,
        slowed_spec(s) && s.base >= 1000 ==> current_speed_spec(s) < s.base,
{
    assert(0 <= s.base * 600 / 1000int <= s.base) by (nonlinear_arith);
    assert(s.base >= 1000 ==> s.base * 600 / 1000int < s.base) by (nonlinear_arith);
}

/// Everything spawns at the far end of the track, centred on one of the
/// three lanes: obstacles (with flapping wings only on birds), collectible
/// lines worth a fish or a shrimp (underwater at a height inside the swim
/// lane band), and cannons.
pub proof fn lemma_spawns_sit_on_the_lanes(s: u64, biome: Biome)
    ensures
        ({
            let ob = obstacle_spawn_spec(s, biome).1;
            &&& ob.x == -LANE_WIDTH || ob.x == 0 || ob.x == LANE_WIDTH
            &&& ob.z == SPAWN_Z
            &&& (ob.wing_phase is Some <==> ob.kind == ObstacleKind::Bird)
            &&& obstacle_in_biome(ob.kind, biome)
        }),
        ({
            let line = collectible_spawn_spec(s, biome).1;
            &&& line.x == -LANE_WIDTH || line.x == 0 || line.x == LANE_WIDTH
            &&& line.points == FISH_POINTS || line.points == SHRIMP_POINTS
            &&& biome == Biome::Water ==> 1_200_000 <= line.y < 3_100_000
        }),
        ({
            let c = cannon_spawn_spec(s).1;
            &&& c.x == -LANE_WIDTH || c.x == 0 || c.x == LANE_WIDTH
            &&& c.z == SPAWN_Z
        }),
{
    let s1 = xorshift_spec(s);
    assert(-1 <= lane_of(s1) <= 1);
    let s2 = xorshift_spec(s1);
    let u = unit_spec(s2);
    assert(u < 0x100_0000) by (bit_vector)
        requires
            u == (s2 >> 40u64) as u32,
    ;
    assert(0 <= u * 1_900_000 / 0x100_0000int < 1_900_000) by (nonlinear_arith)
        requires
            0 <= u < 0x100_0000,
    ;
}

} // verus!
