//! Central tuning table. Every gameplay number lives here, in fixed-point
//! integer units so that the rules built on them can be proved exactly:
//!
//! - lengths and heights in micrometres (µm),
//! - durations in microseconds (µs),
//! - speeds in µm per second, accelerations in µm per second²,
//! - multipliers in per-mille (‰),
//! - lane-follow rates in "per second" (fraction of the remaining distance
//!   closed per second),
//! - touch positions in milli-pixels (1/1000 of a logical pixel).
//!
//! Values marked [PLACEHOLDER] are hypotheses awaiting playtesting.
use vstd::prelude::*;

verus! {

/// Microseconds in one second.
pub const MICROS_PER_SECOND: u64 = 1_000_000;

/// Center-to-center spacing of the three run lanes. Locked for readability.
pub const LANE_WIDTH: i64 = 2_500_000;

// --- Forward motion -----------------------------------------------------------

/// Starting forward speed. [PLACEHOLDER]
pub const RUN_SPEED_BASE: u64 = 12_000_000;
/// Speed gained per second of clean running. [PLACEHOLDER]
pub const RUN_SPEED_RAMP: u64 = 50_000;
/// Hard cap on forward speed. [PLACEHOLDER]
pub const RUN_SPEED_MAX: u64 = 24_000_000;
/// Per-mille of speed kept while the post-hit slowdown is active. [PLACEHOLDER]
pub const HIT_SLOWDOWN_PERMILLE: u64 = 600;
/// Duration of the post-hit slowdown. [PLACEHOLDER]
pub const HIT_SLOWDOWN_US: u64 = 1_200_000;

// --- Lane feel per biome (share of the remaining lane offset closed per second)

/// Slippery: the penguin drifts into lane changes. [PLACEHOLDER]
pub const LANE_LERP_ICE: u64 = 6;
/// Smooth, watery response. [PLACEHOLDER]
pub const LANE_LERP_WATER: u64 = 9;
/// Freest control while airborne. [PLACEHOLDER]
pub const LANE_LERP_SKY: u64 = 12;
/// How far past its new lane the penguin slides on ice before settling
/// back (slight overshoot). [PLACEHOLDER]
pub const LANE_OVERSHOOT_ICE: u32 = 150_000;

// --- Vertical feel -------------------------------------------------------------

/// Jump take-off velocity on ice. [PLACEHOLDER]
pub const JUMP_IMPULSE: i64 = 7_500_000;
/// Snappy arcade gravity on ice. [PLACEHOLDER]
pub const GRAVITY_ICE: i64 = 22_000_000;
/// Floaty gravity underwater. [PLACEHOLDER]
pub const GRAVITY_WATER: i64 = 6_000_000;
/// Ground height of the penguin's root on ice.
pub const GROUND_Y: i64 = 750_000;
/// Lower edge of the vertical swim band underwater.
pub const SWIM_BAND_LOW: i64 = 900_000;
/// Upper edge of the vertical swim band underwater.
pub const SWIM_BAND_HIGH: i64 = 3_400_000;
/// Vertical speed of swim up / dive input. [PLACEHOLDER]
pub const SWIM_SPEED: i64 = 4_000_000;

// --- Sky (cannon bonus phase) ----------------------------------------------------

/// Altitude granted by the cannon launch. [PLACEHOLDER]
pub const SKY_ALTITUDE_MAX: u64 = 100_000_000;
/// Passive altitude loss per second. [PLACEHOLDER]
pub const SKY_SINK_RATE: u64 = 2_200_000;
/// Sink multiplier while flying level.
pub const SKY_LEVEL_PERMILLE: u64 = 1000;
/// Sink multiplier while pitching up. [PLACEHOLDER]
pub const SKY_PITCH_UP_PERMILLE: u64 = 400;
/// Sink multiplier while diving. [PLACEHOLDER]
pub const SKY_DIVE_PERMILLE: u64 = 2500;
/// Altitude lost instantly when hitting a bird or plane. [PLACEHOLDER]
pub const SKY_HIT_ALTITUDE_PENALTY: u64 = 15_000_000;
/// Player root height at zero altitude.
pub const SKY_Y_LOW: i64 = 1_500_000;
/// Player root height at maximum altitude.
pub const SKY_Y_HIGH: i64 = 4_500_000;

// --- Orca chase --------------------------------------------------------------------

/// Gap between orca and penguin at run start. [PLACEHOLDER]
pub const ORCA_START_GAP: i64 = 18_000_000;
/// Gap at which the orca catches the penguin. Locked.
pub const ORCA_CATCH_GAP: i64 = 1_500_000;
/// Gap lost per obstacle hit. [PLACEHOLDER]
pub const ORCA_HIT_PENALTY: i64 = 6_000_000;
/// Gap regained per second of clean running. [PLACEHOLDER]
pub const ORCA_GAP_REGEN: i64 = 800_000;
/// Generous gap granted on splashdown from the sky. [PLACEHOLDER]
pub const ORCA_SPLASHDOWN_GAP: i64 = 24_000_000;
/// Clean running can't push the orca further back than this. [PLACEHOLDER]
pub const ORCA_MAX_GAP: i64 = 28_000_000;
/// Orca's world-Z when it has caught the penguin.
pub const ORCA_VISUAL_Z_NEAR: i64 = 900_000;
/// Orca's world-Z at the maximum gap.
pub const ORCA_VISUAL_Z_FAR: i64 = 11_500_000;

// --- Biome cycle ---------------------------------------------------------------------

/// Time between the timed Ice <-> Water alternations. [PLACEHOLDER]
pub const BIOME_CYCLE_US: u64 = 30_000_000;

// --- Touch controls ----------------------------------------------------------------------

/// Finger travel before a touch counts as a swipe. [PLACEHOLDER]
pub const SWIPE_THRESHOLD: i64 = 48_000;
/// How long a vertical swipe emulates a held key. [PLACEHOLDER]
pub const TOUCH_HOLD_US: u64 = 550_000;
/// Share (in per-mille of the window height) of the top HUD strip where
/// taps are not taken as restarts.
pub const HUD_STRIP_PERMILLE: u64 = 180;
/// HUD strip height used when no window is known.
pub const HUD_STRIP_FALLBACK: i64 = 80_000;

// --- Layer-crossing transitions ------------------------------------------------------------

/// Ice -> Water dive animation length. [PLACEHOLDER]
pub const TRANSITION_DIVE_US: u64 = 600_000;
/// Water -> Ice surface-hop animation length. [PLACEHOLDER]
pub const TRANSITION_SURFACE_US: u64 = 550_000;
/// Cannon-launch backflip length. [PLACEHOLDER]
pub const TRANSITION_LAUNCH_US: u64 = 850_000;
/// Sky -> Water re-entry animation length. [PLACEHOLDER]
pub const TRANSITION_SPLASHDOWN_US: u64 = 700_000;
/// Droplets kicked up when the penguin pierces the water surface.
pub const SPLASH_DROPLETS: usize = 7;

// --- Game-over catch sequence ------------------------------------------------------------

/// Orca lunge duration before the game-over overlay appears. [PLACEHOLDER]
pub const CATCH_SEQUENCE_US: u64 = 1_100_000;

// --- Scoring ---------------------------------------------------------------------------------

/// Points per fish. Locked.
pub const FISH_POINTS: u32 = 10;
/// Points per shrimp. Locked.
pub const SHRIMP_POINTS: u32 = 5;
/// Forward travel worth one point.
pub const DISTANCE_PER_POINT: u64 = 10_000_000;

// --- Spawning ---------------------------------------------------------------------------------

/// Shortest obstacle spawn interval. [PLACEHOLDER]
pub const OBSTACLE_INTERVAL_MIN_US: u64 = 800_000;
/// Longest obstacle spawn interval. [PLACEHOLDER]
pub const OBSTACLE_INTERVAL_MAX_US: u64 = 1_600_000;
/// Shortest collectible-line spawn interval. [PLACEHOLDER]
pub const COLLECTIBLE_INTERVAL_MIN_US: u64 = 2_000_000;
/// Longest collectible-line spawn interval. [PLACEHOLDER]
pub const COLLECTIBLE_INTERVAL_MAX_US: u64 = 4_000_000;
/// Shortest cannon spawn interval (ground biomes only). [PLACEHOLDER]
pub const CANNON_INTERVAL_MIN_US: u64 = 20_000_000;
/// Longest cannon spawn interval (ground biomes only). [PLACEHOLDER]
pub const CANNON_INTERVAL_MAX_US: u64 = 35_000_000;
/// Shortest ambient decor spawn interval.
pub const DECOR_INTERVAL_MIN_US: u64 = 150_000;
/// Longest ambient decor spawn interval.
pub const DECOR_INTERVAL_MAX_US: u64 = 400_000;
/// How far ahead of the player the track extends before fog swallows it.
pub const TRACK_VIEW_DEPTH: i64 = 90_000_000;
/// Z position where spawned objects appear (far end of the fog).
pub const SPAWN_Z: i64 = -90_000_000;
/// Z position behind the camera where objects despawn.
pub const DESPAWN_Z: i64 = 14_000_000;
/// Spacing along the track between the items of one collectible line.
pub const COLLECTIBLE_SPACING: i64 = 2_200_000;
/// Items in one collectible line.
pub const COLLECTIBLE_LINE_LEN: usize = 4;

} // verus!
