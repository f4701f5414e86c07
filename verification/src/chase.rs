//! Orca chase rules — the run's tension engine. Obstacles don't kill
//! directly; they close the gap and let the orca catch up. Everything here
//! is headless logic; the orca's on-screen body is drawn elsewhere from
//! [`orca_target_z`].
use vstd::prelude::*;

use crate::states::{in_ground_biome, is_ground, Biome, RunState};
use crate::timer::{new_timer_spec, Timer, TimerMode};
use crate::tuning::{
    CATCH_SEQUENCE_US,
    ORCA_CATCH_GAP, ORCA_GAP_REGEN, ORCA_HIT_PENALTY, ORCA_MAX_GAP, ORCA_SPLASHDOWN_GAP,
    ORCA_START_GAP, ORCA_VISUAL_Z_FAR, ORCA_VISUAL_Z_NEAR,
};

verus! {

/// Micrometres between the orca and the penguin.
#[derive(Clone, Copy, PartialEq, Eq, Structural, Debug)]
pub struct OrcaGap(pub i64);

impl Default for OrcaGap {
    fn default() -> (r: OrcaGap)
        ensures
            r.0 == ORCA_START_GAP,
    {
        OrcaGap(ORCA_START_GAP)
    }
}

/// Fired whenever the player clips an obstacle; the orca listens.
#[derive(Clone, Copy, PartialEq, Eq, Structural, Debug)]
pub struct ObstacleHit;

pub open spec fn min_int(a: int, b: int) -> int {
    if a <= b {
        a
    } else {
        b
    }
}

pub open spec fn max_int(a: int, b: int) -> int {
    if a >= b {
        a
    } else {
        b
    }
}

pub open spec fn clamp_int(x: int, lo: int, hi: int) -> int {
    if x < lo {
        lo
    } else if x > hi {
        hi
    } else {
        x
    }
}

/// Distance regained over `delta` microseconds of clean running.
pub open spec fn regen_spec(delta: u64) -> int {
    (ORCA_GAP_REGEN * delta) / 1_000_000int
}

/// The gap after one frame of chase: clean running earns distance back up
/// to the cap, then every hit of the frame surrenders a chunk of it (the
/// result is floored at `i64::MIN`).
pub open spec fn update_gap_spec(gap: i64, delta: u64, hits: u32) -> i64 {
    let g = min_int(gap + regen_spec(delta), ORCA_MAX_GAP as int) - hits * ORCA_HIT_PENALTY;
    if g < i64::MIN {
        i64::MIN
    } else {
        g as i64
    }
}

/// The gap after a splashdown: never less than the generous splashdown gap.
pub open spec fn splashdown_gap_spec(gap: i64) -> i64 {
    if gap >= ORCA_SPLASHDOWN_GAP {
        gap
    } else {
        ORCA_SPLASHDOWN_GAP
    }
}

/// The orca's world-Z: the clamped gap mapped linearly onto the visual range.
pub open spec fn orca_target_z_spec(gap: i64) -> int {
    ORCA_VISUAL_Z_NEAR + clamp_int(gap as int, 0, ORCA_MAX_GAP as int) * (ORCA_VISUAL_Z_FAR
        - ORCA_VISUAL_Z_NEAR) / (ORCA_MAX_GAP as int)
}

/// How close the orca is, in per-mille: 0 at the start gap or more, 1000
/// when it reaches the catch distance.
pub open spec fn danger_spec(gap: i64) -> int {
    1000 - clamp_int(gap - ORCA_CATCH_GAP, 0, ORCA_START_GAP as int) * 1000 / (
    ORCA_START_GAP as int)
}

/// Splashing down grants breathing room before the chase resumes.
pub fn grant_splashdown_gap(gap: &mut OrcaGap)
    ensures
        final(gap).0 == splashdown_gap_spec(old(gap).0),
{
    if gap.0 < ORCA_SPLASHDOWN_GAP {
        gap.0 = ORCA_SPLASHDOWN_GAP;
    }
}

/// Distance regained over `delta` microseconds of clean running.
pub fn gap_regen(delta: u64) -> (r: u64)
    ensures
        r == regen_spec(delta),
{
    assert((ORCA_GAP_REGEN as u128) * (delta as u128) <= 800_000u128 * 0xffff_ffff_ffff_ffffu128)
        by (nonlinear_arith)
        requires
            ORCA_GAP_REGEN == 800_000,
    ;
    let product: u128 = (ORCA_GAP_REGEN as u128) * (delta as u128);
    let r: u128 = product / 1_000_000u128;
    assert(r <= 0xffff_ffff_ffff_ffffu128) by (nonlinear_arith)
        requires
            r == product / 1_000_000u128,
            product <= 800_000u128 * 0xffff_ffff_ffff_ffffu128,
    ;
    r as u64
}

/// Clean running slowly earns distance back; every obstacle hit surrenders
/// a chunk of it.
pub fn update_gap(delta: u64, hits: u32, gap: &mut OrcaGap)
    ensures
        final(gap).0 == update_gap_spec(old(gap).0, delta, hits),
{
    let regen = gap_regen(delta);
    let raised: i128 = gap.0 as i128 + regen as i128;
    let capped: i128 = if raised > ORCA_MAX_GAP as i128 {
        ORCA_MAX_GAP as i128
    } else {
        raised
    };
    assert(hits * ORCA_HIT_PENALTY <= 0xffff_ffffu32 * 6_000_000int) by (nonlinear_arith)
        requires
            ORCA_HIT_PENALTY == 6_000_000,
            hits <= 0xffff_ffffu32,
    ;
    let lowered: i128 = capped - (hits as i128) * (ORCA_HIT_PENALTY as i128);
    gap.0 = if lowered < i64::MIN as i128 {
        i64::MIN
    } else {
        lowered as i64
    };
}

/// The catch: gap closed -> game over.
pub fn orca_catches(gap: &OrcaGap, next: &mut Option<RunState>)
    ensures
        gap.0 <= ORCA_CATCH_GAP ==> *final(next) == Some(RunState::GameOver),
        gap.0 > ORCA_CATCH_GAP ==> *final(next) == *old(next),
{
    if gap.0 <= ORCA_CATCH_GAP {
        *next = Some(RunState::GameOver);
    }
}

/// Map the abstract gap onto screen space: the orca sits between the
/// camera and the penguin, closer to the penguin the smaller the gap.
pub fn orca_target_z(gap: &OrcaGap) -> (r: i64)
    ensures
        r == orca_target_z_spec(gap.0),
        ORCA_VISUAL_Z_NEAR <= r <= ORCA_VISUAL_Z_FAR,
{
    let clamped: i64 = if gap.0 < 0 {
        0
    } else if gap.0 > ORCA_MAX_GAP {
        ORCA_MAX_GAP
    } else {
        gap.0
    };
    let span: i64 = ORCA_VISUAL_Z_FAR - ORCA_VISUAL_Z_NEAR;
    assert(0 <= clamped * span <= ORCA_MAX_GAP * span) by (nonlinear_arith)
        requires
            0 <= clamped <= ORCA_MAX_GAP,
            span == 10_600_000,
    ;
    let scaled: i64 = clamped * span / ORCA_MAX_GAP;
    assert(0 <= scaled <= span) by (nonlinear_arith)
        requires
            0 <= clamped * span <= ORCA_MAX_GAP * span,
            scaled == clamped * span / (ORCA_MAX_GAP as int),
            ORCA_MAX_GAP == 28_000_000,
            span == 10_600_000,
    ;
    ORCA_VISUAL_Z_NEAR + scaled
}

/// The orca's body shows on the ground biomes and hides during the bonus
/// phase: no orca in the sky.
pub fn orca_visible(biome: Biome) -> (r: bool)
    ensures
        r == is_ground(biome),
{
    in_ground_biome(biome)
}

/// The orca's catch lunge, played before the game-over overlay appears.
pub fn catch_sequence() -> (r: Timer)
    ensures
        r@ == new_timer_spec(CATCH_SEQUENCE_US, TimerMode::Once),
{
    Timer::new(CATCH_SEQUENCE_US, TimerMode::Once)
}

/// Run condition of the game-over overlay and restart: the catch lunge has
/// played out (or none is playing).
pub fn catch_finished(sequence: &Option<Timer>) -> (r: bool)
    ensures
        r == match sequence {
            Some(t) => t@.finished,
            None => true,
        },
{
    match sequence {
        Some(t) => t.finished(),
        None => true,
    }
}

/// Threat readout for the HUD: how close the orca is, in per-mille.
pub fn threat_danger_permille(gap: &OrcaGap) -> (r: u64)
    ensures
        r == danger_spec(gap.0),
        r <= 1000,
{
    let d: i128 = gap.0 as i128 - ORCA_CATCH_GAP as i128;
    let clamped: i128 = if d < 0 {
        0
    } else if d > ORCA_START_GAP as i128 {
        ORCA_START_GAP as i128
    } else {
        d
    };
    assert(0 <= clamped * 1000 / 18_000_000 <= 1000) by (nonlinear_arith)
        requires
            0 <= clamped <= 18_000_000,
    ;
    (1000 - clamped * 1000 / (ORCA_START_GAP as i128)) as u64
}

/// Every obstacle hit costs exactly the hit penalty: with no time passing
/// and the gap within its cap, a frame with `hits` hits lowers the gap by
/// `hits` times the penalty (unless that would pass `i64::MIN`).
pub proof fn lemma_hits_cost_penalty(gap: i64, hits: u32)
    requires
        gap <= ORCA_MAX_GAP,
        gap - hits * ORCA_HIT_PENALTY >= i64::MIN,
    ensures
        update_gap_spec(gap, 0, hits) == gap - hits * ORCA_HIT_PENALTY,
{
    assert(regen_spec(0) == 0);
}

/// Clean running never pushes the orca past the cap, and regains ground
/// whenever the gap is below the cap and any regeneration accrued.
pub proof fn lemma_clean_running_regains_up_to_cap(gap: i64, delta: u64)
    ensures
        update_gap_spec(gap, delta, 0) <= ORCA_MAX_GAP,
        gap <= ORCA_MAX_GAP ==> update_gap_spec(gap, delta, 0) >= gap,
        gap < ORCA_MAX_GAP && regen_spec(delta) > 0 ==> update_gap_spec(gap, delta, 0) > gap,
        delta >= 2 ==> regen_spec(delta) > 0,
{
    assert(regen_spec(delta) >= 0) by (nonlinear_arith)
        requires
            ORCA_GAP_REGEN == 800_000,
    ;
    assert(delta >= 2 ==> regen_spec(delta) > 0) by (nonlinear_arith)
        requires
            ORCA_GAP_REGEN == 800_000,
    ;
}

/// A splashdown leaves the orca at least the splashdown gap behind and
/// never moves it closer.
pub proof fn lemma_splashdown_is_generous(gap: i64)
    ensures
        splashdown_gap_spec(gap) >= ORCA_SPLASHDOWN_GAP,
        splashdown_gap_spec(gap) >= gap,
{
}

/// Clean running regains exactly the regeneration rate every whole second,
/// and more time never regains less.
pub proof fn lemma_regen_per_second(secs: u64, d1: u64, d2: u64)
    requires
        secs <= 1_000_000,
        d1 <= d2,
    ensures
        regen_spec((secs * 1_000_000) as u64) == secs * ORCA_GAP_REGEN,
        0 <= regen_spec(d1) <= regen_spec(d2),
{
    assert(ORCA_GAP_REGEN * (secs * 1_000_000) == (secs * ORCA_GAP_REGEN) * 1_000_000int)
        by (nonlinear_arith)
        requires
            ORCA_GAP_REGEN == 800_000,
    ;
    assert(0 <= ORCA_GAP_REGEN * d1 <= ORCA_GAP_REGEN * d2) by (nonlinear_arith)
        requires
            0 <= d1 <= d2,
            ORCA_GAP_REGEN == 800_000,
    ;
    assert(0 <= (ORCA_GAP_REGEN * d1) / 1_000_000int <= (ORCA_GAP_REGEN * d2) / 1_000_000int)
        by (nonlinear_arith)
        requires
            0 <= ORCA_GAP_REGEN * d1 <= ORCA_GAP_REGEN * d2,
    ;
}

/// The orca is drawn closer the smaller the gap: its depth never decreases
/// as the gap grows, sits at the near end once the gap is gone and at the
/// far end at the cap or beyond.
pub proof fn lemma_orca_depth_follows_the_gap(g1: i64, g2: i64)
    requires
        g1 <= g2,
    ensures
        orca_target_z_spec(g1) <= orca_target_z_spec(g2),
        g1 <= 0 ==> orca_target_z_spec(g1) == ORCA_VISUAL_Z_NEAR,
        g2 >= ORCA_MAX_GAP ==> orca_target_z_spec(g2) == ORCA_VISUAL_Z_FAR,
{
    let c1 = clamp_int(g1 as int, 0, ORCA_MAX_GAP as int);
    let c2 = clamp_int(g2 as int, 0, ORCA_MAX_GAP as int);
    assert(c1 * 10_600_000 / 28_000_000int <= c2 * 10_600_000 / 28_000_000int) by (nonlinear_arith)
        requires
            0 <= c1 <= c2,
    ;
}

/// The threat readout rises as the orca closes in: it never falls as the
/// gap shrinks, is full at the catch distance or closer, and empty at the
/// start gap beyond the catch distance or farther.
pub proof fn lemma_danger_rises_as_the_orca_closes(g1: i64, g2: i64)
    requires
        g1 <= g2,
    ensures
        danger_spec(g1) >= danger_spec(g2),
        g1 <= ORCA_CATCH_GAP ==> danger_spec(g1) == 1000,
        g2 >= ORCA_CATCH_GAP + ORCA_START_GAP ==> danger_spec(g2) == 0,
{
    let c1 = clamp_int(g1 - ORCA_CATCH_GAP, 0, ORCA_START_GAP as int);
    let c2 = clamp_int(g2 - ORCA_CATCH_GAP, 0, ORCA_START_GAP as int);
    assert(c1 * 1000 / 18_000_000int <= c2 * 1000 / 18_000_000int) by (nonlinear_arith)
        requires
            0 <= c1 <= c2,
    ;
}

} // verus!
