//! Player movement rules: lane dodging, jumping, belly-sliding, swimming
//! and gliding — with per-biome feel (slippery on ice, floaty in water,
//! free in the sky). Positions in micrometres, velocities in µm/s.
use vstd::prelude::*;

use crate::states::{Biome, SkyPitch};
use crate::touch::TouchAction;
use crate::tuning::{
    GRAVITY_ICE, GRAVITY_WATER, GROUND_Y, JUMP_IMPULSE, LANE_LERP_ICE, LANE_LERP_SKY,
    LANE_LERP_WATER, LANE_OVERSHOOT_ICE, LANE_WIDTH, SKY_ALTITUDE_MAX, SKY_Y_HIGH, SKY_Y_LOW, SWIM_BAND_HIGH,
    SWIM_BAND_LOW, SWIM_SPEED,
};

verus! {

/// Marker for the player entity (the penguin root).
#[derive(Clone, Copy, PartialEq, Eq, Structural, Debug)]
pub struct Player;

/// Which lane the player is steering toward (-1, 0, or 1).
#[derive(Clone, Copy, PartialEq, Eq, Structural, Debug)]
pub struct TargetLane(pub i8);

impl Default for TargetLane {
    fn default() -> (r: TargetLane)
        ensures
            r.0 == 0,
    {
        TargetLane(0)
    }
}

/// Vertical motion state for jumping and sliding.
#[derive(Clone, Copy, PartialEq, Eq, Structural, Debug)]
pub struct Vertical {
    pub velocity: i64,
    pub grounded: bool,
    pub sliding: bool,
}

impl Default for Vertical {
    fn default() -> (r: Vertical)
        ensures
            r == (Vertical { velocity: 0, grounded: false, sliding: false }),
    {
        Vertical { velocity: 0, grounded: false, sliding: false }
    }
}

impl Vertical {
    /// Standing on the ice, at rest.
    pub fn standing() -> (r: Vertical)
        ensures
            r == (Vertical { velocity: 0, grounded: true, sliding: false }),
    {
        Vertical { velocity: 0, grounded: true, sliding: false }
    }
}

/// Per-biome movement feel, swapped on biome entry: the lane-follow rate,
/// how far past a new lane the penguin slides before settling, and gravity.
#[derive(Clone, Copy, PartialEq, Eq, Structural, Debug)]
pub struct BiomePhysics {
    pub lane_lerp: u64,
    pub lane_overshoot: u32,
    pub gravity: i64,
}

impl Default for BiomePhysics {
    fn default() -> (r: BiomePhysics)
        ensures
            r == (BiomePhysics {
                lane_lerp: LANE_LERP_ICE,
                lane_overshoot: LANE_OVERSHOOT_ICE,
                gravity: GRAVITY_ICE,
            }),
    {
        BiomePhysics { lane_lerp: LANE_LERP_ICE, lane_overshoot: LANE_OVERSHOOT_ICE, gravity: GRAVITY_ICE }
    }
}

/// The lane slide in progress: the target lane it belongs to, and the side
/// (-1 or 1) past that lane the penguin is still sliding toward, or 0 once
/// the slide is spent.
#[derive(Clone, Copy, PartialEq, Eq, Structural, Debug)]
pub struct LaneDrift {
    pub lane: i8,
    pub side: i8,
}

impl Default for LaneDrift {
    fn default() -> (r: LaneDrift)
        ensures
            r == (LaneDrift { lane: 0, side: 0 }),
    {
        LaneDrift { lane: 0, side: 0 }
    }
}

pub open spec fn clamp_i64_spec(x: int) -> i64 {
    if x < i64::MIN {
        i64::MIN
    } else if x > i64::MAX {
        i64::MAX
    } else {
        x as i64
    }
}

/// Division rounded toward zero.
pub open spec fn trunc_div_spec(n: int, d: int) -> int {
    if n >= 0 {
        n / d
    } else {
        -((-n) / d)
    }
}

/// A rate (per second) applied over `delta` microseconds, rounded toward
/// zero and saturated to the `i64` range.
pub open spec fn over_delta_spec(rate: i64, delta: u64) -> i64 {
    clamp_i64_spec(trunc_div_spec(rate * delta, 1_000_000))
}

/// A rate (per second) applied over `delta` microseconds.
pub fn over_delta(rate: i64, delta: u64) -> (r: i64)
    ensures
        r == over_delta_spec(rate, delta),
{
    let neg = rate < 0;
    let mag: u128 = if neg {
        (0i128 - rate as i128) as u128
    } else {
        rate as u128
    };
    assert(mag * delta <= 0x8000_0000_0000_0000u128 * 0xffff_ffff_ffff_ffffu128) by (nonlinear_arith)
        requires
            mag <= 0x8000_0000_0000_0000u128,
    ;
    let q: u128 = mag * (delta as u128) / 1_000_000u128;
    assert(neg ==> -(rate * delta) == mag * delta) by (nonlinear_arith)
        requires
            neg ==> mag == -rate,
    ;
    assert(!neg ==> rate * delta == mag * delta) by (nonlinear_arith)
        requires
            !neg ==> mag == rate,
    ;
    assert(rate * delta >= 0 <==> !neg || delta == 0) by (nonlinear_arith)
        requires
            neg <==> rate < 0,
            delta >= 0,
    ;
    if neg {
        if q > 0x8000_0000_0000_0000u128 {
            i64::MIN
        } else {
            (0i128 - q as i128) as i64
        }
    } else {
        if q > 0x7fff_ffff_ffff_ffffu128 {
            i64::MAX
        } else {
            q as i64
        }
    }
}

/// `a + b`, saturated to the `i64` range.
pub fn add_sat(a: i64, b: i64) -> (r: i64)
    ensures
        r == clamp_i64_spec(a + b),
{
    let s: i128 = a as i128 + b as i128;
    if s < i64::MIN as i128 {
        i64::MIN
    } else if s > i64::MAX as i128 {
        i64::MAX
    } else {
        s as i64
    }
}

/// `a - b`, saturated to the `i64` range.
pub fn sub_sat(a: i64, b: i64) -> (r: i64)
    ensures
        r == clamp_i64_spec(a - b),
{
    let s: i128 = a as i128 - b as i128;
    if s < i64::MIN as i128 {
        i64::MIN
    } else if s > i64::MAX as i128 {
        i64::MAX
    } else {
        s as i64
    }
}

/// The lane step from one frame's input: one step left per left press or
/// left swipe, one step right per right press or right swipe.
pub open spec fn swipe_step_spec(actions: Seq<TouchAction>, n: int) -> int
    decreases n,
{
    if n <= 0 {
        0
    } else {
        swipe_step_spec(actions, n - 1) + match actions[n - 1] {
            TouchAction::SwipeLeft => -1int,
            TouchAction::SwipeRight => 1int,
            _ => 0int,
        }
    }
}

proof fn lemma_swipe_step_bounded(actions: Seq<TouchAction>, n: int)
    requires
        0 <= n,
    ensures
        -n <= swipe_step_spec(actions, n) <= n,
    decreases n,
{
    if n > 0 {
        lemma_swipe_step_bounded(actions, n - 1);
    }
}

proof fn lemma_swipe_step_prefix(s: Seq<TouchAction>, a: TouchAction, n: int)
    requires
        0 <= n <= s.len(),
    ensures
        swipe_step_spec(s.push(a), n) == swipe_step_spec(s, n),
    decreases n,
{
    if n > 0 {
        lemma_swipe_step_prefix(s, a, n - 1);
    }
}

/// Lane input counts every press and swipe exactly once: with no swipes the
/// step is one right per right press minus one left per left press, and
/// each further left swipe lowers the step by exactly one, each right swipe
/// raises it by exactly one, and any other gesture leaves it unchanged.
pub proof fn lemma_each_swipe_moves_one_lane(
    left: bool,
    right: bool,
    s: Seq<TouchAction>,
    a: TouchAction,
)
    ensures
        lane_step_spec(left, right, Seq::empty()) == (if right {
            1int
        } else {
            0
        }) - (if left {
            1int
        } else {
            0
        }),
        a == TouchAction::SwipeLeft ==> lane_step_spec(left, right, s.push(a)) == lane_step_spec(
            left,
            right,
            s,
        ) - 1,
        a == TouchAction::SwipeRight ==> lane_step_spec(left, right, s.push(a)) == lane_step_spec(
            left,
            right,
            s,
        ) + 1,
        a != TouchAction::SwipeLeft && a != TouchAction::SwipeRight ==> lane_step_spec(
            left,
            right,
            s.push(a),
        ) == lane_step_spec(left, right, s),
{
    lemma_swipe_step_prefix(s, a, s.len() as int);
    assert(s.push(a)[s.len() as int] == a);
}

pub open spec fn lane_step_spec(left: bool, right: bool, swipes: Seq<TouchAction>) -> int {
    (if left {
        -1int
    } else {
        0
    }) + (if right {
        1int
    } else {
        0
    }) + swipe_step_spec(swipes, swipes.len() as int)
}

/// The lane step from one frame's keys and swipes.
pub fn lane_step(left: bool, right: bool, swipes: &Vec<TouchAction>) -> (r: i64)
    requires
        swipes@.len() <= 0x3fff_ffff_ffff_ffff,
    ensures
        r == lane_step_spec(left, right, swipes@),
{
    let mut step: i64 = 0;
    if left {
        step -= 1;
    }
    if right {
        step += 1;
    }
    let mut i: usize = 0;
    while i < swipes.len()
        invariant
            i <= swipes.len() <= 0x3fff_ffff_ffff_ffff,
            step == (if left {
                -1int
            } else {
                0
            }) + (if right {
                1int
            } else {
                0
            }) + swipe_step_spec(swipes@, i as int),
        decreases swipes.len() - i,
    {
        proof {
            lemma_swipe_step_bounded(swipes@, i as int);
        }
        match swipes[i] {
            TouchAction::SwipeLeft => step -= 1,
            TouchAction::SwipeRight => step += 1,
            _ => {},
        }
        i += 1;
    }
    step
}

/// Lane input retargets immediately and is ignored at the outer lanes: the
/// target moves by the step, clamped to the three lanes.
pub open spec fn steer_spec(lane: i8, step: i64) -> i8 {
    if step == 0 {
        lane
    } else if lane + step < -1 {
        -1i8
    } else if lane + step > 1 {
        1i8
    } else {
        (lane + step) as i8
    }
}

/// Apply a lane step to the target lane.
pub fn steer_lanes(lane: &mut TargetLane, step: i64)
    ensures
        final(lane).0 == steer_spec(old(lane).0, step),
{
    if step == 0 {
        return;
    }
    let t: i128 = lane.0 as i128 + step as i128;
    lane.0 = if t < -1 {
        -1
    } else if t > 1 {
        1
    } else {
        t as i8
    };
}

/// The target lane never leaves the three lanes: a step from any lane keeps
/// it in {-1, 0, 1}, and input pushing past an outer lane is ignored.
pub proof fn lemma_lanes_stay_in_range(lane: i8, step: i64)
    requires
        -1 <= lane <= 1,
    ensures
        -1 <= steer_spec(lane, step) <= 1,
        lane == 1 && step > 0 ==> steer_spec(lane, step) == 1,
        lane == -1 && step < 0 ==> steer_spec(lane, step) == -1,
        step == 1 && lane < 1 ==> steer_spec(lane, step) == lane + 1,
        step == -1 && lane > -1 ==> steer_spec(lane, step) == lane - 1,
{
}

/// Share (in parts per million) of the remaining lane offset closed over
/// `delta` microseconds at a lane-follow rate, at most all of it.
pub open spec fn lane_fraction_spec(lerp: u64, delta: u64) -> int {
    if lerp * delta >= 1_000_000 {
        1_000_000
    } else {
        lerp * delta
    }
}

/// Slide `x` toward `aim` by a share (parts per million) of the distance,
/// rounded toward `x`.
pub open spec fn approach_spec(x: int, aim: int, frac: int) -> int {
    if aim >= x {
        x + (aim - x) * frac / 1_000_000
    } else {
        x - (x - aim) * frac / 1_000_000
    }
}

pub open spec fn sign_spec(v: int) -> i8 {
    if v > 0 {
        1i8
    } else if v < 0 {
        -1i8
    } else {
        0i8
    }
}

/// The slide after a (re)targeting: a new target lane starts a slide toward
/// the side of it the penguin is moving to; the same lane keeps the slide.
pub open spec fn arm_drift_spec(x: i64, lane: i8, d: LaneDrift) -> LaneDrift {
    if lane != d.lane {
        LaneDrift { lane, side: sign_spec(lane * LANE_WIDTH - x) }
    } else {
        d
    }
}

/// Where the penguin heads this frame: while a slide is pending, the point
/// `lane_overshoot` past its lane; otherwise the lane itself.
pub open spec fn lane_aim_spec(lane: i8, d: LaneDrift, p: BiomePhysics) -> int {
    lane * LANE_WIDTH + d.side * p.lane_overshoot
}

/// One frame of lane following: the penguin closes the biome's share of the
/// distance to its aim; once it reaches or passes its lane, the slide is
/// spent and it eases back onto the lane. On ice (a positive overshoot)
/// this gives the slippery feel: a slight overshoot before settling.
pub open spec fn lane_follow_spec(x: i64, lane: i8, d: LaneDrift, p: BiomePhysics, delta: u64) -> (
    int,
    LaneDrift,
) {
    let d1 = arm_drift_spec(x, lane, d);
    let nx = approach_spec(x as int, lane_aim_spec(lane, d1, p), lane_fraction_spec(p.lane_lerp, delta));
    let spent = d1.side == 0 || d1.side * (nx - lane * LANE_WIDTH) >= 0;
    (nx, if spent { LaneDrift { side: 0, ..d1 } } else { d1 })
}

proof fn lemma_approach_between(x: int, aim: int, frac: int)
    requires
        0 <= frac <= 1_000_000,
    ensures
        aim >= x ==> x <= approach_spec(x, aim, frac) <= aim,
        aim < x ==> aim <= approach_spec(x, aim, frac) <= x,
        frac == 1_000_000 ==> approach_spec(x, aim, frac) == aim,
{
    if aim >= x {
        assert(0 <= (aim - x) * frac / 1_000_000 <= aim - x) by (nonlinear_arith)
            requires
                0 <= frac <= 1_000_000,
                aim - x >= 0,
        ;
    } else {
        assert(0 <= (x - aim) * frac / 1_000_000 <= x - aim) by (nonlinear_arith)
            requires
                0 <= frac <= 1_000_000,
                x - aim >= 0,
        ;
    }
}

/// Slide the penguin toward its target lane at the biome's lerp rate —
/// this is where "slippery" vs "responsive" comes from. Updates the slide
/// in progress and gives the new x.
pub fn apply_lane_position(
    x: i64,
    lane: TargetLane,
    physics: &BiomePhysics,
    drift: &mut LaneDrift,
    delta: u64,
) -> (r: i64)
    ensures
        (r as int, *final(drift)) == lane_follow_spec(x, lane.0, *old(drift), *physics, delta),
{
    let target: i64 = lane.0 as i64 * LANE_WIDTH;
    if lane.0 != drift.lane {
        drift.lane = lane.0;
        drift.side = if target > x {
            1
        } else if target < x {
            -1
        } else {
            0
        };
    }
    let side: i128 = drift.side as i128;
    let over: i128 = physics.lane_overshoot as i128;
    assert(-128 * 0xffff_ffffi128 <= side * over <= 127 * 0xffff_ffffi128) by (nonlinear_arith)
        requires
            -128 <= side <= 127,
            0 <= over <= 0xffff_ffff,
    ;
    let aim: i128 = target as i128 + side * over;
    assert((physics.lane_lerp as u128) * (delta as u128) <= 0xffff_ffff_ffff_ffffu128
        * 0xffff_ffff_ffff_ffffu128) by (nonlinear_arith);
    let prod: u128 = (physics.lane_lerp as u128) * (delta as u128);
    let frac: u128 = if prod >= 1_000_000 {
        1_000_000
    } else {
        prod
    };
    proof {
        lemma_approach_between(x as int, aim as int, frac as int);
    }
    let nx: i128 = if aim >= x as i128 {
        let dist: u128 = (aim - x as i128) as u128;
        assert(dist * frac <= 0x1_0000_0000_0000_0000u128 * 1_000_000) by (nonlinear_arith)
            requires
                frac <= 1_000_000,
                dist <= 0x1_0000_0000_0000_0000u128,
        ;
        x as i128 + (dist * frac / 1_000_000) as i128
    } else {
        let dist: u128 = (x as i128 - aim) as u128;
        assert(dist * frac <= 0x1_0000_0000_0000_0000u128 * 1_000_000) by (nonlinear_arith)
            requires
                frac <= 1_000_000,
                dist <= 0x1_0000_0000_0000_0000u128,
        ;
        x as i128 - (dist * frac / 1_000_000) as i128
    };
    assert(i64::MIN <= nx <= i64::MAX);
    let spent: bool = drift.side == 0 || (nx - target as i128 >= 0 && drift.side > 0) || (nx
        - target as i128 <= 0 && drift.side < 0);
    assert(spent == (drift.side == 0 || drift.side * (nx - target) >= 0)) by (nonlinear_arith)
        requires
            spent == (drift.side == 0 || (nx - target >= 0 && drift.side > 0) || (nx - target <= 0
                && drift.side < 0)),
    ;
    if spent {
        drift.side = 0;
    }
    nx as i64
}

/// The lane follow never carries the penguin farther from its lane than it
/// already was, or than the biome's overshoot: at most a slight overshoot.
pub proof fn lemma_lane_follow_overshoot_is_slight(
    x: i64,
    lane: i8,
    d: LaneDrift,
    p: BiomePhysics,
    delta: u64,
)
    requires
        -1 <= d.side <= 1,
    ensures
        ({
            let target = lane * LANE_WIDTH;
            let nx = lane_follow_spec(x, lane, d, p, delta).0;
            let bound = if abs_i(x - target) >= p.lane_overshoot {
                abs_i(x - target)
            } else {
                p.lane_overshoot as int
            };
            abs_i(nx - target) <= bound
        }),
{
    let d1 = arm_drift_spec(x, lane, d);
    let o = p.lane_overshoot as int;
    assert(-o <= d1.side * o <= o) by (nonlinear_arith)
        requires
            -1 <= d1.side <= 1,
            o >= 0,
    ;
    lemma_approach_between(
        x as int,
        lane_aim_spec(lane, d1, p),
        lane_fraction_spec(p.lane_lerp, delta),
    );
}

/// Once its slide is spent (and always where the biome has no overshoot),
/// the penguin never passes its lane: it ends up between where it was and
/// the lane, and reaches the lane once a full share of the distance is due.
pub proof fn lemma_settled_follow_never_overshoots(
    x: i64,
    lane: i8,
    d: LaneDrift,
    p: BiomePhysics,
    delta: u64,
)
    requires
        (lane == d.lane && d.side == 0) || p.lane_overshoot == 0,
    ensures
        ({
            let target = lane * LANE_WIDTH;
            let nx = lane_follow_spec(x, lane, d, p, delta).0;
            &&& target >= x ==> x <= nx <= target
            &&& target < x ==> target <= nx <= x
            &&& lane_fraction_spec(p.lane_lerp, delta) == 1_000_000 ==> nx == target
        }),
{
    let d1 = arm_drift_spec(x, lane, d);
    assert(d1.side * p.lane_overshoot == 0) by (nonlinear_arith)
        requires
            d1.side == 0 || p.lane_overshoot == 0,
    ;
    lemma_approach_between(
        x as int,
        lane_aim_spec(lane, d1, p),
        lane_fraction_spec(p.lane_lerp, delta),
    );
}

/// On ice a lane change slides past the new lane: with a full share of the
/// distance due, a fresh lane change lands the penguin exactly the ice
/// overshoot beyond its lane, and the slide is then spent so it eases back.
pub proof fn lemma_ice_lane_change_overshoots(
    x: i64,
    lane: i8,
    d: LaneDrift,
    p: BiomePhysics,
    delta: u64,
)
    requires
        p.lane_overshoot == LANE_OVERSHOOT_ICE,
        lane != d.lane,
        lane * LANE_WIDTH != x,
        lane_fraction_spec(p.lane_lerp, delta) == 1_000_000,
    ensures
        ({
            let target = lane * LANE_WIDTH;
            let r = lane_follow_spec(x, lane, d, p, delta);
            &&& target > x ==> r.0 == target + LANE_OVERSHOOT_ICE
            &&& target < x ==> r.0 == target - LANE_OVERSHOOT_ICE
            &&& r.1 == (LaneDrift { lane, side: 0 })
        }),
{
    let d1 = arm_drift_spec(x, lane, d);
    lemma_approach_between(x as int, lane_aim_spec(lane, d1, p), 1_000_000);
}

pub open spec fn abs_i(v: int) -> int {
    if v < 0 {
        -v
    } else {
        v
    }
}

/// Whether any of the frame's swipes is an upward one.
pub open spec fn has_swipe_up(actions: Seq<TouchAction>) -> bool {
    exists|i: int| 0 <= i < actions.len() && actions[i] == TouchAction::SwipeUp
}

/// Whether any of the frame's swipes is an upward one.
pub fn any_swipe_up(actions: &Vec<TouchAction>) -> (r: bool)
    ensures
        r == has_swipe_up(actions@),
{
    let mut i: usize = 0;
    while i < actions.len()
        invariant
            i <= actions.len(),
            forall|j: int| 0 <= j < i ==> actions@[j] != TouchAction::SwipeUp,
        decreases actions.len() - i,
    {
        if actions[i] == TouchAction::SwipeUp {
            return true;
        }
        i += 1;
    }
    false
}

/// Ice, one frame: a grounded penguin jumps on "up"; an airborne one falls
/// under gravity and lands on the ground line; belly-sliding while grounded
/// and "down" is held. Gives the new vertical state, the new height, and
/// whether a jump started.
pub open spec fn vertical_ice_spec(
    v: Vertical,
    y: i64,
    jump: bool,
    down: bool,
    gravity: i64,
    delta: u64,
) -> (Vertical, i64, bool) {
    let jumped = v.grounded && jump;
    let v1 = if jumped {
        Vertical { velocity: JUMP_IMPULSE, grounded: false, ..v }
    } else {
        v
    };
    let (v2, y2) = if !v1.grounded {
        let vel = clamp_i64_spec(v1.velocity - over_delta_spec(gravity, delta));
        let ny = clamp_i64_spec(y + over_delta_spec(vel, delta));
        if ny <= GROUND_Y {
            (Vertical { velocity: 0, grounded: true, ..v1 }, GROUND_Y)
        } else {
            (Vertical { velocity: vel, ..v1 }, ny)
        }
    } else {
        (v1, y)
    };
    (Vertical { sliding: v2.grounded && down, ..v2 }, y2, jumped)
}

/// Ice: arcade jump arc plus belly-slide while "down" is held.
pub fn vertical_ice(
    vertical: &mut Vertical,
    y: &mut i64,
    jump: bool,
    down: bool,
    gravity: i64,
    delta: u64,
) -> (jumped: bool)
    ensures
        (*final(vertical), *final(y), jumped) == vertical_ice_spec(
            *old(vertical),
            *old(y),
            jump,
            down,
            gravity,
            delta,
        ),
{
    let mut jumped = false;
    if vertical.grounded && jump {
        vertical.velocity = JUMP_IMPULSE;
        vertical.grounded = false;
        jumped = true;
    }
    if !vertical.grounded {
        let g = over_delta(gravity, delta);
        let vel = sub_sat(vertical.velocity, g);
        vertical.velocity = vel;
        let ny = add_sat(*y, over_delta(vel, delta));
        if ny <= GROUND_Y {
            *y = GROUND_Y;
            vertical.velocity = 0;
            vertical.grounded = true;
        } else {
            *y = ny;
        }
    }
    vertical.sliding = vertical.grounded && down;
    jumped
}

/// No double jump, no airborne slide, and the penguin never sinks through
/// the ice: a jump starts only from the ground, sliding implies grounded,
/// and a penguin at or above the ground line stays there.
pub proof fn lemma_ice_movement_rules(
    v: Vertical,
    y: i64,
    jump: bool,
    down: bool,
    gravity: i64,
    delta: u64,
)
    ensures
        ({
            let r = vertical_ice_spec(v, y, jump, down, gravity, delta);
            &&& r.2 ==> v.grounded
            &&& r.0.sliding ==> r.0.grounded
            &&& y >= GROUND_Y ==> r.1 >= GROUND_Y
            &&& r.0.grounded && !v.grounded ==> r.1 == GROUND_Y
        }),
{
}

/// Water, one frame: neutral buoyancy; "up" swims up, "down" dives,
/// clamped to the swim band. Never sliding.
pub open spec fn vertical_water_spec(y: i64, up: bool, down: bool, delta: u64) -> i64 {
    let dir: int = (if up {
        1int
    } else {
        0
    }) - (if down {
        1int
    } else {
        0
    });
    let moved = clamp_i64_spec(y + over_delta_spec((dir * SWIM_SPEED) as i64, delta));
    if moved < SWIM_BAND_LOW {
        SWIM_BAND_LOW
    } else if moved > SWIM_BAND_HIGH {
        SWIM_BAND_HIGH
    } else {
        moved
    }
}

/// Water: swim up or dive within the swim band.
pub fn vertical_water(vertical: &mut Vertical, y: &mut i64, up: bool, down: bool, delta: u64)
    ensures
        *final(y) == vertical_water_spec(*old(y), up, down, delta),
        SWIM_BAND_LOW <= *final(y) <= SWIM_BAND_HIGH,
        *final(vertical) == (Vertical { sliding: false, ..*old(vertical) }),
{
    let dir: i64 = (if up {
        1i64
    } else {
        0
    }) - (if down {
        1i64
    } else {
        0
    });
    let moved = add_sat(*y, over_delta(dir * SWIM_SPEED, delta));
    *y = if moved < SWIM_BAND_LOW {
        SWIM_BAND_LOW
    } else if moved > SWIM_BAND_HIGH {
        SWIM_BAND_HIGH
    } else {
        moved
    };
    vertical.sliding = false;
}

/// Sky pitch from held input: up wins over down, neither flies level.
pub open spec fn sky_pitch_spec(up: bool, down: bool) -> SkyPitch {
    if up {
        SkyPitch::Up
    } else if down {
        SkyPitch::Dive
    } else {
        SkyPitch::Level
    }
}

/// The penguin's height in the sky tracks the remaining altitude.
pub open spec fn sky_height_spec(altitude: u64) -> int {
    let a = if altitude > SKY_ALTITUDE_MAX {
        SKY_ALTITUDE_MAX
    } else {
        altitude
    };
    SKY_Y_LOW + a * (SKY_Y_HIGH - SKY_Y_LOW) / (SKY_ALTITUDE_MAX as int)
}

/// Sky: "up" pitches up (sink slower), "down" dives (sink faster); the
/// on-screen height follows the remaining altitude.
pub fn vertical_sky(up: bool, down: bool, altitude: u64) -> (r: (SkyPitch, i64))
    ensures
        r.0 == sky_pitch_spec(up, down),
        r.1 == sky_height_spec(altitude),
        SKY_Y_LOW <= r.1 <= SKY_Y_HIGH,
{
    let pitch = if up {
        SkyPitch::Up
    } else if down {
        SkyPitch::Dive
    } else {
        SkyPitch::Level
    };
    let a: u64 = if altitude > SKY_ALTITUDE_MAX {
        SKY_ALTITUDE_MAX
    } else {
        altitude
    };
    assert(0 <= a * 3_000_000 / 100_000_000int <= 3_000_000) by (nonlinear_arith)
        requires
            a <= 100_000_000,
    ;
    let h: i64 = SKY_Y_LOW + ((a as u128) * 3_000_000u128 / (SKY_ALTITUDE_MAX as u128)) as i64;
    (pitch, h)
}

/// Movement feel of a biome: lane-follow rate, overshoot (a slight one on
/// ice only), and gravity (the sky keeps the gravity of the biome it was
/// entered from).
pub open spec fn physics_for_spec(biome: Biome, p: BiomePhysics) -> BiomePhysics {
    match biome {
        Biome::Ice => BiomePhysics {
            lane_lerp: LANE_LERP_ICE,
            lane_overshoot: LANE_OVERSHOOT_ICE,
            gravity: GRAVITY_ICE,
        },
        Biome::Water => BiomePhysics { lane_lerp: LANE_LERP_WATER, lane_overshoot: 0, gravity: GRAVITY_WATER },
        Biome::Sky => BiomePhysics { lane_lerp: LANE_LERP_SKY, lane_overshoot: 0, ..p },
    }
}

/// Swap the movement feel on entering a biome.
pub fn enter_biome_physics(biome: Biome, physics: &mut BiomePhysics)
    ensures
        *final(physics) == physics_for_spec(biome, *old(physics)),
{
    match biome {
        Biome::Ice => {
            physics.lane_lerp = LANE_LERP_ICE;
            physics.lane_overshoot = LANE_OVERSHOOT_ICE;
            physics.gravity = GRAVITY_ICE;
        },
        Biome::Water => {
            physics.lane_lerp = LANE_LERP_WATER;
            physics.lane_overshoot = 0;
            physics.gravity = GRAVITY_WATER;
        },
        Biome::Sky => {
            physics.lane_lerp = LANE_LERP_SKY;
            physics.lane_overshoot = 0;
        },
    }
}

/// Entering the water or the sky stops vertical motion and leaves the
/// ground; entering the ice keeps the motion as it is.
pub fn enter_biome_motion(biome: Biome, vertical: &mut Vertical)
    ensures
        biome == Biome::Ice ==> *final(vertical) == *old(vertical),
        biome != Biome::Ice ==> *final(vertical) == (Vertical {
            velocity: 0,
            grounded: false,
            sliding: false,
        }),
{
    if biome != Biome::Ice {
        *vertical = Vertical { velocity: 0, grounded: false, sliding: false };
    }
}

/// Underwater, "up" never sinks the penguin and "down" never lifts it;
/// with neither or both held it stays where it is; and it always ends
/// inside the swim band.
pub proof fn lemma_swimming_follows_the_input(y: i64, up: bool, down: bool, delta: u64)
    requires
        SWIM_BAND_LOW <= y <= SWIM_BAND_HIGH,
    ensures
        up && !down ==> vertical_water_spec(y, up, down, delta) >= y,
        down && !up ==> vertical_water_spec(y, up, down, delta) <= y,
        up == down ==> vertical_water_spec(y, up, down, delta) == y,
        SWIM_BAND_LOW <= vertical_water_spec(y, up, down, delta) <= SWIM_BAND_HIGH,
{
    let dir: int = (if up { 1int } else { 0 }) - (if down { 1int } else { 0 });
    let r = (dir * SWIM_SPEED) as i64;
    assert(dir * SWIM_SPEED >= 0 ==> r * delta >= 0) by (nonlinear_arith)
        requires
            r == dir * SWIM_SPEED,
            delta >= 0,
    ;
    assert(dir * SWIM_SPEED <= 0 ==> r * delta <= 0) by (nonlinear_arith)
        requires
            r == dir * SWIM_SPEED,
            delta >= 0,
    ;
    assert(r * delta >= 0 ==> (r * delta) / 1_000_000int >= 0) by (nonlinear_arith);
    assert(r * delta <= 0 ==> (-(r * delta)) / 1_000_000int >= 0) by (nonlinear_arith);
}

/// In the sky, "up" pitches up and wins over "down", which dives; with
/// neither the penguin flies level. Its height rises with the remaining
/// altitude, from the low edge with none left to the high edge at full.
pub proof fn lemma_sky_height_follows_altitude(up: bool, down: bool, a1: u64, a2: u64)
    requires
        a1 <= a2,
    ensures
        up ==> sky_pitch_spec(up, down) == SkyPitch::Up,
        !up && down ==> sky_pitch_spec(up, down) == SkyPitch::Dive,
        !up && !down ==> sky_pitch_spec(up, down) == SkyPitch::Level,
        sky_height_spec(a1) <= sky_height_spec(a2),
        sky_height_spec(0) == SKY_Y_LOW,
        a2 >= SKY_ALTITUDE_MAX ==> sky_height_spec(a2) == SKY_Y_HIGH,
{
    let c1 = if a1 > SKY_ALTITUDE_MAX { SKY_ALTITUDE_MAX } else { a1 };
    let c2 = if a2 > SKY_ALTITUDE_MAX { SKY_ALTITUDE_MAX } else { a2 };
    assert(c1 * 3_000_000 / 100_000_000int <= c2 * 3_000_000 / 100_000_000int) by (nonlinear_arith)
        requires
            0 <= c1 <= c2,
    ;
}

/// Each biome has its own feel: ice is the most slippery (slowest lane
/// follow, and the only one that overshoots), water is smoother, the sky
/// freest; ice and water set their own gravity and the sky keeps the
/// gravity it was entered with.
pub proof fn lemma_biome_feel(p: BiomePhysics)
    ensures
        physics_for_spec(Biome::Ice, p).lane_lerp < physics_for_spec(Biome::Water, p).lane_lerp,
        physics_for_spec(Biome::Water, p).lane_lerp < physics_for_spec(Biome::Sky, p).lane_lerp,
        physics_for_spec(Biome::Ice, p).lane_overshoot > 0,
        physics_for_spec(Biome::Water, p).lane_overshoot == 0,
        physics_for_spec(Biome::Sky, p).lane_overshoot == 0,
        physics_for_spec(Biome::Ice, p).gravity == GRAVITY_ICE,
        physics_for_spec(Biome::Water, p).gravity == GRAVITY_WATER,
        physics_for_spec(Biome::Sky, p).gravity == p.gravity,
{
}

} // verus!
