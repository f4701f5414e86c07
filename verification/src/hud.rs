//! HUD wording and the restart after a game over.
use vstd::prelude::*;

use crate::game::{restart_spec, RunCore};
use crate::player::{LaneDrift, TargetLane, Vertical};
use crate::spawn::{RunSpeed, Score, SpawnTimers, speed_wf, slowed_spec};
use crate::states::Biome;
use crate::timer::{new_timer_spec, tick_spec, TimerMode};
use crate::touch::TouchAction;
use crate::transitions::LayerTransition;
use crate::tuning::{
    COLLECTIBLE_INTERVAL_MIN_US, CANNON_INTERVAL_MIN_US, DECOR_INTERVAL_MIN_US, GROUND_Y,
    HIT_SLOWDOWN_US, OBSTACLE_INTERVAL_MAX_US, RUN_SPEED_BASE,
};

verus! {

/// The biome label in the top-right corner (short, ASCII).
pub fn biome_label(biome: Biome) -> (r: &'static str)
    ensures
        biome == Biome::Ice ==> r@ == "ICE"@,
        biome == Biome::Water ==> r@ == "WATER"@,
        biome == Biome::Sky ==> r@ == "SKY"@,
{
    match biome {
        Biome::Ice => "ICE",
        Biome::Water => "WATER",
        Biome::Sky => "SKY",
    }
}

/// The label of the sound toggle.
pub fn mute_label(muted: bool) -> (r: &'static str)
    ensures
        muted ==> r@ == "SOUND OFF"@,
        !muted ==> r@ == "SOUND ON"@,
{
    if muted {
        "SOUND OFF"
    } else {
        "SOUND ON"
    }
}

/// Whether any of the frame's gestures is a tap.
pub open spec fn has_tap(actions: Seq<TouchAction>) -> bool {
    exists|i: int| 0 <= i < actions.len() && actions[i] == TouchAction::Tap
}

/// Restart is requested by R, Enter, or a tap.
pub fn restart_requested(r_key: bool, enter_key: bool, actions: &Vec<TouchAction>) -> (r: bool)
    ensures
        r == (r_key || enter_key || has_tap(actions@)),
{
    let mut tapped = false;
    let mut i: usize = 0;
    while i < actions.len()
        invariant
            i <= actions.len(),
            tapped == exists|j: int| 0 <= j < i && actions@[j] == TouchAction::Tap,
        decreases actions.len() - i,
    {
        if actions[i] == TouchAction::Tap {
            tapped = true;
        }
        proof {
            if !tapped {
                assert forall|j: int| 0 <= j < i + 1 implies actions@[j] != TouchAction::Tap by {
                    if j < i {
                        assert(!(0 <= j < i && actions@[j] == TouchAction::Tap));
                    }
                }
            } else {
                if actions@[i as int] == TouchAction::Tap {
                    assert(0 <= i < i + 1 && actions@[i as int] == TouchAction::Tap);
                } else {
                    let j = choose|j: int| 0 <= j < i && actions@[j] == TouchAction::Tap;
                    assert(0 <= j < i + 1 && actions@[j] == TouchAction::Tap);
                }
            }
        }
        i += 1;
    }
    r_key || enter_key || tapped
}

/// Where the penguin is re-planted on a restart.
pub struct PlayerPose {
    pub x: i64,
    pub y: i64,
}

/// Full reset of a run's state: the rules (orca, altitude, biome cycle, and
/// the ice and a live run scheduled for the next frame), the score, the
/// speed, the spawn timers, any layer-crossing moment, and the penguin
/// (center lane with no slide in progress, standing on the ice).
pub fn restart_run(
    core: &mut RunCore,
    score: &mut Score,
    speed: &mut RunSpeed,
    timers: &mut SpawnTimers,
    transition: &mut Option<LayerTransition>,
    lane: &mut TargetLane,
    drift: &mut LaneDrift,
    vertical: &mut Vertical,
    pose: &mut PlayerPose,
)
    ensures
        final(core)@ == restart_spec(old(core)@),
        final(score)@.points == 0,
        final(score)@.distance_acc == 0,
        final(speed)@.base == RUN_SPEED_BASE,
        final(speed)@.slowdown == tick_spec(
            new_timer_spec(HIT_SLOWDOWN_US, TimerMode::Once),
            HIT_SLOWDOWN_US,
        ),
        speed_wf(final(speed)@),
        !slowed_spec(final(speed)@),
        final(timers)@.obstacle == new_timer_spec(OBSTACLE_INTERVAL_MAX_US, TimerMode::Once),
        final(timers)@.collectible == new_timer_spec(COLLECTIBLE_INTERVAL_MIN_US, TimerMode::Once),
        final(timers)@.cannon == new_timer_spec(CANNON_INTERVAL_MIN_US, TimerMode::Once),
        final(timers)@.decor == new_timer_spec(DECOR_INTERVAL_MIN_US, TimerMode::Once),
        *final(transition) is None,
        final(lane).0 == 0,
        *final(drift) == (LaneDrift { lane: 0, side: 0 }),
        *final(vertical) == (Vertical { velocity: 0, grounded: true, sliding: false }),
        final(pose).x == 0,
        final(pose).y == GROUND_Y,
{
    core.restart();
    *score = Score::new();
    *speed = RunSpeed::new();
    *timers = SpawnTimers::new();
    *transition = None;
    lane.0 = 0;
    *drift = LaneDrift::default();
    *vertical = Vertical::standing();
    pose.x = 0;
    pose.y = GROUND_Y;
}

} // verus!
