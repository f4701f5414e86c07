//! Touch controls for phones: swipe left/right to change lanes, swipe up
//! to jump / swim up / pitch up, swipe down to slide / dive, tap to
//! restart after a game over. Swipes produce [`TouchAction`]s; vertical
//! swipes additionally arm a short "held" window in [`TouchIntent`] so the
//! held-input movement (swim, sky pitch) responds to bursts of touch.
//! Positions are in milli-pixels, with +y pointing down the screen.
use vstd::prelude::*;

use crate::timer::{new_timer_spec, tick_spec, Timer, TimerMode, TimerState};
use crate::tuning::{HUD_STRIP_FALLBACK, HUD_STRIP_PERMILLE, SWIPE_THRESHOLD, TOUCH_HOLD_US};

verus! {

/// A recognized one-shot touch gesture.
#[derive(Clone, Copy, PartialEq, Eq, Structural, Debug)]
pub enum TouchAction {
    SwipeLeft,
    SwipeRight,
    SwipeUp,
    SwipeDown,
    Tap,
}

// --- Held window ---------------------------------------------------------------

/// Plain snapshot of the held windows.
pub struct TouchIntentView {
    pub up: Option<TimerState>,
    pub down: Option<TimerState>,
}

/// Emulates "held" vertical input for a short window after a vertical
/// swipe.
#[derive(Debug)]
pub struct TouchIntent {
    up: Option<Timer>,
    down: Option<Timer>,
}

pub open spec fn opt_timer_view(t: Option<Timer>) -> Option<TimerState> {
    match t {
        Some(t) => Some(t@),
        None => None,
    }
}

impl View for TouchIntent {
    type V = TouchIntentView;

    closed spec fn view(&self) -> TouchIntentView {
        TouchIntentView { up: opt_timer_view(self.up), down: opt_timer_view(self.down) }
    }
}

pub open spec fn held_spec(t: Option<TimerState>) -> bool {
    t is Some && !t->0.finished
}

/// A fresh hold window.
pub open spec fn hold_spec() -> TimerState {
    new_timer_spec(TOUCH_HOLD_US, TimerMode::Once)
}

pub open spec fn press_up_spec(i: TouchIntentView) -> TouchIntentView {
    TouchIntentView { up: Some(hold_spec()), down: None }
}

pub open spec fn press_down_spec(i: TouchIntentView) -> TouchIntentView {
    TouchIntentView { up: None, down: Some(hold_spec()) }
}

pub open spec fn tick_opt_spec(t: Option<TimerState>, delta: u64) -> Option<TimerState> {
    match t {
        Some(s) => Some(tick_spec(s, delta)),
        None => None,
    }
}

pub open spec fn tick_intent_spec(i: TouchIntentView, delta: u64) -> TouchIntentView {
    TouchIntentView { up: tick_opt_spec(i.up, delta), down: tick_opt_spec(i.down, delta) }
}

/// At most one direction is armed at a time.
pub open spec fn intent_wf(i: TouchIntentView) -> bool {
    !(i.up is Some && i.down is Some)
}

impl TouchIntent {
    /// Nothing held.
    pub fn new() -> (r: TouchIntent)
        ensures
            r@.up is None,
            r@.down is None,
    {
        TouchIntent { up: None, down: None }
    }

    /// Whether "up" is held by a recent upward swipe.
    pub fn up_held(&self) -> (r: bool)
        ensures
            r == held_spec(self@.up),
    {
        match &self.up {
            Some(t) => !t.finished(),
            None => false,
        }
    }

    /// Whether "down" is held by a recent downward swipe.
    pub fn down_held(&self) -> (r: bool)
        ensures
            r == held_spec(self@.down),
    {
        match &self.down {
            Some(t) => !t.finished(),
            None => false,
        }
    }

    /// Arm "up" for the hold window, releasing "down".
    pub fn press_up(&mut self)
        ensures
            final(self)@ == press_up_spec(old(self)@),
    {
        self.up = Some(Timer::new(TOUCH_HOLD_US, TimerMode::Once));
        self.down = None;
    }

    /// Arm "down" for the hold window, releasing "up".
    pub fn press_down(&mut self)
        ensures
            final(self)@ == press_down_spec(old(self)@),
    {
        self.down = Some(Timer::new(TOUCH_HOLD_US, TimerMode::Once));
        self.up = None;
    }

    /// Let the hold windows run down by `delta` microseconds.
    pub fn tick(&mut self, delta: u64)
        ensures
            final(self)@ == tick_intent_spec(old(self)@, delta),
    {
        match &mut self.up {
            Some(t) => t.tick(delta),
            None => {},
        }
        match &mut self.down {
            Some(t) => t.tick(delta),
            None => {},
        }
    }
}

/// Up and down are never held together, and a vertical swipe holds its
/// direction for exactly the hold window: it is held while less than the
/// window has passed and released once the full window has passed.
pub proof fn lemma_hold_window(i: TouchIntentView, delta: u64)
    ensures
        intent_wf(press_up_spec(i)),
        intent_wf(press_down_spec(i)),
        intent_wf(i) ==> intent_wf(tick_intent_spec(i, delta)),
        intent_wf(i) ==> !(held_spec(i.up) && held_spec(i.down)),
        delta < TOUCH_HOLD_US ==> held_spec(tick_intent_spec(press_up_spec(i), delta).up),
        delta >= TOUCH_HOLD_US ==> !held_spec(tick_intent_spec(press_up_spec(i), delta).up),
        delta < TOUCH_HOLD_US ==> held_spec(tick_intent_spec(press_down_spec(i), delta).down),
        delta >= TOUCH_HOLD_US ==> !held_spec(tick_intent_spec(press_down_spec(i), delta).down),
{
}

// --- Gesture recognition ---------------------------------------------------------

/// A touch point: its id and position.
#[derive(Clone, Copy, PartialEq, Eq, Structural, Debug)]
pub struct TouchPoint {
    pub id: u64,
    pub x: i64,
    pub y: i64,
}

/// Per-touch gesture tracking: id, start position, and whether it has
/// already been classified as a swipe.
#[derive(Clone, Copy, PartialEq, Eq, Structural, Debug)]
pub struct TrackedTouch {
    pub id: u64,
    pub start_x: i64,
    pub start_y: i64,
    pub classified: bool,
}

/// All touches being tracked.
#[derive(Debug)]
pub struct ActiveTouches {
    pub touches: Vec<TrackedTouch>,
}

impl ActiveTouches {
    /// No touch tracked.
    pub fn new() -> (r: ActiveTouches)
        ensures
            r.touches@.len() == 0,
    {
        ActiveTouches { touches: Vec::new() }
    }
}

pub open spec fn abs_val(x: int) -> int {
    if x < 0 {
        -x
    } else {
        x
    }
}

/// The gesture a finger travel of (`dx`, `dy`) makes: nothing below the
/// swipe threshold; otherwise a horizontal swipe when the travel is mostly
/// horizontal, a vertical one otherwise (+y is down the screen).
pub open spec fn classify_spec(dx: int, dy: int) -> Option<TouchAction> {
    if dx * dx + dy * dy < SWIPE_THRESHOLD * SWIPE_THRESHOLD {
        None
    } else if abs_val(dx) > abs_val(dy) {
        if dx > 0 {
            Some(TouchAction::SwipeRight)
        } else {
            Some(TouchAction::SwipeLeft)
        }
    } else if dy < 0 {
        Some(TouchAction::SwipeUp)
    } else {
        Some(TouchAction::SwipeDown)
    }
}

/// Classify a finger travel.
pub fn classify_swipe(dx: i128, dy: i128) -> (r: Option<TouchAction>)
    requires
        -0x1_0000_0000_0000_0000i128 <= dx <= 0x1_0000_0000_0000_0000i128,
        -0x1_0000_0000_0000_0000i128 <= dy <= 0x1_0000_0000_0000_0000i128,
    ensures
        r == classify_spec(dx as int, dy as int),
{
    let ax: i128 = if dx < 0 {
        -dx
    } else {
        dx
    };
    let ay: i128 = if dy < 0 {
        -dy
    } else {
        dy
    };
    let far: bool = if ax >= SWIPE_THRESHOLD as i128 || ay >= SWIPE_THRESHOLD as i128 {
        assert(dx * dx + dy * dy >= SWIPE_THRESHOLD * SWIPE_THRESHOLD) by (nonlinear_arith)
            requires
                abs_val(dx as int) >= 48_000 || abs_val(dy as int) >= 48_000,
                SWIPE_THRESHOLD == 48_000,
        ;
        true
    } else {
        assert(ax * ax <= 48_000 * 48_000 && ay * ay <= 48_000 * 48_000) by (nonlinear_arith)
            requires
                0 <= ax < 48_000,
                0 <= ay < 48_000,
        ;
        assert(dx * dx == ax * ax && dy * dy == ay * ay) by (nonlinear_arith)
            requires
                ax == abs_val(dx as int),
                ay == abs_val(dy as int),
        ;
        ax * ax + ay * ay >= (SWIPE_THRESHOLD as i128) * (SWIPE_THRESHOLD as i128)
    };
    if !far {
        None
    } else if ax > ay {
        if dx > 0 {
            Some(TouchAction::SwipeRight)
        } else {
            Some(TouchAction::SwipeLeft)
        }
    } else if dy < 0 {
        Some(TouchAction::SwipeUp)
    } else {
        Some(TouchAction::SwipeDown)
    }
}

/// Taps are not restarts inside the HUD strip at the top of the window (18%
/// of its height, or a fixed strip when no window is known).
pub open spec fn hud_cutoff_spec(window_height: Option<i64>) -> int {
    match window_height {
        Some(h) => trunc_div(h * HUD_STRIP_PERMILLE, 1000),
        None => HUD_STRIP_FALLBACK as int,
    }
}

pub open spec fn trunc_div(n: int, d: int) -> int {
    if n >= 0 {
        n / d
    } else {
        -((-n) / d)
    }
}

/// The HUD strip's lower edge.
pub fn hud_cutoff(window_height: Option<i64>) -> (r: i64)
    ensures
        r == hud_cutoff_spec(window_height),
{
    match window_height {
        Some(h) => {
            let n: i128 = h as i128 * HUD_STRIP_PERMILLE as i128;
            if n >= 0 {
                assert((n as int) / 1000int <= h) by (nonlinear_arith)
                    requires
                        n == h * 180,
                        n >= 0,
                ;
                (n / 1000) as i64
            } else {
                assert(-((-(n as int)) / 1000int) >= h) by (nonlinear_arith)
                    requires
                        n == h * 180,
                        n < 0,
                ;
                (0i128 - (0i128 - n) / 1000) as i64
            }
        },
        None => HUD_STRIP_FALLBACK,
    }
}

/// The first tracked touch with the given id.
pub open spec fn find_spec(entries: Seq<TrackedTouch>, id: u64) -> Option<int> {
    if exists|i: int| 0 <= i < entries.len() && entries[i].id == id {
        Some(
            choose|i: int|
                0 <= i < entries.len() && entries[i].id == id && forall|j: int|
                    0 <= j < i ==> (#[trigger] entries[j]).id != id,
        )
    } else {
        None
    }
}

/// The state threaded through one gesture pass.
pub struct GestureState {
    pub entries: Seq<TrackedTouch>,
    pub intent: TouchIntentView,
    pub actions: Seq<TouchAction>,
}

/// A finger that moved: if its tracked touch is still unclassified and has
/// travelled past the threshold, it becomes a swipe (once); vertical swipes
/// arm the held window.
pub open spec fn move_step_spec(g: GestureState, t: TouchPoint) -> GestureState {
    match find_spec(g.entries, t.id) {
        None => g,
        Some(i) => {
            let e = g.entries[i];
            if e.classified {
                g
            } else {
                match classify_spec(t.x - e.start_x, t.y - e.start_y) {
                    None => g,
                    Some(a) => GestureState {
                        entries: g.entries.update(i, TrackedTouch { classified: true, ..e }),
                        intent: if a == TouchAction::SwipeUp {
                            press_up_spec(g.intent)
                        } else if a == TouchAction::SwipeDown {
                            press_down_spec(g.intent)
                        } else {
                            g.intent
                        },
                        actions: g.actions.push(a),
                    },
                }
            }
        },
    }
}

pub open spec fn moves_spec(g: GestureState, touches: Seq<TouchPoint>, n: int) -> GestureState
    decreases n,
{
    if n <= 0 {
        g
    } else {
        move_step_spec(moves_spec(g, touches, n - 1), touches[n - 1])
    }
}

/// A finger lifted: an unclassified touch that started below the HUD strip
/// is a tap.
pub open spec fn release_step_spec(g: GestureState, id: u64, cutoff: i64) -> GestureState {
    match find_spec(g.entries, id) {
        Some(i) => if !g.entries[i].classified && g.entries[i].start_y > cutoff {
            GestureState { actions: g.actions.push(TouchAction::Tap), ..g }
        } else {
            g
        },
        None => g,
    }
}

pub open spec fn releases_spec(g: GestureState, ids: Seq<u64>, n: int, cutoff: i64) -> GestureState
    decreases n,
{
    if n <= 0 {
        g
    } else {
        release_step_spec(releases_spec(g, ids, n - 1, cutoff), ids[n - 1], cutoff)
    }
}

/// New fingers start tracking, unclassified, at their positions.
pub open spec fn press_entries(points: Seq<TouchPoint>) -> Seq<TrackedTouch> {
    points.map_values(
        |p: TouchPoint| TrackedTouch { id: p.id, start_x: p.x, start_y: p.y, classified: false },
    )
}

/// The tracked touches that did not end.
pub open spec fn retain_spec(entries: Seq<TrackedTouch>, ended: Seq<u64>) -> Seq<TrackedTouch> {
    entries.filter(|e: TrackedTouch| !ended.contains(e.id))
}

/// One gesture pass: start tracking new fingers, classify moving ones,
/// recognize taps on release, then forget every released or canceled touch.
pub open spec fn read_touches_spec(
    entries: Seq<TrackedTouch>,
    intent: TouchIntentView,
    pressed: Seq<TouchPoint>,
    current: Seq<TouchPoint>,
    released: Seq<u64>,
    canceled: Seq<u64>,
    cutoff: i64,
) -> GestureState {
    let g0 = GestureState { entries: entries + press_entries(pressed), intent, actions: Seq::empty() };
    let g1 = moves_spec(g0, current, current.len() as int);
    let g2 = releases_spec(g1, released, released.len() as int, cutoff);
    GestureState { entries: retain_spec(g2.entries, released + canceled), ..g2 }
}

fn find_entry(entries: &Vec<TrackedTouch>, id: u64) -> (r: Option<usize>)
    ensures
        r is Some ==> r->0 < entries@.len(),
        r is Some ==> find_spec(entries@, id) == Some(r->0 as int),
        r is None ==> find_spec(entries@, id) is None,
{
    let mut i: usize = 0;
    while i < entries.len()
        invariant
            i <= entries.len(),
            forall|j: int| 0 <= j < i ==> (#[trigger] entries@[j]).id != id,
        decreases entries.len() - i,
    {
        if entries[i].id == id {
            assert(entries@[i as int].id == id);
            let ghost k = choose|k: int|
                0 <= k < entries@.len() && entries@[k].id == id && forall|j: int|
                    0 <= j < k ==> (#[trigger] entries@[j]).id != id;
            assert(k == i as int) by {
                if k < i as int {
                    assert(entries@[k].id != id);
                } else if k > i as int {
                    assert(entries@[i as int].id != id);
                }
            }
            return Some(i);
        }
        i += 1;
    }
    None
}

fn contains_id(ids: &Vec<u64>, id: u64) -> (r: bool)
    ensures
        r == ids@.contains(id),
{
    let mut i: usize = 0;
    while i < ids.len()
        invariant
            i <= ids.len(),
            forall|j: int| 0 <= j < i ==> ids@[j] != id,
        decreases ids.len() - i,
    {
        if ids[i] == id {
            assert(ids@[i as int] == id);
            return true;
        }
        i += 1;
    }
    false
}

/// Apply one moving finger to the gesture state.
fn track_move(
    state: &mut ActiveTouches,
    intent: &mut TouchIntent,
    actions: &mut Vec<TouchAction>,
    t: TouchPoint,
)
    ensures
        move_step_spec(
            GestureState { entries: old(state).touches@, intent: old(intent)@, actions: old(actions)@ },
            t,
        ) == (GestureState { entries: final(state).touches@, intent: final(intent)@, actions: final(actions)@ }),
{
    let found = find_entry(&state.touches, t.id);
    match found {
        None => {},
        Some(idx) => {
            let e = state.touches[idx];
            if !e.classified {
                let dx: i128 = t.x as i128 - e.start_x as i128;
                let dy: i128 = t.y as i128 - e.start_y as i128;
                match classify_swipe(dx, dy) {
                    None => {},
                    Some(a) => {
                        state.touches.set(idx, TrackedTouch { classified: true, ..e });
                        if a == TouchAction::SwipeUp {
                            intent.press_up();
                        } else if a == TouchAction::SwipeDown {
                            intent.press_down();
                        }
                        actions.push(a);
                    },
                }
            }
        },
    }
}

/// Apply one lifted finger to the gesture state.
fn track_release(state: &ActiveTouches, actions: &mut Vec<TouchAction>, id: u64, cutoff: i64)
    ensures
        ({
            let g = GestureState { entries: state.touches@, intent: arbitrary(), actions: old(actions)@ };
            release_step_spec(g, id, cutoff).actions == final(actions)@
        }),
{
    match find_entry(&state.touches, id) {
        Some(idx) => {
            let e = state.touches[idx];
            if !e.classified && e.start_y > cutoff {
                actions.push(TouchAction::Tap);
            }
        },
        None => {},
    }
}

/// One gesture pass over a frame's touch input: `pressed` fingers went
/// down, `current` are all fingers on the screen, `released` and
/// `canceled` ended. Gives the recognized gestures, in order.
pub fn read_touches(
    state: &mut ActiveTouches,
    intent: &mut TouchIntent,
    pressed: &Vec<TouchPoint>,
    current: &Vec<TouchPoint>,
    released: &Vec<u64>,
    canceled: &Vec<u64>,
    cutoff: i64,
) -> (r: Vec<TouchAction>)
    ensures
        ({
            let g = read_touches_spec(
                old(state).touches@,
                old(intent)@,
                pressed@,
                current@,
                released@,
                canceled@,
                cutoff,
            );
            &&& final(state).touches@ == g.entries
            &&& final(intent)@ == g.intent
            &&& r@ == g.actions
        }),
{
    let ghost entries0 = state.touches@;
    let mut i: usize = 0;
    while i < pressed.len()
        invariant
            i <= pressed.len(),
            state.touches@ == entries0 + press_entries(pressed@).take(i as int),
        decreases pressed.len() - i,
    {
        let p = pressed[i];
        state.touches.push(TrackedTouch { id: p.id, start_x: p.x, start_y: p.y, classified: false });
        assert(press_entries(pressed@).take(i as int + 1) =~= press_entries(pressed@).take(
            i as int,
        ).push(TrackedTouch { id: p.id, start_x: p.x, start_y: p.y, classified: false }));
        i += 1;
    }
    assert(press_entries(pressed@).take(pressed@.len() as int) =~= press_entries(pressed@));

    let ghost g0 = GestureState {
        entries: entries0 + press_entries(pressed@),
        intent: intent@,
        actions: Seq::empty(),
    };
    let mut actions: Vec<TouchAction> = Vec::new();
    let mut k: usize = 0;
    while k < current.len()
        invariant
            k <= current.len(),
            moves_spec(g0, current@, k as int) == (GestureState {
                entries: state.touches@,
                intent: intent@,
                actions: actions@,
            }),
        decreases current.len() - k,
    {
        track_move(state, intent, &mut actions, current[k]);
        k += 1;
    }

    let ghost g1 = moves_spec(g0, current@, current@.len() as int);
    let mut ended: Vec<u64> = Vec::new();
    let mut m: usize = 0;
    while m < released.len()
        invariant
            m <= released.len(),
            releases_spec(g1, released@, m as int, cutoff) == (GestureState {
                entries: state.touches@,
                intent: intent@,
                actions: actions@,
            }),
            ended@ == released@.take(m as int),
        decreases released.len() - m,
    {
        let id = released[m];
        ended.push(id);
        track_release(state, &mut actions, id, cutoff);
        assert(released@.take(m as int + 1) =~= released@.take(m as int).push(id));
        m += 1;
    }
    assert(released@.take(released@.len() as int) =~= released@);
    let mut c: usize = 0;
    while c < canceled.len()
        invariant
            c <= canceled.len(),
            ended@ == released@ + canceled@.take(c as int),
        decreases canceled.len() - c,
    {
        ended.push(canceled[c]);
        assert(released@ + canceled@.take(c as int + 1) =~= (released@ + canceled@.take(
            c as int,
        )).push(canceled@[c as int]));
        c += 1;
    }
    assert(canceled@.take(canceled@.len() as int) =~= canceled@);

    let ghost g2_entries = state.touches@;
    let mut kept: Vec<TrackedTouch> = Vec::new();
    let mut q: usize = 0;
    while q < state.touches.len()
        invariant
            q <= state.touches.len(),
            state.touches@ == g2_entries,
            kept@ == retain_spec(g2_entries.take(q as int), ended@),
        decreases state.touches.len() - q,
    {
        let e = state.touches[q];
        proof {
            reveal_with_fuel(Seq::filter, 1);
            assert(g2_entries.take(q as int + 1).drop_last() =~= g2_entries.take(q as int));
        }
        if !contains_id(&ended, e.id) {
            kept.push(e);
        }
        q += 1;
    }
    assert(g2_entries.take(g2_entries.len() as int) =~= g2_entries);
    state.touches = kept;
    actions
}

/// A swipe's direction follows the finger: nothing below the swipe
/// threshold; left and right only for mostly-horizontal travel in that
/// direction; up and down (+y is down the screen) only for travel that is
/// not mostly horizontal, in that direction.
pub proof fn lemma_swipes_follow_the_finger(dx: int, dy: int)
    ensures
        dx * dx + dy * dy < SWIPE_THRESHOLD * SWIPE_THRESHOLD <==> classify_spec(dx, dy) is None,
        classify_spec(dx, dy) == Some(TouchAction::SwipeRight) ==> dx > 0 && dx > dy && dx > -dy,
        classify_spec(dx, dy) == Some(TouchAction::SwipeLeft) ==> dx < 0 && -dx > dy && -dx > -dy,
        classify_spec(dx, dy) == Some(TouchAction::SwipeUp) ==> dy < 0 && -dy >= dx && -dy >= -dx,
        classify_spec(dx, dy) == Some(TouchAction::SwipeDown) ==> dy >= 0 && dy >= dx && dy >= -dx,
        classify_spec(dx, dy) != Some(TouchAction::Tap),
{
}

/// What a moving finger does to the gesture state: at most one new gesture,
/// always a swipe; a downward swipe holds "down" for a fresh hold window and
/// releases "up"; an upward swipe holds "up" and releases "down"; a
/// sideways swipe leaves the held windows alone; and when no swipe is
/// recognized nothing changes at all.
pub proof fn lemma_vertical_swipes_hold_their_direction(g: GestureState, t: TouchPoint)
    ensures
        ({
            let r = move_step_spec(g, t);
            let fresh = TimerState {
                duration: TOUCH_HOLD_US,
                elapsed: 0,
                mode: TimerMode::Once,
                finished: false,
                times_finished_this_tick: 0,
            };
            &&& r.actions == g.actions || (r.actions.len() == g.actions.len() + 1
                && r.actions.drop_last() == g.actions && r.actions.last() != TouchAction::Tap)
            &&& r.actions == g.actions ==> r == g
            &&& r.actions == g.actions.push(TouchAction::SwipeDown) ==> {
                &&& r.intent.down == Some(fresh)
                &&& r.intent.up is None
                &&& held_spec(r.intent.down)
            }
            &&& r.actions == g.actions.push(TouchAction::SwipeUp) ==> {
                &&& r.intent.up == Some(fresh)
                &&& r.intent.down is None
                &&& held_spec(r.intent.up)
            }
            &&& (r.actions == g.actions.push(TouchAction::SwipeLeft) || r.actions
                == g.actions.push(TouchAction::SwipeRight)) ==> r.intent == g.intent
        }),
{
    let r = move_step_spec(g, t);
    if r.actions != g.actions {
        assert(r.actions.drop_last() =~= g.actions);
    }
}

/// A touch becomes a swipe at most once: a touch already classified
/// produces no further gesture and leaves everything unchanged.
pub proof fn lemma_classified_touch_stays_quiet(g: GestureState, t: TouchPoint)
    requires
        find_spec(g.entries, t.id) is Some,
        g.entries[find_spec(g.entries, t.id)->0].classified,
    ensures
        move_step_spec(g, t) == g,
{
}

/// Taps come only from touches that never became swipes and that started
/// below the HUD strip; a release never changes the tracked touches or the
/// held windows.
pub proof fn lemma_taps_need_quiet_touches(g: GestureState, id: u64, cutoff: i64)
    ensures
        release_step_spec(g, id, cutoff).entries == g.entries,
        release_step_spec(g, id, cutoff).intent == g.intent,
        release_step_spec(g, id, cutoff).actions.len() > g.actions.len() ==> ({
            let i = find_spec(g.entries, id)->0;
            &&& find_spec(g.entries, id) is Some
            &&& !g.entries[i].classified
            &&& g.entries[i].start_y > cutoff
        }),
{
}

/// After a gesture pass no released or canceled touch is still tracked.
pub proof fn lemma_ended_touches_are_forgotten(
    entries: Seq<TrackedTouch>,
    ended: Seq<u64>,
    k: int,
)
    requires
        0 <= k < retain_spec(entries, ended).len(),
    ensures
        !ended.contains(retain_spec(entries, ended)[k].id),
{
    let f = |e: TrackedTouch| !ended.contains(e.id);
    entries.lemma_filter_pred(f, k);
}

/// The first tracked touch with an id is the one a lookup finds.
proof fn lemma_find_first(entries: Seq<TrackedTouch>, id: u64, i: int)
    requires
        0 <= i < entries.len(),
        entries[i].id == id,
        forall|j: int| 0 <= j < i ==> (#[trigger] entries[j]).id != id,
    ensures
        find_spec(entries, id) == Some(i),
{
    let k = choose|k: int|
        0 <= k < entries.len() && entries[k].id == id && forall|j: int|
            0 <= j < k ==> (#[trigger] entries[j]).id != id;
    assert(0 <= i < entries.len() && entries[i].id == id);
    if k < i {
        assert(entries[k].id != id);
    } else if k > i {
        assert(entries[i].id != id);
    }
}

/// A finger lifted from a touch that never became a swipe and started
/// below the HUD strip is a tap; lifting any other touch (a swipe, one in
/// the HUD strip, or one never tracked) adds nothing.
pub proof fn lemma_quiet_release_below_the_hud_taps(g: GestureState, id: u64, cutoff: i64, i: int)
    requires
        0 <= i < g.entries.len(),
        g.entries[i].id == id,
        forall|j: int| 0 <= j < i ==> (#[trigger] g.entries[j]).id != id,
    ensures
        !g.entries[i].classified && g.entries[i].start_y > cutoff ==> release_step_spec(
            g,
            id,
            cutoff,
        ).actions == g.actions.push(TouchAction::Tap),
        g.entries[i].classified || g.entries[i].start_y <= cutoff ==> release_step_spec(
            g,
            id,
            cutoff,
        ) == g,
{
    lemma_find_first(g.entries, id, i);
}

/// Lifting a finger that no tracked touch belongs to adds no gesture.
pub proof fn lemma_untracked_release_is_quiet(g: GestureState, id: u64, cutoff: i64)
    requires
        forall|j: int| 0 <= j < g.entries.len() ==> (#[trigger] g.entries[j]).id != id,
    ensures
        release_step_spec(g, id, cutoff) == g,
{
}

} // verus!
