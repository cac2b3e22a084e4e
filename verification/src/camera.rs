//! The camera-focus tracker: a continuous point eased toward a desired
//! target once per tick, with a snap-stop dead zone so the focus comes
//! to rest instead of creeping forever.
//!
//! Focus coordinates are carried in thousandths of a world unit, so the
//! easing stays in integer arithmetic: per tick the focus advances by a
//! `SPEED * dt / 1000` fraction of the remaining motion (dt in
//! milliseconds), truncated toward zero, and does not move at all once
//! the remaining motion is at most a fifth of a unit.

use vstd::arithmetic::div_mod::lemma_div_is_ordered;
use vstd::arithmetic::div_mod::lemma_div_multiples_vanish;
use vstd::arithmetic::div_mod::lemma_div_multiples_vanish_fancy;
use vstd::math::abs;
use vstd::prelude::*;

verus! {

/// How fast the focus chases its target, in fractions of the remaining
/// distance per second.
pub const SPEED: u64 = 2;

/// Radius of the snap-stop dead zone, in thousandths of a world unit
/// (a fifth of a unit).
pub const DEAD_ZONE_MILLI: u64 = 200;

/// The dead-zone radius squared, the form the tracker compares against.
pub const DEAD_ZONE_SQ_MILLI: u64 = DEAD_ZONE_MILLI * DEAD_ZONE_MILLI;

/// Largest magnitude a focus component may take, in thousandths of a
/// world unit (a million units: far beyond any board).
pub const FOCUS_LIMIT_MILLI: i64 = 1_000_000_000;

/// Longest tick the tracker accepts, in milliseconds. It keeps the
/// per-tick fraction `SPEED * dt / 1000` below one, so a tick never
/// overshoots the target.
pub const MAX_TICK_MS: u64 = 499;

/// A continuous 3-D point, components in thousandths of a world unit.
#[derive(Clone, Copy, Debug, PartialEq, Eq, Structural)]
pub struct FocusPoint {
    pub x: i64,
    pub y: i64,
    pub z: i64,
}

/// The mathematical image of a focus point: the same three components,
/// free of machine bounds.
pub struct FocusModel {
    pub x: int,
    pub y: int,
    pub z: int,
}

impl FocusPoint {
    pub open spec fn model(self) -> FocusModel {
        FocusModel { x: self.x as int, y: self.y as int, z: self.z as int }
    }

    pub open spec fn wf(self) -> bool {
        &&& -FOCUS_LIMIT_MILLI <= self.x <= FOCUS_LIMIT_MILLI
        &&& -FOCUS_LIMIT_MILLI <= self.y <= FOCUS_LIMIT_MILLI
        &&& -FOCUS_LIMIT_MILLI <= self.z <= FOCUS_LIMIT_MILLI
    }
}

pub open spec fn sq(a: int) -> int {
    a * a
}

/// Squared distance between two focus points, in squared thousandths.
pub open spec fn sq_dist(a: FocusModel, b: FocusModel) -> int {
    sq(b.x - a.x) + sq(b.y - a.y) + sq(b.z - a.z)
}

/// What one tick adds to a single component: a `SPEED * dt / 1000`
/// fraction of the remaining motion `m`, truncated toward zero.
pub open spec fn axis_step(m: int, dt: int) -> int {
    if m >= 0 {
        (m * SPEED * dt) / 1000
    } else {
        -(((-m) * SPEED * dt) / 1000)
    }
}

/// One component after a tick that moves it toward `des`.
pub open spec fn moved_axis(cur: int, des: int, dt: int) -> int {
    cur + axis_step(des - cur, dt)
}

/// The whole focus after one tick: eased toward `des` when outside the
/// dead zone, untouched inside it.
pub open spec fn advanced(cur: FocusModel, des: FocusModel, dt: int) -> FocusModel {
    if sq_dist(cur, des) > DEAD_ZONE_SQ_MILLI {
        FocusModel {
            x: moved_axis(cur.x, des.x, dt),
            y: moved_axis(cur.y, des.y, dt),
            z: moved_axis(cur.z, des.z, dt),
        }
    } else {
        cur
    }
}

/// The focus after `n` ticks toward a fixed target.
pub open spec fn advanced_iter(n: nat, cur: FocusModel, des: FocusModel, dt: int) -> FocusModel
    decreases n,
{
    if n == 0 {
        cur
    } else {
        advanced_iter((n - 1) as nat, advanced(cur, des, dt), des, dt)
    }
}

proof fn lemma_sq_nonneg(a: int)
    ensures
        sq(a) >= 0,
{
    assert(a * a >= 0) by (nonlinear_arith);
}

proof fn lemma_sq_monotone(a: int, b: int)
    requires
        0 <= a <= b,
    ensures
        sq(a) <= sq(b),
{
    assert(a * a <= b * b) by (nonlinear_arith)
        requires
            0 <= a <= b,
    ;
}

proof fn lemma_sq_abs(a: int)
    ensures
        sq(a) == sq(abs(a) as int),
{
    assert(a * a == (-a) * (-a)) by (nonlinear_arith);
}

/// For a nonnegative remaining motion `m >= 1` and a tick within
/// bounds, the step is at least zero and leaves at least one
/// thousandth of the motion behind: the focus never reaches, and so
/// never overshoots, its target.
proof fn lemma_step_bounds_pos(m: int, dt: int)
    requires
        1 <= m,
        0 <= dt <= MAX_TICK_MS,
    ensures
        0 <= (m * SPEED * dt) / 1000 <= m - 1,
{
    assert(m * SPEED * dt >= 0) by (nonlinear_arith)
        requires
            1 <= m && 0 <= dt && SPEED == 2,
    ;
    assert(m * SPEED * dt <= 1000 * (m - 1) + 999) by (nonlinear_arith)
        requires
            1 <= m && 0 <= dt <= 499 && SPEED == 2,
    ;
    lemma_div_multiples_vanish(0, 1000);
    lemma_div_is_ordered(0, m * SPEED * dt, 1000);
    lemma_div_is_ordered(m * SPEED * dt, 1000 * (m - 1) + 999, 1000);
    lemma_div_multiples_vanish_fancy(m - 1, 999, 1000);
}

/// Outside the dead zone a component of motion of at least 116
/// thousandths exists (see `lemma_big_component`), and for it a tick of
/// at least 5 ms steps by at least one thousandth.
proof fn lemma_step_at_least_one(m: int, dt: int)
    requires
        116 <= m,
        5 <= dt,
    ensures
        (m * SPEED * dt) / 1000 >= 1,
{
    assert(m * SPEED * dt >= 1160) by (nonlinear_arith)
        requires
            116 <= m && 5 <= dt && SPEED == 2,
    ;
    lemma_div_is_ordered(1160, m * SPEED * dt, 1000);
    lemma_div_multiples_vanish_fancy(1, 160, 1000);
}

/// A tick never increases a component's remaining motion.
proof fn lemma_axis_shrinks(cur: int, des: int, dt: int)
    requires
        0 <= dt <= MAX_TICK_MS,
    ensures
        abs(des - moved_axis(cur, des, dt)) <= abs(des - cur),
        sq(des - moved_axis(cur, des, dt)) <= sq(des - cur),
{
    let m = des - cur;
    let s = axis_step(m, dt);
    if m >= 1 {
        lemma_step_bounds_pos(m, dt);
        assert(0 <= s <= m - 1);
    } else if m <= -1 {
        lemma_step_bounds_pos(-m, dt);
        assert(m + 1 <= s <= 0);
    } else {
        assert(m * SPEED * dt == 0) by (nonlinear_arith)
            requires
                m == 0,
        ;
        lemma_div_multiples_vanish(0, 1000);
        assert(s == 0);
    }
    assert(abs(des - moved_axis(cur, des, dt)) <= abs(m));
    lemma_sq_abs(des - moved_axis(cur, des, dt));
    lemma_sq_abs(m);
    lemma_sq_monotone(
        abs(des - moved_axis(cur, des, dt)) as int,
        abs(m) as int,
    );
}

/// A component whose remaining motion is at least 116 thousandths loses
/// at least 231 squared thousandths per tick of 5 ms or more.
proof fn lemma_axis_progress(cur: int, des: int, dt: int)
    requires
        5 <= dt <= MAX_TICK_MS,
        abs(des - cur) >= 116,
    ensures
        sq(des - moved_axis(cur, des, dt)) <= sq(des - cur) - 231,
{
    let m = des - cur;
    let a = abs(m) as int;
    if m >= 0 {
        lemma_step_bounds_pos(m, dt);
        lemma_step_at_least_one(m, dt);
    } else {
        lemma_step_bounds_pos(-m, dt);
        lemma_step_at_least_one(-m, dt);
    }
    let rest = des - moved_axis(cur, des, dt);
    assert(abs(rest) <= a - 1);
    lemma_sq_abs(rest);
    lemma_sq_abs(m);
    lemma_sq_monotone(abs(rest) as int, a - 1);
    assert((a - 1) * (a - 1) == a * a - 2 * a + 1) by (nonlinear_arith);
}

/// Outside the dead zone, at least one component of the remaining
/// motion measures 116 thousandths or more.
proof fn lemma_big_component(cur: FocusModel, des: FocusModel)
    requires
        sq_dist(cur, des) > DEAD_ZONE_SQ_MILLI,
    ensures
        abs(des.x - cur.x) >= 116 || abs(des.y - cur.y) >= 116 || abs(des.z - cur.z) >= 116,
{
    if abs(des.x - cur.x) < 116 && abs(des.y - cur.y) < 116 && abs(des.z - cur.z) < 116 {
        lemma_sq_abs(des.x - cur.x);
        lemma_sq_abs(des.y - cur.y);
        lemma_sq_abs(des.z - cur.z);
        lemma_sq_monotone(abs(des.x - cur.x) as int, 115);
        lemma_sq_monotone(abs(des.y - cur.y) as int, 115);
        lemma_sq_monotone(abs(des.z - cur.z) as int, 115);
        assert(sq_dist(cur, des) <= 3 * 115 * 115);
        assert(false);
    }
}

/// Law: inside the dead zone a tick leaves the focus exactly where it
/// is — the converged focus is a fixed point, with no oscillation.
pub proof fn lemma_dead_zone_fixed(cur: FocusModel, des: FocusModel, dt: int)
    requires
        sq_dist(cur, des) <= DEAD_ZONE_SQ_MILLI,
    ensures
        advanced(cur, des, dt) == cur,
{
}

/// Law: a tick within bounds never increases the distance to the
/// target — the approach is monotone and never overshoots.
pub proof fn lemma_tick_monotone(cur: FocusModel, des: FocusModel, dt: int)
    requires
        0 <= dt <= MAX_TICK_MS,
    ensures
        sq_dist(advanced(cur, des, dt), des) <= sq_dist(cur, des),
{
    if sq_dist(cur, des) > DEAD_ZONE_SQ_MILLI {
        lemma_axis_shrinks(cur.x, des.x, dt);
        lemma_axis_shrinks(cur.y, des.y, dt);
        lemma_axis_shrinks(cur.z, des.z, dt);
    }
}

/// Law: outside the dead zone, a tick of 5 ms to `MAX_TICK_MS` brings
/// the focus strictly closer to the target.
pub proof fn lemma_tick_progress(cur: FocusModel, des: FocusModel, dt: int)
    requires
        5 <= dt <= MAX_TICK_MS,
        sq_dist(cur, des) > DEAD_ZONE_SQ_MILLI,
    ensures
        sq_dist(advanced(cur, des, dt), des) <= sq_dist(cur, des) - 231,
{
    lemma_big_component(cur, des);
    lemma_axis_shrinks(cur.x, des.x, dt);
    lemma_axis_shrinks(cur.y, des.y, dt);
    lemma_axis_shrinks(cur.z, des.z, dt);
    if abs(des.x - cur.x) >= 116 {
        lemma_axis_progress(cur.x, des.x, dt);
    } else if abs(des.y - cur.y) >= 116 {
        lemma_axis_progress(cur.y, des.y, dt);
    } else {
        lemma_axis_progress(cur.z, des.z, dt);
    }
}

/// Law: from any start, repeated ticks of a fixed length between 5 ms
/// and `MAX_TICK_MS` eventually bring the focus within the dead zone of
/// the target.
pub proof fn lemma_eventually_converges(cur: FocusModel, des: FocusModel, dt: int)
    requires
        5 <= dt <= MAX_TICK_MS,
    ensures
        exists|n: nat| sq_dist(advanced_iter(n, cur, des, dt), des) <= DEAD_ZONE_SQ_MILLI,
    decreases sq_dist(cur, des),
{
    lemma_sq_nonneg(des.x - cur.x);
    lemma_sq_nonneg(des.y - cur.y);
    lemma_sq_nonneg(des.z - cur.z);
    if sq_dist(cur, des) <= DEAD_ZONE_SQ_MILLI {
        assert(advanced_iter(0, cur, des, dt) == cur);
    } else {
        lemma_tick_progress(cur, des, dt);
        let next = advanced(cur, des, dt);
        lemma_sq_nonneg(des.x - next.x);
        lemma_sq_nonneg(des.y - next.y);
        lemma_sq_nonneg(des.z - next.z);
        lemma_eventually_converges(advanced(cur, des, dt), des, dt);
        let n = choose|n: nat|
            sq_dist(advanced_iter(n, advanced(cur, des, dt), des, dt), des)
                <= DEAD_ZONE_SQ_MILLI;
        assert(advanced_iter((n + 1) as nat, cur, des, dt) == advanced_iter(
            n,
            advanced(cur, des, dt),
            des,
            dt,
        ));
    }
}

/// Law: once within the dead zone, the focus stays exactly where it is
/// for any number of further ticks.
pub proof fn lemma_converged_stays(n: nat, cur: FocusModel, des: FocusModel, dt: int)
    requires
        sq_dist(cur, des) <= DEAD_ZONE_SQ_MILLI,
    ensures
        advanced_iter(n, cur, des, dt) == cur,
    decreases n,
{
    if n > 0 {
        lemma_converged_stays((n - 1) as nat, cur, des, dt);
    }
}

/// Holds the desired and current focus and eases the current one
/// toward the desired one every tick.
pub struct CameraTracker {
    desired: FocusPoint,
    current: FocusPoint,
}

/// Advances one focus component toward its target by the tick
/// fraction, in bounded integer arithmetic.
fn advance_axis(cur: i64, des: i64, dt_ms: u64) -> (r: i64)
    requires
        -FOCUS_LIMIT_MILLI <= cur <= FOCUS_LIMIT_MILLI,
        -FOCUS_LIMIT_MILLI <= des <= FOCUS_LIMIT_MILLI,
        dt_ms <= MAX_TICK_MS,
    ensures
        r == moved_axis(cur as int, des as int, dt_ms as int),
        -FOCUS_LIMIT_MILLI <= r <= FOCUS_LIMIT_MILLI,
{
    if des >= cur {
        let m: i64 = des - cur;
        let scaled: u64 = (m as u64) * SPEED;
        proof {
            if m >= 1 {
                lemma_step_bounds_pos(m as int, dt_ms as int);
            } else {
                assert((m as int) * SPEED * (dt_ms as int) == 0) by (nonlinear_arith)
                    requires
                        m == 0,
                ;
                lemma_div_multiples_vanish(0, 1000);
            }
            assert(scaled * dt_ms <= 4_000_000_000 * 499) by (nonlinear_arith)
                requires
                    scaled <= 4_000_000_000 && dt_ms <= 499,
            ;
        }
        let step: i64 = (scaled * dt_ms / 1000) as i64;
        proof {
            assert(step == axis_step(des - cur, dt_ms as int));
            assert(m >= 1 ==> step <= m - 1);
            assert(m == 0 ==> step == 0);
        }
        cur + step
    } else {
        let m: i64 = cur - des;
        let scaled: u64 = (m as u64) * SPEED;
        proof {
            lemma_step_bounds_pos(m as int, dt_ms as int);
            assert(scaled * dt_ms <= 4_000_000_000 * 499) by (nonlinear_arith)
                requires
                    scaled <= 4_000_000_000 && dt_ms <= 499,
            ;
        }
        let step: i64 = (scaled * dt_ms / 1000) as i64;
        proof {
            assert(0 <= step <= m - 1);
            assert(cur - step == moved_axis(cur as int, des as int, dt_ms as int));
        }
        cur - step
    }
}

/// Squared distance between two focus points, in squared thousandths.
fn squared_distance(a: &FocusPoint, b: &FocusPoint) -> (r: u64)
    requires
        a.wf(),
        b.wf(),
    ensures
        r == sq_dist(a.model(), b.model()),
{
    let dx: u64 = if b.x >= a.x {
        (b.x - a.x) as u64
    } else {
        (a.x - b.x) as u64
    };
    let dy: u64 = if b.y >= a.y {
        (b.y - a.y) as u64
    } else {
        (a.y - b.y) as u64
    };
    let dz: u64 = if b.z >= a.z {
        (b.z - a.z) as u64
    } else {
        (a.z - b.z) as u64
    };
    proof {
        lemma_sq_abs(b.x - a.x);
        lemma_sq_abs(b.y - a.y);
        lemma_sq_abs(b.z - a.z);
        assert(dx * dx <= 2_000_000_000 * 2_000_000_000) by (nonlinear_arith)
            requires
                dx <= 2_000_000_000,
        ;
        assert(dy * dy <= 2_000_000_000 * 2_000_000_000) by (nonlinear_arith)
            requires
                dy <= 2_000_000_000,
        ;
        assert(dz * dz <= 2_000_000_000 * 2_000_000_000) by (nonlinear_arith)
            requires
                dz <= 2_000_000_000,
        ;
    }
    dx * dx + dy * dy + dz * dz
}

impl CameraTracker {
    pub closed spec fn spec_desired(self) -> FocusPoint {
        self.desired
    }

    pub closed spec fn spec_current(self) -> FocusPoint {
        self.current
    }

    pub open spec fn wf(self) -> bool {
        self.spec_desired().wf() && self.spec_current().wf()
    }

    /// A tracker at rest: current and desired focus both at `start`.
    pub fn new(start: FocusPoint) -> (t: CameraTracker)
        requires
            start.wf(),
        ensures
            t.spec_desired() == start,
            t.spec_current() == start,
            t.wf(),
    {
        CameraTracker { desired: start, current: start }
    }

    pub fn current(&self) -> (r: FocusPoint)
        ensures
            r == self.spec_current(),
    {
        self.current
    }

    pub fn desired(&self) -> (r: FocusPoint)
        ensures
            r == self.spec_desired(),
    {
        self.desired
    }

    /// True when the current focus already sits within the dead zone of
    /// the desired one, so a tick would leave it untouched.
    pub fn at_rest(&self) -> (r: bool)
        requires
            self.wf(),
        ensures
            r == (sq_dist(self.spec_current().model(), self.spec_desired().model())
                <= DEAD_ZONE_SQ_MILLI),
    {
        squared_distance(&self.current, &self.desired) <= DEAD_ZONE_SQ_MILLI
    }

    /// One frame of tracking: re-aims at the freshly derived `desired`
    /// focus, then eases the current focus toward it — unless the
    /// remaining motion is within the dead zone, in which case the
    /// current focus stays put.
    pub fn tick(&mut self, desired: FocusPoint, dt_ms: u64)
        requires
            old(self).wf(),
            desired.wf(),
            dt_ms <= MAX_TICK_MS,
        ensures
            final(self).spec_desired() == desired,
            final(self).spec_current().model() == advanced(
                old(self).spec_current().model(),
                desired.model(),
                dt_ms as int,
            ),
            final(self).wf(),
    {
        self.desired = desired;
        let d = squared_distance(&self.current, &self.desired);
        if d > DEAD_ZONE_SQ_MILLI {
            self.current = FocusPoint {
                x: advance_axis(self.current.x, desired.x, dt_ms),
                y: advance_axis(self.current.y, desired.y, dt_ms),
                z: advance_axis(self.current.z, desired.z, dt_ms),
            };
        }
    }
}

/// The fixed focus target the camera returns to every tick: a point on
/// the column axis at `cols / 2.2` world units — the board-center
/// constant of the scene — at ground height.
pub fn reset_focus(cols: usize) -> (r: FocusPoint)
    requires
        cols <= 100_000,
    ensures
        r.model().x == (cols * 5000) / 11,
        r.model().y == 0,
        r.model().z == 0,
        r.wf(),
{
    let x: i64 = ((cols as u64) * 5000 / 11) as i64;
    FocusPoint { x, y: 0, z: 0 }
}

} // verus!
