//! The escape-time iterator.
//!
//! From `z = c` the map `z <- z^2 + c` runs until the squared magnitude
//! crosses the escape threshold, the iteration budget runs out, a known
//! region classifies the point, or the orbit returns to a remembered
//! checkpoint (cycle detection).  The checkpoint refresh interval starts at
//! three steps and doubles every ten refreshes, trading early exits for
//! longer-period cycles.  An escaped point also carries a smooth fractional
//! correction derived from the logarithm of its magnitude at escape, so
//! that coloring can interpolate without banding.
//!
//! `iter_result_spec` pins the outcome exactly: it replays the same
//! fixed-point arithmetic, checkpoint bookkeeping included, in spec form.

use vstd::prelude::*;

verus! {

use crate::fixed::{FixVec, FIX_ONE, fix_mul, fix_mul_spec, fix_mag2, lemma_fix_mul_mag, lemma_fix_sq_nonneg};
use crate::known_region::{in_known_circle_spec, in_bulb_or_cardioid_spec, is_known_member, is_part_of_bulb_or_main_cardioid, SHORTCUT_COORD_MAX};
use crate::log2fix::{log2_fix16, log2_fix16_spec, lemma_log2_floor_ge};
use crate::viewbox::PLANE_MAX;
use vstd::arithmetic::power2::{lemma2_to64, lemma2_to64_rest};
use vstd::arithmetic::div_mod::{lemma_div_is_ordered, lemma_div_pos_is_pos};

/// The iteration budget a fresh view starts with.
pub const DEFAULT_MAX_ITERATIONS: usize = 100;

/// The largest iteration budget the crate accepts.
pub const MAX_ITERATIONS_LIMIT: usize = 0x10_0000;

/// The default escape radius, whose square bounds the iteration.
pub const ESCAPE_RADIUS: i64 = 0x2_0000_0000;

/// The smallest squared escape radius the iterator accepts (four plane
/// units; below it the smooth correction would take the logarithm of a
/// value under one).
pub const ESCAPE_RADIUS2_MIN: i64 = 0x4_0000_0000;

/// The largest squared escape radius the iterator accepts (sixteen plane
/// units; it keeps every loop value within a few dozen units).
pub const ESCAPE_RADIUS2_MAX: i64 = 0x10_0000_0000;

/// How close, in raw fixed-point steps, the orbit must return to the
/// checkpoint for the cycle detector to fire.  Zero asks for an exact
/// match, which every truly periodic fixed-point orbit eventually gives.
pub const CYCLE_EPSILON: i64 = 0;

/// The checkpoint interval the cycle detector starts with.
pub const START_MAX_PERIODICITY: u64 = 3;

/// After this many checkpoint refreshes the interval doubles.
pub const INCREASE_MAX_PERIODICITY_AFTER_CYCLES: u64 = 10;

/// The checkpoint interval stops doubling here, far past any reachable
/// orbit length, so the doubling can never overflow.
pub const MAX_PERIODICITY_CAP: u64 = 0x1_0000_0000;

/// A magnitude bound that every value of the iteration loop stays under
/// (forty plane units).
pub const ITER_VALUE_MAX: i64 = 0x28_0000_0000;

/// A coordinate bound for points that have not escaped at once (four plane
/// units).
pub const NON_ESCAPED_COORD_MAX: i64 = 0x4_0000_0000;

/// The outcome for one plane point: the escape time (or the full budget
/// for a non-escaping point), the smooth fractional correction as a raw
/// fixed-point value in `[0, 2^32]`, and how many loop steps were actually
/// run (zero for shortcut and cycle exits, for work-rate reporting).
#[derive(Clone, Copy, Debug, PartialEq, Eq, Structural)]
pub struct IterationResult {
    pub iterations: usize,
    pub smooth: u64,
    pub computed: usize,
}

/// The squared magnitude of a fixed-point pair.
pub open spec fn mag2_spec(x: int, y: int) -> int {
    fix_mul_spec(x, x) + fix_mul_spec(y, y)
}

/// One iteration step, real axis: `x^2 - y^2 + cx`.
pub open spec fn step_x_spec(x: int, y: int, cx: int) -> int {
    fix_mul_spec(x, x) - fix_mul_spec(y, y) + cx
}

/// One iteration step, imaginary axis: `2xy + cy`.
pub open spec fn step_y_spec(x: int, y: int, cy: int) -> int {
    fix_mul_spec(x, y) + fix_mul_spec(x, y) + cy
}

/// The orbit of `c`: position of `z` after `n` steps, starting at `z = c`.
pub open spec fn orbit_spec(cx: int, cy: int, n: nat) -> (int, int)
    decreases n,
{
    if n == 0 {
        (cx, cy)
    } else {
        let prev = orbit_spec(cx, cy, (n - 1) as nat);
        (step_x_spec(prev.0, prev.1, cx), step_y_spec(prev.0, prev.1, cy))
    }
}

/// The smooth correction for an escaped point, from its squared magnitude
/// `m` (raw, at least four units): `max(0, 1 - nu)` scaled to `2^32`, with
/// `nu = log2(log2(m) / 2)` evaluated by the fixed-point logarithm.
pub open spec fn smooth_spec(m: int) -> int {
    let l = log2_fix16_spec(m as nat);
    let ll = l - 0x20_0000;
    let nu = log2_fix16_spec(ll as nat) - 0x11_0000;
    if nu <= 0x1_0000 {
        (0x1_0000 - nu) * 0x1_0000
    } else {
        0
    }
}

/// The outcome reported for a point that will never escape: the full
/// budget, no smooth part, and no computed-work credit.
pub open spec fn non_escaping_result(max: nat) -> IterationResult {
    IterationResult { iterations: max as usize, smooth: 0, computed: 0 }
}

/// The live state of the iteration loop, in spec form.
pub ghost struct IterState {
    pub x: int,
    pub y: int,
    pub xh: int,
    pub yh: int,
    pub since_refresh: nat,
    pub max_periodicity: nat,
    pub refresh_cycles: nat,
    pub i: nat,
}

/// The state the loop starts from.
pub open spec fn initial_state(cx: int, cy: int) -> IterState {
    IterState {
        x: cx,
        y: cy,
        xh: 0,
        yh: 0,
        since_refresh: 0,
        max_periodicity: START_MAX_PERIODICITY as nat,
        refresh_cycles: 0,
        i: 0,
    }
}

/// What the iteration loop returns from a given state: exhaustion once the
/// budget is spent, escape once the magnitude crosses the threshold, a
/// non-escaping verdict when the stepped point returns to the checkpoint
/// within the cycle tolerance, and otherwise one more step with the
/// checkpoint bookkeeping of the loop.
pub open spec fn iter_loop_spec(cx: int, cy: int, r2: int, eps: int, max: nat, st: IterState) -> IterationResult
    decreases max - st.i,
{
    if st.i >= max {
        IterationResult { iterations: max as usize, smooth: 0, computed: max as usize }
    } else if mag2_spec(st.x, st.y) >= r2 {
        IterationResult {
            iterations: st.i as usize,
            smooth: smooth_spec(mag2_spec(st.x, st.y)) as u64,
            computed: st.i as usize,
        }
    } else {
        let x1 = step_x_spec(st.x, st.y, cx);
        let y1 = step_y_spec(st.x, st.y, cy);
        if -eps <= x1 - st.xh <= eps && -eps <= y1 - st.yh <= eps {
            non_escaping_result(max)
        } else {
            let refresh = st.since_refresh == st.max_periodicity;
            let grow = refresh && st.refresh_cycles == INCREASE_MAX_PERIODICITY_AFTER_CYCLES as nat;
            iter_loop_spec(cx, cy, r2, eps, max, IterState {
                x: x1,
                y: y1,
                xh: if refresh { x1 } else { st.xh },
                yh: if refresh { y1 } else { st.yh },
                since_refresh: if refresh { 1 } else { st.since_refresh + 1 },
                max_periodicity: if grow && st.max_periodicity < MAX_PERIODICITY_CAP as nat {
                    st.max_periodicity * 2
                } else {
                    st.max_periodicity
                },
                refresh_cycles: if grow {
                    1
                } else if refresh {
                    st.refresh_cycles + 1
                } else {
                    st.refresh_cycles
                },
                i: st.i + 1,
            })
        }
    }
}

/// The exact outcome of the iterator on one plane point: an immediately
/// escaping point never reaches the shortcut tests; a point of a known
/// circle, the bulb or the cardioid is non-escaping; every other point
/// runs the loop.
pub open spec fn iter_result_spec(cx: int, cy: int, r2: int, eps: int, max: nat) -> IterationResult {
    if mag2_spec(cx, cy) < r2 && in_known_circle_spec(cx, cy) {
        non_escaping_result(max)
    } else if mag2_spec(cx, cy) < r2 && in_bulb_or_cardioid_spec(cx, fix_mul_spec(cy, cy)) {
        non_escaping_result(max)
    } else {
        iter_loop_spec(cx, cy, r2, eps, max, initial_state(cx, cy))
    }
}

/// The smooth correction always lands between zero and one.
pub proof fn lemma_smooth_spec_bounds(m: int)
    requires
        m >= ESCAPE_RADIUS2_MIN,
    ensures
        0 <= smooth_spec(m) <= FIX_ONE,
{
    lemma2_to64();
    lemma2_to64_rest();
    lemma_log2_floor_ge(m as nat, 34);
    let l = log2_fix16_spec(m as nat);
    assert(l >= 34 * 0x1_0000);
    let ll = l - 0x20_0000;
    lemma_log2_floor_ge(ll as nat, 17);
}

/// The iteration loop keeps its outcome within the budget, its smooth part
/// within one, and reports no smooth part for a non-escaping point.
pub proof fn lemma_iter_loop_bounds(cx: int, cy: int, r2: int, eps: int, max: nat, st: IterState)
    requires
        r2 >= ESCAPE_RADIUS2_MIN,
        max <= MAX_ITERATIONS_LIMIT,
        st.i <= max,
    ensures
        ({
            let r = iter_loop_spec(cx, cy, r2, eps, max, st);
            &&& st.i <= r.iterations <= max
            &&& r.computed <= max
            &&& r.smooth <= FIX_ONE
            &&& (r.iterations == max ==> r.smooth == 0)
        }),
    decreases max - st.i,
{
    if st.i >= max {
    } else if mag2_spec(st.x, st.y) >= r2 {
        lemma_smooth_spec_bounds(mag2_spec(st.x, st.y));
    } else {
        let x1 = step_x_spec(st.x, st.y, cx);
        let y1 = step_y_spec(st.x, st.y, cy);
        if -eps <= x1 - st.xh <= eps && -eps <= y1 - st.yh <= eps {
        } else {
            let refresh = st.since_refresh == st.max_periodicity;
            let grow = refresh && st.refresh_cycles == INCREASE_MAX_PERIODICITY_AFTER_CYCLES as nat;
            lemma_iter_loop_bounds(cx, cy, r2, eps, max, IterState {
                x: x1,
                y: y1,
                xh: if refresh { x1 } else { st.xh },
                yh: if refresh { y1 } else { st.yh },
                since_refresh: if refresh { 1 } else { st.since_refresh + 1 },
                max_periodicity: if grow && st.max_periodicity < MAX_PERIODICITY_CAP as nat {
                    st.max_periodicity * 2
                } else {
                    st.max_periodicity
                },
                refresh_cycles: if grow {
                    1
                } else if refresh {
                    st.refresh_cycles + 1
                } else {
                    st.refresh_cycles
                },
                i: st.i + 1,
            });
        }
    }
}

/// The iterator's outcome stays within the budget whatever the point.
pub proof fn lemma_iter_result_bounds(cx: int, cy: int, r2: int, eps: int, max: nat)
    requires
        r2 >= ESCAPE_RADIUS2_MIN,
        max <= MAX_ITERATIONS_LIMIT,
    ensures
        ({
            let r = iter_result_spec(cx, cy, r2, eps, max);
            &&& r.iterations <= max
            &&& r.computed <= max
            &&& r.smooth <= FIX_ONE
            &&& (r.iterations == max ==> r.smooth == 0)
        }),
{
    if mag2_spec(cx, cy) < r2 && in_known_circle_spec(cx, cy) {
    } else if mag2_spec(cx, cy) < r2 && in_bulb_or_cardioid_spec(cx, fix_mul_spec(cy, cy)) {
    } else {
        lemma_iter_loop_bounds(cx, cy, r2, eps, max, initial_state(cx, cy));
    }
}

/// The loop tracks the orbit faithfully: from a state sitting on the
/// orbit with no escape so far, it reports either the full budget or the
/// first orbit index whose magnitude crosses the threshold.
pub proof fn lemma_loop_escape_is_orbit_escape(cx: int, cy: int, r2: int, eps: int, max: nat, st: IterState)
    requires
        max <= MAX_ITERATIONS_LIMIT,
        st.i <= max,
        (st.x, st.y) == orbit_spec(cx, cy, st.i),
        forall|j: nat| j < st.i ==> mag2_spec(
            (#[trigger] orbit_spec(cx, cy, j)).0,
            orbit_spec(cx, cy, j).1,
        ) < r2,
    ensures
        ({
            let r = iter_loop_spec(cx, cy, r2, eps, max, st);
            r.iterations == max || {
                &&& mag2_spec(
                    orbit_spec(cx, cy, r.iterations as nat).0,
                    orbit_spec(cx, cy, r.iterations as nat).1,
                ) >= r2
                &&& forall|j: nat| j < r.iterations ==> mag2_spec(
                    (#[trigger] orbit_spec(cx, cy, j)).0,
                    orbit_spec(cx, cy, j).1,
                ) < r2
            }
        }),
    decreases max - st.i,
{
    if st.i >= max {
    } else if mag2_spec(st.x, st.y) >= r2 {
    } else {
        let x1 = step_x_spec(st.x, st.y, cx);
        let y1 = step_y_spec(st.x, st.y, cy);
        if -eps <= x1 - st.xh <= eps && -eps <= y1 - st.yh <= eps {
        } else {
            let refresh = st.since_refresh == st.max_periodicity;
            let grow = refresh && st.refresh_cycles == INCREASE_MAX_PERIODICITY_AFTER_CYCLES as nat;
            let next = IterState {
                x: x1,
                y: y1,
                xh: if refresh { x1 } else { st.xh },
                yh: if refresh { y1 } else { st.yh },
                since_refresh: if refresh { 1 } else { st.since_refresh + 1 },
                max_periodicity: if grow && st.max_periodicity < MAX_PERIODICITY_CAP as nat {
                    st.max_periodicity * 2
                } else {
                    st.max_periodicity
                },
                refresh_cycles: if grow {
                    1
                } else if refresh {
                    st.refresh_cycles + 1
                } else {
                    st.refresh_cycles
                },
                i: st.i + 1,
            };
            assert((next.x, next.y) == orbit_spec(cx, cy, st.i + 1));
            assert forall|j: nat| j < next.i implies mag2_spec(
                (#[trigger] orbit_spec(cx, cy, j)).0,
                orbit_spec(cx, cy, j).1,
            ) < r2 by {
                if j == st.i {
                    assert(orbit_spec(cx, cy, j) == (st.x, st.y));
                }
            }
            lemma_loop_escape_is_orbit_escape(cx, cy, r2, eps, max, next);
        }
    }
}

/// Escape-time law: on any point, the iterator reports either the full
/// budget (a non-escaping verdict from the shortcuts, the cycle detector,
/// or exhaustion) or the exact first index at which the orbit's squared
/// magnitude crosses the escape threshold.
pub proof fn lemma_escape_time_sound(cx: int, cy: int, r2: int, eps: int, max: nat)
    requires
        max <= MAX_ITERATIONS_LIMIT,
    ensures
        ({
            let r = iter_result_spec(cx, cy, r2, eps, max);
            r.iterations == max || {
                &&& mag2_spec(
                    orbit_spec(cx, cy, r.iterations as nat).0,
                    orbit_spec(cx, cy, r.iterations as nat).1,
                ) >= r2
                &&& forall|j: nat| j < r.iterations ==> mag2_spec(
                    (#[trigger] orbit_spec(cx, cy, j)).0,
                    orbit_spec(cx, cy, j).1,
                ) < r2
            }
        }),
{
    if mag2_spec(cx, cy) < r2 && in_known_circle_spec(cx, cy) {
    } else if mag2_spec(cx, cy) < r2 && in_bulb_or_cardioid_spec(cx, fix_mul_spec(cy, cy)) {
    } else {
        lemma_loop_escape_is_orbit_escape(cx, cy, r2, eps, max, initial_state(cx, cy));
    }
}

/// A square is at least `m^2 / 2^32` once the value's magnitude reaches `m`.
pub proof fn lemma_fix_sq_lower(a: int, m: int)
    requires
        m >= 0,
        a >= m || a <= -m,
    ensures
        fix_mul_spec(a, a) >= (m * m) / (FIX_ONE as int),
{
    assert(a * a >= m * m) by (nonlinear_arith)
        requires
            m >= 0,
            a >= m || a <= -m,
    ;
    lemma_div_is_ordered(m * m, a * a, FIX_ONE as int);
    assert(m * m >= 0) by (nonlinear_arith)
        requires
            m >= 0,
    ;
    lemma_div_pos_is_pos(a * a, FIX_ONE as int);
}

/// A point whose squared magnitude is under sixteen units has both
/// coordinates within four units.
pub proof fn lemma_mag2_coord_bound(x: int, y: int, r2: int)
    requires
        mag2_spec(x, y) < r2,
        r2 <= ESCAPE_RADIUS2_MAX,
    ensures
        -NON_ESCAPED_COORD_MAX <= x <= NON_ESCAPED_COORD_MAX,
        -NON_ESCAPED_COORD_MAX <= y <= NON_ESCAPED_COORD_MAX,
{
    lemma_fix_sq_nonneg(x);
    lemma_fix_sq_nonneg(y);
    if x > NON_ESCAPED_COORD_MAX || x < -NON_ESCAPED_COORD_MAX {
        lemma_fix_sq_lower(x, NON_ESCAPED_COORD_MAX as int + 1);
    }
    if y > NON_ESCAPED_COORD_MAX || y < -NON_ESCAPED_COORD_MAX {
        lemma_fix_sq_lower(y, NON_ESCAPED_COORD_MAX as int + 1);
    }
}

/// Whether the squared magnitude is still below the escape threshold.
fn mag2_below(x: i64, y: i64, r2: i64) -> (r: bool)
    requires
        -0x100_0000_0000_0000 <= x <= 0x100_0000_0000_0000,
        -0x100_0000_0000_0000 <= y <= 0x100_0000_0000_0000,
        r2 >= 0,
    ensures
        r == (mag2_spec(x as int, y as int) < r2),
{
    fix_mag2(x, y) < r2 as u128
}

/// The smooth correction for an escaped point, as executable code.
pub fn smooth_value(m: u128) -> (r: u64)
    requires
        m >= ESCAPE_RADIUS2_MIN,
    ensures
        r == smooth_spec(m as int),
        r <= FIX_ONE,
{
    proof {
        lemma2_to64();
        lemma2_to64_rest();
        lemma_log2_floor_ge(m as nat, 34);
    }
    let l: u64 = log2_fix16(m);
    let ll: u64 = l - 0x20_0000;
    proof {
        lemma_log2_floor_ge(ll as nat, 17);
    }
    let n: u64 = log2_fix16(ll as u128);
    let nu: u64 = n - 0x11_0000;
    if nu <= 0x1_0000 {
        (0x1_0000 - nu) * 0x1_0000
    } else {
        0
    }
}

/// The escape-time iterator: an iteration budget and a squared escape
/// radius.
pub struct MandelIterator {
    pub max_iterations: usize,
    pub escape_radius2: i64,
}

impl MandelIterator {
    pub open spec fn wf(self) -> bool {
        &&& 1 <= self.max_iterations <= MAX_ITERATIONS_LIMIT
        &&& ESCAPE_RADIUS2_MIN <= self.escape_radius2 <= ESCAPE_RADIUS2_MAX
    }

    pub fn new(max_iterations: usize, escape_radius2: i64) -> (r: MandelIterator)
        requires
            1 <= max_iterations <= MAX_ITERATIONS_LIMIT,
            ESCAPE_RADIUS2_MIN <= escape_radius2 <= ESCAPE_RADIUS2_MAX,
        ensures
            r.max_iterations == max_iterations,
            r.escape_radius2 == escape_radius2,
            r.wf(),
    {
        MandelIterator { max_iterations, escape_radius2 }
    }

    /// The exact result of `iter_result_spec` for this point.
    #[verifier::loop_isolation(false)]
    pub fn iter_to_divergence(&self, c: FixVec) -> (r: IterationResult)
        requires
            self.wf(),
            -PLANE_MAX <= c.x <= PLANE_MAX,
            -PLANE_MAX <= c.y <= PLANE_MAX,
        ensures
            r == iter_result_spec(
                c.x as int,
                c.y as int,
                self.escape_radius2 as int,
                CYCLE_EPSILON as int,
                self.max_iterations as nat,
            ),
            r.iterations <= self.max_iterations,
            r.computed <= self.max_iterations,
            r.smooth <= FIX_ONE,
            r.iterations == self.max_iterations ==> r.smooth == 0,
    {
        let max = self.max_iterations;
        let r2 = self.escape_radius2;
        let eps = CYCLE_EPSILON;
        let ghost target = iter_result_spec(c.x as int, c.y as int, r2 as int, eps as int, max as nat);

        let m0 = fix_mag2(c.x, c.y);
        if m0 >= r2 as u128 {
            let smooth = smooth_value(m0);
            return IterationResult { iterations: 0, smooth, computed: 0 };
        }
        proof {
            lemma_mag2_coord_bound(c.x as int, c.y as int, r2 as int);
        }
        if is_known_member(&c) {
            return IterationResult { iterations: max, smooth: 0, computed: 0 };
        }
        proof {
            lemma_fix_mul_mag(c.y as int, c.y as int, NON_ESCAPED_COORD_MAX as int, NON_ESCAPED_COORD_MAX as int);
            lemma_fix_sq_nonneg(c.y as int);
        }
        let cy2 = fix_mul(c.y, c.y);
        if self.is_part_of_bulb_or_main_cardioid(&c, cy2) {
            return IterationResult { iterations: max, smooth: 0, computed: 0 };
        }

        let mut x = c.x;
        let mut y = c.y;
        let mut xh: i64 = 0;
        let mut yh: i64 = 0;
        let mut since_refresh: u64 = 0;
        let mut max_periodicity: u64 = START_MAX_PERIODICITY;
        let mut refresh_cycles: u64 = 0;
        let mut i: usize = 0;

        while i < max && mag2_below(x, y, r2)
            invariant
                i <= max,
                max <= MAX_ITERATIONS_LIMIT,
                ESCAPE_RADIUS2_MIN <= r2 <= ESCAPE_RADIUS2_MAX,
                eps == CYCLE_EPSILON,
                -NON_ESCAPED_COORD_MAX <= c.x <= NON_ESCAPED_COORD_MAX,
                -NON_ESCAPED_COORD_MAX <= c.y <= NON_ESCAPED_COORD_MAX,
                -ITER_VALUE_MAX <= x <= ITER_VALUE_MAX,
                -ITER_VALUE_MAX <= y <= ITER_VALUE_MAX,
                -ITER_VALUE_MAX <= xh <= ITER_VALUE_MAX,
                -ITER_VALUE_MAX <= yh <= ITER_VALUE_MAX,
                since_refresh <= max_periodicity,
                START_MAX_PERIODICITY <= max_periodicity <= MAX_PERIODICITY_CAP * 2,
                refresh_cycles <= INCREASE_MAX_PERIODICITY_AFTER_CYCLES,
                iter_loop_spec(c.x as int, c.y as int, r2 as int, eps as int, max as nat, IterState {
                    x: x as int,
                    y: y as int,
                    xh: xh as int,
                    yh: yh as int,
                    since_refresh: since_refresh as nat,
                    max_periodicity: max_periodicity as nat,
                    refresh_cycles: refresh_cycles as nat,
                    i: i as nat,
                }) == target,
            decreases max - i,
        {
            let ghost pre = IterState {
                x: x as int,
                y: y as int,
                xh: xh as int,
                yh: yh as int,
                since_refresh: since_refresh as nat,
                max_periodicity: max_periodicity as nat,
                refresh_cycles: refresh_cycles as nat,
                i: i as nat,
            };
            proof {
                lemma_mag2_coord_bound(x as int, y as int, r2 as int);
                lemma_fix_mul_mag(x as int, x as int, NON_ESCAPED_COORD_MAX as int, NON_ESCAPED_COORD_MAX as int);
                lemma_fix_mul_mag(y as int, y as int, NON_ESCAPED_COORD_MAX as int, NON_ESCAPED_COORD_MAX as int);
                lemma_fix_mul_mag(x as int, y as int, NON_ESCAPED_COORD_MAX as int, NON_ESCAPED_COORD_MAX as int);
            }
            let x2 = fix_mul(x, x);
            let y2 = fix_mul(y, y);
            let xy = fix_mul(x, y);
            x = x2 - y2 + c.x;
            y = xy + xy + c.y;

            let dx = if x >= xh { x - xh } else { xh - x };
            let dy = if y >= yh { y - yh } else { yh - y };
            if dx <= eps && dy <= eps {
                proof {
                    assert(iter_loop_spec(c.x as int, c.y as int, r2 as int, eps as int, max as nat, pre)
                        == non_escaping_result(max as nat));
                }
                return IterationResult { iterations: max, smooth: 0, computed: 0 };
            }

            if since_refresh == max_periodicity {
                since_refresh = 0;
                xh = x;
                yh = y;
                if refresh_cycles == INCREASE_MAX_PERIODICITY_AFTER_CYCLES {
                    refresh_cycles = 0;
                    if max_periodicity < MAX_PERIODICITY_CAP {
                        max_periodicity = max_periodicity * 2;
                    }
                }
                refresh_cycles = refresh_cycles + 1;
            }
            since_refresh = since_refresh + 1;
            i = i + 1;

            proof {
                let cur = IterState {
                    x: x as int,
                    y: y as int,
                    xh: xh as int,
                    yh: yh as int,
                    since_refresh: since_refresh as nat,
                    max_periodicity: max_periodicity as nat,
                    refresh_cycles: refresh_cycles as nat,
                    i: i as nat,
                };
                assert(iter_loop_spec(c.x as int, c.y as int, r2 as int, eps as int, max as nat, pre)
                    == iter_loop_spec(c.x as int, c.y as int, r2 as int, eps as int, max as nat, cur));
            }
        }

        if i >= max {
            return IterationResult { iterations: max, smooth: 0, computed: i };
        }
        let m = fix_mag2(x, y);
        let smooth = smooth_value(m);
        IterationResult { iterations: i, smooth, computed: i }
    }

    /// The orbit trace for one point: the point itself, then each step of
    /// the plain iteration (no shortcuts, no cycle detection), stopping at
    /// escape or at the budget.  Feeds the point-detail overlay.
    #[verifier::loop_isolation(false)]
    pub fn iteration_points(&self, c: FixVec) -> (r: Vec<FixVec>)
        requires
            self.wf(),
            -PLANE_MAX <= c.x <= PLANE_MAX,
            -PLANE_MAX <= c.y <= PLANE_MAX,
        ensures
            1 <= r@.len() <= self.max_iterations + 1,
            forall|k: int| 0 <= k < r@.len() ==> {
                let p = #[trigger] orbit_spec(c.x as int, c.y as int, k as nat);
                r@[k].x == p.0 && r@[k].y == p.1
            },
            forall|k: int| 0 <= k < r@.len() - 1 ==> mag2_spec((#[trigger] r@[k]).x as int, r@[k].y as int)
                < self.escape_radius2,
            r@.len() == self.max_iterations + 1
                || mag2_spec(r@[r@.len() - 1].x as int, r@[r@.len() - 1].y as int) >= self.escape_radius2,
            forall|k: int| 0 <= k < r@.len() ==> -0x100_0000_0000_0000 <= (#[trigger] r@[k]).x
                <= 0x100_0000_0000_0000 && -0x100_0000_0000_0000 <= r@[k].y <= 0x100_0000_0000_0000,
    {
        let max = self.max_iterations;
        let r2 = self.escape_radius2;
        let mut res: Vec<FixVec> = Vec::new();
        res.push(c);
        let mut x = c.x;
        let mut y = c.y;
        let mut i: usize = 0;
        while i < max && mag2_below(x, y, r2)
            invariant
                i <= max,
                max <= MAX_ITERATIONS_LIMIT,
                ESCAPE_RADIUS2_MIN <= r2 <= ESCAPE_RADIUS2_MAX,
                -0x100_0000_0000_0000 <= x <= 0x100_0000_0000_0000,
                -0x100_0000_0000_0000 <= y <= 0x100_0000_0000_0000,
                res@.len() == i + 1,
                forall|k: int| 0 <= k < res@.len() ==> -0x100_0000_0000_0000 <= (#[trigger] res@[k]).x
                    <= 0x100_0000_0000_0000 && -0x100_0000_0000_0000 <= res@[k].y <= 0x100_0000_0000_0000,
                (x as int, y as int) == orbit_spec(c.x as int, c.y as int, i as nat),
                forall|k: int| 0 <= k < res@.len() ==> {
                    let p = #[trigger] orbit_spec(c.x as int, c.y as int, k as nat);
                    res@[k].x == p.0 && res@[k].y == p.1
                },
                forall|k: int| 0 <= k < res@.len() - 1 ==> mag2_spec((#[trigger] res@[k]).x as int, res@[k].y as int) < r2,
            decreases max - i,
        {
            let ghost px = x as int;
            let ghost py = y as int;
            let ghost pre_i = i as nat;
            let ghost pre_seq = res@;
            proof {
                lemma_mag2_coord_bound(x as int, y as int, r2 as int);
                lemma_fix_mul_mag(x as int, x as int, NON_ESCAPED_COORD_MAX as int, NON_ESCAPED_COORD_MAX as int);
                lemma_fix_mul_mag(y as int, y as int, NON_ESCAPED_COORD_MAX as int, NON_ESCAPED_COORD_MAX as int);
                lemma_fix_mul_mag(x as int, y as int, NON_ESCAPED_COORD_MAX as int, NON_ESCAPED_COORD_MAX as int);
            }
            let x2 = fix_mul(x, x);
            let y2 = fix_mul(y, y);
            let xy = fix_mul(x, y);
            x = x2 - y2 + c.x;
            y = xy + xy + c.y;
            res.push(FixVec::new(x, y));
            i = i + 1;
            proof {
                assert forall|k: int| 0 <= k < res@.len() - 1 implies mag2_spec(
                    (#[trigger] res@[k]).x as int,
                    res@[k].y as int,
                ) < r2 by {
                    if k < pre_seq.len() - 1 {
                        assert(res@[k] == pre_seq[k]);
                        assert(mag2_spec(pre_seq[k].x as int, pre_seq[k].y as int) < r2);
                    } else {
                        assert(res@[k] == pre_seq[pre_seq.len() - 1]);
                        assert(pre_seq[k].x == orbit_spec(c.x as int, c.y as int, k as nat).0
                            && pre_seq[k].y == orbit_spec(c.x as int, c.y as int, k as nat).1);
                        assert(k as nat == pre_i);
                        assert(orbit_spec(c.x as int, c.y as int, pre_i) == (px, py));
                        assert(mag2_spec(px, py) < r2);
                    }
                }
            }
        }
        proof {
            let k = res@.len() - 1;
            assert(res@[k].x == orbit_spec(c.x as int, c.y as int, k as nat).0
                && res@[k].y == orbit_spec(c.x as int, c.y as int, k as nat).1);
            assert(k as nat == i as nat);
            assert(orbit_spec(c.x as int, c.y as int, i as nat) == (x as int, y as int));
        }
        res
    }

    /// The bulb and cardioid shortcut, as the per-point pass applies it.
    pub fn is_part_of_bulb_or_main_cardioid(&self, c: &FixVec, y2: i64) -> (r: bool)
        requires
            -SHORTCUT_COORD_MAX <= c.x <= SHORTCUT_COORD_MAX,
            0 <= y2 <= SHORTCUT_COORD_MAX,
        ensures
            r == in_bulb_or_cardioid_spec(c.x as int, y2 as int),
    {
        is_part_of_bulb_or_main_cardioid(c, y2)
    }
}

} // verus!
