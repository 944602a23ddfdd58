//! Closed-form tests for plane points that are known members of the set.
//!
//! A short table of circles, plus the algebraic criteria for the main
//! cardioid and the period-2 bulb, classify a point as non-escaping without
//! running the iteration loop.  A matching point is reported with the full
//! iteration count, a zero smooth part and no computed-work credit.

use vstd::prelude::*;

verus! {

use crate::fixed::{FixVec, FIX_ONE, fix_mul, fix_mul_spec, lemma_fix_mul_mag};

/// A coordinate cap under which every product in the shortcut tests fits a
/// raw 64-bit value (sixteen plane units).
pub const SHORTCUT_COORD_MAX: i64 = 0x10_0000_0000;

/// One plane unit above the real axis cut used by the circle gates.
pub const CIRCLE_X_LIMIT: i64 = 0x2_0000_0000;

/// A circle known to lie inside the set: a center, a squared radius, and an
/// upper bound on the real coordinate that gates the test.
pub struct KnownCircle {
    pub center: FixVec,
    pub radius2: i64,
    pub x_limit: i64,
}

impl KnownCircle {
    pub fn new(center: FixVec, radius2: i64, x_limit: i64) -> (r: Self)
        ensures
            r.center == center && r.radius2 == radius2 && r.x_limit == x_limit,
    {
        KnownCircle { center, radius2, x_limit }
    }

    /// Whether a plane point lies strictly inside this circle, under the
    /// real-coordinate gate.
    pub open spec fn is_part_spec(self, cx: int, cy: int) -> bool {
        &&& fix_mul_spec(cx - self.center.x, cx - self.center.x)
            + fix_mul_spec(cy - self.center.y, cy - self.center.y) < self.radius2
        &&& cx < self.x_limit
    }

    pub fn is_part(&self, c: &FixVec) -> (r: bool)
        requires
            -SHORTCUT_COORD_MAX <= c.x <= SHORTCUT_COORD_MAX,
            -SHORTCUT_COORD_MAX <= c.y <= SHORTCUT_COORD_MAX,
            -SHORTCUT_COORD_MAX <= self.center.x <= SHORTCUT_COORD_MAX,
            -SHORTCUT_COORD_MAX <= self.center.y <= SHORTCUT_COORD_MAX,
        ensures
            r == self.is_part_spec(c.x as int, c.y as int),
    {
        let dx = c.x - self.center.x;
        let dy = c.y - self.center.y;
        proof {
            lemma_fix_mul_mag(dx as int, dx as int, 2 * SHORTCUT_COORD_MAX, 2 * SHORTCUT_COORD_MAX);
            lemma_fix_mul_mag(dy as int, dy as int, 2 * SHORTCUT_COORD_MAX, 2 * SHORTCUT_COORD_MAX);
        }
        fix_mul(dx, dx) + fix_mul(dy, dy) < self.radius2 && c.x < self.x_limit
    }
}

/// The table of known circles: two small discs around the period-3 bulbs
/// off the main cardioid, and one on the real axis inside the period-2
/// cascade.
pub open spec fn known_circles_spec() -> Seq<KnownCircle> {
    seq![
        KnownCircle {
            center: FixVec { x: -0x2000_0000i64, y: 3195455668i64 },
            radius2: 36352603,
            x_limit: CIRCLE_X_LIMIT,
        },
        KnownCircle {
            center: FixVec { x: -0x2000_0000i64, y: -3195455668i64 },
            radius2: 36352603,
            x_limit: CIRCLE_X_LIMIT,
        },
        KnownCircle {
            center: FixVec { x: -5617817223i64, y: 0i64 },
            radius2: 14448270,
            x_limit: CIRCLE_X_LIMIT,
        },
    ]
}

/// Whether some circle of the table contains the point.
pub open spec fn in_known_circle_spec(cx: int, cy: int) -> bool {
    exists|k: int|
        0 <= k < known_circles_spec().len() && #[trigger] known_circles_spec()[k].is_part_spec(
            cx,
            cy,
        )
}

/// Whether a plane point is covered by the circle table.
pub fn is_known_member(c: &FixVec) -> (r: bool)
    requires
        -SHORTCUT_COORD_MAX <= c.x <= SHORTCUT_COORD_MAX,
        -SHORTCUT_COORD_MAX <= c.y <= SHORTCUT_COORD_MAX,
    ensures
        r == in_known_circle_spec(c.x as int, c.y as int),
{
    let c0 = KnownCircle::new(FixVec::new(-0x2000_0000, 3195455668), 36352603, CIRCLE_X_LIMIT);
    let c1 = KnownCircle::new(FixVec::new(-0x2000_0000, -3195455668), 36352603, CIRCLE_X_LIMIT);
    let c2 = KnownCircle::new(FixVec::new(-5617817223, 0), 14448270, CIRCLE_X_LIMIT);
    let r = c0.is_part(c) || c1.is_part(c) || c2.is_part(c);
    proof {
        assert(known_circles_spec()[0] == c0);
        assert(known_circles_spec()[1] == c1);
        assert(known_circles_spec()[2] == c2);
        if r {
            if c0.is_part_spec(c.x as int, c.y as int) {
                assert(known_circles_spec()[0].is_part_spec(c.x as int, c.y as int));
            } else if c1.is_part_spec(c.x as int, c.y as int) {
                assert(known_circles_spec()[1].is_part_spec(c.x as int, c.y as int));
            } else {
                assert(known_circles_spec()[2].is_part_spec(c.x as int, c.y as int));
            }
        } else {
            assert forall|k: int| 0 <= k < known_circles_spec().len()
                implies !#[trigger] known_circles_spec()[k].is_part_spec(c.x as int, c.y as int) by {
                if k == 0 {
                } else if k == 1 {
                } else {
                    assert(k == 2);
                }
            }
        }
    }
    r
}

/// Whether the point satisfies the closed-form period-2 bulb criterion:
/// `(x + 1)^2 + y^2 < 1/16`, in fixed-point arithmetic.
pub open spec fn in_bulb_spec(cx: int, y2: int) -> bool {
    fix_mul_spec(cx + FIX_ONE, cx + FIX_ONE) + y2 < 0x1000_0000
}

/// Whether the point satisfies the closed-form main-cardioid criterion:
/// `q * (q + (x - 1/4)) < y^2 / 4` with `q = (x - 1/4)^2 + y^2`, in
/// fixed-point arithmetic.
pub open spec fn in_cardioid_spec(cx: int, y2: int) -> bool {
    let xmq = cx - 0x4000_0000;
    let q = fix_mul_spec(xmq, xmq) + y2;
    fix_mul_spec(q, q + xmq) < fix_mul_spec(y2, 0x4000_0000)
}

pub open spec fn in_bulb_or_cardioid_spec(cx: int, y2: int) -> bool {
    in_bulb_spec(cx, y2) || in_cardioid_spec(cx, y2)
}

/// The bulb and cardioid tests, taking the already-computed `y^2`.
pub fn is_part_of_bulb_or_main_cardioid(c: &FixVec, y2: i64) -> (r: bool)
    requires
        -SHORTCUT_COORD_MAX <= c.x <= SHORTCUT_COORD_MAX,
        0 <= y2 <= SHORTCUT_COORD_MAX,
    ensures
        r == in_bulb_or_cardioid_spec(c.x as int, y2 as int),
{
    let x_plus_1 = c.x + FIX_ONE;
    proof {
        lemma_fix_mul_mag(x_plus_1 as int, x_plus_1 as int, 2 * SHORTCUT_COORD_MAX, 2 * SHORTCUT_COORD_MAX);
    }
    if fix_mul(x_plus_1, x_plus_1) + y2 < 0x1000_0000 {
        return true;
    }
    let x_minus_quarter = c.x - 0x4000_0000;
    proof {
        lemma_fix_mul_mag(x_minus_quarter as int, x_minus_quarter as int, 2 * SHORTCUT_COORD_MAX, 2 * SHORTCUT_COORD_MAX);
    }
    let q = fix_mul(x_minus_quarter, x_minus_quarter) + y2;
    proof {
        lemma_fix_mul_mag(q as int, q as int + x_minus_quarter as int, 0x800_0000_0000, 0x800_0000_0000);
        lemma_fix_mul_mag(y2 as int, 0x4000_0000, SHORTCUT_COORD_MAX as int, 0x4000_0000);
    }
    fix_mul(q, q + x_minus_quarter) < fix_mul(y2, 0x4000_0000)
}

} // verus!
