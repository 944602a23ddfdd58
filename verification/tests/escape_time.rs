//! The escape-time iterator: known regions, escapes, and the smooth part.

use mandelscope::fixed::{FixVec, FIX_ONE};
use mandelscope::iterate::{smooth_value, MandelIterator, ESCAPE_RADIUS2_MIN};
use mandelscope::known_region::{is_known_member, is_part_of_bulb_or_main_cardioid};

const ONE: i64 = FIX_ONE;

fn iter100() -> MandelIterator {
    MandelIterator::new(100, ESCAPE_RADIUS2_MIN)
}

/// Plane points strictly inside the main cardioid or the period-2 bulb,
/// as fixed-point coordinates.
fn inside_points() -> Vec<FixVec> {
    vec![
        FixVec::new(-ONE / 2, 0),           // (-0.5, 0): deep in the cardioid
        FixVec::new(0, 0),                  // the origin
        FixVec::new(-ONE, 0),               // (-1, 0): center of the bulb
        FixVec::new(-ONE, ONE / 10),        // (-1, 0.1): still in the bulb
        FixVec::new(-ONE / 2, ONE / 5),     // (-0.5, 0.2)
        FixVec::new(ONE / 10, ONE / 10),    // (0.1, 0.1)
    ]
}

#[test]
fn shortcut_and_brute_force_agree_inside() {
    // the closed-form tests accept each point, and the plain iteration
    // (no shortcuts, no cycle detection) never escapes it either
    let it = MandelIterator::new(1000, ESCAPE_RADIUS2_MIN);
    for c in inside_points() {
        let y2 = fixed_square(c.y);
        assert!(
            is_part_of_bulb_or_main_cardioid(&c, y2),
            "({}, {}) should be inside",
            c.x,
            c.y
        );
        let trace = it.iteration_points(c);
        assert_eq!(trace.len(), 1001, "({}, {}) escaped", c.x, c.y);
    }
}

fn fixed_square(v: i64) -> i64 {
    ((v as i128 * v as i128) >> 32) as i64
}

#[test]
fn shortcut_points_report_full_budget_and_no_work() {
    let it = iter100();
    for c in inside_points() {
        let r = it.iter_to_divergence(c);
        assert_eq!(r.iterations, 100);
        assert_eq!(r.smooth, 0);
        assert_eq!(r.computed, 0);
    }
}

#[test]
fn known_circle_covers_its_center() {
    // the circle on the real axis inside the period-2 cascade
    let c = FixVec::new(-5617817223, 0);
    assert!(is_known_member(&c));
    // a point far outside every circle
    assert!(!is_known_member(&FixVec::new(2 * ONE, 2 * ONE)));
}

#[test]
fn far_points_escape_immediately() {
    let it = iter100();
    let r = it.iter_to_divergence(FixVec::new(3 * ONE, 0));
    assert_eq!(r.iterations, 0);
    assert_eq!(r.computed, 0);
    // |3|^2 = 9 >= 16 is false, so it still carries a smooth part: 9 < 16
    assert!(r.smooth > 0);
    let far = it.iter_to_divergence(FixVec::new(5 * ONE, 5 * ONE));
    assert_eq!(far.iterations, 0);
    assert_eq!(far.smooth, 0); // |z|^2 = 50 >= 16: the correction clamps to zero
}

#[test]
fn escaping_point_reports_its_escape_time() {
    let it = iter100();
    // c = (1, 0): z runs 1, 2, 6, ... ; |z|^2 crosses 4 at z == 2
    let r = it.iter_to_divergence(FixVec::new(ONE, 0));
    assert_eq!(r.iterations, 1);
    assert_eq!(r.computed, 1);
    let trace = it.iteration_points(FixVec::new(ONE, 0));
    // the trace stops once the magnitude crosses the radius
    assert_eq!(trace.len(), 2);
    assert_eq!(trace[0], FixVec::new(ONE, 0));
    assert_eq!(trace[1], FixVec::new(2 * ONE, 0));
}

#[test]
fn smooth_value_spans_zero_to_one() {
    // |z|^2 == 4: log2(log2(4)/2) == 0, so the correction is a full one
    assert_eq!(smooth_value(4 * (ONE as u128)), ONE as u64);
    // |z|^2 == 16: log2(log2(16)/2) == 1, so the correction vanishes
    assert_eq!(smooth_value(16 * (ONE as u128)), 0);
    // in between it lands strictly inside
    let mid = smooth_value(8 * (ONE as u128));
    assert!(0 < mid && mid < ONE as u64);
}

#[test]
fn cycle_detection_bails_out_inside_the_set() {
    // (-1.38, 0) lies in the period-8 window of the real-axis cascade,
    // outside every shortcut region: the fixed-point orbit settles into
    // an exact cycle, so the detector reports it without running the
    // full budget
    let it = MandelIterator::new(100000, ESCAPE_RADIUS2_MIN);
    let c = FixVec::new(-5927053230, 0);
    let y2 = fixed_square(c.y);
    assert!(!is_part_of_bulb_or_main_cardioid(&c, y2));
    assert!(!is_known_member(&c));
    let r = it.iter_to_divergence(c);
    assert_eq!(r.iterations, 100000);
    assert_eq!(r.smooth, 0);
    assert_eq!(r.computed, 0, "the cycle detector should have fired");
}
