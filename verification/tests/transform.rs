//! The screen/plane transform: concrete mappings and the round-trip law.

use mandelscope::fixed::{FixVec, FIX_ONE};
use mandelscope::viewbox::{ScreenVec, ViewBox};

const ONE: i64 = FIX_ONE;

fn hundred_square() -> ViewBox {
    // box center (-0.5, 0), box size 2.5, screen 100x100 centered at (50, 50)
    ViewBox::from_center_size(
        ScreenVec::new(50, 50),
        ScreenVec::new(100, 100),
        FixVec::new(-ONE / 2, 0),
        FixVec::new(5 * ONE / 2, 5 * ONE / 2),
    )
}

#[test]
fn screen_center_maps_to_box_center() {
    let vb = hundred_square();
    // the flat index of the pixel at the screen center
    let i = vb.screen_pixel_index(50, 50);
    assert_eq!(i, 50 + 50 * 100);
    let p = vb.mandel_point_from_index(i);
    assert_eq!(p.x, -ONE / 2);
    assert_eq!(p.y, 0);
}

#[test]
fn derived_fields_follow_the_formulas() {
    let vb = hundred_square();
    assert_eq!(vb.screen_min.x, 0);
    assert_eq!(vb.screen_min.y, 0);
    assert_eq!(vb.pixel_count, 10000);
    // 2.5 plane units over 100 pixels
    assert_eq!(vb.box_screen_ratio, 5 * ONE / 2 / 100);
}

#[test]
fn pixel_round_trip_is_exact() {
    let vb = hundred_square();
    for &(x, y) in [(0i64, 0i64), (1, 2), (50, 50), (99, 99), (13, 87)].iter() {
        let p = vb.mandel_point(x, y);
        let back = vb.screen_pixel(&p);
        assert_eq!(back.x, x);
        assert_eq!(back.y, y);
    }
}

#[test]
fn index_round_trip_is_exact() {
    let vb = hundred_square();
    for &i in [0usize, 1, 99, 100, 5050, 9999].iter() {
        let p = vb.mandel_point_from_index(i);
        let back = vb.screen_pixel(&p);
        let j = vb.screen_pixel_index(back.x, back.y);
        assert_eq!(j, i);
    }
}

#[test]
fn size_changed_compares_extents() {
    let a = hundred_square();
    let b = ViewBox::from_center_size(
        ScreenVec::new(50, 50),
        ScreenVec::new(100, 101),
        FixVec::new(-ONE / 2, 0),
        FixVec::new(5 * ONE / 2, 5 * ONE / 2),
    );
    assert!(!a.size_changed(&a.clone()));
    assert!(a.size_changed(&b));
    // a zero placeholder differs in size from every real view
    assert!(a.size_changed(&ViewBox::zero()));
}
