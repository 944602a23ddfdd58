//! Colors: interpolation, the easing, the palette walk, the HSV picker,
//! and the renderer.

use mandelscope::color::{color_for_count, ease, interpolate_color, normalize, Color};
use mandelscope::color_picker::{ColorPicker, HSV};
use mandelscope::fixed::{FixVec, FIX_ONE};
use mandelscope::input::MouseButton;
use mandelscope::render::Renderer;
use mandelscope::viewbox::ScreenVec;

const ONE: i64 = FIX_ONE;

#[test]
fn interpolation_hits_exact_midpoints() {
    let black = Color::new(0, 0, 0, 255);
    let white = Color::new(255, 255, 255, 255);
    assert_eq!(interpolate_color(&black, &white, 0), black);
    assert_eq!(interpolate_color(&black, &white, ONE), white);
    let mid = interpolate_color(&black, &white, ONE / 2);
    assert_eq!(mid, Color::new(127, 127, 127, 255));
    // out-of-range positions extrapolate and clamp
    assert_eq!(interpolate_color(&black, &white, 2 * ONE), white);
    assert_eq!(interpolate_color(&black, &white, -ONE), black);
}

#[test]
fn easing_sweeps_minus_one_to_one() {
    assert_eq!(ease(0), -ONE);
    assert_eq!(ease(2 * ONE), ONE);
    // the crest mirrors back down
    assert_eq!(ease(4 * ONE - 1), ease(1));
    let q = ease(ONE);
    assert!(-ONE < q && q < ONE);
}

#[test]
fn normalize_maps_the_stick_range() {
    assert_eq!(normalize(-ONE, 100 * ONE), 0);
    assert_eq!(normalize(ONE, 100 * ONE), 100 * ONE);
    assert_eq!(normalize(0, 100 * ONE), 50 * ONE);
}

#[test]
fn full_budget_paints_black() {
    let out = Color::new(10, 20, 30, 255);
    let almost = Color::new(40, 50, 60, 255);
    assert_eq!(
        color_for_count(100 * (ONE as u64), 100, &out, &almost),
        Color::new(0, 0, 0, 255)
    );
    // a count of zero sits at the first stop with a zero sub-position
    assert_eq!(color_for_count(0, 100, &out, &almost), out);
}

#[test]
fn hsv_primaries() {
    // full saturation and value at the primary hues
    assert_eq!(HSV::color(0, ONE, ONE), Color::new(255, 0, 0, 255));
    assert_eq!(HSV::color(120 * ONE, ONE, ONE), Color::new(0, 255, 0, 255));
    assert_eq!(HSV::color(240 * ONE, ONE, ONE), Color::new(0, 0, 255, 255));
    // zero saturation is grey at the value level
    assert_eq!(HSV::color(0, 0, ONE / 2), Color::new(127, 127, 127, 255));
    // an overdriven value clamps at white
    assert_eq!(HSV::color(0, 0, 3 * ONE / 2), Color::new(255, 255, 255, 255));
}

#[test]
fn picker_click_picks_hue_and_saturation() {
    let mut p = ColorPicker::new("pick", HSV::new(0, 0, ONE), ONE, FixVec::new(0, 0));
    // a 100-pixel widget centered at (50, 50): its field spans 75 pixels
    p.set_view(ScreenVec::new(100, 100), ScreenVec::new(50, 50));
    assert_eq!(p.last_size, 100 * ONE);
    // click at the field's center: hue half the turn, saturation one half
    p.adjust_for_click(MouseButton::Left, 37, 37);
    assert_eq!(p.current_pick.hue, 37 * 360 * ONE / 75);
    assert_eq!(p.current_pick.saturation, 37 * ONE / 75);
    // a click outside the field changes nothing
    let pick = p.current_pick;
    p.adjust_for_click(MouseButton::Left, 99, 99);
    assert_eq!(p.current_pick, pick);
    // a right click changes nothing either
    p.adjust_for_click(MouseButton::Right, 37, 37);
    assert_eq!(p.current_pick, pick);
}

#[test]
fn value_nudges_stop_at_the_range_edges() {
    let mut p = ColorPicker::new("pick", HSV::new(0, 0, 0), ONE, FixVec::new(0, 0));
    // at zero a downward nudge is refused
    p.adjust_for_key(mandelscope::input::Key::Down);
    assert_eq!(p.current_pick.value, 0);
    p.adjust_for_key(mandelscope::input::Key::Up);
    assert_eq!(p.current_pick.value, ONE / 4);
    // above one an upward nudge is refused
    let mut q = ColorPicker::new("pick", HSV::new(0, 0, 9 * ONE / 8), ONE, FixVec::new(0, 0));
    q.adjust_for_key(mandelscope::input::Key::Up);
    assert_eq!(q.current_pick.value, 9 * ONE / 8);
    q.adjust_for_key(mandelscope::input::Key::Down);
    assert_eq!(q.current_pick.value, 9 * ONE / 8 - ONE / 4);
}

#[test]
fn picker_meshes_cover_the_field() {
    let p = ColorPicker::new("pick", HSV::new(0, 0, ONE), ONE, FixVec::new(0, 0));
    match p.meshes() {
        mandelscope::draw::DrawData::Meshes { shapes, .. } => {
            assert_eq!(shapes.len(), 360 * 64 + 4);
        },
        _ => panic!("the picker draws a mesh"),
    }
}

#[test]
fn renderer_writes_bgra() {
    let renderer = Renderer::new();
    let out = Color::new(1, 2, 3, 255);
    let almost = Color::new(4, 5, 6, 255);
    // one pixel at the full budget: opaque black, blue first
    let pixels = renderer.render(&vec![100 * (ONE as u64)], 100, &out, &almost);
    assert_eq!(pixels, vec![0, 0, 0, 255]);
    // one pixel at count zero: the out color as b, g, r, a
    let pixels = renderer.render(&vec![0], 100, &out, &almost);
    assert_eq!(pixels, vec![3, 2, 1, 255]);
}
