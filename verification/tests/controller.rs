//! The render-cache controller: the dirty rules across frames, zooming,
//! panning, and the strings.

use mandelscope::draw::DrawData;
use mandelscope::fixed::{FixVec, FIX_ONE};
use mandelscope::input::{Axis, Key, MouseButton};
use mandelscope::mandelbrot::{DisplayedParam, MandelbrotSet, DEFAULT_SPAN};
use mandelscope::viewbox::{ScreenVec, ViewBox};

const ONE: i64 = FIX_ONE;

fn dest() -> ScreenVec {
    ScreenVec::new(20, 20)
}

fn size() -> ScreenVec {
    ScreenVec::new(40, 40)
}

fn image_pixels(drawables: &[DrawData]) -> Vec<u8> {
    match drawables.last().expect("a frame always carries its image") {
        DrawData::Image { pixels, .. } => pixels.clone(),
        _ => panic!("the image must come last"),
    }
}

#[test]
fn second_frame_is_clean_and_identical() {
    let mut ms = MandelbrotSet::new();
    let first = ms.compute_drawables(dest(), size());
    let counts_after_first = ms.iteration_counts.clone();
    // the dirty checks now report clean for the same placement
    let vb = ViewBox::from_center_size(dest(), size(), ms.box_center, ms.box_size);
    assert!(!ms.need_recreate_pixel_cache(&vb));
    assert!(!ms.need_recompute_iterations(&vb));
    assert!(!ms.need_recompute_image(&vb));
    let second = ms.compute_drawables(dest(), size());
    assert_eq!(ms.iteration_counts, counts_after_first);
    assert_eq!(image_pixels(&first), image_pixels(&second));
}

#[test]
fn zoom_scales_the_box_by_exactly_a_quarter_step() {
    let mut ms = MandelbrotSet::new();
    ms.compute_drawables(dest(), size());
    let before = ms.box_size;
    assert_eq!(before.x, DEFAULT_SPAN);
    ms.adjust_zoom(1);
    assert_eq!(ms.box_size.x, before.x * 5 / 4);
    assert_eq!(ms.box_size.y, before.y * 5 / 4);
    // the change makes the next frame recompute the iterations
    let vb = ViewBox::from_center_size(dest(), size(), ms.box_center, ms.box_size);
    assert!(ms.need_recompute_iterations(&vb));
    ms.adjust_zoom(-1);
    assert_eq!(ms.box_size.x, before.x * 5 / 4 * 3 / 4);
}

#[test]
fn color_change_skips_iterations_but_repaints() {
    let mut ms = MandelbrotSet::new();
    let first = ms.compute_drawables(dest(), size());
    let counts_after_first = ms.iteration_counts.clone();
    // the default view must hold pixels whose ramp position touches the
    // almost-in stops, otherwise this scenario would not be observable
    assert!(ms
        .iteration_counts
        .iter()
        .any(|&c| c >= 25 * (ONE as u64) && c < 75 * (ONE as u64)));
    // swing the almost-in pick to the other end of the hue range
    ms.toggle_almost_in_color_param();
    ms.adjust_for_key_up(Key::Up);
    ms.almost_in_color_picker.adjust_for_axis(Axis::LeftStickX, ONE / 2);
    let vb = ViewBox::from_center_size(dest(), size(), ms.box_center, ms.box_size);
    assert!(!ms.need_recompute_iterations(&vb));
    assert!(ms.need_recompute_image(&vb));
    let second = ms.compute_drawables(dest(), size());
    assert_eq!(ms.iteration_counts, counts_after_first, "the iteration pass must be skipped");
    assert_ne!(image_pixels(&first), image_pixels(&second), "the image must repaint");
}

#[test]
fn resize_reallocates_the_buffers() {
    let mut ms = MandelbrotSet::new();
    ms.compute_drawables(dest(), size());
    assert_eq!(ms.iteration_counts.len(), 1600);
    assert_eq!(ms.pixels.len(), 6400);
    ms.compute_drawables(dest(), ScreenVec::new(10, 20));
    assert_eq!(ms.iteration_counts.len(), 200);
    assert_eq!(ms.pixels.len(), 800);
}

#[test]
fn budget_changes_clamp_at_the_limits() {
    let mut ms = MandelbrotSet::new();
    assert_eq!(ms.max_iterations, 100);
    ms.halve_max_iterations();
    assert_eq!(ms.max_iterations, 50);
    ms.double_max_iterations();
    assert_eq!(ms.max_iterations, 100);
    for _ in 0..10 {
        ms.halve_max_iterations();
    }
    assert_eq!(ms.max_iterations, 1);
    ms.halve_max_iterations();
    assert_eq!(ms.max_iterations, 1);
    for _ in 0..25 {
        ms.double_max_iterations();
    }
    assert_eq!(ms.max_iterations, 0x10_0000);
    ms.double_max_iterations();
    assert_eq!(ms.max_iterations, 0x10_0000);
}

#[test]
fn keys_drive_navigation() {
    let mut ms = MandelbrotSet::new();
    let span = ms.box_size.x;
    ms.adjust_for_key_up(Key::Z);
    assert_eq!(ms.box_size.x, span * 3 / 4);
    ms.adjust_for_key_up(Key::X);
    assert_eq!(ms.box_size.x, span * 3 / 4 * 5 / 4);
    ms.adjust_for_key_up(Key::H);
    assert!(ms.show_histogram);
    ms.select_remarkable_point(1);
    ms.adjust_for_key_up(Key::R);
    assert_eq!(ms.box_center, FixVec::new(-6017914901, 0));
    assert_eq!(ms.box_size.x, DEFAULT_SPAN);
    assert_eq!(ms.max_iterations, 100);
    ms.toggle_out_color_param();
    assert_eq!(ms.displayed_param, DisplayedParam::OutColor);
    ms.adjust_for_key_up(Key::Escape);
    assert_eq!(ms.displayed_param, DisplayedParam::MaxIterations);
}

#[test]
fn drag_and_release_pan_the_box() {
    let mut ms = MandelbrotSet::new();
    ms.compute_drawables(dest(), size());
    let ratio = ms.last_view_box.box_screen_ratio;
    assert!(ratio > 0);
    let center = ms.box_center;
    ms.adjust_for_mouse_drag(25, 22, ScreenVec::new(20, 20));
    assert_eq!(ms.drag_translation, ScreenVec::new(5, 2));
    // releasing five pixels right of the start pans the center left
    ms.adjust_for_mouse_button_up(MouseButton::Left, 25, 22, ScreenVec::new(20, 20));
    assert_eq!(ms.drag_translation, ScreenVec::new(0, 0));
    assert_eq!(ms.box_center.x, center.x - 5 * ratio);
    assert_eq!(ms.box_center.y, center.y - 2 * ratio);
}

#[test]
fn right_click_selects_the_point_under_the_pointer() {
    let mut ms = MandelbrotSet::new();
    ms.compute_drawables(dest(), size());
    ms.adjust_for_mouse_button_up(MouseButton::Right, 10, 12, ScreenVec::new(10, 12));
    let pd = ms.show_point_details.expect("a right click over the view selects a point");
    assert_eq!(pd.pixel_index, 10 + 12 * 40);
    // the selected plane point round-trips through the recorded view
    let back = ms.last_view_box.screen_pixel(&pd.point);
    assert_eq!((back.x, back.y), (10, 12));
    // zooming drops the selection
    ms.adjust_zoom(1);
    assert!(ms.show_point_details.is_none());
}

#[test]
fn frame_emits_overlays_in_order() {
    let mut ms = MandelbrotSet::new();
    ms.toggle_histogram();
    ms.toggle_out_color_param();
    let drawables = ms.compute_drawables(dest(), size());
    // picker, histogram, then the image
    assert_eq!(drawables.len(), 3);
    assert!(matches!(drawables[0], DrawData::Meshes { .. }));
    assert!(matches!(drawables[1], DrawData::Meshes { .. }));
    assert!(matches!(drawables[2], DrawData::Image { .. }));
    match &drawables[2] {
        DrawData::Image { width, height, params, .. } => {
            assert_eq!(*width, 40);
            assert_eq!(*height, 40);
            assert_eq!(params.z, -1);
            assert_eq!(params.dest, FixVec::new(0, 0));
        },
        _ => unreachable!(),
    }
}

#[test]
fn strings_are_deterministic() {
    let ms = MandelbrotSet::new();
    assert_eq!(ms.screenshot_file_name(), "mandel_100");
    assert_eq!(ms.name(), "Ensemble Mandelbrot");
    assert_eq!(ms.zoom_level(), 1);
    assert_eq!(ms.status(42), "Ensemble de Mandelbrot dwell 100 zoom x1 42 ms 0 %");
}
