//! The overlay meshes: the histogram polyline, the drag crosshair, and
//! the point-detail trace.

use mandelscope::draw::{DrawData, Shape};
use mandelscope::fixed::{FixVec, FIX_ONE};
use mandelscope::input::MouseButton;
use mandelscope::mandelbrot::MandelbrotSet;
use mandelscope::viewbox::ScreenVec;

const ONE: i64 = FIX_ONE;

#[test]
fn histogram_overlay_is_one_polyline() {
    let ms = MandelbrotSet::new();
    // a fresh controller holds an all-zero histogram of one hundred buckets
    match ms.draw_histogram(ScreenVec::new(20, 20), ScreenVec::new(40, 40)) {
        DrawData::Meshes { shapes, params } => {
            assert_eq!(shapes.len(), 1);
            assert_eq!(params.dest, FixVec::new(0, 0));
            match &shapes[0] {
                Shape::Line { points, width, color } => {
                    assert_eq!(points.len(), 100);
                    assert_eq!(*width, ONE);
                    assert_eq!(color.r, 255);
                    let step = 40 * ONE / 100;
                    assert_eq!(points[0], FixVec::new(step / 2, 0));
                    // an empty bucket sits on the plot's baseline offset
                    assert_eq!(points[1], FixVec::new(step + step / 2, 20 * ONE));
                    assert_eq!(points[99], FixVec::new(99 * step + step / 2, 20 * ONE));
                },
                _ => panic!("the histogram overlay is a polyline"),
            }
        },
        _ => panic!("the histogram overlay is a mesh"),
    }
}

#[test]
fn crosshair_is_two_lines_and_a_ring() {
    let ms = MandelbrotSet::new();
    match ms.draw_center_target(ScreenVec::new(7, 9)) {
        DrawData::Meshes { shapes, params } => {
            assert_eq!(shapes.len(), 3);
            assert_eq!(params.dest, FixVec::new(7 * ONE, 9 * ONE));
            assert!(matches!(shapes[0], Shape::Line { .. }));
            assert!(matches!(shapes[1], Shape::Line { .. }));
            match &shapes[2] {
                Shape::Circle { fill, center, radius, .. } => {
                    assert!(!fill);
                    assert_eq!(*center, FixVec::new(0, 0));
                    assert_eq!(*radius, 15 * ONE);
                },
                _ => panic!("the ring closes the crosshair"),
            }
        },
        _ => panic!("the crosshair is a mesh"),
    }
}

#[test]
fn selected_point_gets_its_trace_drawn() {
    let mut ms = MandelbrotSet::new();
    ms.compute_drawables(ScreenVec::new(20, 20), ScreenVec::new(40, 40));
    // select a quickly escaping point, then redraw
    ms.adjust_for_mouse_button_up(MouseButton::Right, 39, 20, ScreenVec::new(39, 20));
    assert!(ms.show_point_details.is_some());
    let drawables = ms.compute_drawables(ScreenVec::new(20, 20), ScreenVec::new(40, 40));
    // the trace overlay leads, the image closes
    assert!(drawables.len() >= 2);
    match &drawables[0] {
        DrawData::Meshes { shapes, .. } => {
            assert!(!shapes.is_empty());
            match shapes.last().unwrap() {
                Shape::Circle { fill, radius, .. } => {
                    assert!(fill);
                    assert_eq!(*radius, 5 * ONE);
                },
                _ => panic!("the trace ends with the dot on the point"),
            }
        },
        _ => panic!("the trace overlay is a mesh"),
    }
}
