//! The render-cache controller for the Mandelbrot view.
//!
//! It owns the navigation state (box center, box size, iteration budget),
//! the color pickers, and the caches of the last frame: the recorded view,
//! the recorded colors and budget, the packed iteration counts, the
//! histogram, and the pixel buffer.  Each frame compares the new view
//! against the records and recomputes only the stages whose inputs
//! changed: a resized screen reallocates the buffers, a moved or resized
//! box or a new budget reruns the iteration pass, and a color change alone
//! only reruns the cheap color pass.

use vstd::prelude::*;

verus! {

use crate::fixed::{FixVec, FIX_ONE, fix_mul, fix_mul_spec, div_trunc, mul_div, lemma_fix_mul_mag, lemma_div_trunc_mag};
use crate::viewbox::{ScreenVec, ViewBox, SCREEN_DIM_MAX, SCREEN_POS_MAX, BOX_SIZE_MAX, BOX_CENTER_MAX, PLANE_MAX};
use crate::iterate::{MandelIterator, ESCAPE_RADIUS2_MIN, ESCAPE_RADIUS2_MAX, MAX_ITERATIONS_LIMIT, DEFAULT_MAX_ITERATIONS};
use crate::color::Color;
use crate::color_picker::{ColorPicker, HSV, hsv_color_spec};
use crate::input::{Key, MouseButton};
use crate::draw::{DrawData, MeshParams, Shape};
use vstd::arithmetic::div_mod::{lemma_div_pos_is_pos, lemma_div_is_ordered};

/// One zoom step scales the box size by a quarter.
pub const ZOOM_STEP: i64 = 0x4000_0000;

/// The real-axis span of the default view, from -2 to 0.5.
pub const DEFAULT_SPAN: i64 = 0x2_8000_0000;

/// The narrowest box the navigation reaches (raw fixed point); it keeps
/// zooming in from collapsing the view to nothing.
pub const BOX_SIZE_MIN: i64 = 16;

/// How many preset points the table below holds.
pub const REMARKABLE_POINT_COUNT: usize = 7;

/// The crosshair half-size, in fixed-point pixels (fifteen pixels).
pub const TARGET_SIZE_PX: i64 = 64424509440;

/// The vertical offset of the histogram plot, in fixed-point pixels.
pub const PALETTE_SIZE_FIX: i64 = 85899345920;

/// The height of the histogram plot, in fixed-point pixels.
pub const HISTOGRAM_SIZE_FIX: i64 = 858993459200;

/// Which parameter panel is open.
#[derive(Clone, Copy, Debug, PartialEq, Eq, Structural)]
pub enum DisplayedParam {
    MaxIterations,
    OutColor,
    AlmostInColor,
}

/// A point a right click selected for inspection: its plane position and
/// its index in the iteration-count buffer.
#[derive(Clone, Copy, Debug, PartialEq, Eq, Structural)]
pub struct PointDetail {
    pub point: FixVec,
    pub pixel_index: usize,
}

/// The preset plane points worth jumping to.
pub open spec fn remarkable_points_spec() -> Seq<FixVec> {
    seq![
        FixVec { x: -3221225472i64, y: 0i64 },
        FixVec { x: -6017914901i64, y: 0i64 },
        FixVec { x: -3193926174i64, y: 566187947i64 },
        FixVec { x: -7512817018i64, y: -1243345i64 },
        FixVec { x: -708326128i64, y: -4453514654i64 },
        FixVec { x: -6373168105i64, y: 0i64 },
        FixVec { x: 1555287338i64, y: -1830089734i64 },
    ]
}

/// One preset point and its display name.
pub fn remarkable_point(i: usize) -> (r: (FixVec, &'static str))
    requires
        i < REMARKABLE_POINT_COUNT,
    ensures
        r.0 == remarkable_points_spec()[i as int],
{
    let r = if i == 0 {
        (FixVec::new(-3221225472, 0), "Defaut")
    } else if i == 1 {
        (FixVec::new(-6017914901, 0), "Feigenbaum")
    } else if i == 2 {
        (FixVec::new(-3193926174, 566187947), "Vallee hippocampes")
    } else if i == 3 {
        (FixVec::new(-7512817018, -1243345), "Mini mandelbrot a gauche")
    } else if i == 4 {
        (FixVec::new(-708326128, -4453514654), "En haut, mini Julia")
    } else if i == 5 {
        (FixVec::new(-6373168105, 0), "Ligne a gauche")
    } else {
        (FixVec::new(1555287338, -1830089734), "Cheveux frises en haut a droite")
    };
    r
}

/// A value forced into a closed interval.
pub open spec fn clamp_spec(v: int, lo: int, hi: int) -> int {
    if v < lo {
        lo
    } else if v > hi {
        hi
    } else {
        v
    }
}

fn clamp_i64(v: i64, lo: i64, hi: i64) -> (r: i64)
    requires
        lo <= hi,
    ensures
        r == clamp_spec(v as int, lo as int, hi as int),
{
    if v < lo {
        lo
    } else if v > hi {
        hi
    } else {
        v
    }
}

/// The factor one zoom step applies: one plus or minus a quarter.
pub open spec fn zoom_factor_spec(dir: int) -> int {
    FIX_ONE + dir * ZOOM_STEP
}

/// A zoomed box edge: scaled by the step factor and held inside the
/// navigation bounds.
pub open spec fn zoomed_spec(sz: int, dir: int) -> int {
    clamp_spec(fix_mul_spec(sz, zoom_factor_spec(dir)), BOX_SIZE_MIN as int, BOX_SIZE_MAX as int)
}

pub struct MandelbrotSet {
    /// The share of the iteration budget the last pass actually ran,
    /// as a fixed-point ratio in `[0, 1]`.
    pub iteration_rate: u64,
    /// The cached BGRA pixel buffer of the last frame.
    pub pixels: Vec<u8>,
    /// The cached packed per-pixel iteration counts.
    pub iteration_counts: Vec<u64>,
    /// The cached histogram of escape times.
    pub histogram: Vec<u64>,
    pub box_center: FixVec,
    pub box_size: FixVec,
    pub max_iterations: usize,
    pub last_out_color: Color,
    pub last_almost_in_color: Color,
    pub last_max_iterations: usize,
    pub last_view_box: ViewBox,
    pub out_color_picker: ColorPicker,
    pub almost_in_color_picker: ColorPicker,
    pub displayed_param: DisplayedParam,
    pub escape_radius2: i64,
    pub show_histogram: bool,
    pub drag_translation: ScreenVec,
    pub show_point_details: Option<PointDetail>,
    pub selected_remarkable_point: usize,
}

impl MandelbrotSet {
    /// The internal invariant: the navigation stays inside the window the
    /// fixed-point plane supports, the caches match the recorded view, and
    /// a selected point indexes the current count buffer.
    pub open spec fn wf(self) -> bool {
        &&& 1 <= self.max_iterations <= MAX_ITERATIONS_LIMIT
        &&& self.last_max_iterations <= MAX_ITERATIONS_LIMIT
        &&& ESCAPE_RADIUS2_MIN <= self.escape_radius2 <= ESCAPE_RADIUS2_MAX
        &&& BOX_SIZE_MIN <= self.box_size.x <= BOX_SIZE_MAX
        &&& BOX_SIZE_MIN <= self.box_size.y <= BOX_SIZE_MAX
        &&& -BOX_CENTER_MAX <= self.box_center.x <= BOX_CENTER_MAX
        &&& -BOX_CENTER_MAX <= self.box_center.y <= BOX_CENTER_MAX
        &&& self.out_color_picker.wf()
        &&& self.almost_in_color_picker.wf()
        &&& self.selected_remarkable_point < REMARKABLE_POINT_COUNT
        &&& -SCREEN_POS_MAX <= self.drag_translation.x <= SCREEN_POS_MAX
        &&& -SCREEN_POS_MAX <= self.drag_translation.y <= SCREEN_POS_MAX
        &&& (self.last_view_box.screen_size.x == 0 && self.last_view_box.box_screen_ratio == 0)
            || self.last_view_box.wf()
        &&& self.iteration_counts@.len() == self.last_view_box.pixel_count
        &&& self.pixels@.len() == self.iteration_counts@.len() * 4
        &&& forall|i: int| 0 <= i < self.iteration_counts@.len()
            ==> #[trigger] self.iteration_counts@[i] <= 0x20_0000_0000_0000u64
        &&& 1 <= self.histogram@.len() <= MAX_ITERATIONS_LIMIT
        &&& forall|i: int| 0 <= i < self.histogram@.len() ==> #[trigger] self.histogram@[i]
            <= 0x1000_0000u64
        &&& (self.show_point_details matches Some(pd)
            ==> pd.pixel_index < self.iteration_counts@.len()
            && -PLANE_MAX <= pd.point.x <= PLANE_MAX
            && -PLANE_MAX <= pd.point.y <= PLANE_MAX)
        &&& self.iteration_rate <= FIX_ONE
    }

    /// A fresh controller over the default view: the full set from the
    /// default preset, one hundred iterations, the default palette picks,
    /// and empty caches that the first frame will fill.
    pub fn new() -> (r: MandelbrotSet)
        ensures
            r.wf(),
            r.box_center == remarkable_points_spec()[0],
            r.box_size == (FixVec { x: DEFAULT_SPAN, y: DEFAULT_SPAN }),
            r.max_iterations == DEFAULT_MAX_ITERATIONS,
            r.last_max_iterations == 0,
            r.last_view_box.screen_size.x == 0,
            r.escape_radius2 == ESCAPE_RADIUS2_MIN,
            r.show_histogram == false,
            r.show_point_details is None,
            r.selected_remarkable_point == 0,
            r.displayed_param == DisplayedParam::MaxIterations,
            r.pixels@.len() == 0,
            r.iteration_counts@.len() == 0,
    {
        let (default_location, _) = remarkable_point(0);
        let mut histogram: Vec<u64> = Vec::new();
        let mut k: usize = 0;
        while k < DEFAULT_MAX_ITERATIONS
            invariant
                histogram@.len() == k,
                k <= DEFAULT_MAX_ITERATIONS,
                forall|j: int| 0 <= j < k ==> #[trigger] histogram@[j] == 0,
            decreases DEFAULT_MAX_ITERATIONS - k,
        {
            histogram.push(0);
            k = k + 1;
        }
        MandelbrotSet {
            iteration_rate: 0,
            pixels: Vec::new(),
            iteration_counts: Vec::new(),
            histogram,
            box_center: default_location,
            box_size: FixVec::new(DEFAULT_SPAN, DEFAULT_SPAN),
            max_iterations: DEFAULT_MAX_ITERATIONS,
            last_out_color: Color::black(),
            last_almost_in_color: Color::black(),
            last_max_iterations: 0,
            last_view_box: ViewBox::zero(),
            out_color_picker: ColorPicker::new(
                "Out",
                HSV::new(1013612281856, 4123168604, 4037269258),
                FIX_ONE / 2,
                FixVec::new(-(FIX_ONE / 5), 0),
            ),
            almost_in_color_picker: ColorPicker::new(
                "Almost in",
                HSV::new(128849018880, 3908420239, 4681514352),
                FIX_ONE / 2,
                FixVec::new(FIX_ONE / 5, 0),
            ),
            displayed_param: DisplayedParam::MaxIterations,
            escape_radius2: ESCAPE_RADIUS2_MIN,
            show_histogram: false,
            drag_translation: ScreenVec::zero(),
            show_point_details: None,
            selected_remarkable_point: 0,
        }
    }

    /// Jumps to the selected preset: its center, the default span, and the
    /// default budget.
    pub fn reset_to_remarkable_point(&mut self)
        requires
            old(self).wf(),
        ensures
            final(self).wf(),
            final(self).box_center == remarkable_points_spec()[old(self).selected_remarkable_point as int],
            final(self).box_size == (FixVec { x: DEFAULT_SPAN, y: DEFAULT_SPAN }),
            final(self).max_iterations == DEFAULT_MAX_ITERATIONS,
            *final(self) == (MandelbrotSet {
                box_center: final(self).box_center,
                box_size: final(self).box_size,
                max_iterations: DEFAULT_MAX_ITERATIONS,
                ..*old(self)
            }),
    {
        let (p, _) = remarkable_point(self.selected_remarkable_point);
        proof {
            // every preset lies well inside the navigation window
            assert(-BOX_CENTER_MAX <= remarkable_points_spec()[self.selected_remarkable_point as int].x <= BOX_CENTER_MAX
                && -BOX_CENTER_MAX <= remarkable_points_spec()[self.selected_remarkable_point as int].y <= BOX_CENTER_MAX);
        }
        self.box_center = p;
        self.box_size = FixVec::new(DEFAULT_SPAN, DEFAULT_SPAN);
        self.max_iterations = DEFAULT_MAX_ITERATIONS;
    }

    /// The iterator the current budget and escape radius define.
    pub fn iterator(&self) -> (r: MandelIterator)
        requires
            1 <= self.max_iterations <= MAX_ITERATIONS_LIMIT,
            ESCAPE_RADIUS2_MIN <= self.escape_radius2 <= ESCAPE_RADIUS2_MAX,
        ensures
            r == (MandelIterator {
                max_iterations: self.max_iterations,
                escape_radius2: self.escape_radius2,
            }),
            r.wf(),
    {
        MandelIterator::new(self.max_iterations, self.escape_radius2)
    }

    /// One zoom step: the box size scales by one plus or minus a quarter,
    /// exactly, except where the navigation bounds clamp it; a zoom drops
    /// the selected point.
    pub fn adjust_zoom(&mut self, dir: i64)
        requires
            old(self).wf(),
            dir == 1 || dir == -1,
        ensures
            final(self).wf(),
            final(self).box_size.x == zoomed_spec(old(self).box_size.x as int, dir as int),
            final(self).box_size.y == zoomed_spec(old(self).box_size.y as int, dir as int),
            final(self).show_point_details is None,
            *final(self) == (MandelbrotSet {
                box_size: final(self).box_size,
                show_point_details: None,
                ..*old(self)
            }),
    {
        proof {
            lemma_fix_mul_mag(self.box_size.x as int, zoom_factor_spec(dir as int), BOX_SIZE_MAX as int, 2 * FIX_ONE);
            lemma_fix_mul_mag(self.box_size.y as int, zoom_factor_spec(dir as int), BOX_SIZE_MAX as int, 2 * FIX_ONE);
        }
        let factor = FIX_ONE + dir * ZOOM_STEP;
        self.box_size = FixVec::new(
            clamp_i64(fix_mul(self.box_size.x, factor), BOX_SIZE_MIN, BOX_SIZE_MAX),
            clamp_i64(fix_mul(self.box_size.y, factor), BOX_SIZE_MIN, BOX_SIZE_MAX),
        );
        self.show_point_details = None;
    }

    /// Whether either picked color differs from the recorded one.
    pub open spec fn color_changed_spec(self) -> bool {
        ||| self.last_out_color != hsv_color_spec(
            self.out_color_picker.current_pick.hue as int,
            self.out_color_picker.current_pick.saturation as int,
            self.out_color_picker.current_pick.value as int,
        )
        ||| self.last_almost_in_color != hsv_color_spec(
            self.almost_in_color_picker.current_pick.hue as int,
            self.almost_in_color_picker.current_pick.saturation as int,
            self.almost_in_color_picker.current_pick.value as int,
        )
    }

    pub fn color_changed(&self) -> (r: bool)
        requires
            self.out_color_picker.wf(),
            self.almost_in_color_picker.wf(),
        ensures
            r == self.color_changed_spec(),
    {
        let out = self.out_color_picker.color();
        let almost = self.almost_in_color_picker.color();
        self.last_out_color != out || self.last_almost_in_color != almost
    }

    /// The picker the open panel shows, if one is open.
    pub fn displayed_color_picker(&self) -> (r: Option<&ColorPicker>)
        ensures
            r == (match self.displayed_param {
                DisplayedParam::OutColor => Some(&self.out_color_picker),
                DisplayedParam::AlmostInColor => Some(&self.almost_in_color_picker),
                DisplayedParam::MaxIterations => None::<&ColorPicker>,
            }),
    {
        match self.displayed_param {
            DisplayedParam::OutColor => Some(&self.out_color_picker),
            DisplayedParam::AlmostInColor => Some(&self.almost_in_color_picker),
            DisplayedParam::MaxIterations => None,
        }
    }

    /// Records the view, the colors and the budget the frame was drawn
    /// with, for the next frame's dirty checks.
    fn record_last_values(&mut self, view_box: ViewBox)
        requires
            old(self).out_color_picker.wf(),
            old(self).almost_in_color_picker.wf(),
            view_box.wf(),
        ensures
            *final(self) == (MandelbrotSet {
                last_out_color: hsv_color_spec(
                    old(self).out_color_picker.current_pick.hue as int,
                    old(self).out_color_picker.current_pick.saturation as int,
                    old(self).out_color_picker.current_pick.value as int,
                ),
                last_almost_in_color: hsv_color_spec(
                    old(self).almost_in_color_picker.current_pick.hue as int,
                    old(self).almost_in_color_picker.current_pick.saturation as int,
                    old(self).almost_in_color_picker.current_pick.value as int,
                ),
                last_max_iterations: old(self).max_iterations,
                last_view_box: view_box,
                ..*old(self)
            }),
    {
        self.last_out_color = self.out_color_picker.color();
        self.last_almost_in_color = self.almost_in_color_picker.color();
        self.last_max_iterations = self.max_iterations;
        self.last_view_box = view_box;
    }

    /// Dirty rule one: the pixel buffers are stale exactly when the screen
    /// extent changed.
    pub open spec fn need_recreate_pixel_cache_spec(self, view_box: ViewBox) -> bool {
        self.last_view_box.screen_size != view_box.screen_size
    }

    pub fn need_recreate_pixel_cache(&self, view_box: &ViewBox) -> (r: bool)
        ensures
            r == self.need_recreate_pixel_cache_spec(*view_box),
    {
        self.last_view_box.size_changed(view_box)
    }

    /// Dirty rule two: the iteration pass is stale when the buffers are,
    /// or when the box moved or resized, or when the budget changed.
    pub open spec fn need_recompute_iterations_spec(self, view_box: ViewBox) -> bool {
        ||| self.need_recreate_pixel_cache_spec(view_box)
        ||| self.last_view_box.box_center != self.box_center
        ||| self.last_view_box.box_size != self.box_size
        ||| self.last_max_iterations != self.max_iterations
    }

    pub fn need_recompute_iterations(&self, view_box: &ViewBox) -> (r: bool)
        ensures
            r == self.need_recompute_iterations_spec(*view_box),
    {
        self.need_recreate_pixel_cache(view_box)
            || self.last_view_box.box_center.x != self.box_center.x
            || self.last_view_box.box_center.y != self.box_center.y
            || self.last_view_box.box_size.x != self.box_size.x
            || self.last_view_box.box_size.y != self.box_size.y
            || self.last_max_iterations != self.max_iterations
    }

    /// Dirty rule three: the image is stale when the iterations are, or
    /// when a picked color changed.
    pub open spec fn need_recompute_image_spec(self, view_box: ViewBox) -> bool {
        self.need_recompute_iterations_spec(view_box) || self.color_changed_spec()
    }

    pub fn need_recompute_image(&self, view_box: &ViewBox) -> (r: bool)
        requires
            self.out_color_picker.wf(),
            self.almost_in_color_picker.wf(),
        ensures
            r == self.need_recompute_image_spec(*view_box),
    {
        self.need_recompute_iterations(view_box) || self.color_changed()
    }

    /// Halves the iteration budget, holding it at one or above.
    pub fn halve_max_iterations(&mut self)
        requires
            old(self).wf(),
        ensures
            final(self).max_iterations == (if old(self).max_iterations / 2 >= 1 {
                (old(self).max_iterations / 2) as int
            } else {
                1int
            }),
            *final(self) == (MandelbrotSet { max_iterations: final(self).max_iterations, ..*old(self) }),
            final(self).wf(),
    {
        let halved = self.max_iterations / 2;
        self.max_iterations = if halved >= 1 {
            halved
        } else {
            1
        };
    }

    /// Doubles the iteration budget, up to the supported cap.
    pub fn double_max_iterations(&mut self)
        requires
            old(self).wf(),
        ensures
            final(self).max_iterations == (if old(self).max_iterations * 2 <= MAX_ITERATIONS_LIMIT {
                old(self).max_iterations as int * 2
            } else {
                old(self).max_iterations as int
            }),
            *final(self) == (MandelbrotSet { max_iterations: final(self).max_iterations, ..*old(self) }),
            final(self).wf(),
    {
        if self.max_iterations <= MAX_ITERATIONS_LIMIT / 2 {
            self.max_iterations = self.max_iterations * 2;
        }
    }

    /// Shows or hides the histogram overlay.
    pub fn toggle_histogram(&mut self)
        requires
            old(self).wf(),
        ensures
            *final(self) == (MandelbrotSet { show_histogram: !old(self).show_histogram, ..*old(self) }),
            final(self).wf(),
    {
        self.show_histogram = !self.show_histogram;
    }

    /// Opens the out-color panel, or closes it back to the budget panel.
    pub fn toggle_out_color_param(&mut self)
        requires
            old(self).wf(),
        ensures
            *final(self) == (MandelbrotSet {
                displayed_param: if old(self).displayed_param == DisplayedParam::OutColor {
                    DisplayedParam::MaxIterations
                } else {
                    DisplayedParam::OutColor
                },
                ..*old(self)
            }),
            final(self).wf(),
    {
        self.displayed_param = if matches!(self.displayed_param, DisplayedParam::OutColor) {
            DisplayedParam::MaxIterations
        } else {
            DisplayedParam::OutColor
        };
    }

    /// Opens the almost-in-color panel, or closes it back.
    pub fn toggle_almost_in_color_param(&mut self)
        requires
            old(self).wf(),
        ensures
            *final(self) == (MandelbrotSet {
                displayed_param: if old(self).displayed_param == DisplayedParam::AlmostInColor {
                    DisplayedParam::MaxIterations
                } else {
                    DisplayedParam::AlmostInColor
                },
                ..*old(self)
            }),
            final(self).wf(),
    {
        self.displayed_param = if matches!(self.displayed_param, DisplayedParam::AlmostInColor) {
            DisplayedParam::MaxIterations
        } else {
            DisplayedParam::AlmostInColor
        };
    }

    /// Selects a preset from the table.
    pub fn select_remarkable_point(&mut self, i: usize)
        requires
            old(self).wf(),
            i < REMARKABLE_POINT_COUNT,
        ensures
            *final(self) == (MandelbrotSet { selected_remarkable_point: i, ..*old(self) }),
            final(self).wf(),
    {
        self.selected_remarkable_point = i;
    }

    /// The box center a committed drag pans to: the pixel offset from the
    /// drag start, scaled to plane units by the recorded view's ratio, and
    /// held inside the navigation window.
    pub open spec fn pan_center_spec(self, x: int, y: int, drag_start: ScreenVec) -> FixVec {
        FixVec {
            x: clamp_spec(
                self.box_center.x + (drag_start.x - x) * self.last_view_box.box_screen_ratio,
                -BOX_CENTER_MAX as int,
                BOX_CENTER_MAX as int,
            ) as i64,
            y: clamp_spec(
                self.box_center.y + (drag_start.y - y) * self.last_view_box.box_screen_ratio,
                -BOX_CENTER_MAX as int,
                BOX_CENTER_MAX as int,
            ) as i64,
        }
    }

    /// Whether a screen position lands on the recorded view.
    pub open spec fn on_last_view_spec(self, x: int, y: int) -> bool {
        &&& self.last_view_box.screen_size.x >= 1
        &&& self.last_view_box.screen_min.x <= x < self.last_view_box.screen_min.x
            + self.last_view_box.screen_size.x
        &&& self.last_view_box.screen_min.y <= y < self.last_view_box.screen_min.y
            + self.last_view_box.screen_size.y
    }

    /// Releasing the mouse ends any drag; on an open color panel the click
    /// goes to the picker, otherwise a left release commits the pan and a
    /// right release over the view selects the point under the pointer for
    /// inspection.
    pub fn adjust_for_mouse_button_up(&mut self, button: MouseButton, x: i64, y: i64, drag_start: ScreenVec)
        requires
            old(self).wf(),
            -SCREEN_POS_MAX <= x <= SCREEN_POS_MAX,
            -SCREEN_POS_MAX <= y <= SCREEN_POS_MAX,
            -SCREEN_POS_MAX <= drag_start.x <= SCREEN_POS_MAX,
            -SCREEN_POS_MAX <= drag_start.y <= SCREEN_POS_MAX,
        ensures
            final(self).wf(),
            old(self).displayed_param == DisplayedParam::OutColor ==> *final(self)
                == (MandelbrotSet {
                drag_translation: ScreenVec { x: 0, y: 0 },
                out_color_picker: old(self).out_color_picker.click_spec(button, x as int, y as int),
                ..*old(self)
            }),
            old(self).displayed_param == DisplayedParam::AlmostInColor ==> *final(self)
                == (MandelbrotSet {
                drag_translation: ScreenVec { x: 0, y: 0 },
                almost_in_color_picker: old(self).almost_in_color_picker.click_spec(button, x as int, y as int),
                ..*old(self)
            }),
            old(self).displayed_param == DisplayedParam::MaxIterations && button
                == MouseButton::Left ==> *final(self) == (MandelbrotSet {
                drag_translation: ScreenVec { x: 0, y: 0 },
                box_center: old(self).pan_center_spec(x as int, y as int, drag_start),
                show_point_details: None,
                ..*old(self)
            }),
            old(self).displayed_param == DisplayedParam::MaxIterations && button
                == MouseButton::Right ==> *final(self) == (MandelbrotSet {
                drag_translation: ScreenVec { x: 0, y: 0 },
                show_point_details: if old(self).on_last_view_spec(x as int, y as int) {
                    Some(PointDetail {
                        point: FixVec {
                            x: old(self).last_view_box.plane_x_spec(x as int) as i64,
                            y: old(self).last_view_box.plane_y_spec(y as int) as i64,
                        },
                        pixel_index: ((x - old(self).last_view_box.screen_min.x) + (y
                            - old(self).last_view_box.screen_min.y)
                            * old(self).last_view_box.screen_size.x) as usize,
                    })
                } else {
                    old(self).show_point_details
                },
                ..*old(self)
            }),
            old(self).displayed_param == DisplayedParam::MaxIterations && button
                == MouseButton::Middle ==> *final(self) == (MandelbrotSet {
                drag_translation: ScreenVec { x: 0, y: 0 },
                ..*old(self)
            }),
    {
        self.drag_translation = ScreenVec::zero();
        match self.displayed_param {
            DisplayedParam::OutColor => {
                self.out_color_picker.adjust_for_click(button, x, y);
            },
            DisplayedParam::AlmostInColor => {
                self.almost_in_color_picker.adjust_for_click(button, x, y);
            },
            DisplayedParam::MaxIterations => {
                match button {
                    MouseButton::Left => {
                        proof {
                            if self.last_view_box.screen_size.x != 0 {
                                lemma_div_pos_is_pos(
                                    self.last_view_box.box_size.x as int,
                                    self.last_view_box.screen_size.x as int,
                                );
                                lemma_div_is_ordered(
                                    self.last_view_box.box_size.x as int,
                                    BOX_SIZE_MAX as int,
                                    self.last_view_box.screen_size.x as int,
                                );
                                vstd::arithmetic::div_mod::lemma_div_nonincreasing(
                                    BOX_SIZE_MAX as int,
                                    self.last_view_box.screen_size.x as int,
                                );
                            }
                            assert(0 <= self.last_view_box.box_screen_ratio <= BOX_SIZE_MAX);
                            assert((drag_start.x - x) * self.last_view_box.box_screen_ratio
                                <= 0x20_0000 * BOX_SIZE_MAX
                                && (drag_start.x - x) * self.last_view_box.box_screen_ratio
                                >= -(0x20_0000 * BOX_SIZE_MAX)
                                && (drag_start.y - y) * self.last_view_box.box_screen_ratio
                                <= 0x20_0000 * BOX_SIZE_MAX
                                && (drag_start.y - y) * self.last_view_box.box_screen_ratio
                                >= -(0x20_0000 * BOX_SIZE_MAX)) by (nonlinear_arith)
                                requires
                                    -0x20_0000 <= drag_start.x - x <= 0x20_0000,
                                    -0x20_0000 <= drag_start.y - y <= 0x20_0000,
                                    0 <= self.last_view_box.box_screen_ratio <= BOX_SIZE_MAX,
                            ;
                        }
                        self.box_center = FixVec::new(
                            clamp_i64(
                                self.box_center.x + (drag_start.x - x) * self.last_view_box.box_screen_ratio,
                                -BOX_CENTER_MAX,
                                BOX_CENTER_MAX,
                            ),
                            clamp_i64(
                                self.box_center.y + (drag_start.y - y) * self.last_view_box.box_screen_ratio,
                                -BOX_CENTER_MAX,
                                BOX_CENTER_MAX,
                            ),
                        );
                        self.show_point_details = None;
                    },
                    MouseButton::Right => {
                        if self.last_view_box.screen_size.x >= 1 && self.last_view_box.screen_min.x
                            <= x && x < self.last_view_box.screen_min.x
                            + self.last_view_box.screen_size.x && self.last_view_box.screen_min.y
                            <= y && y < self.last_view_box.screen_min.y
                            + self.last_view_box.screen_size.y {
                            let point = self.last_view_box.mandel_point(x, y);
                            let pixel_index = self.last_view_box.screen_pixel_index(x, y);
                            self.show_point_details = Some(PointDetail { point, pixel_index });
                        }
                    },
                    MouseButton::Middle => (),
                }
            },
        }
    }

    /// A drag in progress only shifts the drawn image; the pan commits on
    /// release.  Dragging drops the selected point.
    pub fn adjust_for_mouse_drag(&mut self, x: i64, y: i64, drag_start: ScreenVec)
        requires
            old(self).wf(),
            -SCREEN_POS_MAX <= x <= SCREEN_POS_MAX,
            -SCREEN_POS_MAX <= y <= SCREEN_POS_MAX,
            -SCREEN_POS_MAX <= drag_start.x <= SCREEN_POS_MAX,
            -SCREEN_POS_MAX <= drag_start.y <= SCREEN_POS_MAX,
        ensures
            final(self).wf(),
            *final(self) == (MandelbrotSet {
                drag_translation: ScreenVec {
                    x: clamp_spec(x - drag_start.x, -SCREEN_POS_MAX as int, SCREEN_POS_MAX as int) as i64,
                    y: clamp_spec(y - drag_start.y, -SCREEN_POS_MAX as int, SCREEN_POS_MAX as int) as i64,
                },
                show_point_details: None,
                ..*old(self)
            }),
    {
        self.drag_translation = ScreenVec::new(
            clamp_i64(x - drag_start.x, -SCREEN_POS_MAX, SCREEN_POS_MAX),
            clamp_i64(y - drag_start.y, -SCREEN_POS_MAX, SCREEN_POS_MAX),
        );
        self.show_point_details = None;
    }

    /// A firm wheel movement zooms one step: away from the user zooms in.
    pub fn adjust_for_mouse_wheel(&mut self, wheel_y_dir: i64)
        requires
            old(self).wf(),
            -0x100_0000_0000 <= wheel_y_dir <= 0x100_0000_0000,
        ensures
            final(self).wf(),
            wheel_y_dir >= FIX_ONE / 2 ==> *final(self) == (MandelbrotSet {
                box_size: FixVec {
                    x: zoomed_spec(old(self).box_size.x as int, -1) as i64,
                    y: zoomed_spec(old(self).box_size.y as int, -1) as i64,
                },
                show_point_details: None,
                ..*old(self)
            }),
            wheel_y_dir <= -(FIX_ONE / 2) ==> *final(self) == (MandelbrotSet {
                box_size: FixVec {
                    x: zoomed_spec(old(self).box_size.x as int, 1) as i64,
                    y: zoomed_spec(old(self).box_size.y as int, 1) as i64,
                },
                show_point_details: None,
                ..*old(self)
            }),
            -(FIX_ONE / 2) < wheel_y_dir < FIX_ONE / 2 ==> *final(self) == *old(self),
    {
        if wheel_y_dir >= FIX_ONE / 2 {
            self.adjust_zoom(-1);
        } else if wheel_y_dir <= -(FIX_ONE / 2) {
            self.adjust_zoom(1);
        }
    }

    /// A released key: escape closes the color panel, R jumps to the
    /// selected preset, H toggles the histogram, Z zooms in and X zooms
    /// out; the arrow keys go to the open picker.
    pub fn adjust_for_key_up(&mut self, key: Key)
        requires
            old(self).wf(),
        ensures
            final(self).wf(),
            key == Key::Escape ==> *final(self) == (MandelbrotSet {
                displayed_param: DisplayedParam::MaxIterations,
                ..*old(self)
            }),
            key == Key::R ==> *final(self) == (MandelbrotSet {
                box_center: remarkable_points_spec()[old(self).selected_remarkable_point as int],
                box_size: FixVec { x: DEFAULT_SPAN, y: DEFAULT_SPAN },
                max_iterations: DEFAULT_MAX_ITERATIONS,
                ..*old(self)
            }),
            key == Key::H ==> *final(self) == (MandelbrotSet {
                show_histogram: !old(self).show_histogram,
                ..*old(self)
            }),
            key == Key::Z ==> *final(self) == (MandelbrotSet {
                box_size: FixVec {
                    x: zoomed_spec(old(self).box_size.x as int, -1) as i64,
                    y: zoomed_spec(old(self).box_size.y as int, -1) as i64,
                },
                show_point_details: None,
                ..*old(self)
            }),
            key == Key::X ==> *final(self) == (MandelbrotSet {
                box_size: FixVec {
                    x: zoomed_spec(old(self).box_size.x as int, 1) as i64,
                    y: zoomed_spec(old(self).box_size.y as int, 1) as i64,
                },
                show_point_details: None,
                ..*old(self)
            }),
            (key == Key::Up || key == Key::Down) ==> *final(self) == (MandelbrotSet {
                out_color_picker: if old(self).displayed_param == DisplayedParam::OutColor {
                    old(self).out_color_picker.key_spec(key)
                } else {
                    old(self).out_color_picker
                },
                almost_in_color_picker: if old(self).displayed_param == DisplayedParam::AlmostInColor {
                    old(self).almost_in_color_picker.key_spec(key)
                } else {
                    old(self).almost_in_color_picker
                },
                ..*old(self)
            }),
    {
        match key {
            Key::Escape => {
                self.displayed_param = DisplayedParam::MaxIterations;
            },
            Key::R => {
                self.reset_to_remarkable_point();
            },
            Key::H => {
                self.show_histogram = !self.show_histogram;
            },
            Key::Z => {
                self.adjust_zoom(-1);
            },
            Key::X => {
                self.adjust_zoom(1);
            },
            _ => (),
        }
        match self.displayed_param {
            DisplayedParam::OutColor => {
                self.out_color_picker.adjust_for_key(key);
            },
            DisplayedParam::AlmostInColor => {
                self.almost_in_color_picker.adjust_for_key(key);
            },
            DisplayedParam::MaxIterations => (),
        }
    }

    /// The deterministic screenshot name: the prefix and the iteration
    /// budget.
    pub fn screenshot_file_name(&self) -> (r: String)
        ensures
            r@ == "mandel_"@ + crate::text::dec_spec(self.max_iterations as nat),
    {
        let mut s = String::from_str("mandel_");
        let digits = crate::text::to_decimal(self.max_iterations as u64);
        s.append(digits.as_str());
        s
    }

    /// The display name of this view.
    pub fn name(&self) -> (r: &'static str)
        ensures
            r@ == "Ensemble Mandelbrot"@,
    {
        "Ensemble Mandelbrot"
    }

    /// The ratio of the default span to the current box width: how far the
    /// view has zoomed in, as a whole number.
    pub fn zoom_level(&self) -> (r: u64)
        requires
            self.wf(),
        ensures
            r == DEFAULT_SPAN as int / self.box_size.x as int,
    {
        proof {
            lemma_div_pos_is_pos(DEFAULT_SPAN as int, self.box_size.x as int);
            lemma_div_is_ordered(DEFAULT_SPAN as int, BOX_SIZE_MAX as int, self.box_size.x as int);
        }
        (DEFAULT_SPAN / self.box_size.x) as u64
    }

    /// The one-line status: the view's name, the iteration budget, the
    /// whole zoom level, the host-measured compute time, and the share of
    /// the iteration budget the last pass actually consumed, in percent.
    pub fn status(&self, compute_time_ms: u64) -> (r: String)
        requires
            self.wf(),
        ensures
            r@ == "Ensemble de Mandelbrot dwell "@ + crate::text::dec_spec(self.max_iterations as nat)
                + " zoom x"@ + crate::text::dec_spec((DEFAULT_SPAN as int / self.box_size.x as int) as nat)
                + " "@ + crate::text::dec_spec(compute_time_ms as nat) + " ms "@
                + crate::text::dec_spec(((self.iteration_rate * 100) as int / FIX_ONE as int) as nat)
                + " %"@,
    {
        let mut s = String::from_str("Ensemble de Mandelbrot dwell ");
        let dwell = crate::text::to_decimal(self.max_iterations as u64);
        s.append(dwell.as_str());
        s.append(" zoom x");
        let zoom = crate::text::to_decimal(self.zoom_level());
        s.append(zoom.as_str());
        s.append(" ");
        let ms = crate::text::to_decimal(compute_time_ms);
        s.append(ms.as_str());
        s.append(" ms ");
        let pct = crate::text::to_decimal((self.iteration_rate * 100) / (FIX_ONE as u64));
        s.append(pct.as_str());
        s.append(" %");
        s
    }

    /// The fullest histogram bucket.
    pub open spec fn hist_max_spec(h: Seq<u64>) -> int
        decreases h.len(),
    {
        if h.len() == 0 {
            0
        } else {
            let m = Self::hist_max_spec(h.drop_last());
            if h.last() > m {
                h.last() as int
            } else {
                m
            }
        }
    }

    /// One point of the histogram overlay polyline: evenly spaced by
    /// `step`, raised by the bucket's share of the plot height.
    pub open spec fn hist_point_spec(self, step: int, hist_max: int, i: int) -> FixVec {
        if i == 0 {
            FixVec { x: (step / 2) as i64, y: 0 }
        } else {
            FixVec {
                x: (i * step + step / 2) as i64,
                y: (PALETTE_SIZE_FIX + div_trunc(
                    self.histogram@[i] * HISTOGRAM_SIZE_FIX,
                    hist_max,
                )) as i64,
            }
        }
    }

    /// The histogram overlay: one red polyline, a point per bucket, its
    /// height normalized to the fullest bucket.
    #[verifier::loop_isolation(false)]
    pub fn draw_histogram(&self, dest: ScreenVec, size: ScreenVec) -> (r: DrawData)
        requires
            self.wf(),
            1 <= size.x <= SCREEN_DIM_MAX,
            1 <= size.y <= SCREEN_DIM_MAX,
            -SCREEN_POS_MAX <= dest.x <= SCREEN_POS_MAX,
            -SCREEN_POS_MAX <= dest.y <= SCREEN_POS_MAX,
        ensures
            ({
                let step = div_trunc(size.x * FIX_ONE, self.histogram@.len() as int);
                let hist_max = if Self::hist_max_spec(self.histogram@) == 0 {
                    1int
                } else {
                    Self::hist_max_spec(self.histogram@)
                };
                &&& r matches DrawData::Meshes { shapes, params }
                &&& params == (MeshParams {
                    dest: FixVec {
                        x: ((dest.x - size.x / 2) * FIX_ONE) as i64,
                        y: ((dest.y - size.y / 2) * FIX_ONE) as i64,
                    },
                    scale: FixVec { x: FIX_ONE, y: FIX_ONE },
                    z: 0,
                })
                &&& shapes@.len() == 1
                &&& shapes@[0] matches Shape::Line { points, width, color }
                &&& width == FIX_ONE
                &&& color == (Color { r: 255, g: 0, b: 0, a: 255 })
                &&& points@.len() == self.histogram@.len()
                &&& forall|k: int| 0 <= k < points@.len() ==> #[trigger] points@[k]
                    == self.hist_point_spec(step, hist_max, k)
            }),
    {
        let mut hist_max: u64 = 0;
        let mut i: usize = 0;
        while i < self.histogram.len()
            invariant
                i <= self.histogram@.len(),
                hist_max <= 0x1000_0000,
                hist_max == Self::hist_max_spec(self.histogram@.subrange(0, i as int)),
                forall|k: int| 0 <= k < i ==> #[trigger] self.histogram@[k] <= hist_max,
            decreases self.histogram@.len() - i,
        {
            proof {
                assert(self.histogram@.subrange(0, i + 1).drop_last()
                    =~= self.histogram@.subrange(0, i as int));
            }
            if self.histogram[i] > hist_max {
                hist_max = self.histogram[i];
            }
            i = i + 1;
        }
        proof {
            assert(self.histogram@.subrange(0, self.histogram@.len() as int) =~= self.histogram@);
        }
        if hist_max == 0 {
            hist_max = 1;
        }
        proof {
            lemma_div_trunc_mag(size.x * FIX_ONE, SCREEN_DIM_MAX as int * FIX_ONE, self.histogram@.len() as int);
            lemma_div_pos_is_pos(size.x * FIX_ONE, self.histogram@.len() as int);
        }
        let step: i64 = mul_div(size.x, FIX_ONE, self.histogram.len() as i64);
        proof {
            // the whole polyline stays within the scaled width
            let w = size.x * FIX_ONE;
            let n = self.histogram@.len() as int;
            vstd::arithmetic::div_mod::lemma_fundamental_div_mod(w, n);
            assert(n * (w / n) <= w) by (nonlinear_arith)
                requires
                    n * (w / n) + w % n == w,
                    w % n >= 0,
            ;
        }
        let ghost gstep = step as int;
        let ghost ghist_max = hist_max as int;
        let mut points: Vec<FixVec> = Vec::new();
        points.push(FixVec::new(step / 2, 0));
        let mut k: usize = 1;
        while k < self.histogram.len()
            invariant
                1 <= k <= self.histogram@.len(),
                points@.len() == k,
                forall|j: int| 0 <= j < k ==> #[trigger] points@[j] == self.hist_point_spec(
                    gstep,
                    ghist_max,
                    j,
                ),
            decreases self.histogram@.len() - k,
        {
            proof {
                assert(self.histogram@[k as int] <= ghist_max);
                assert(0 <= self.histogram@[k as int] * HISTOGRAM_SIZE_FIX
                    && self.histogram@[k as int] * HISTOGRAM_SIZE_FIX <= 0x1000_0000
                    * HISTOGRAM_SIZE_FIX) by (nonlinear_arith)
                    requires
                        0 <= self.histogram@[k as int] <= 0x1000_0000,
                ;
                lemma_div_trunc_mag(
                    self.histogram@[k as int] * HISTOGRAM_SIZE_FIX,
                    0x1000_0000 * HISTOGRAM_SIZE_FIX,
                    ghist_max,
                );
                lemma_share_bound(
                    self.histogram@[k as int] as int,
                    ghist_max,
                    HISTOGRAM_SIZE_FIX as int,
                );
                assert((k as int) * gstep <= (self.histogram@.len() as int) * gstep
                    && 0 <= (k as int) * gstep) by (nonlinear_arith)
                    requires
                        0 <= k <= self.histogram@.len(),
                        0 <= gstep,
                ;
                assert((self.histogram@.len() as int) * gstep <= size.x * FIX_ONE) by {
                    let w = size.x * FIX_ONE;
                    let n = self.histogram@.len() as int;
                    vstd::arithmetic::div_mod::lemma_fundamental_div_mod(w, n);
                    assert(n * (w / n) <= w) by (nonlinear_arith)
                        requires
                            n * (w / n) + w % n == w,
                            w % n >= 0,
                    ;
                };
            }
            let y = PALETTE_SIZE_FIX + mul_div(self.histogram[k] as i64, HISTOGRAM_SIZE_FIX, hist_max as i64);
            let x = (k as i64) * step + step / 2;
            points.push(FixVec::new(x, y));
            k = k + 1;
        }
        let mut shapes: Vec<Shape> = Vec::new();
        shapes.push(Shape::Line { points, width: FIX_ONE, color: Color::new(255, 0, 0, 255) });
        DrawData::Meshes {
            shapes,
            params: MeshParams {
                dest: FixVec::new((dest.x - size.x / 2) * FIX_ONE, (dest.y - size.y / 2) * FIX_ONE),
                scale: FixVec::new(FIX_ONE, FIX_ONE),
                z: 0,
            },
        }
    }

    /// The crosshair drawn over the screen center while a drag is in
    /// progress: two red lines and a white ring.
    pub fn draw_center_target(&self, dest: ScreenVec) -> (r: DrawData)
        requires
            -SCREEN_POS_MAX <= dest.x <= SCREEN_POS_MAX,
            -SCREEN_POS_MAX <= dest.y <= SCREEN_POS_MAX,
        ensures
            ({
                &&& r matches DrawData::Meshes { shapes, params }
                &&& params == (MeshParams {
                    dest: FixVec { x: (dest.x * FIX_ONE) as i64, y: (dest.y * FIX_ONE) as i64 },
                    scale: FixVec { x: FIX_ONE, y: FIX_ONE },
                    z: 0,
                })
                &&& shapes@.len() == 3
                &&& shapes@[0] matches Shape::Line { points, width, color } && points@.len() == 2
                    && points@[0] == (FixVec { x: (-TARGET_SIZE_PX) as i64, y: 0 }) && points@[1] == (FixVec {
                    x: TARGET_SIZE_PX,
                    y: 0,
                }) && width == FIX_ONE && color == (Color { r: 255, g: 0, b: 0, a: 255 })
                &&& shapes@[1] matches Shape::Line { points, width, color } && points@.len() == 2
                    && points@[0] == (FixVec { x: 0, y: (-TARGET_SIZE_PX) as i64 }) && points@[1] == (FixVec {
                    x: 0,
                    y: TARGET_SIZE_PX,
                }) && width == FIX_ONE && color == (Color { r: 255, g: 0, b: 0, a: 255 })
                &&& shapes@[2] == (Shape::Circle {
                    fill: false,
                    center: FixVec { x: 0, y: 0 },
                    radius: TARGET_SIZE_PX,
                    tolerance: FIX_ONE,
                    color: crate::color::white_spec(),
                })
            }),
    {
        let mut shapes: Vec<Shape> = Vec::new();
        let mut horiz: Vec<FixVec> = Vec::new();
        horiz.push(FixVec::new(-TARGET_SIZE_PX, 0));
        horiz.push(FixVec::new(TARGET_SIZE_PX, 0));
        shapes.push(Shape::Line { points: horiz, width: FIX_ONE, color: Color::new(255, 0, 0, 255) });
        let mut vert: Vec<FixVec> = Vec::new();
        vert.push(FixVec::new(0, -TARGET_SIZE_PX));
        vert.push(FixVec::new(0, TARGET_SIZE_PX));
        shapes.push(Shape::Line { points: vert, width: FIX_ONE, color: Color::new(255, 0, 0, 255) });
        shapes.push(Shape::Circle {
            fill: false,
            center: FixVec::new(0, 0),
            radius: TARGET_SIZE_PX,
            tolerance: FIX_ONE,
            color: Color::white(),
        });
        DrawData::Meshes {
            shapes,
            params: MeshParams {
                dest: FixVec::new(dest.x * FIX_ONE, dest.y * FIX_ONE),
                scale: FixVec::new(FIX_ONE, FIX_ONE),
                z: 0,
            },
        }
    }

    /// The escape trajectory of the selected point, mapped back onto the
    /// screen: a red polyline through the orbit (when it has at least two
    /// points) and a filled red dot on the point itself.
    #[verifier::loop_isolation(false)]
    pub fn draw_point_details(&self, view_box: &ViewBox) -> (r: DrawData)
        requires
            self.wf(),
            view_box.wf(),
            view_box.box_screen_ratio >= 1,
        ensures
            ({
                let c = (match self.show_point_details {
                    Some(pd) => pd.point,
                    None => FixVec { x: 0, y: 0 },
                });
                &&& r matches DrawData::Meshes { shapes, params }
                &&& params == (MeshParams {
                    dest: FixVec { x: 0, y: 0 },
                    scale: FixVec { x: FIX_ONE, y: FIX_ONE },
                    z: 0,
                })
                &&& 1 <= shapes@.len() <= 2
                &&& shapes@[shapes@.len() - 1] == (Shape::Circle {
                    fill: true,
                    center: FixVec {
                        x: (clamp_spec(view_box.screen_x_spec(c.x as int), -0x20_0000, 0x20_0000)
                            * FIX_ONE) as i64,
                        y: (clamp_spec(view_box.screen_y_spec(c.y as int), -0x20_0000, 0x20_0000)
                            * FIX_ONE) as i64,
                    },
                    radius: (5 * FIX_ONE) as i64,
                    tolerance: FIX_ONE,
                    color: Color { r: 255, g: 0, b: 0, a: 255 },
                })
                &&& (shapes@.len() == 2 ==> (shapes@[0] matches Shape::Line { points, width, color }
                    && width == 2 * FIX_ONE && color == (Color { r: 255, g: 0, b: 0, a: 255 })
                    && points@.len() >= 2 && forall|j: int| 0 <= j < points@.len()
                    ==> #[trigger] points@[j] == (FixVec {
                    x: (clamp_spec(
                        view_box.screen_x_spec(
                            crate::iterate::orbit_spec(c.x as int, c.y as int, j as nat).0,
                        ),
                        -0x20_0000,
                        0x20_0000,
                    ) * FIX_ONE) as i64,
                    y: (clamp_spec(
                        view_box.screen_y_spec(
                            crate::iterate::orbit_spec(c.x as int, c.y as int, j as nat).1,
                        ),
                        -0x20_0000,
                        0x20_0000,
                    ) * FIX_ONE) as i64,
                })))
            }),
    {
        let c = match self.show_point_details {
            Some(pd) => pd.point,
            None => FixVec::new(0, 0),
        };
        let iterator = MandelIterator::new(DEFAULT_MAX_ITERATIONS, self.escape_radius2);
        let trace = iterator.iteration_points(c);
        let mut points: Vec<FixVec> = Vec::new();
        let mut j: usize = 0;
        while j < trace.len()
            invariant
                j <= trace@.len(),
                points@.len() == j,
                forall|t: int| 0 <= t < j ==> #[trigger] points@[t] == (FixVec {
                    x: (clamp_spec(
                        view_box.screen_x_spec(
                            crate::iterate::orbit_spec(c.x as int, c.y as int, t as nat).0,
                        ),
                        -0x20_0000,
                        0x20_0000,
                    ) * FIX_ONE) as i64,
                    y: (clamp_spec(
                        view_box.screen_y_spec(
                            crate::iterate::orbit_spec(c.x as int, c.y as int, t as nat).1,
                        ),
                        -0x20_0000,
                        0x20_0000,
                    ) * FIX_ONE) as i64,
                }),
            decreases trace@.len() - j,
        {
            let p = view_box.screen_pixel(&trace[j]);
            points.push(FixVec::new(
                clamp_i64(p.x, -0x20_0000, 0x20_0000) * FIX_ONE,
                clamp_i64(p.y, -0x20_0000, 0x20_0000) * FIX_ONE,
            ));
            j = j + 1;
        }
        let mut shapes: Vec<Shape> = Vec::new();
        if points.len() > 1 {
            shapes.push(Shape::Line {
                points,
                width: 2 * FIX_ONE,
                color: Color::new(255, 0, 0, 255),
            });
        }
        let center_px = view_box.screen_pixel(&c);
        shapes.push(Shape::Circle {
            fill: true,
            center: FixVec::new(
                clamp_i64(center_px.x, -0x20_0000, 0x20_0000) * FIX_ONE,
                clamp_i64(center_px.y, -0x20_0000, 0x20_0000) * FIX_ONE,
            ),
            radius: 5 * FIX_ONE,
            tolerance: FIX_ONE,
            color: Color::new(255, 0, 0, 255),
        });
        DrawData::Meshes {
            shapes,
            params: MeshParams {
                dest: FixVec::new(0, 0),
                scale: FixVec::new(FIX_ONE, FIX_ONE),
                z: 0,
            },
        }
    }
}

impl MandelbrotSet {
    /// The drawables of one frame: the optional overlays (the point
    /// trajectory, the open color picker, the histogram, and the drag
    /// crosshair, in that order), then the fractal image itself, placed at
    /// the drag offset and behind everything.  The frame recomputes only
    /// the stale stages: the pixel buffers on a resize, the iteration
    /// pass on a view or budget change, and the color pass on either or
    /// on a palette change; an untouched stage returns its cache bit for
    /// bit.
    #[verifier::rlimit(100)]
    #[verifier::spinoff_prover]
    pub fn compute_drawables(&mut self, dest: ScreenVec, size: ScreenVec) -> (r: Vec<DrawData>)
        requires
            old(self).wf(),
            1 <= size.x <= SCREEN_DIM_MAX,
            1 <= size.y <= SCREEN_DIM_MAX,
            -SCREEN_POS_MAX <= dest.x <= SCREEN_POS_MAX,
            -SCREEN_POS_MAX <= dest.y <= SCREEN_POS_MAX,
        ensures
            final(self).wf(),
            ({
                let vb = ViewBox::make_spec(dest, size, old(self).box_center, old(self).box_size);
                let it = MandelIterator {
                    max_iterations: old(self).max_iterations,
                    escape_radius2: old(self).escape_radius2,
                };
                &&& final(self).last_view_box == vb
                &&& final(self).last_max_iterations == old(self).max_iterations
                &&& final(self).last_out_color == hsv_color_spec(
                    old(self).out_color_picker.current_pick.hue as int,
                    old(self).out_color_picker.current_pick.saturation as int,
                    old(self).out_color_picker.current_pick.value as int,
                )
                &&& final(self).last_almost_in_color == hsv_color_spec(
                    old(self).almost_in_color_picker.current_pick.hue as int,
                    old(self).almost_in_color_picker.current_pick.saturation as int,
                    old(self).almost_in_color_picker.current_pick.value as int,
                )
                &&& final(self).box_center == old(self).box_center
                &&& final(self).box_size == old(self).box_size
                &&& final(self).max_iterations == old(self).max_iterations
                &&& final(self).escape_radius2 == old(self).escape_radius2
                &&& final(self).out_color_picker.current_pick == old(self).out_color_picker.current_pick
                &&& final(self).almost_in_color_picker.current_pick == old(self).almost_in_color_picker.current_pick
                &&& final(self).displayed_param == old(self).displayed_param
                &&& final(self).show_histogram == old(self).show_histogram
                &&& final(self).drag_translation == old(self).drag_translation
                &&& final(self).selected_remarkable_point == old(self).selected_remarkable_point
                &&& final(self).histogram == old(self).histogram || old(self).need_recompute_iterations_spec(vb)
                &&& (old(self).need_recompute_iterations_spec(vb) ==> {
                    &&& final(self).iteration_counts@ == crate::reduce::counts_spec(vb, it)
                    &&& final(self).histogram@.map_values(|v: u64| v as int)
                        == crate::reduce::reduce_spec(vb, it, vb.pixel_count as nat).histogram
                    &&& final(self).iteration_rate == div_trunc(
                        crate::reduce::reduce_spec(vb, it, vb.pixel_count as nat).computed
                            * (FIX_ONE as int),
                        (old(self).max_iterations * vb.pixel_count) as int,
                    )
                })
                &&& (!old(self).need_recompute_iterations_spec(vb) ==> {
                    &&& final(self).iteration_counts == old(self).iteration_counts
                    &&& final(self).histogram == old(self).histogram
                    &&& final(self).iteration_rate == old(self).iteration_rate
                })
                &&& final(self).pixels@ == (if old(self).need_recompute_image_spec(vb) {
                    crate::render::pixels_spec(
                        final(self).iteration_counts@,
                        old(self).max_iterations as int,
                        final(self).last_out_color,
                        final(self).last_almost_in_color,
                    )
                } else {
                    old(self).pixels@
                })
                &&& final(self).show_point_details == (if old(self).need_recreate_pixel_cache_spec(vb) {
                    None::<PointDetail>
                } else {
                    old(self).show_point_details
                })
                &&& r@.len() >= 1
                &&& (r@.last() matches DrawData::Image { pixels, width, height, params }
                    && pixels@ == final(self).pixels@ && width == size.x && height == size.y
                    && params == (MeshParams {
                    dest: FixVec {
                        x: ((dest.x - size.x / 2 + old(self).drag_translation.x) * FIX_ONE) as i64,
                        y: ((dest.y - size.y / 2 + old(self).drag_translation.y) * FIX_ONE) as i64,
                    },
                    scale: FixVec { x: FIX_ONE, y: FIX_ONE },
                    z: (-1) as i32,
                }))
                &&& r@.len() == 1 + (if final(self).show_point_details is Some
                    && vb.box_screen_ratio >= 1 {
                    1int
                } else {
                    0int
                }) + (if old(self).displayed_param != DisplayedParam::MaxIterations {
                    1int
                } else {
                    0int
                }) + (if old(self).show_histogram {
                    1int
                } else {
                    0int
                }) + (if old(self).drag_translation != (ScreenVec { x: 0, y: 0 }) {
                    1int
                } else {
                    0int
                })
            }),
    {
        let view_box = ViewBox::from_center_size(dest, size, self.box_center, self.box_size);
        let ghost vb = view_box;
        let ghost it_spec = MandelIterator {
            max_iterations: self.max_iterations,
            escape_radius2: self.escape_radius2,
        };

        proof {
            vstd::arithmetic::mul::lemma_mul_upper_bound(
                vb.screen_size.x as int,
                SCREEN_DIM_MAX as int,
                vb.screen_size.y as int,
                SCREEN_DIM_MAX as int,
            );
            vstd::arithmetic::mul::lemma_mul_strictly_positive(
                vb.screen_size.x as int,
                vb.screen_size.y as int,
            );
        }
        if self.need_recreate_pixel_cache(&view_box) {
            self.pixels = filled_u8(4 * view_box.pixel_count, 255);
            self.iteration_counts = filled_u64(view_box.pixel_count, 0);
            self.show_point_details = None;
        }

        if self.need_recompute_iterations(&view_box) {
            let iterator = self.iterator();
            let acc = crate::reduce::compute_iterations(&view_box, &iterator, &mut self.iteration_counts);
            proof {
                crate::reduce::lemma_counts_bounds(vb, it_spec);
                assert(self.iteration_counts@ =~= crate::reduce::counts_spec(vb, it_spec));
                crate::reduce::lemma_reduce_bounds(vb, it_spec, vb.pixel_count as nat);
                assert forall|i: int| 0 <= i < acc.histogram@.len() implies #[trigger] acc.histogram@[i]
                    <= 0x1000_0000u64 by {
                    assert(acc@.histogram[i] == acc.histogram@.map_values(|v: u64| v as int)[i]);
                    assert(acc@.histogram[i] <= vb.pixel_count as int);
                    vstd::arithmetic::mul::lemma_mul_upper_bound(
                        vb.screen_size.x as int,
                        SCREEN_DIM_MAX as int,
                        vb.screen_size.y as int,
                        SCREEN_DIM_MAX as int,
                    );
                }
            }
            proof {
                vstd::arithmetic::mul::lemma_mul_upper_bound(
                    self.max_iterations as int,
                    MAX_ITERATIONS_LIMIT as int,
                    vb.pixel_count as int,
                    0x1000_0000,
                );
                vstd::arithmetic::mul::lemma_mul_strictly_positive(
                    self.max_iterations as int,
                    vb.pixel_count as int,
                );
                vstd::arithmetic::mul::lemma_mul_nonnegative(
                    self.max_iterations as int,
                    vb.pixel_count as int,
                );
            }
            let total: u64 = (self.max_iterations as u64) * (view_box.pixel_count as u64);
            proof {
                lemma_div_trunc_mag(
                    acc.computed_iteration_count as int * FIX_ONE,
                    0x1_0000_0000_0000 * (FIX_ONE as int),
                    total as int,
                );
                assert(acc.computed_iteration_count as int * FIX_ONE >= 0
                    && acc.computed_iteration_count as int * FIX_ONE
                    <= 0x1_0000_0000_0000 * (FIX_ONE as int)) by (nonlinear_arith)
                    requires
                        0 <= acc.computed_iteration_count <= 0x1_0000_0000_0000,
                ;
                lemma_share_bound(
                    acc.computed_iteration_count as int,
                    total as int,
                    FIX_ONE as int,
                );
            }
            self.iteration_rate = mul_div(acc.computed_iteration_count as i64, FIX_ONE, total as i64) as u64;
            self.histogram = acc.histogram;
        }

        if self.need_recompute_image(&view_box) {
            let renderer = crate::render::Renderer::new();
            let out = self.out_color_picker.color();
            let almost_in = self.almost_in_color_picker.color();
            proof {
                vstd::arithmetic::mul::lemma_mul_upper_bound(
                    vb.screen_size.x as int,
                    SCREEN_DIM_MAX as int,
                    vb.screen_size.y as int,
                    SCREEN_DIM_MAX as int,
                );
            }
            self.pixels = renderer.render(&self.iteration_counts, self.max_iterations, &out, &almost_in);
        }

        match self.displayed_param {
            DisplayedParam::OutColor => {
                self.out_color_picker.set_view(size, dest);
            },
            DisplayedParam::AlmostInColor => {
                self.almost_in_color_picker.set_view(size, dest);
            },
            DisplayedParam::MaxIterations => (),
        }

        self.record_last_values(view_box.clone());

        let mut result: Vec<DrawData> = Vec::new();
        if self.show_point_details.is_some() && view_box.box_screen_ratio >= 1 {
            result.push(self.draw_point_details(&view_box));
        }
        match self.displayed_param {
            DisplayedParam::OutColor => {
                result.push(self.out_color_picker.meshes());
            },
            DisplayedParam::AlmostInColor => {
                result.push(self.almost_in_color_picker.meshes());
            },
            DisplayedParam::MaxIterations => (),
        }
        if self.show_histogram {
            result.push(self.draw_histogram(dest, size));
        }
        if self.drag_translation.x != 0 || self.drag_translation.y != 0 {
            result.push(self.draw_center_target(dest));
        }
        result.push(DrawData::Image {
            pixels: copy_bytes(&self.pixels),
            width: size.x,
            height: size.y,
            params: MeshParams {
                dest: FixVec::new(
                    (dest.x - size.x / 2 + self.drag_translation.x) * FIX_ONE,
                    (dest.y - size.y / 2 + self.drag_translation.y) * FIX_ONE,
                ),
                scale: FixVec::new(FIX_ONE, FIX_ONE),
                z: -1,
            },
        });
        result
    }
}

/// A byte buffer of one repeated value.
fn filled_u8(len: usize, value: u8) -> (r: Vec<u8>)
    ensures
        r@.len() == len,
        forall|i: int| 0 <= i < len ==> #[trigger] r@[i] == value,
{
    let mut r: Vec<u8> = Vec::new();
    let mut k: usize = 0;
    while k < len
        invariant
            k <= len,
            r@.len() == k,
            forall|i: int| 0 <= i < k ==> #[trigger] r@[i] == value,
        decreases len - k,
    {
        r.push(value);
        k = k + 1;
    }
    r
}

/// A count buffer of one repeated value.
fn filled_u64(len: usize, value: u64) -> (r: Vec<u64>)
    ensures
        r@.len() == len,
        forall|i: int| 0 <= i < len ==> #[trigger] r@[i] == value,
{
    let mut r: Vec<u64> = Vec::new();
    let mut k: usize = 0;
    while k < len
        invariant
            k <= len,
            r@.len() == k,
            forall|i: int| 0 <= i < k ==> #[trigger] r@[i] == value,
        decreases len - k,
    {
        r.push(value);
        k = k + 1;
    }
    r
}

/// An exact copy of a byte buffer.
fn copy_bytes(src: &Vec<u8>) -> (r: Vec<u8>)
    ensures
        r@ == src@,
{
    let mut r: Vec<u8> = Vec::new();
    let mut k: usize = 0;
    while k < src.len()
        invariant
            k <= src@.len(),
            r@.len() == k,
            forall|i: int| 0 <= i < k ==> #[trigger] r@[i] == src@[i],
        decreases src@.len() - k,
    {
        r.push(src[k]);
        k = k + 1;
    }
    proof {
        assert(r@ =~= src@);
    }
    r
}

/// Idempotence law: right after a frame, a second frame at the same
/// placement and size finds every stage clean, so it reruns neither the
/// iteration pass nor the color pass and keeps the pixel buffer bit for
/// bit.  The premises are exactly what `compute_drawables` ensures of the
/// state it leaves behind when nothing mutates it in between.
pub proof fn lemma_second_frame_is_clean(s: MandelbrotSet, dest: ScreenVec, size: ScreenVec)
    requires
        s.last_view_box == ViewBox::make_spec(dest, size, s.box_center, s.box_size),
        s.last_max_iterations == s.max_iterations,
        s.last_out_color == hsv_color_spec(
            s.out_color_picker.current_pick.hue as int,
            s.out_color_picker.current_pick.saturation as int,
            s.out_color_picker.current_pick.value as int,
        ),
        s.last_almost_in_color == hsv_color_spec(
            s.almost_in_color_picker.current_pick.hue as int,
            s.almost_in_color_picker.current_pick.saturation as int,
            s.almost_in_color_picker.current_pick.value as int,
        ),
    ensures
        !s.need_recreate_pixel_cache_spec(ViewBox::make_spec(dest, size, s.box_center, s.box_size)),
        !s.need_recompute_iterations_spec(ViewBox::make_spec(dest, size, s.box_center, s.box_size)),
        !s.need_recompute_image_spec(ViewBox::make_spec(dest, size, s.box_center, s.box_size)),
{
}

/// Color-change law: when only a picked color differs from the recorded
/// one while the view, the box and the budget are unchanged, the next
/// frame skips the iteration pass (the counts are kept) but still reruns
/// the color pass.
pub proof fn lemma_color_change_skips_iterations(s: MandelbrotSet, dest: ScreenVec, size: ScreenVec)
    requires
        s.last_view_box == ViewBox::make_spec(dest, size, s.box_center, s.box_size),
        s.last_max_iterations == s.max_iterations,
        s.color_changed_spec(),
    ensures
        !s.need_recompute_iterations_spec(ViewBox::make_spec(dest, size, s.box_center, s.box_size)),
        s.need_recompute_image_spec(ViewBox::make_spec(dest, size, s.box_center, s.box_size)),
{
}

/// Zoom law: one step scales each box edge by exactly one plus or minus a
/// quarter (with the product truncated at the last fixed-point digit)
/// whenever the scaled size stays inside the navigation bounds; the edge
/// always actually changes, so the next frame, whatever its placement,
/// finds the iteration pass dirty.
pub proof fn lemma_zoom_step_exact_and_dirty(s: MandelbrotSet, dir: int)
    requires
        s.wf(),
        dir == 1 || dir == -1,
        BOX_SIZE_MIN <= fix_mul_spec(s.box_size.x as int, zoom_factor_spec(dir)) <= BOX_SIZE_MAX,
        BOX_SIZE_MIN <= fix_mul_spec(s.box_size.y as int, zoom_factor_spec(dir)) <= BOX_SIZE_MAX,
        s.last_view_box.box_size == s.box_size,
    ensures
        dir == 1 ==> zoomed_spec(s.box_size.x as int, dir) == div_trunc(s.box_size.x * 5, 4),
        dir == -1 ==> zoomed_spec(s.box_size.x as int, dir) == div_trunc(s.box_size.x * 3, 4),
        zoomed_spec(s.box_size.x as int, dir) != s.box_size.x,
        forall|vb: ViewBox|
            #[trigger] (MandelbrotSet {
                box_size: FixVec {
                    x: zoomed_spec(s.box_size.x as int, dir) as i64,
                    y: zoomed_spec(s.box_size.y as int, dir) as i64,
                },
                show_point_details: None,
                ..s
            }).need_recompute_iterations_spec(vb),
{
    lemma_zoom_edge(s.box_size.x as int, dir);
    lemma_zoom_edge(s.box_size.y as int, dir);
}

/// One zoomed box edge, in lowest terms: the quarter-step factor has two
/// fixed-point digits, so the rescaled product is a plain division by four.
proof fn lemma_zoom_edge(sz: int, dir: int)
    requires
        BOX_SIZE_MIN <= sz <= BOX_SIZE_MAX,
        dir == 1 || dir == -1,
        BOX_SIZE_MIN <= fix_mul_spec(sz, zoom_factor_spec(dir)) <= BOX_SIZE_MAX,
    ensures
        dir == 1 ==> zoomed_spec(sz, dir) == div_trunc(sz * 5, 4),
        dir == -1 ==> zoomed_spec(sz, dir) == div_trunc(sz * 3, 4),
        zoomed_spec(sz, dir) != sz,
{
    let f = if dir == 1 {
        5int
    } else {
        3int
    };
    assert(sz * (f * 0x4000_0000) == 0x4000_0000 * (sz * f)) by (nonlinear_arith);
    assert((0x4000_0000 * (sz * f)) / (0x4000_0000int * 4) == (sz * f) / 4) by {
        vstd::arithmetic::div_mod::lemma_div_multiples_vanish_quotient(0x4000_0000, sz * f, 4);
        assert(sz * f >= 0) by (nonlinear_arith)
            requires
                sz >= 0,
                f >= 0,
        ;
    };
    assert(fix_mul_spec(sz, zoom_factor_spec(dir)) == (sz * f) / 4) by {
        assert(zoom_factor_spec(dir) == f * 0x4000_0000);
        assert(sz * (f * 0x4000_0000) >= 0) by (nonlinear_arith)
            requires
                sz >= 0,
                f >= 0,
        ;
    };
    vstd::arithmetic::div_mod::lemma_fundamental_div_mod(sz * f, 4);
    assert((sz * f) / 4 != sz) by (nonlinear_arith)
        requires
            sz >= 16,
            f == 5 || f == 3,
            4 * ((sz * f) / 4) + (sz * f) % 4 == sz * f,
            0 <= (sz * f) % 4 < 4,
    ;
}

/// A scaled share of a whole never exceeds the scale.
proof fn lemma_share_bound(v: int, cap: int, scale: int)
    requires
        0 <= v <= cap,
        1 <= cap,
        0 <= scale,
    ensures
        0 <= div_trunc(v * scale, cap) <= scale,
{
    assert(0 <= v * scale && v * scale <= cap * scale) by (nonlinear_arith)
        requires
            0 <= v <= cap,
            0 <= scale,
    ;
    lemma_div_pos_is_pos(v * scale, cap);
    lemma_div_is_ordered(v * scale, cap * scale, cap);
    vstd::arithmetic::div_mod::lemma_div_by_multiple(scale, cap);
    assert(cap * scale == scale * cap) by (nonlinear_arith);
}

} // verus!
