//! The mapping between screen pixels and points of the complex plane.
//!
//! A `ViewBox` is built once per frame from the screen placement and the
//! current navigation state (box center and box size).  Screen positions are
//! whole pixels; plane coordinates are fixed-point values (see `fixed`).
//! Only the horizontal ratio `box_size.x / screen_width` is used for both
//! axes, so the transform is always isotropic.

use vstd::prelude::*;

verus! {

use crate::fixed::{FixVec, div_trunc, div_trunc_i64, lemma_div_trunc_exact, lemma_div_trunc_mag};
use vstd::arithmetic::div_mod::{lemma_div_is_ordered, lemma_div_pos_is_pos};
use vstd::arithmetic::mul::lemma_mul_upper_bound;

/// A whole-pixel screen position or extent.
#[derive(Clone, Copy, Debug, PartialEq, Eq, Structural)]
pub struct ScreenVec {
    pub x: i64,
    pub y: i64,
}

impl ScreenVec {
    pub fn new(x: i64, y: i64) -> (r: ScreenVec)
        ensures
            r.x == x && r.y == y,
    {
        ScreenVec { x, y }
    }

    pub fn zero() -> (r: ScreenVec)
        ensures
            r.x == 0 && r.y == 0,
    {
        ScreenVec { x: 0, y: 0 }
    }
}

/// The widest screen edge the crate accepts, in pixels.
pub const SCREEN_DIM_MAX: i64 = 16384;

/// How far from the origin a screen placement may lie, in pixels.
pub const SCREEN_POS_MAX: i64 = 0x10_0000;

/// The widest box the navigation state may reach, as a raw fixed-point value
/// (eight plane units).
pub const BOX_SIZE_MAX: i64 = 0x8_0000_0000;

/// How far from the plane origin the box center may lie, as a raw
/// fixed-point value (thirty-two plane units).
pub const BOX_CENTER_MAX: i64 = 0x20_0000_0000;

/// A cap on every plane coordinate a well-formed view can produce, as a raw
/// fixed-point value.  The escape-time iterator accepts any point under it.
pub const PLANE_MAX: i64 = 0x40_0000_0000_0000;

/// How far from the screen center a queried pixel may lie, in pixels.
pub const PIXEL_OFFSET_MAX: i64 = 0x2_0000;

pub struct ViewBox {
    pub screen_min: ScreenVec,
    pub screen_center: ScreenVec,
    pub screen_size: ScreenVec,
    pub box_center: FixVec,
    pub box_size: FixVec,
    pub box_screen_ratio: i64,
    pub pixel_count: usize,
}

impl Clone for ViewBox {
    fn clone(&self) -> (r: ViewBox)
        ensures
            r == *self,
    {
        ViewBox {
            screen_min: self.screen_min,
            screen_center: self.screen_center,
            screen_size: self.screen_size,
            box_center: self.box_center,
            box_size: self.box_size,
            box_screen_ratio: self.box_screen_ratio,
            pixel_count: self.pixel_count,
        }
    }
}

impl ViewBox {
    /// Well-formedness: screen and box extents are positive and capped, and
    /// the derived fields hold the values the constructor computes.
    pub open spec fn wf(self) -> bool {
        &&& 1 <= self.screen_size.x <= SCREEN_DIM_MAX
        &&& 1 <= self.screen_size.y <= SCREEN_DIM_MAX
        &&& -SCREEN_POS_MAX <= self.screen_center.x <= SCREEN_POS_MAX
        &&& -SCREEN_POS_MAX <= self.screen_center.y <= SCREEN_POS_MAX
        &&& self.screen_min.x == self.screen_center.x - self.screen_size.x / 2
        &&& self.screen_min.y == self.screen_center.y - self.screen_size.y / 2
        &&& 0 < self.box_size.x <= BOX_SIZE_MAX
        &&& 0 < self.box_size.y <= BOX_SIZE_MAX
        &&& -BOX_CENTER_MAX <= self.box_center.x <= BOX_CENTER_MAX
        &&& -BOX_CENTER_MAX <= self.box_center.y <= BOX_CENTER_MAX
        &&& self.box_screen_ratio == self.box_size.x as int / self.screen_size.x as int
        &&& self.pixel_count == self.screen_size.x * self.screen_size.y
    }

    /// The plane coordinate a screen pixel maps to, one axis at a time:
    /// the pixel offset from the screen center, scaled by the plane-units-
    /// per-pixel ratio, shifted to the box center.
    pub open spec fn plane_x_spec(self, px: int) -> int {
        (px - self.screen_center.x) * self.box_screen_ratio + self.box_center.x
    }

    pub open spec fn plane_y_spec(self, py: int) -> int {
        (py - self.screen_center.y) * self.box_screen_ratio + self.box_center.y
    }

    /// The screen pixel holding flat buffer index `i`, using the screen
    /// width as row stride.
    pub open spec fn pixel_x_for_index(self, i: int) -> int {
        self.screen_min.x + i % (self.screen_size.x as int)
    }

    pub open spec fn pixel_y_for_index(self, i: int) -> int {
        self.screen_min.y + i / (self.screen_size.x as int)
    }

    /// The inverse map, one axis at a time: plane offset from the box
    /// center, divided by the ratio, shifted to the screen center.
    pub open spec fn screen_x_spec(self, plane_x: int) -> int {
        div_trunc(plane_x - self.box_center.x, self.box_screen_ratio as int) + self.screen_center.x
    }

    pub open spec fn screen_y_spec(self, plane_y: int) -> int {
        div_trunc(plane_y - self.box_center.y, self.box_screen_ratio as int) + self.screen_center.y
    }

    /// A placeholder with no extent; it compares unequal in size to every
    /// well-formed view, so the first frame always rebuilds its caches.
    pub fn zero() -> (r: ViewBox)
        ensures
            r.screen_size.x == 0 && r.screen_size.y == 0,
            r.pixel_count == 0,
            r.box_screen_ratio == 0,
    {
        ViewBox {
            screen_min: ScreenVec::zero(),
            screen_center: ScreenVec::zero(),
            screen_size: ScreenVec::zero(),
            box_center: FixVec::zero(),
            box_size: FixVec::zero(),
            box_screen_ratio: 0,
            pixel_count: 0,
        }
    }

    /// The record the constructor below builds, as a spec-level value.
    pub open spec fn make_spec(
        screen_center: ScreenVec,
        screen_size: ScreenVec,
        box_center: FixVec,
        box_size: FixVec,
    ) -> ViewBox {
        ViewBox {
            screen_min: ScreenVec {
                x: (screen_center.x - screen_size.x / 2) as i64,
                y: (screen_center.y - screen_size.y / 2) as i64,
            },
            screen_center,
            screen_size,
            box_center,
            box_size,
            box_screen_ratio: (box_size.x as int / screen_size.x as int) as i64,
            pixel_count: (screen_size.x * screen_size.y) as usize,
        }
    }

    /// Builds the per-frame view from the screen placement and the
    /// navigation state.
    pub fn from_center_size(
        screen_center: ScreenVec,
        screen_size: ScreenVec,
        box_center: FixVec,
        box_size: FixVec,
    ) -> (r: ViewBox)
        requires
            1 <= screen_size.x <= SCREEN_DIM_MAX,
            1 <= screen_size.y <= SCREEN_DIM_MAX,
            -SCREEN_POS_MAX <= screen_center.x <= SCREEN_POS_MAX,
            -SCREEN_POS_MAX <= screen_center.y <= SCREEN_POS_MAX,
            0 < box_size.x <= BOX_SIZE_MAX,
            0 < box_size.y <= BOX_SIZE_MAX,
            -BOX_CENTER_MAX <= box_center.x <= BOX_CENTER_MAX,
            -BOX_CENTER_MAX <= box_center.y <= BOX_CENTER_MAX,
        ensures
            r.wf(),
            r == ViewBox::make_spec(screen_center, screen_size, box_center, box_size),
    {
        proof {
            lemma_div_pos_is_pos(box_size.x as int, screen_size.x as int);
            lemma_div_is_ordered(box_size.x as int, BOX_SIZE_MAX as int, screen_size.x as int);
            lemma_div_pos_is_pos(screen_size.x as int, 2);
            lemma_div_pos_is_pos(screen_size.y as int, 2);
            lemma_div_is_ordered(screen_size.x as int, SCREEN_DIM_MAX as int, 2);
            lemma_div_is_ordered(screen_size.y as int, SCREEN_DIM_MAX as int, 2);
            lemma_mul_upper_bound(screen_size.x as int, SCREEN_DIM_MAX as int, screen_size.y as int, SCREEN_DIM_MAX as int);
            assert(screen_size.x * screen_size.y >= 1 * 1) by (nonlinear_arith)
                requires
                    screen_size.x >= 1,
                    screen_size.y >= 1,
            ;
        }
        let ratio: i64 = box_size.x / screen_size.x;
        ViewBox {
            screen_min: ScreenVec::new(
                screen_center.x - screen_size.x / 2,
                screen_center.y - screen_size.y / 2,
            ),
            screen_center,
            screen_size,
            box_center,
            box_size,
            box_screen_ratio: ratio,
            pixel_count: (screen_size.x * screen_size.y) as usize,
        }
    }

    /// The plane point a screen pixel maps to.
    pub fn mandel_point(&self, screen_pixel_x: i64, screen_pixel_y: i64) -> (r: FixVec)
        requires
            self.wf(),
            -PIXEL_OFFSET_MAX <= screen_pixel_x - self.screen_center.x <= PIXEL_OFFSET_MAX,
            -PIXEL_OFFSET_MAX <= screen_pixel_y - self.screen_center.y <= PIXEL_OFFSET_MAX,
        ensures
            r.x == self.plane_x_spec(screen_pixel_x as int),
            r.y == self.plane_y_spec(screen_pixel_y as int),
            -PLANE_MAX <= r.x <= PLANE_MAX,
            -PLANE_MAX <= r.y <= PLANE_MAX,
    {
        proof {
            lemma_div_pos_is_pos(self.box_size.x as int, self.screen_size.x as int);
            lemma_div_is_ordered(self.box_size.x as int, BOX_SIZE_MAX as int, self.screen_size.x as int);
            lemma_mul_upper_bound(
                if screen_pixel_x - self.screen_center.x >= 0 { screen_pixel_x - self.screen_center.x } else { -(screen_pixel_x - self.screen_center.x) },
                PIXEL_OFFSET_MAX as int,
                self.box_screen_ratio as int,
                BOX_SIZE_MAX as int,
            );
            lemma_mul_upper_bound(
                if screen_pixel_y - self.screen_center.y >= 0 { screen_pixel_y - self.screen_center.y } else { -(screen_pixel_y - self.screen_center.y) },
                PIXEL_OFFSET_MAX as int,
                self.box_screen_ratio as int,
                BOX_SIZE_MAX as int,
            );
            assert((screen_pixel_x - self.screen_center.x) * self.box_screen_ratio
                <= PIXEL_OFFSET_MAX * BOX_SIZE_MAX
                && (screen_pixel_x - self.screen_center.x) * self.box_screen_ratio
                >= -(PIXEL_OFFSET_MAX * BOX_SIZE_MAX)) by (nonlinear_arith)
                requires
                    -PIXEL_OFFSET_MAX <= screen_pixel_x - self.screen_center.x <= PIXEL_OFFSET_MAX,
                    0 <= self.box_screen_ratio <= BOX_SIZE_MAX,
            ;
            assert((screen_pixel_y - self.screen_center.y) * self.box_screen_ratio
                <= PIXEL_OFFSET_MAX * BOX_SIZE_MAX
                && (screen_pixel_y - self.screen_center.y) * self.box_screen_ratio
                >= -(PIXEL_OFFSET_MAX * BOX_SIZE_MAX)) by (nonlinear_arith)
                requires
                    -PIXEL_OFFSET_MAX <= screen_pixel_y - self.screen_center.y <= PIXEL_OFFSET_MAX,
                    0 <= self.box_screen_ratio <= BOX_SIZE_MAX,
            ;
        }
        FixVec::new(
            (screen_pixel_x - self.screen_center.x) * self.box_screen_ratio + self.box_center.x,
            (screen_pixel_y - self.screen_center.y) * self.box_screen_ratio + self.box_center.y,
        )
    }

    /// The plane point for a flat buffer index, recovering the pixel from
    /// the index with the screen width as row stride.
    pub fn mandel_point_from_index(&self, pixel_index: usize) -> (r: FixVec)
        requires
            self.wf(),
            pixel_index < self.pixel_count,
        ensures
            r.x == self.plane_x_spec(self.pixel_x_for_index(pixel_index as int)),
            r.y == self.plane_y_spec(self.pixel_y_for_index(pixel_index as int)),
            -PLANE_MAX <= r.x <= PLANE_MAX,
            -PLANE_MAX <= r.y <= PLANE_MAX,
    {
        proof {
            lemma_mul_upper_bound(self.screen_size.x as int, SCREEN_DIM_MAX as int, self.screen_size.y as int, SCREEN_DIM_MAX as int);
        }
        let i = pixel_index as i64;
        let screen_shift_x = i % self.screen_size.x;
        let screen_shift_y = i / self.screen_size.x;
        proof {
            assert(pixel_index < self.screen_size.x * self.screen_size.y);
            lemma_div_pos_is_pos(i as int, self.screen_size.x as int);
            assert(i as int / (self.screen_size.x as int) < self.screen_size.y) by (nonlinear_arith)
                requires
                    self.screen_size.x >= 1,
                    self.screen_size.y >= 1,
                    0 <= i as int,
                    i < self.screen_size.x * self.screen_size.y,
            ;
        }
        self.mandel_point(
            self.screen_min.x + screen_shift_x,
            self.screen_min.y + screen_shift_y,
        )
    }

    /// The screen pixel a plane point maps back to; used to draw overlays
    /// and to turn a click into a plane coordinate.  The view must not be
    /// zoomed past one plane unit per `2^32` pixels, so that the ratio is a
    /// positive divisor.
    pub fn screen_pixel(&self, mandel_point: &FixVec) -> (r: ScreenVec)
        requires
            self.wf(),
            self.box_screen_ratio >= 1,
            -0x100_0000_0000_0000 <= mandel_point.x <= 0x100_0000_0000_0000,
            -0x100_0000_0000_0000 <= mandel_point.y <= 0x100_0000_0000_0000,
        ensures
            r.x == self.screen_x_spec(mandel_point.x as int),
            r.y == self.screen_y_spec(mandel_point.y as int),
    {
        proof {
            lemma_div_trunc_mag(
                mandel_point.x - self.box_center.x,
                0x100_0000_0000_0000 + BOX_CENTER_MAX,
                self.box_screen_ratio as int,
            );
            lemma_div_trunc_mag(
                mandel_point.y - self.box_center.y,
                0x100_0000_0000_0000 + BOX_CENTER_MAX,
                self.box_screen_ratio as int,
            );
            lemma_div_is_ordered(
                0x100_0000_0000_0000 + BOX_CENTER_MAX,
                0x100_0000_0000_0000 + BOX_CENTER_MAX,
                1,
            );
        }
        ScreenVec::new(
            div_trunc_i64(mandel_point.x - self.box_center.x, self.box_screen_ratio) + self.screen_center.x,
            div_trunc_i64(mandel_point.y - self.box_center.y, self.box_screen_ratio) + self.screen_center.y,
        )
    }

    /// The flat buffer index under a screen coordinate; used to look up the
    /// iteration count of an inspected point.
    pub fn screen_pixel_index(&self, screen_x: i64, screen_y: i64) -> (r: usize)
        requires
            self.wf(),
            self.screen_min.x <= screen_x < self.screen_min.x + self.screen_size.x,
            self.screen_min.y <= screen_y < self.screen_min.y + self.screen_size.y,
        ensures
            r == (screen_x - self.screen_min.x) + (screen_y - self.screen_min.y) * (self.screen_size.x as int),
            r < self.pixel_count,
    {
        proof {
            assert((screen_y - self.screen_min.y) * (self.screen_size.x as int)
                <= (self.screen_size.y - 1) * (self.screen_size.x as int)
                && 0 <= (screen_y - self.screen_min.y) * (self.screen_size.x as int)
                && (self.screen_size.y - 1) * (self.screen_size.x as int)
                    == self.screen_size.y * self.screen_size.x - self.screen_size.x) by (nonlinear_arith)
                requires
                    self.screen_size.x >= 1,
                    0 <= screen_y - self.screen_min.y <= self.screen_size.y - 1,
            ;
            assert(self.screen_size.x * self.screen_size.y == self.screen_size.y * self.screen_size.x) by (nonlinear_arith);
            lemma_mul_upper_bound(self.screen_size.x as int, SCREEN_DIM_MAX as int, self.screen_size.y as int, SCREEN_DIM_MAX as int);
        }
        ((screen_x - self.screen_min.x) + (screen_y - self.screen_min.y) * self.screen_size.x) as usize
    }

    /// Whether the screen extent differs from another view's; the trigger
    /// for reallocating the pixel caches.
    pub fn size_changed(&self, other: &ViewBox) -> (r: bool)
        ensures
            r == (self.screen_size != other.screen_size),
    {
        self.screen_size.x != other.screen_size.x || self.screen_size.y != other.screen_size.y
    }
}

/// Round-trip law: mapping a pixel into the plane and back recovers that
/// pixel exactly, whenever the inverse map is defined (a positive ratio).
pub proof fn lemma_pixel_round_trip(vb: ViewBox, px: int, py: int)
    requires
        vb.wf(),
        vb.box_screen_ratio >= 1,
    ensures
        vb.screen_x_spec(vb.plane_x_spec(px)) == px,
        vb.screen_y_spec(vb.plane_y_spec(py)) == py,
{
    lemma_div_trunc_exact(px - vb.screen_center.x, vb.box_screen_ratio as int);
    lemma_div_trunc_exact(py - vb.screen_center.y, vb.box_screen_ratio as int);
}

/// The round-trip law for every pixel of the frame buffer: the plane point
/// computed for a flat buffer index maps back to the pixel that the index
/// stands for.
pub proof fn lemma_index_round_trip(vb: ViewBox, i: int)
    requires
        vb.wf(),
        vb.box_screen_ratio >= 1,
        0 <= i < vb.pixel_count,
    ensures
        vb.screen_x_spec(vb.plane_x_spec(vb.pixel_x_for_index(i))) == vb.pixel_x_for_index(i),
        vb.screen_y_spec(vb.plane_y_spec(vb.pixel_y_for_index(i))) == vb.pixel_y_for_index(i),
{
    lemma_pixel_round_trip(vb, vb.pixel_x_for_index(i), vb.pixel_y_for_index(i));
}

} // verus!
