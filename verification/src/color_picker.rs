//! The hue/saturation/value color picker.
//!
//! A small widget the host draws over the fractal: a hue/saturation field,
//! a value slider, and swatches of the picked color.  Buttons, keys, the
//! gamepad sticks and mouse clicks adjust the pick.

use vstd::prelude::*;

verus! {

use crate::fixed::{FixVec, FIX_ONE, fix_mul, fix_mul_spec, div_trunc, div_trunc_i64, mul_div, lemma_div_trunc_mag, lemma_fix_mul_mag};
use crate::color::{Color, clamp_channel, normalize};
use crate::draw::{DrawData, MeshParams, Shape};
use crate::input::{Axis, Button, Key, MouseButton};
use crate::viewbox::{ScreenVec, SCREEN_DIM_MAX, SCREEN_POS_MAX};
use vstd::arithmetic::div_mod::{lemma_div_pos_is_pos, lemma_div_is_ordered};

/// The fraction of the widget taken by the hue/saturation field.
pub const SPACE_SIZE: i64 = 0xC000_0000;

/// The radius of the target ring over the current pick.
pub const TARGET_SIZE: i64 = 85899346;

/// The tessellation tolerance of the target ring.
pub const TARGET_TOLERANCE: i64 = 429497;

pub const TARGET_STROKE_WIDTH: i64 = 21474836;

pub const MARGIN: i64 = 214748365;

/// The hue/saturation field resolution.
pub const STEPS_H: usize = 360;

pub const STEPS_V: usize = 64;

pub const STEPS_X: i64 = 8947848;

pub const STEPS_Y: i64 = 50331648;

/// Where the stick maps the top of the hue range, just under a full turn.
pub const HUE_STICK_MAX: i64 = 1545758729830;

/// A hue/saturation/value triple, fixed point; the hue is in degrees.
#[derive(Clone, Copy, Debug, PartialEq, Eq, Structural)]
pub struct HSV {
    pub hue: i64,
    pub saturation: i64,
    pub value: i64,
}

/// The conversion of a hue/saturation/value triple to red/green/blue
/// intensities in `[0, 1]` fixed point (an overdriven value may push them
/// past one; the byte conversion clamps).
pub open spec fn hsv_rgb_spec(hue: int, sat: int, val: int) -> (int, int, int) {
    let c = fix_mul_spec(val, sat);
    let m = fix_mul_spec(val, FIX_ONE - sat);
    let hmod = div_trunc(hue, 60) % (2 * FIX_ONE as int);
    let d = if hmod >= FIX_ONE {
        hmod - FIX_ONE
    } else {
        FIX_ONE - hmod
    };
    let x = fix_mul_spec(c, FIX_ONE - d);
    let base = if hue < 60 * FIX_ONE {
        (c, x, 0int)
    } else if hue < 120 * FIX_ONE {
        (x, c, 0int)
    } else if hue < 180 * FIX_ONE {
        (0int, c, x)
    } else if hue < 240 * FIX_ONE {
        (0int, x, c)
    } else if hue < 300 * FIX_ONE {
        (x, 0int, c)
    } else {
        (c, 0int, x)
    };
    (base.0 + m, base.1 + m, base.2 + m)
}

/// The picked color as bytes.
pub open spec fn hsv_color_spec(hue: int, sat: int, val: int) -> Color {
    let t = hsv_rgb_spec(hue, sat, val);
    Color {
        r: clamp_channel(div_trunc(t.0 * 255, FIX_ONE as int)) as u8,
        g: clamp_channel(div_trunc(t.1 * 255, FIX_ONE as int)) as u8,
        b: clamp_channel(div_trunc(t.2 * 255, FIX_ONE as int)) as u8,
        a: 255,
    }
}

impl HSV {
    /// The ranges every pick stays within: a hue under a full turn, a
    /// saturation within one, and a value that overdrive may push up to
    /// two.
    pub open spec fn wf(self) -> bool {
        &&& 0 <= self.hue < 360 * FIX_ONE
        &&& 0 <= self.saturation <= FIX_ONE
        &&& -FIX_ONE <= self.value <= 2 * FIX_ONE
    }

    pub fn new(hue: i64, saturation: i64, value: i64) -> (r: HSV)
        requires
            0 <= hue < 360 * FIX_ONE,
            0 <= saturation <= FIX_ONE,
            -FIX_ONE <= value <= 2 * FIX_ONE,
        ensures
            r == (HSV { hue, saturation, value }),
            r.wf(),
    {
        HSV { hue, saturation, value }
    }

    /// The red/green/blue intensities for a triple.
    pub fn rgb(hue: i64, saturation: i64, value: i64) -> (r: (i64, i64, i64))
        requires
            0 <= hue < 360 * FIX_ONE,
            0 <= saturation <= FIX_ONE,
            -FIX_ONE <= value <= 2 * FIX_ONE,
        ensures
            (r.0 as int, r.1 as int, r.2 as int) == hsv_rgb_spec(hue as int, saturation as int, value as int),
            -4 * FIX_ONE <= r.0 <= 4 * FIX_ONE,
            -4 * FIX_ONE <= r.1 <= 4 * FIX_ONE,
            -4 * FIX_ONE <= r.2 <= 4 * FIX_ONE,
    {
        proof {
            lemma_fix_mul_mag(value as int, saturation as int, 2 * FIX_ONE, FIX_ONE as int);
            lemma_fix_mul_mag(value as int, FIX_ONE - saturation, 2 * FIX_ONE, FIX_ONE as int);
            lemma_div_trunc_mag(hue as int, 360 * FIX_ONE, 60);
            lemma_div_pos_is_pos(hue as int, 60);
        }
        let c = fix_mul(value, saturation);
        let m = fix_mul(value, FIX_ONE - saturation);
        let hmod = div_trunc_i64(hue, 60) % (2 * FIX_ONE);
        let d = if hmod >= FIX_ONE {
            hmod - FIX_ONE
        } else {
            FIX_ONE - hmod
        };
        proof {
            lemma_fix_mul_mag(c as int, FIX_ONE - d, 2 * FIX_ONE, FIX_ONE as int);
        }
        let x = fix_mul(c, FIX_ONE - d);
        let base = if hue < 60 * FIX_ONE {
            (c, x, 0i64)
        } else if hue < 120 * FIX_ONE {
            (x, c, 0i64)
        } else if hue < 180 * FIX_ONE {
            (0i64, c, x)
        } else if hue < 240 * FIX_ONE {
            (0i64, x, c)
        } else if hue < 300 * FIX_ONE {
            (x, 0i64, c)
        } else {
            (c, 0i64, x)
        };
        (base.0 + m, base.1 + m, base.2 + m)
    }

    /// The color of a triple, as bytes.
    pub fn color(hue: i64, saturation: i64, value: i64) -> (r: Color)
        requires
            0 <= hue < 360 * FIX_ONE,
            0 <= saturation <= FIX_ONE,
            -FIX_ONE <= value <= 2 * FIX_ONE,
        ensures
            r == hsv_color_spec(hue as int, saturation as int, value as int),
    {
        let (fr, fg, fb) = Self::rgb(hue, saturation, value);
        Color {
            r: Self::channel(fr),
            g: Self::channel(fg),
            b: Self::channel(fb),
            a: 255,
        }
    }

    /// One fixed-point intensity as a byte.
    fn channel(v: i64) -> (r: u8)
        requires
            -4 * FIX_ONE <= v <= 4 * FIX_ONE,
        ensures
            r == clamp_channel(div_trunc(v as int * 255, FIX_ONE as int)),
    {
        proof {
            lemma_div_trunc_mag(v as int * 255, 1020 * FIX_ONE, FIX_ONE as int);
            assert(-1020 * FIX_ONE <= v as int * 255 <= 1020 * FIX_ONE) by (nonlinear_arith)
                requires
                    -4 * FIX_ONE <= v as int <= 4 * FIX_ONE,
            ;
        }
        let s = mul_div(v, 255, FIX_ONE);
        if s < 0 {
            0
        } else if s > 255 {
            255
        } else {
            s as u8
        }
    }

    /// The color of this pick.
    pub fn to_color(&self) -> (r: Color)
        requires
            self.wf(),
        ensures
            r == hsv_color_spec(self.hue as int, self.saturation as int, self.value as int),
    {
        Self::color(self.hue, self.saturation, self.value)
    }
}

/// The picker widget: the current pick, its placement ratios within the
/// screen, and the placement computed on the last frame.
pub struct ColorPicker {
    pub name: &'static str,
    pub current_pick: HSV,
    pub last_size: i64,
    pub last_dest: FixVec,
    pub screen_size_ratio: i64,
    pub screen_dest_ratio: FixVec,
}

impl ColorPicker {
    pub open spec fn wf(self) -> bool {
        &&& self.current_pick.wf()
        &&& 0 <= self.screen_size_ratio <= FIX_ONE
        &&& -FIX_ONE <= self.screen_dest_ratio.x <= FIX_ONE
        &&& -FIX_ONE <= self.screen_dest_ratio.y <= FIX_ONE
        &&& 0 <= self.last_size <= 0x4000_0000_0000
        &&& -0x100_0000_0000_0000 <= self.last_dest.x <= 0x100_0000_0000_0000
        &&& -0x100_0000_0000_0000 <= self.last_dest.y <= 0x100_0000_0000_0000
    }

    pub fn new(name: &'static str, current_pick: HSV, screen_size_ratio: i64, screen_dest_ratio: FixVec) -> (r: ColorPicker)
        requires
            current_pick.wf(),
            0 <= screen_size_ratio <= FIX_ONE,
            -FIX_ONE <= screen_dest_ratio.x <= FIX_ONE,
            -FIX_ONE <= screen_dest_ratio.y <= FIX_ONE,
        ensures
            r.name == name,
            r.current_pick == current_pick,
            r.last_size == 0,
            r.last_dest == (FixVec { x: 0, y: 0 }),
            r.screen_size_ratio == screen_size_ratio,
            r.screen_dest_ratio == screen_dest_ratio,
            r.wf(),
    {
        ColorPicker {
            name,
            current_pick,
            last_size: 0,
            last_dest: FixVec::zero(),
            screen_size_ratio,
            screen_dest_ratio,
        }
    }

    /// Records the widget placement for the frame: its size is a ratio of
    /// the smaller screen edge, its center an offset from the screen
    /// placement by ratios of that edge.
    pub fn set_view(&mut self, screen_size: ScreenVec, screen_dest: ScreenVec)
        requires
            old(self).wf(),
            1 <= screen_size.x <= SCREEN_DIM_MAX,
            1 <= screen_size.y <= SCREEN_DIM_MAX,
            -SCREEN_POS_MAX <= screen_dest.x <= SCREEN_POS_MAX,
            -SCREEN_POS_MAX <= screen_dest.y <= SCREEN_POS_MAX,
        ensures
            ({
                let min_size: int = if screen_size.x < screen_size.y {
                    screen_size.x as int
                } else {
                    screen_size.y as int
                };
                &&& final(self).last_size == min_size * old(self).screen_size_ratio
                &&& final(self).last_dest.x == screen_dest.x * FIX_ONE + min_size * old(self).screen_dest_ratio.x
                &&& final(self).last_dest.y == screen_dest.y * FIX_ONE + min_size * old(self).screen_dest_ratio.y
            }),
            final(self).current_pick == old(self).current_pick,
            final(self).name == old(self).name,
            final(self).screen_size_ratio == old(self).screen_size_ratio,
            final(self).screen_dest_ratio == old(self).screen_dest_ratio,
            final(self).wf(),
    {
        let min_size: i64 = if screen_size.x < screen_size.y {
            screen_size.x
        } else {
            screen_size.y
        };
        proof {
            assert(0 <= min_size * self.screen_size_ratio <= 0x4000_0000_0000
                && -0x4000_0000_0000 <= min_size * self.screen_dest_ratio.x <= 0x4000_0000_0000
                && -0x4000_0000_0000 <= min_size * self.screen_dest_ratio.y <= 0x4000_0000_0000) by (nonlinear_arith)
                requires
                    1 <= min_size <= SCREEN_DIM_MAX,
                    0 <= self.screen_size_ratio <= FIX_ONE,
                    -FIX_ONE <= self.screen_dest_ratio.x <= FIX_ONE,
                    -FIX_ONE <= self.screen_dest_ratio.y <= FIX_ONE,
            ;
        }
        self.last_size = min_size * self.screen_size_ratio;
        self.last_dest = FixVec::new(
            screen_dest.x * FIX_ONE + min_size * self.screen_dest_ratio.x,
            screen_dest.y * FIX_ONE + min_size * self.screen_dest_ratio.y,
        );
    }

    /// The color currently picked.
    pub fn color(&self) -> (r: Color)
        requires
            self.wf(),
        ensures
            r == hsv_color_spec(
                self.current_pick.hue as int,
                self.current_pick.saturation as int,
                self.current_pick.value as int,
            ),
    {
        self.current_pick.to_color()
    }

    fn adjust_hue(&mut self, hue: i64)
        requires
            old(self).wf(),
            0 <= hue < 360 * FIX_ONE,
        ensures
            *final(self) == (ColorPicker {
                current_pick: HSV { hue, ..old(self).current_pick },
                ..*old(self)
            }),
            final(self).wf(),
    {
        self.current_pick.hue = hue;
    }

    fn adjust_saturation(&mut self, saturation: i64)
        requires
            old(self).wf(),
            0 <= saturation <= FIX_ONE,
        ensures
            *final(self) == (ColorPicker {
                current_pick: HSV { saturation, ..old(self).current_pick },
                ..*old(self)
            }),
            final(self).wf(),
    {
        self.current_pick.saturation = saturation;
    }

    /// What one value nudge does: it applies only while it keeps the value
    /// on the side of its range it pushes from.
    pub open spec fn incr_value_spec(self, incr: int) -> ColorPicker {
        if (self.current_pick.value > 0 && incr < 0) || (self.current_pick.value < FIX_ONE
            && incr > 0) {
            ColorPicker {
                current_pick: HSV {
                    value: (self.current_pick.value + incr) as i64,
                    ..self.current_pick
                },
                ..self
            }
        } else {
            self
        }
    }

    fn incr_value(&mut self, incr: i64)
        requires
            old(self).wf(),
            -FIX_ONE <= incr <= FIX_ONE,
        ensures
            *final(self) == old(self).incr_value_spec(incr as int),
            final(self).wf(),
    {
        if (self.current_pick.value > 0 && incr < 0) || (self.current_pick.value < FIX_ONE
            && incr > 0) {
            self.current_pick.value = self.current_pick.value + incr;
        }
    }

    /// What one gamepad button does: the south and east buttons nudge the
    /// value by a quarter.
    pub open spec fn button_spec(self, btn: Button) -> ColorPicker {
        match btn {
            Button::South => self.incr_value_spec(-(FIX_ONE / 4) as int),
            Button::East => self.incr_value_spec((FIX_ONE / 4) as int),
            _ => self,
        }
    }

    /// A gamepad button nudges the value by a quarter.
    pub fn adjust_for_button(&mut self, btn: Button)
        requires
            old(self).wf(),
        ensures
            *final(self) == old(self).button_spec(btn),
            final(self).wf(),
    {
        match btn {
            Button::South => self.incr_value(-(FIX_ONE / 4)),
            Button::East => self.incr_value(FIX_ONE / 4),
            _ => (),
        }
    }

    /// What one key does: the arrow keys nudge the value by a quarter.
    pub open spec fn key_spec(self, key: Key) -> ColorPicker {
        match key {
            Key::Down => self.incr_value_spec(-(FIX_ONE / 4) as int),
            Key::Up => self.incr_value_spec((FIX_ONE / 4) as int),
            _ => self,
        }
    }

    /// An arrow key nudges the value by a quarter.
    pub fn adjust_for_key(&mut self, key: Key)
        requires
            old(self).wf(),
        ensures
            *final(self) == old(self).key_spec(key),
            final(self).wf(),
    {
        match key {
            Key::Down => self.incr_value(-(FIX_ONE / 4)),
            Key::Up => self.incr_value(FIX_ONE / 4),
            _ => (),
        }
    }

    /// What one stick reading does: the horizontal axis sweeps the hue,
    /// the vertical one the saturation.
    pub open spec fn axis_spec(self, axis: Axis, value: int) -> ColorPicker {
        match axis {
            Axis::LeftStickX => ColorPicker {
                current_pick: HSV {
                    hue: crate::color::normalize_spec(value, HUE_STICK_MAX as int) as i64,
                    ..self.current_pick
                },
                ..self
            },
            Axis::LeftStickY => ColorPicker {
                current_pick: HSV {
                    saturation: (FIX_ONE - crate::color::normalize_spec(value, FIX_ONE as int)) as i64,
                    ..self.current_pick
                },
                ..self
            },
            _ => self,
        }
    }

    /// The left stick sweeps the hue, the vertical axis the saturation.
    pub fn adjust_for_axis(&mut self, axis: Axis, value: i64)
        requires
            old(self).wf(),
            -FIX_ONE <= value <= FIX_ONE,
        ensures
            *final(self) == old(self).axis_spec(axis, value as int),
            final(self).wf(),
    {
        match axis {
            Axis::LeftStickX => {
                let h = normalize(value, HUE_STICK_MAX);
                self.adjust_hue(h);
            },
            Axis::LeftStickY => {
                let s = normalize(value, FIX_ONE);
                self.adjust_saturation(FIX_ONE - s);
            },
            _ => (),
        }
    }

    /// Whether a click at a whole-pixel screen position lands inside the
    /// hue/saturation field (its right and bottom edges excluded, so that
    /// the derived hue stays under a full turn).
    pub open spec fn click_in_space_spec(self, x: int, y: int) -> bool {
        let span = fix_mul_spec(self.last_size as int, SPACE_SIZE as int);
        let ltx = self.last_dest.x - self.last_size / 2;
        let lty = self.last_dest.y - self.last_size / 2;
        &&& span > 0
        &&& ltx <= x * FIX_ONE < ltx + span
        &&& lty <= y * FIX_ONE < lty + span
    }

    /// What one click does: a left click inside the field picks the hue
    /// and saturation under the pointer; everything else leaves the pick
    /// alone.
    pub open spec fn click_spec(self, button: MouseButton, x: int, y: int) -> ColorPicker {
        if button == MouseButton::Left && self.click_in_space_spec(x, y) {
            let span = fix_mul_spec(self.last_size as int, SPACE_SIZE as int);
            let ltx = self.last_dest.x - self.last_size / 2;
            let lty = self.last_dest.y - self.last_size / 2;
            ColorPicker {
                current_pick: HSV {
                    hue: div_trunc((x * FIX_ONE - ltx) * (360 * FIX_ONE as int), span) as i64,
                    saturation: div_trunc((y * FIX_ONE - lty) * FIX_ONE, span) as i64,
                    ..self.current_pick
                },
                ..self
            }
        } else {
            self
        }
    }

    /// A left click inside the field picks the hue and saturation under
    /// the pointer; everything else leaves the pick alone.
    pub fn adjust_for_click(&mut self, button: MouseButton, x: i64, y: i64)
        requires
            old(self).wf(),
            -SCREEN_POS_MAX <= x <= SCREEN_POS_MAX,
            -SCREEN_POS_MAX <= y <= SCREEN_POS_MAX,
        ensures
            *final(self) == old(self).click_spec(button, x as int, y as int),
            final(self).wf(),
    {
        if !matches!(button, MouseButton::Left) {
            return ;
        }
        proof {
            lemma_fix_mul_mag(self.last_size as int, SPACE_SIZE as int, 0x4000_0000_0000, FIX_ONE as int);
            lemma_div_trunc_mag(self.last_size as int, 0x4000_0000_0000, 2);
            lemma_div_pos_is_pos(self.last_size as int, 2);
        }
        let span = fix_mul(self.last_size, SPACE_SIZE);
        let ltx = self.last_dest.x - self.last_size / 2;
        let lty = self.last_dest.y - self.last_size / 2;
        let xf = x * FIX_ONE;
        let yf = y * FIX_ONE;
        if span > 0 && ltx <= xf && xf < ltx + span && lty <= yf && yf < lty + span {
            let dx = xf - ltx;
            let dy = yf - lty;
            proof {
                lemma_mul_div_in_range(dx as int, span as int, 360 * FIX_ONE as int);
                lemma_mul_div_in_range(dy as int, span as int, FIX_ONE as int);
            }
            let hue = mul_div(dx, 360 * FIX_ONE, span);
            let sat = mul_div(dy, FIX_ONE, span);
            self.adjust_hue(hue);
            self.adjust_saturation(sat);
        }
    }

    /// The widget placement: scaled to the recorded size, centered on the
    /// recorded position.
    pub open spec fn params_spec(self) -> MeshParams {
        MeshParams {
            dest: FixVec {
                x: (self.last_dest.x - self.last_size / 2) as i64,
                y: (self.last_dest.y - self.last_size / 2) as i64,
            },
            scale: FixVec { x: self.last_size, y: self.last_size },
            z: 0,
        }
    }

    /// One cell of the hue/saturation field, in widget-local coordinates:
    /// cell `k` covers hue degree `k / 64` at saturation `(k % 64) / 64`,
    /// painted in that color at the current value.
    pub open spec fn cell_spec(self, k: int) -> Shape {
        Shape::Rect {
            fill: true,
            x: ((k / 64) * STEPS_X) as i64,
            y: ((k % 64) * STEPS_Y) as i64,
            w: STEPS_X,
            h: STEPS_Y,
            color: hsv_color_spec(
                (k / 64) * (FIX_ONE as int),
                (k % 64) * (FIX_ONE as int / 64),
                self.current_pick.value as int,
            ),
        }
    }

    /// The widget mesh: the hue/saturation field cell by cell, the target
    /// ring over the pick, the value slider mark, and two swatches of the
    /// picked color.
    #[verifier::loop_isolation(false)]
    pub fn meshes(&self) -> (r: DrawData)
        requires
            self.wf(),
        ensures
            ({
                &&& r matches DrawData::Meshes { shapes, params }
                &&& params == self.params_spec()
                &&& shapes@.len() == STEPS_H * STEPS_V + 4
                &&& forall|k: int| 0 <= k < STEPS_H * STEPS_V ==> shapes@[k] == self.cell_spec(k)
                &&& shapes@[STEPS_H * STEPS_V as int] == (Shape::Circle {
                    fill: false,
                    center: FixVec {
                        x: fix_mul_spec(div_trunc(self.current_pick.hue as int, 360), SPACE_SIZE as int) as i64,
                        y: fix_mul_spec(self.current_pick.saturation as int, SPACE_SIZE as int) as i64,
                    },
                    radius: TARGET_SIZE,
                    tolerance: TARGET_TOLERANCE,
                    color: crate::color::black_spec(),
                })
                &&& shapes@[STEPS_H * STEPS_V + 1int] == (Shape::Rect {
                    fill: true,
                    x: SPACE_SIZE,
                    y: fix_mul_spec(FIX_ONE - self.current_pick.value, SPACE_SIZE as int) as i64,
                    w: MARGIN,
                    h: TARGET_STROKE_WIDTH,
                    color: crate::color::black_spec(),
                })
                &&& shapes@[STEPS_H * STEPS_V + 2int] == (Shape::Rect {
                    fill: true,
                    x: 0,
                    y: (SPACE_SIZE + MARGIN) as i64,
                    w: FIX_ONE,
                    h: (FIX_ONE - SPACE_SIZE - MARGIN) as i64,
                    color: hsv_color_spec(
                        self.current_pick.hue as int,
                        self.current_pick.saturation as int,
                        self.current_pick.value as int,
                    ),
                })
                &&& shapes@[STEPS_H * STEPS_V + 3int] == (Shape::Rect {
                    fill: true,
                    x: (SPACE_SIZE + MARGIN) as i64,
                    y: 0,
                    w: (FIX_ONE - SPACE_SIZE - MARGIN) as i64,
                    h: (SPACE_SIZE + MARGIN) as i64,
                    color: hsv_color_spec(
                        self.current_pick.hue as int,
                        self.current_pick.saturation as int,
                        self.current_pick.value as int,
                    ),
                })
            }),
    {
        let mut shapes: Vec<Shape> = Vec::new();
        let mut k: usize = 0;
        while k < STEPS_H * STEPS_V
            invariant
                k <= STEPS_H * STEPS_V,
                shapes@.len() == k,
                forall|j: int| 0 <= j < k ==> shapes@[j] == self.cell_spec(j),
            decreases STEPS_H * STEPS_V - k,
        {
            let hi = k / STEPS_V;
            let si = k % STEPS_V;
            proof {
                lemma_div_pos_is_pos(k as int, STEPS_V as int);
                lemma_div_is_ordered(k as int, (STEPS_H * STEPS_V - 1) as int, STEPS_V as int);
            }
            let cell = Shape::Rect {
                fill: true,
                x: (hi as i64) * STEPS_X,
                y: (si as i64) * STEPS_Y,
                w: STEPS_X,
                h: STEPS_Y,
                color: HSV::color(
                    (hi as i64) * FIX_ONE,
                    (si as i64) * (FIX_ONE / 64),
                    self.current_pick.value,
                ),
            };
            shapes.push(cell);
            k = k + 1;
        }
        proof {
            lemma_div_trunc_mag(self.current_pick.hue as int, 360 * FIX_ONE, 360);
            lemma_div_pos_is_pos(self.current_pick.hue as int, 360);
            lemma_fix_mul_mag(div_trunc(self.current_pick.hue as int, 360), SPACE_SIZE as int, FIX_ONE as int, FIX_ONE as int);
            lemma_fix_mul_mag(self.current_pick.saturation as int, SPACE_SIZE as int, FIX_ONE as int, FIX_ONE as int);
            lemma_fix_mul_mag(FIX_ONE - self.current_pick.value, SPACE_SIZE as int, 2 * FIX_ONE, FIX_ONE as int);
        }
        let target_center = FixVec::new(
            fix_mul(div_trunc_i64(self.current_pick.hue, 360), SPACE_SIZE),
            fix_mul(self.current_pick.saturation, SPACE_SIZE),
        );
        shapes.push(Shape::Circle {
            fill: false,
            center: target_center,
            radius: TARGET_SIZE,
            tolerance: TARGET_TOLERANCE,
            color: Color::black(),
        });
        shapes.push(Shape::Rect {
            fill: true,
            x: SPACE_SIZE,
            y: fix_mul(FIX_ONE - self.current_pick.value, SPACE_SIZE),
            w: MARGIN,
            h: TARGET_STROKE_WIDTH,
            color: Color::black(),
        });
        let picked = self.current_pick.to_color();
        shapes.push(Shape::Rect {
            fill: true,
            x: 0,
            y: SPACE_SIZE + MARGIN,
            w: FIX_ONE,
            h: FIX_ONE - SPACE_SIZE - MARGIN,
            color: picked,
        });
        shapes.push(Shape::Rect {
            fill: true,
            x: SPACE_SIZE + MARGIN,
            y: 0,
            w: FIX_ONE - SPACE_SIZE - MARGIN,
            h: SPACE_SIZE + MARGIN,
            color: picked,
        });
        proof {
            lemma_div_trunc_mag(self.last_size as int, 0x4000_0000_0000, 2);
            lemma_div_pos_is_pos(self.last_size as int, 2);
        }
        DrawData::Meshes {
            shapes,
            params: MeshParams {
                dest: FixVec::new(
                    self.last_dest.x - self.last_size / 2,
                    self.last_dest.y - self.last_size / 2,
                ),
                scale: FixVec::new(self.last_size, self.last_size),
                z: 0,
            },
        }
    }
}

/// A scaled ratio of a part to a positive whole stays under the scale.
proof fn lemma_mul_div_in_range(dx: int, span: int, scale: int)
    requires
        0 <= dx < span,
        0 < scale,
    ensures
        0 <= div_trunc(dx * scale, span) < scale,
{
    assert(0 <= dx * scale && dx * scale <= (span - 1) * scale) by (nonlinear_arith)
        requires
            0 <= dx <= span - 1,
            0 < scale,
    ;
    lemma_div_pos_is_pos(dx * scale, span);
    lemma_div_is_ordered(dx * scale, (span - 1) * scale, span);
    assert((span - 1) * scale == span * scale - scale) by (nonlinear_arith);
    assert((span * scale - scale) / span < scale) by {
        vstd::arithmetic::div_mod::lemma_multiply_divide_lt(span * scale - scale, span, scale);
        assert(span * scale - scale < span * scale) by (nonlinear_arith)
            requires
                0 < scale,
                0 < span,
        ;
    };
}

} // verus!
