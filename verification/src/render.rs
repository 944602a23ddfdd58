//! The pixel renderer: packed iteration counts to a BGRA byte buffer.
//!
//! Each pixel becomes four bytes, blue first, fully opaque; the color
//! comes from the cyclic palette walk of the `color` module.

use vstd::prelude::*;

verus! {

use crate::color::{Color, color_for_count, color_for_count_spec};
use crate::iterate::MAX_ITERATIONS_LIMIT;
use vstd::arithmetic::div_mod::{lemma_fundamental_div_mod_converse_div, lemma_fundamental_div_mod_converse_mod};

/// The largest packed iteration count the renderer accepts (a full budget
/// plus a full smooth part is far below it).
pub const PACKED_COUNT_MAX: u64 = 0x20_0000_0000_0000;

/// The most pixels one frame can hold.
pub const PIXEL_COUNT_MAX: usize = 0x1000_0000;

/// One byte of a pixel: blue, green, red, then the opaque alpha.
pub open spec fn pixel_byte_spec(c: Color, k: int) -> u8 {
    if k == 0 {
        c.b
    } else if k == 1 {
        c.g
    } else if k == 2 {
        c.r
    } else {
        255
    }
}

/// The whole BGRA buffer for a sequence of packed iteration counts.
pub open spec fn pixels_spec(counts: Seq<u64>, max_iterations: int, out: Color, almost_in: Color) -> Seq<u8> {
    Seq::new(
        (counts.len() * 4) as nat,
        |j: int|
            pixel_byte_spec(
                color_for_count_spec(counts[j / 4] as int, max_iterations, out, almost_in),
                j % 4,
            ),
    )
}

pub struct Renderer;

impl Renderer {
    pub fn new() -> (r: Renderer)
        ensures
            r == (Renderer {  }),
    {
        Renderer {  }
    }

    /// Renders every packed count into four BGRA bytes.
    #[verifier::loop_isolation(false)]
    pub fn render(&self, counts: &Vec<u64>, max_iterations: usize, out: &Color, almost_in: &Color) -> (pixels: Vec<u8>)
        requires
            max_iterations <= MAX_ITERATIONS_LIMIT,
            counts@.len() <= PIXEL_COUNT_MAX,
            forall|i: int| 0 <= i < counts@.len() ==> #[trigger] counts@[i] <= PACKED_COUNT_MAX,
        ensures
            pixels@ == pixels_spec(counts@, max_iterations as int, *out, *almost_in),
            pixels@.len() == counts@.len() * 4,
    {
        let mut pixels: Vec<u8> = Vec::new();
        let mut i: usize = 0;
        while i < counts.len()
            invariant
                i <= counts@.len(),
                pixels@.len() == i * 4,
                forall|j: int| 0 <= j < i * 4 ==> pixels@[j] == pixels_spec(
                    counts@,
                    max_iterations as int,
                    *out,
                    *almost_in,
                )[j],
            decreases counts@.len() - i,
        {
            let c = color_for_count(counts[i], max_iterations, out, almost_in);
            pixels.push(c.b);
            pixels.push(c.g);
            pixels.push(c.r);
            pixels.push(255);
            i = i + 1;
            proof {
                assert forall|j: int| 0 <= j < i * 4 implies pixels@[j] == pixels_spec(
                    counts@,
                    max_iterations as int,
                    *out,
                    *almost_in,
                )[j] by {
                    if j >= (i - 1) * 4 {
                        let k = j - (i - 1) * 4;
                        lemma_fundamental_div_mod_converse_div(j, 4, i - 1, k);
                        lemma_fundamental_div_mod_converse_mod(j, 4, i - 1, k);
                    }
                }
            }
        }
        proof {
            assert(pixels@ =~= pixels_spec(counts@, max_iterations as int, *out, *almost_in));
        }
        pixels
    }
}

} // verus!
