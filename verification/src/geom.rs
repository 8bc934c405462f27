//! Scene geometry: logical view-boxes and their mapping to integer output
//! sizes and the translation that normalizes rendering to the origin.
//!
//! Logical coordinates are carried as signed integers in millionths of a
//! pixel, so fractional view-box sizes are exact and the ceiling to whole
//! pixels is ordinary integer arithmetic.

use vstd::prelude::*;
use vstd::arithmetic::div_mod::{
    lemma_fundamental_div_mod, lemma_fundamental_div_mod_converse,
};

verus! {

/// Number of logical sub-units in one output pixel.
pub const UNITS_PER_PIXEL: i64 = 1_000_000;

/// Largest output dimension, in pixels, a render target may have.
pub const MAX_PIXEL_DIM: i64 = 0x7fff_ffff;

/// A scene's logical bounding rectangle: origin plus size, in sub-units.
#[derive(Clone, Copy, Debug, PartialEq, Eq, Structural)]
pub struct ViewBox {
    pub origin_x: i64,
    pub origin_y: i64,
    pub size_x: i64,
    pub size_y: i64,
}

impl ViewBox {
    /// A view-box the session can render: positive size, size and origin
    /// within the machine bounds of a render target.
    pub open spec fn wf(self) -> bool {
        &&& 0 < self.size_x <= MAX_PIXEL_DIM * UNITS_PER_PIXEL
        &&& 0 < self.size_y <= MAX_PIXEL_DIM * UNITS_PER_PIXEL
        &&& -(MAX_PIXEL_DIM * UNITS_PER_PIXEL) <= self.origin_x <= MAX_PIXEL_DIM * UNITS_PER_PIXEL
        &&& -(MAX_PIXEL_DIM * UNITS_PER_PIXEL) <= self.origin_y <= MAX_PIXEL_DIM * UNITS_PER_PIXEL
    }
}

/// An output size in whole pixels.
#[derive(Clone, Copy, Debug, PartialEq, Eq, Structural)]
pub struct PixelSize {
    pub width: u32,
    pub height: u32,
}

impl PixelSize {
    /// A size a render target can take: both dimensions positive and within
    /// the machine bound.
    pub open spec fn wf(self) -> bool {
        &&& 1 <= self.width <= MAX_PIXEL_DIM
        &&& 1 <= self.height <= MAX_PIXEL_DIM
    }
}

/// The number of whole pixels needed to cover `units` sub-units.
pub open spec fn ceil_pixels(units: int) -> int {
    (units + UNITS_PER_PIXEL - 1) / (UNITS_PER_PIXEL as int)
}

/// Rounds a positive logical length up to whole pixels: the smallest pixel
/// count whose extent covers it.
pub fn ceil_to_pixels(units: i64) -> (r: u32)
    requires
        0 < units <= MAX_PIXEL_DIM * UNITS_PER_PIXEL,
    ensures
        r == ceil_pixels(units as int),
        r * UNITS_PER_PIXEL >= units,
        (r - 1) * UNITS_PER_PIXEL < units,
        1 <= r <= MAX_PIXEL_DIM,
{
    let q: i64 = (units - 1) / UNITS_PER_PIXEL;
    proof {
        lemma_fundamental_div_mod(units - 1, UNITS_PER_PIXEL as int);
        let rem = (units - 1) % (UNITS_PER_PIXEL as int);
        assert(units - 1 == UNITS_PER_PIXEL * q + rem);
        assert(q + 1 <= MAX_PIXEL_DIM) by (nonlinear_arith)
            requires
                UNITS_PER_PIXEL * q <= units - 1,
                units <= MAX_PIXEL_DIM * UNITS_PER_PIXEL,
        ;
        assert(q >= 0) by (nonlinear_arith)
            requires
                UNITS_PER_PIXEL * q + rem == units - 1,
                0 <= rem < UNITS_PER_PIXEL,
                units > 0,
        ;
        lemma_fundamental_div_mod_converse(
            units - 1 + UNITS_PER_PIXEL as int,
            UNITS_PER_PIXEL as int,
            q + 1,
            rem,
        );
        assert(ceil_pixels(units as int) == q + 1);
    }
    (q + 1) as u32
}

/// Everything a render pass needs from the scene's view-box: the integer
/// output size, the translation that maps the view-box origin to the pixel
/// origin, and the normalized view-box the scene is rewritten to.
#[derive(Clone, Copy, Debug, PartialEq, Eq, Structural)]
pub struct RenderPlan {
    pub size: PixelSize,
    pub translate_x: i64,
    pub translate_y: i64,
    pub normalized: ViewBox,
}

/// The plan a well-formed view-box gives rise to.
pub open spec fn spec_plan(vb: ViewBox) -> RenderPlan {
    RenderPlan {
        size: PixelSize {
            width: ceil_pixels(vb.size_x as int) as u32,
            height: ceil_pixels(vb.size_y as int) as u32,
        },
        translate_x: (-(vb.origin_x as int)) as i64,
        translate_y: (-(vb.origin_y as int)) as i64,
        normalized: ViewBox {
            origin_x: 0,
            origin_y: 0,
            size_x: vb.size_x,
            size_y: vb.size_y,
        },
    }
}

/// Derives the render plan for one scene: the output size is the view-box
/// size rounded up to whole pixels, the translation moves the view-box
/// origin to `(0, 0)`, and the normalized view-box keeps the size with a
/// zero origin.
pub fn plan_render(vb: &ViewBox) -> (p: RenderPlan)
    requires
        vb.wf(),
    ensures
        p == spec_plan(*vb),
        p.size.wf(),
        p.size.width * UNITS_PER_PIXEL >= vb.size_x,
        (p.size.width - 1) * UNITS_PER_PIXEL < vb.size_x,
        p.size.height * UNITS_PER_PIXEL >= vb.size_y,
        (p.size.height - 1) * UNITS_PER_PIXEL < vb.size_y,
        p.translate_x == -vb.origin_x && p.translate_y == -vb.origin_y,
        p.normalized == (ViewBox {
            origin_x: 0,
            origin_y: 0,
            size_x: vb.size_x,
            size_y: vb.size_y,
        }),
{
    let width = ceil_to_pixels(vb.size_x);
    let height = ceil_to_pixels(vb.size_y);
    RenderPlan {
        size: PixelSize { width, height },
        translate_x: -vb.origin_x,
        translate_y: -vb.origin_y,
        normalized: ViewBox {
            origin_x: 0,
            origin_y: 0,
            size_x: vb.size_x,
            size_y: vb.size_y,
        },
    }
}

} // verus!
