//! Window-fit scaling for the offscreen render target.
//!
//! The world is rendered into a small offscreen image and that image is drawn
//! by a screen camera. On every window resize the screen camera's projection
//! is rescaled so that the image fills the window at an integer number of
//! window pixels per image pixel. The integer chosen here is the smaller of
//! the window/image ratios in width and height, rounded to the nearest whole
//! number; the engine-facing code sets the projection scale to its
//! reciprocal.

use vstd::prelude::*;
use vstd::arithmetic::div_mod::lemma_multiply_divide_lt;
use vstd::arithmetic::mul::lemma_mul_upper_bound;

verus! {

/// Size of the offscreen image that the world camera renders into.
pub struct CameraSettings {
    pub world_render_width: u32,
    pub world_render_height: u32,
}

impl CameraSettings {
    /// The render target has at least one pixel in each direction.
    pub open spec fn well_formed(self) -> bool {
        self.world_render_width > 0 && self.world_render_height > 0
    }
}

impl Default for CameraSettings {
    /// The stock render target: 320 by 180 pixels.
    fn default() -> (r: CameraSettings)
        ensures
            r.world_render_width == 320,
            r.world_render_height == 180,
            r.well_formed(),
    {
        CameraSettings { world_render_width: 320, world_render_height: 180 }
    }
}

/// The integer nearest to `num / den`, halves rounded away from zero;
/// meaningful for `num >= 0` and `den > 0`.
pub open spec fn rounded_ratio(num: int, den: int) -> int
    recommends
        num >= 0,
        den > 0,
{
    (2 * num + den) / (2 * den)
}

/// The window-fit scale: of the width ratio `ww / rw` and the height ratio
/// `wh / rh`, the smaller one, rounded to the nearest integer.
pub open spec fn fit_scale_spec(ww: int, wh: int, rw: int, rh: int) -> int
    recommends
        ww >= 0 && wh >= 0,
        rw > 0 && rh > 0,
{
    if ww * rh <= wh * rw {
        rounded_ratio(ww, rw)
    } else {
        rounded_ratio(wh, rh)
    }
}

impl CameraSettings {
    /// How many window pixels each render-target pixel gets so that the image
    /// fits the window: the smaller of the window/image ratios, rounded to
    /// the nearest integer. Zero means the window is too small for a whole
    /// pixel per image pixel.
    pub fn fit_scale(&self, window_width: u32, window_height: u32) -> (s: u32)
        requires
            self.well_formed(),
        ensures
            s == fit_scale_spec(
                window_width as int,
                window_height as int,
                self.world_render_width as int,
                self.world_render_height as int,
            ),
    {
        let ww: u64 = window_width as u64;
        let wh: u64 = window_height as u64;
        let rw: u64 = self.world_render_width as u64;
        let rh: u64 = self.world_render_height as u64;
        proof {
            lemma_mul_upper_bound(ww as int, u32::MAX as int, rh as int, u32::MAX as int);
            lemma_mul_upper_bound(wh as int, u32::MAX as int, rw as int, u32::MAX as int);
        }
        let smaller_is_width: bool = ww * rh <= wh * rw;
        let num: u64 = if smaller_is_width { ww } else { wh };
        let den: u64 = if smaller_is_width { rw } else { rh };
        let q: u64 = (2 * num + den) / (2 * den);
        proof {
            assert(2 * num + den < (2 * den) * (num + 1)) by (nonlinear_arith)
                requires
                    num >= 0,
                    den >= 1,
            ;
            lemma_multiply_divide_lt(2 * num + den, 2 * den, num + 1);
        }
        q as u32
    }
}

} // verus!
