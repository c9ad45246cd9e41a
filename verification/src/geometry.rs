//! Capture geometry: screen rectangles, the degenerate-dimension fallback of
//! the window path, and the per-monitor scale factor applied to a window's
//! natural dimensions.

use vstd::prelude::*;

verus! {

/// A window's screen-space bounding rectangle, origin top-left, y increasing
/// downward.
#[derive(Clone, Copy, Debug, PartialEq, Eq, Structural)]
pub struct Rect {
    pub left: i32,
    pub top: i32,
    pub right: i32,
    pub bottom: i32,
}

impl Rect {
    /// A well-formed rectangle never extends right-to-left or bottom-to-top.
    pub open spec fn wf(self) -> bool {
        self.left <= self.right && self.top <= self.bottom
    }

    /// The rectangle's natural pixel width.
    pub open spec fn spec_width(self) -> int {
        self.right - self.left
    }

    /// The rectangle's natural pixel height.
    pub open spec fn spec_height(self) -> int {
        self.bottom - self.top
    }
}

/// A positive multiplier applied to a window's natural dimensions to account
/// for per-monitor display scaling, held as an exact ratio; a scaled
/// dimension truncates to whole pixels.
#[derive(Clone, Copy, Debug, PartialEq, Eq, Structural)]
pub struct ScaleFactor {
    pub num: u32,
    pub den: u32,
}

impl ScaleFactor {
    /// A scale factor is strictly positive.
    pub open spec fn wf(self) -> bool {
        self.num > 0 && self.den > 0
    }

    /// A dimension scaled by this factor, truncated to whole pixels.
    pub open spec fn spec_apply(self, dim: int) -> int {
        dim * self.num / (self.den as int)
    }

    /// The identity scale factor.
    pub fn identity() -> (r: ScaleFactor)
        ensures
            r.wf(),
            forall|dim: int| 0 <= dim ==> #[trigger] r.spec_apply(dim) == dim,
    {
        ScaleFactor { num: 1, den: 1 }
    }
}

/// The natural width the window path works with: the rectangle's own width,
/// or the primary display's width when the rectangle's width is exactly zero.
pub open spec fn natural_width(rect: Rect, screen_width: u32) -> int {
    if rect.spec_width() == 0 {
        screen_width as int
    } else {
        rect.spec_width()
    }
}

/// The natural height the window path works with: the rectangle's own
/// height, or the primary display's height when the rectangle's height is
/// exactly zero.
pub open spec fn natural_height(rect: Rect, screen_height: u32) -> int {
    if rect.spec_height() == 0 {
        screen_height as int
    } else {
        rect.spec_height()
    }
}

/// Resolves the dimensions of a window capture: natural width and height
/// taken from the rectangle, the full-screen fallback substituted per axis
/// for a zero dimension, and the scale factor applied to both axes with
/// truncation.
pub fn resolve_dimensions(rect: Rect, screen_width: u32, screen_height: u32, scale: ScaleFactor) -> (dims: (
    u32,
    u32,
))
    requires
        rect.wf(),
        scale.wf(),
        scale.spec_apply(natural_width(rect, screen_width)) <= u32::MAX,
        scale.spec_apply(natural_height(rect, screen_height)) <= u32::MAX,
    ensures
        dims.0 == scale.spec_apply(natural_width(rect, screen_width)),
        dims.1 == scale.spec_apply(natural_height(rect, screen_height)),
{
    let rect_width: i64 = rect.right as i64 - rect.left as i64;
    let rect_height: i64 = rect.bottom as i64 - rect.top as i64;
    let nat_width: u64 = if rect_width == 0 {
        screen_width as u64
    } else {
        rect_width as u64
    };
    let nat_height: u64 = if rect_height == 0 {
        screen_height as u64
    } else {
        rect_height as u64
    };
    proof {
        assert(nat_width as int * scale.num as int <= u64::MAX as int * u32::MAX as int)
            by (nonlinear_arith)
            requires
                nat_width <= u64::MAX,
                scale.num <= u32::MAX,
        ;
        assert(nat_height as int * scale.num as int <= u64::MAX as int * u32::MAX as int)
            by (nonlinear_arith)
            requires
                nat_height <= u64::MAX,
                scale.num <= u32::MAX,
        ;
    }
    let scaled_width: u128 = nat_width as u128 * scale.num as u128 / scale.den as u128;
    let scaled_height: u128 = nat_height as u128 * scale.num as u128 / scale.den as u128;
    (scaled_width as u32, scaled_height as u32)
}

/// The fallback law of degenerate window geometry: on an axis whose resolved
/// rectangle dimension is exactly zero, the natural dimension is the primary
/// display's dimension on that axis, so the capture dimension is the
/// display's dimension scaled; a non-zero axis keeps its own scaled
/// dimension.
pub proof fn lemma_degenerate_geometry_fallback(rect: Rect, screen_width: u32, screen_height: u32, scale: ScaleFactor)
    ensures
        rect.spec_width() == 0 ==> scale.spec_apply(natural_width(rect, screen_width))
            == scale.spec_apply(screen_width as int),
        rect.spec_height() == 0 ==> scale.spec_apply(natural_height(rect, screen_height))
            == scale.spec_apply(screen_height as int),
        rect.spec_width() != 0 ==> scale.spec_apply(natural_width(rect, screen_width))
            == scale.spec_apply(rect.spec_width()),
        rect.spec_height() != 0 ==> scale.spec_apply(natural_height(rect, screen_height))
            == scale.spec_apply(rect.spec_height()),
{
}

} // verus!
