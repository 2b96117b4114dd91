//! Resize handling: the logical screen rectangle and the depth-target
//! notification that a resize produces.

use vstd::prelude::*;

verus! {

/// The rectangle mapping logical drawing space to the current window size.
///
/// The four fields are the IEEE-754 bit patterns of the `f32` values the 2D
/// canvas consumes; the origin is always `(0.0, 0.0)`, whose bit pattern is 0.
#[derive(Clone, Copy, Debug)]
pub struct ScreenCoords {
    pub x: u32,
    pub y: u32,
    pub w: u32,
    pub h: u32,
}

/// A request to the external frame-target provider to size the depth target
/// to the drawable area, carried as `f32` bit patterns.
#[derive(Clone, Copy, Debug)]
pub struct DepthTargetRequest {
    pub w: u32,
    pub h: u32,
}

/// The rectangle a resize to `(w, h)` must leave behind: origin zero, the new
/// width and height.
pub open spec fn resized_coords(w: u32, h: u32) -> ScreenCoords {
    ScreenCoords { x: 0, y: 0, w: w, h: h }
}

/// What a resize event does to the screen rectangle, as a function of the
/// state it finds: it discards that state and installs `(0, 0, w, h)`.
pub open spec fn apply_resize(s: ScreenCoords, w: u32, h: u32) -> ScreenCoords {
    resized_coords(w, h)
}

impl ScreenCoords {
    /// Updates the rectangle to `(0, 0, w, h)` and returns the notification
    /// for the frame-target provider. This is the whole of the resize
    /// handler: a pure state update plus one notification, nothing else.
    pub fn on_resize(&mut self, w: u32, h: u32) -> (req: DepthTargetRequest)
        ensures
            *final(self) == resized_coords(w, h),
            req.w == w,
            req.h == h,
    {
        self.x = 0;
        self.y = 0;
        self.w = w;
        self.h = h;
        DepthTargetRequest { w, h }
    }
}

/// Resizing is idempotent: whatever rectangle a resize to `(w, h)` finds, a
/// second resize to the same dimensions changes nothing, so no additional
/// work can follow from it.
pub proof fn lemma_resize_idempotent(s: ScreenCoords, w: u32, h: u32)
    ensures
        apply_resize(apply_resize(s, w, h), w, h) == apply_resize(s, w, h),
{
}

} // verus!
