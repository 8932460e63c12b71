//! Drawing-surface size synchronization: each frame the backing buffer's
//! size is compared with the displayed size, and a resize is requested
//! only when the two differ.

use vstd::prelude::*;

verus! {

/// Whether a tracker holding `width` and `height` has to resize for a
/// displayed size of `client_w` by `client_h`.
pub open spec fn resize_needed(s: SurfaceTracker, client_w: u32, client_h: u32) -> bool {
    s.width != client_w || s.height != client_h
}

/// The last drawing-buffer size pushed to the render backend, compared
/// against the displayed size once per frame.
pub struct SurfaceTracker {
    pub width: u32,
    pub height: u32,
}

impl SurfaceTracker {
    /// Start from the surface's initial backing size.
    pub fn new(width: u32, height: u32) -> (r: SurfaceTracker)
        ensures
            r.width == width,
            r.height == height,
    {
        SurfaceTracker { width, height }
    }

    /// Whether the displayed size differs from the recorded backing size.
    pub fn needs_resize(&self, client_w: u32, client_h: u32) -> (r: bool)
        ensures
            r == resize_needed(*self, client_w, client_h),
    {
        self.width != client_w || self.height != client_h
    }

    /// Compare the displayed size against the recorded one and adopt it.
    /// The result tells the caller whether to resize the backing buffer
    /// and push the new size to the render backend: true exactly when
    /// the sizes differed.
    pub fn sync(&mut self, client_w: u32, client_h: u32) -> (resized: bool)
        ensures
            resized == resize_needed(*old(self), client_w, client_h),
            final(self).width == client_w,
            final(self).height == client_h,
    {
        let differs = self.needs_resize(client_w, client_h);
        self.width = client_w;
        self.height = client_h;
        differs
    }
}

/// A resize is requested exactly once per actual size change: a tracker
/// that has adopted a displayed size requests nothing for that same size
/// on any later frame, however often it recurs, and a tracker already at
/// the displayed size requests nothing at all.
pub proof fn lemma_resize_once(s: SurfaceTracker, client_w: u32, client_h: u32)
    ensures
        !resize_needed((SurfaceTracker { width: client_w, height: client_h }), client_w, client_h),
        s.width == client_w && s.height == client_h ==> !resize_needed(s, client_w, client_h),
        resize_needed(s, client_w, client_h) <==> s != (SurfaceTracker {
            width: client_w,
            height: client_h,
        }),
{
}

} // verus!
