//! Sizing of the drawing surface and what to do with the frame the surface
//! hands out.

use vstd::prelude::*;

verus! {

/// A window dimension made usable for a surface: zero becomes one.
pub open spec fn spec_nonzero_dimension(v: u32) -> u32 {
    if v == 0 {
        1
    } else {
        v
    }
}

/// `v.max(1)`: a surface cannot be configured, nor a cursor position scaled,
/// with a zero dimension.
pub fn nonzero_dimension(v: u32) -> (d: u32)
    ensures
        d == spec_nonzero_dimension(v),
        d >= 1,
        d >= v,
        d == v || d == 1,
{
    if v == 0 {
        1
    } else {
        v
    }
}

/// `nonzero_dimension` is `max(v, 1)`: at least one, at least `v`, and
/// one of the two; so every nonzero dimension is kept as it is and only a
/// zero one changes.
pub proof fn lemma_nonzero_dimension_is_max_with_one(v: u32)
    ensures
        spec_nonzero_dimension(v) >= 1,
        spec_nonzero_dimension(v) >= v,
        spec_nonzero_dimension(v) == v || spec_nonzero_dimension(v) == 1,
        v != 0 ==> spec_nonzero_dimension(v) == v,
{
}

/// A surface sized for a window keeps each nonzero window dimension.
pub proof fn lemma_extent_keeps_window_size(width: u32, height: u32)
    ensures
        width != 0 ==> spec_nonzero_dimension(width) == width,
        height != 0 ==> spec_nonzero_dimension(height) == height,
        width == 0 ==> spec_nonzero_dimension(width) == 1,
        height == 0 ==> spec_nonzero_dimension(height) == 1,
{
}

/// Width and height, in physical pixels, the surface is configured with.
pub struct SurfaceExtent {
    width: u32,
    height: u32,
}

impl View for SurfaceExtent {
    type V = (u32, u32);

    /// `(width, height)`.
    closed spec fn view(&self) -> (u32, u32) {
        (self.width, self.height)
    }
}

impl SurfaceExtent {
    #[verifier::type_invariant]
    spec fn never_empty(self) -> bool {
        self.width >= 1 && self.height >= 1
    }

    /// The extent a surface is first configured with for a window of the
    /// given inner size; a zero dimension (a minimised window) becomes one.
    pub fn for_window(width: u32, height: u32) -> (extent: Self)
        ensures
            extent@ == (spec_nonzero_dimension(width), spec_nonzero_dimension(height)),
            width != 0 ==> extent@.0 == width,
            height != 0 ==> extent@.1 == height,
            extent@.0 >= 1,
            extent@.1 >= 1,
    {
        SurfaceExtent { width: nonzero_dimension(width), height: nonzero_dimension(height) }
    }

    pub fn width(&self) -> (w: u32)
        ensures
            w == self@.0,
            w >= 1,
    {
        proof {
            use_type_invariant(self);
        }
        self.width
    }

    pub fn height(&self) -> (h: u32)
        ensures
            h == self@.1,
            h >= 1,
    {
        proof {
            use_type_invariant(self);
        }
        self.height
    }

    /// Takes a new window size. A size with a zero dimension is ignored and
    /// the surface keeps its extent; otherwise the extent becomes the new
    /// size and the surface must be configured again (`true`).
    pub fn resize(&mut self, width: u32, height: u32) -> (reconfigure: bool)
        ensures
            reconfigure == (width != 0 && height != 0),
            final(self)@ == (if reconfigure {
                (width, height)
            } else {
                old(self)@
            }),
            final(self)@.0 >= 1,
            final(self)@.1 >= 1,
    {
        proof {
            use_type_invariant(&*self);
        }
        if width == 0 || height == 0 {
            return false;
        }
        *self = SurfaceExtent { width, height };
        true
    }
}

/// What the surface answered when asked for the next frame.
#[derive(Clone, Copy, Debug, PartialEq, Eq, Structural)]
pub enum FrameStatus {
    Success,
    Suboptimal,
    Outdated,
    Lost,
    Timeout,
    Occluded,
    Validation,
}

/// What the renderer does with that answer.
#[derive(Clone, Copy, Debug, PartialEq, Eq, Structural)]
pub enum FrameAction {
    /// Draw the particles into the frame and present it.
    Draw,
    /// Configure the surface again for the window's current size and skip
    /// this frame.
    Reconfigure,
    /// Skip this frame.
    Skip,
}

pub open spec fn spec_frame_action(status: FrameStatus) -> FrameAction {
    match status {
        FrameStatus::Success | FrameStatus::Suboptimal => FrameAction::Draw,
        FrameStatus::Outdated | FrameStatus::Lost => FrameAction::Reconfigure,
        FrameStatus::Timeout | FrameStatus::Occluded | FrameStatus::Validation => FrameAction::Skip,
    }
}

/// A frame is drawn exactly when the surface handed one out (even a
/// suboptimal one); the surface is configured again exactly when it is
/// outdated or lost; everything else skips the frame.
pub proof fn lemma_frame_drawn_only_when_delivered(status: FrameStatus)
    ensures
        (spec_frame_action(status) == FrameAction::Draw) <==> (status == FrameStatus::Success
            || status == FrameStatus::Suboptimal),
        (spec_frame_action(status) == FrameAction::Reconfigure) <==> (status == FrameStatus::Outdated
            || status == FrameStatus::Lost),
{
}

/// A usable frame (even a suboptimal one) is drawn; an outdated or lost
/// surface is configured again; on any other answer the frame is skipped.
pub fn frame_action(status: FrameStatus) -> (action: FrameAction)
    ensures
        action == spec_frame_action(status),
{
    match status {
        FrameStatus::Success | FrameStatus::Suboptimal => FrameAction::Draw,
        FrameStatus::Outdated | FrameStatus::Lost => FrameAction::Reconfigure,
        FrameStatus::Timeout | FrameStatus::Occluded | FrameStatus::Validation => FrameAction::Skip,
    }
}

} // verus!
