use vstd::prelude::*;

verus! {

/// The size, in physical pixels, that the drawing surface is configured with.
#[derive(Clone, Copy, Debug, PartialEq, Eq, Structural)]
pub struct SurfaceSize {
    pub width: u32,
    pub height: u32,
}

impl SurfaceSize {
    pub fn new(width: u32, height: u32) -> (s: Self)
        ensures
            s.width == width,
            s.height == height,
    {
        SurfaceSize { width, height }
    }

    /// Adopts the new size when both dimensions are positive, which is when
    /// the surface can be reconfigured; a size with a zero dimension (a
    /// minimised window) is ignored. Returns whether the size was adopted.
    pub fn resize(&mut self, width: u32, height: u32) -> (adopted: bool)
        ensures
            adopted == (width > 0 && height > 0),
            *final(self) == resized(*old(self), width, height),
            adopted ==> final(self).width == width && final(self).height == height,
            !adopted ==> *final(self) == *old(self),
    {
        if width > 0 && height > 0 {
            self.width = width;
            self.height = height;
            true
        } else {
            false
        }
    }
}

/// The size after a resize request, as `SurfaceSize::resize` leaves it.
pub open spec fn resized(s: SurfaceSize, width: u32, height: u32) -> SurfaceSize {
    if width > 0 && height > 0 {
        SurfaceSize { width, height }
    } else {
        s
    }
}

/// A surface that starts with positive dimensions keeps them through any
/// resize, so its aspect ratio is always defined.
pub proof fn lemma_resize_keeps_positive(s: SurfaceSize, width: u32, height: u32)
    requires
        s.width > 0,
        s.height > 0,
    ensures
        resized(s, width, height).width > 0,
        resized(s, width, height).height > 0,
{
}

/// Asking twice for the same size is the same as asking once.
pub proof fn lemma_resize_idempotent(s: SurfaceSize, width: u32, height: u32)
    ensures
        resized(resized(s, width, height), width, height) == resized(s, width, height),
{
}

/// A size with both dimensions positive is always adopted as it is, whatever
/// the current size: the surface follows the window when it grows and when it
/// shrinks.
pub proof fn lemma_positive_size_always_adopted(s: SurfaceSize, width: u32, height: u32)
    requires
        width > 0,
        height > 0,
    ensures
        resized(s, width, height).width == width,
        resized(s, width, height).height == height,
{
}

/// A size with a zero dimension never changes the surface.
pub proof fn lemma_zero_size_ignored(s: SurfaceSize, width: u32, height: u32)
    requires
        width == 0 || height == 0,
    ensures
        resized(s, width, height) == s,
{
}

} // verus!
