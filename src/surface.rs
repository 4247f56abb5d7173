use vstd::prelude::*;

verus! {

/// Smallest extent a swapchain is ever configured with.
pub open spec fn clamp_extent(v: u32) -> u32 {
    if v == 0 { 1 } else { v }
}

/// The size part of a presentation surface's configuration.
#[derive(Clone, Copy, PartialEq, Eq, Structural, Debug)]
pub struct SurfaceConfig {
    pub width: u32,
    pub height: u32,
}

impl SurfaceConfig {
    /// Neither dimension is zero.
    pub open spec fn wf(&self) -> bool {
        self.width >= 1 && self.height >= 1
    }

    /// A configuration for a window of `width` x `height` pixels, each
    /// dimension clamped to at least one.
    pub fn new(width: u32, height: u32) -> (r: SurfaceConfig)
        ensures
            r.wf(),
            r.width == clamp_extent(width),
            r.height == clamp_extent(height),
    {
        SurfaceConfig { width: if width == 0 { 1 } else { width }, height: if height == 0 { 1 } else { height } }
    }

    /// Takes a new window size, each dimension clamped to at least one.
    pub fn resize(&mut self, width: u32, height: u32)
        ensures
            final(self).wf(),
            final(self).width == clamp_extent(width),
            final(self).height == clamp_extent(height),
    {
        *self = SurfaceConfig::new(width, height);
    }
}

/// A resize never yields a zero dimension, and a nonzero request is taken as is.
pub proof fn lemma_resize_never_zero(width: u32, height: u32)
    ensures
        clamp_extent(width) >= 1,
        clamp_extent(height) >= 1,
        width == 0 ==> clamp_extent(width) == 1,
        height == 0 ==> clamp_extent(height) == 1,
        width > 0 ==> clamp_extent(width) == width,
        height > 0 ==> clamp_extent(height) == height,
{
}

} // verus!
