//! The target surface's pixel dimensions, passed explicitly to the stages
//! that need them.

use vstd::prelude::*;

verus! {

/// A render target's dimensions in pixels.
#[derive(Clone, Copy, Debug, PartialEq, Eq, Structural)]
pub struct Viewport {
    pub width: u32,
    pub height: u32,
}

impl Viewport {
    /// Dimensions the fixed-point pipeline can address: at least one pixel,
    /// at most 4096 on a side.
    pub open spec fn wf(self) -> bool {
        &&& 1 <= self.width <= 4096
        &&& 1 <= self.height <= 4096
    }

    pub fn new(width: u32, height: u32) -> (r: Self)
        requires
            1 <= width <= 4096,
            1 <= height <= 4096,
        ensures
            r == (Viewport { width, height }),
            r.wf(),
    {
        Viewport { width, height }
    }
}

} // verus!
