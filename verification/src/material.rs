//! Materials: a base-color tint and an optional texture handle.

use vstd::prelude::*;

use crate::vecmath::Vec4Fx;

verus! {

/// A material: an index into the texture store (`-1` means "no texture")
/// and a multiplicative base-color tint.
#[derive(Clone, Copy, Debug, PartialEq, Eq, Structural)]
pub struct Material {
    pub base_tex_idx: i32,
    pub base_color: Vec4Fx,
}

impl Material {
    /// The tint within the pipeline's fixed-point bound.
    pub open spec fn wf(self) -> bool {
        self.base_color.wf()
    }
}

impl Default for Material {
    /// No texture, black tint.
    fn default() -> (r: Self)
        ensures
            r == (Material { base_tex_idx: -1i32, base_color: Vec4Fx { x: 0, y: 0, z: 0, w: 0 } }),
    {
        Material { base_tex_idx: -1, base_color: Vec4Fx { x: 0, y: 0, z: 0, w: 0 } }
    }
}

} // verus!
