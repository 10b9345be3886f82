//! Small fixed-point vector types used throughout the pipeline.

use vstd::prelude::*;

use crate::fx::FX_VAL_MAX;

verus! {

/// A 2-component vector of 16.16 fixed-point values.
#[derive(Clone, Copy, Debug, PartialEq, Eq, Structural)]
pub struct Vec2Fx {
    pub x: i64,
    pub y: i64,
}

/// A 3-component vector of 16.16 fixed-point values.
#[derive(Clone, Copy, Debug, PartialEq, Eq, Structural)]
pub struct Vec3Fx {
    pub x: i64,
    pub y: i64,
    pub z: i64,
}

/// A 4-component vector of 16.16 fixed-point values.
#[derive(Clone, Copy, Debug, PartialEq, Eq, Structural)]
pub struct Vec4Fx {
    pub x: i64,
    pub y: i64,
    pub z: i64,
    pub w: i64,
}

impl Vec2Fx {
    /// All components within the pipeline's attribute bound.
    pub open spec fn wf(self) -> bool {
        &&& crate::fx::fx_abs(self.x as int) <= FX_VAL_MAX as int
        &&& crate::fx::fx_abs(self.y as int) <= FX_VAL_MAX as int
    }

    pub fn new(x: i64, y: i64) -> (r: Self)
        ensures
            r == (Vec2Fx { x, y }),
    {
        Vec2Fx { x, y }
    }

    pub fn splat(v: i64) -> (r: Self)
        ensures
            r == (Vec2Fx { x: v, y: v }),
    {
        Vec2Fx { x: v, y: v }
    }
}

impl Vec3Fx {
    /// All components within the pipeline's attribute bound.
    pub open spec fn wf(self) -> bool {
        &&& crate::fx::fx_abs(self.x as int) <= FX_VAL_MAX as int
        &&& crate::fx::fx_abs(self.y as int) <= FX_VAL_MAX as int
        &&& crate::fx::fx_abs(self.z as int) <= FX_VAL_MAX as int
    }

    pub fn new(x: i64, y: i64, z: i64) -> (r: Self)
        ensures
            r == (Vec3Fx { x, y, z }),
    {
        Vec3Fx { x, y, z }
    }

    pub fn splat(v: i64) -> (r: Self)
        ensures
            r == (Vec3Fx { x: v, y: v, z: v }),
    {
        Vec3Fx { x: v, y: v, z: v }
    }
}

impl Vec4Fx {
    /// All components within the pipeline's attribute bound.
    pub open spec fn wf(self) -> bool {
        &&& crate::fx::fx_abs(self.x as int) <= FX_VAL_MAX as int
        &&& crate::fx::fx_abs(self.y as int) <= FX_VAL_MAX as int
        &&& crate::fx::fx_abs(self.z as int) <= FX_VAL_MAX as int
        &&& crate::fx::fx_abs(self.w as int) <= FX_VAL_MAX as int
    }

    pub fn new(x: i64, y: i64, z: i64, w: i64) -> (r: Self)
        ensures
            r == (Vec4Fx { x, y, z, w }),
    {
        Vec4Fx { x, y, z, w }
    }

    pub fn splat(v: i64) -> (r: Self)
        ensures
            r == (Vec4Fx { x: v, y: v, z: v, w: v }),
    {
        Vec4Fx { x: v, y: v, z: v, w: v }
    }

    /// The x/y/z components as a [`Vec3Fx`].
    pub fn xyz(&self) -> (r: Vec3Fx)
        ensures
            r == (Vec3Fx { x: self.x, y: self.y, z: self.z }),
    {
        Vec3Fx { x: self.x, y: self.y, z: self.z }
    }
}

} // verus!
