//! The per-vertex attribute bundle that flows through the pipeline.

use vstd::prelude::*;

use crate::fx::{fx_abs, fx_mul, spec_fx_mul, FX_REC_MAX, FX_VAL_MAX};
use crate::vecmath::{Vec2Fx, Vec3Fx, Vec4Fx};

verus! {

/// One vertex: homogeneous position plus the interpolated attributes.
/// Triangles own copies of their vertices, never references, because
/// clipping synthesizes new vertices by interpolation.
#[derive(Clone, Copy, Debug, PartialEq, Eq, Structural)]
pub struct Vertex {
    pub position: Vec4Fx,
    pub normal: Vec3Fx,
    pub color: Vec3Fx,
    pub uv: Vec2Fx,
}

impl Vertex {
    /// Every attribute within the pipeline's fixed-point bound.
    pub open spec fn wf(self) -> bool {
        &&& self.position.wf()
        &&& self.normal.wf()
        &&& self.color.wf()
        &&& self.uv.wf()
    }

    pub fn new(position: Vec4Fx, normal: Vec3Fx, color: Vec3Fx, uv: Vec2Fx) -> (r: Self)
        ensures
            r == (Vertex { position, normal, color, uv }),
    {
        Vertex { position, uv, normal, color }
    }

    /// Componentwise sum of all attributes.
    pub fn add(self, rhs: Self) -> (r: Self)
        requires
            self.wf(),
            rhs.wf(),
        ensures
            r.position.x == self.position.x + rhs.position.x,
            r.position.y == self.position.y + rhs.position.y,
            r.position.z == self.position.z + rhs.position.z,
            r.position.w == self.position.w + rhs.position.w,
            r.normal.x == self.normal.x + rhs.normal.x,
            r.normal.y == self.normal.y + rhs.normal.y,
            r.normal.z == self.normal.z + rhs.normal.z,
            r.color.x == self.color.x + rhs.color.x,
            r.color.y == self.color.y + rhs.color.y,
            r.color.z == self.color.z + rhs.color.z,
            r.uv.x == self.uv.x + rhs.uv.x,
            r.uv.y == self.uv.y + rhs.uv.y,
    {
        Vertex {
            position: Vec4Fx {
                x: self.position.x + rhs.position.x,
                y: self.position.y + rhs.position.y,
                z: self.position.z + rhs.position.z,
                w: self.position.w + rhs.position.w,
            },
            normal: Vec3Fx {
                x: self.normal.x + rhs.normal.x,
                y: self.normal.y + rhs.normal.y,
                z: self.normal.z + rhs.normal.z,
            },
            color: Vec3Fx {
                x: self.color.x + rhs.color.x,
                y: self.color.y + rhs.color.y,
                z: self.color.z + rhs.color.z,
            },
            uv: Vec2Fx { x: self.uv.x + rhs.uv.x, y: self.uv.y + rhs.uv.y },
        }
    }

    /// Componentwise difference of all attributes.
    pub fn sub(self, rhs: Self) -> (r: Self)
        requires
            self.wf(),
            rhs.wf(),
        ensures
            r.position.x == self.position.x - rhs.position.x,
            r.position.y == self.position.y - rhs.position.y,
            r.position.z == self.position.z - rhs.position.z,
            r.position.w == self.position.w - rhs.position.w,
            r.normal.x == self.normal.x - rhs.normal.x,
            r.normal.y == self.normal.y - rhs.normal.y,
            r.normal.z == self.normal.z - rhs.normal.z,
            r.color.x == self.color.x - rhs.color.x,
            r.color.y == self.color.y - rhs.color.y,
            r.color.z == self.color.z - rhs.color.z,
            r.uv.x == self.uv.x - rhs.uv.x,
            r.uv.y == self.uv.y - rhs.uv.y,
    {
        Vertex {
            position: Vec4Fx {
                x: self.position.x - rhs.position.x,
                y: self.position.y - rhs.position.y,
                z: self.position.z - rhs.position.z,
                w: self.position.w - rhs.position.w,
            },
            normal: Vec3Fx {
                x: self.normal.x - rhs.normal.x,
                y: self.normal.y - rhs.normal.y,
                z: self.normal.z - rhs.normal.z,
            },
            color: Vec3Fx {
                x: self.color.x - rhs.color.x,
                y: self.color.y - rhs.color.y,
                z: self.color.z - rhs.color.z,
            },
            uv: Vec2Fx { x: self.uv.x - rhs.uv.x, y: self.uv.y - rhs.uv.y },
        }
    }

    /// Every attribute scaled by a fixed-point factor.
    pub fn mul(self, rhs: i64) -> (r: Self)
        requires
            self.wf(),
            fx_abs(rhs as int) <= FX_REC_MAX as int,
        ensures
            r.position.x as int == spec_fx_mul(self.position.x as int, rhs as int),
            r.position.y as int == spec_fx_mul(self.position.y as int, rhs as int),
            r.position.z as int == spec_fx_mul(self.position.z as int, rhs as int),
            r.position.w as int == spec_fx_mul(self.position.w as int, rhs as int),
            r.normal.x as int == spec_fx_mul(self.normal.x as int, rhs as int),
            r.normal.y as int == spec_fx_mul(self.normal.y as int, rhs as int),
            r.normal.z as int == spec_fx_mul(self.normal.z as int, rhs as int),
            r.color.x as int == spec_fx_mul(self.color.x as int, rhs as int),
            r.color.y as int == spec_fx_mul(self.color.y as int, rhs as int),
            r.color.z as int == spec_fx_mul(self.color.z as int, rhs as int),
            r.uv.x as int == spec_fx_mul(self.uv.x as int, rhs as int),
            r.uv.y as int == spec_fx_mul(self.uv.y as int, rhs as int),
    {
        Vertex {
            position: Vec4Fx {
                x: self.scale_component(self.position.x, rhs),
                y: self.scale_component(self.position.y, rhs),
                z: self.scale_component(self.position.z, rhs),
                w: self.scale_component(self.position.w, rhs),
            },
            normal: Vec3Fx {
                x: self.scale_component(self.normal.x, rhs),
                y: self.scale_component(self.normal.y, rhs),
                z: self.scale_component(self.normal.z, rhs),
            },
            color: Vec3Fx {
                x: self.scale_component(self.color.x, rhs),
                y: self.scale_component(self.color.y, rhs),
                z: self.scale_component(self.color.z, rhs),
            },
            uv: Vec2Fx {
                x: self.scale_component(self.uv.x, rhs),
                y: self.scale_component(self.uv.y, rhs),
            },
        }
    }

    /// One attribute component scaled by a fixed-point factor.
    fn scale_component(&self, a: i64, rhs: i64) -> (r: i64)
        requires
            fx_abs(a as int) <= FX_VAL_MAX as int,
            fx_abs(rhs as int) <= FX_REC_MAX as int,
        ensures
            r as int == spec_fx_mul(a as int, rhs as int),
    {
        proof {
            crate::fx::lemma_mag_mul_bound(
                a as int,
                rhs as int,
                FX_VAL_MAX as int,
                FX_REC_MAX as int,
            );
        }
        fx_mul(a, rhs)
    }
}

} // verus!
