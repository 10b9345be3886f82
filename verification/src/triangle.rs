//! Triangles through the pipeline: frustum rejection, view-space backface
//! culling, near-plane clipping and screen mapping.
//!
//! A triangle is created once per primitive per frame and flows through
//! clip then screen-map as a value; each stage returns a new copy with
//! updated fields.

use vstd::prelude::*;

use crate::fx::{
    clamp_val, fx_abs, fx_div, max_i64, min_i64, spec_clamp_val, spec_fx_div, spec_fx_mul,
    spec_lerp, wide_mul, FX_ONE, FX_REC_MAX, FX_VAL_MAX,
};
use crate::render_utils::{edge_fun, map_to_range, spec_edge, spec_map_to_range};
use crate::vecmath::{Vec2Fx, Vec4Fx};
use crate::vertex::Vertex;
use crate::viewport::Viewport;

verus! {

/// A screen-space bounding box, clamped to the target surface.
#[derive(Clone, Copy, Debug, PartialEq, Eq, Structural)]
pub struct Aabb {
    pub min: Vec2Fx,
    pub max: Vec2Fx,
}

/// One triangle with its pipeline scratch fields: per-vertex reciprocal-w,
/// screen coordinates, signed total screen area and the clamped bounding
/// box the binning stage reads.
#[derive(Clone, Copy, Debug)]
pub struct Triangle {
    pub v0: Vertex,
    pub v1: Vertex,
    pub v2: Vertex,
    pub rec0: i64,
    pub rec1: i64,
    pub rec2: i64,
    pub ssc0: Vec2Fx,
    pub ssc1: Vec2Fx,
    pub ssc2: Vec2Fx,
    pub total_area: i64,
    pub aabb: Option<Aabb>,
}

/// The six reorderings used to canonicalize vertex order before clipping.
#[derive(Clone, Copy, Debug, PartialEq, Eq, Structural)]
pub enum VerticesOrder {
    ABC,
    ACB,
    BAC,
    BCA,
    CAB,
    CBA,
}

/// What near-plane clipping leaves of a triangle: nothing, one triangle,
/// or a quad split into two.
#[derive(Clone, Copy, Debug)]
pub enum ClipResult {
    Clipped,
    One(Triangle),
    Two((Triangle, Triangle)),
}

/// A vertex on the camera side of the near plane.
pub open spec fn spec_behind(v: Vertex) -> bool {
    v.position.z < 0
}

/// How many of a triangle's vertices lie behind the near plane.
pub open spec fn spec_behind_count(t: Triangle) -> int {
    (if spec_behind(t.v0) {
        1int
    } else {
        0int
    }) + (if spec_behind(t.v1) {
        1int
    } else {
        0int
    }) + (if spec_behind(t.v2) {
        1int
    } else {
        0int
    })
}

/// The interpolation parameter that carries a vertex at depth `za < 0`
/// onto the near plane along the edge towards depth `zb >= 0`.
pub open spec fn spec_alpha(za: int, zb: int) -> int {
    spec_fx_div(-za, zb - za)
}

/// `r` is the componentwise interpolant of `a` towards `b` at parameter
/// `t`, except that its depth is pinned exactly onto the near plane
/// (which is where exact arithmetic would put it).
pub open spec fn spec_on_plane_lerped(r: Vertex, a: Vertex, b: Vertex, t: int) -> bool {
    &&& r.position.x as int == spec_lerp(a.position.x as int, b.position.x as int, t)
    &&& r.position.y as int == spec_lerp(a.position.y as int, b.position.y as int, t)
    &&& r.position.z == 0i64
    &&& r.position.w as int == spec_lerp(a.position.w as int, b.position.w as int, t)
    &&& r.normal.x as int == spec_lerp(a.normal.x as int, b.normal.x as int, t)
    &&& r.normal.y as int == spec_lerp(a.normal.y as int, b.normal.y as int, t)
    &&& r.normal.z as int == spec_lerp(a.normal.z as int, b.normal.z as int, t)
    &&& r.color.x as int == spec_lerp(a.color.x as int, b.color.x as int, t)
    &&& r.color.y as int == spec_lerp(a.color.y as int, b.color.y as int, t)
    &&& r.color.z as int == spec_lerp(a.color.z as int, b.color.z as int, t)
    &&& r.uv.x as int == spec_lerp(a.uv.x as int, b.uv.x as int, t)
    &&& r.uv.y as int == spec_lerp(a.uv.y as int, b.uv.y as int, t)
}

/// The single-triangle clip outcome: the two vertices behind the plane
/// (`a` and `b`) moved onto it along their edges towards the front
/// vertex `c`, which is kept.
pub open spec fn spec_single_clip_ok(out: Triangle, a: Vertex, b: Vertex, c: Vertex) -> bool {
    &&& spec_on_plane_lerped(
        out.v0,
        a,
        c,
        spec_alpha(a.position.z as int, c.position.z as int),
    )
    &&& spec_on_plane_lerped(
        out.v1,
        b,
        c,
        spec_alpha(b.position.z as int, c.position.z as int),
    )
    &&& out.v2 == c
}

/// The two-triangle clip outcome for a single vertex `a` behind the
/// plane: both triangles share the on-plane vertex synthesized towards
/// `b`, and the second one also carries the on-plane vertex synthesized
/// towards `c`, so the pair covers the remaining quad.
pub open spec fn spec_double_clip_ok(
    outa: Triangle,
    outb: Triangle,
    a: Vertex,
    b: Vertex,
    c: Vertex,
) -> bool {
    &&& spec_on_plane_lerped(
        outa.v0,
        a,
        b,
        spec_alpha(a.position.z as int, b.position.z as int),
    )
    &&& outa.v1 == b
    &&& outa.v2 == c
    &&& outb.v0 == outa.v0
    &&& spec_on_plane_lerped(
        outb.v1,
        a,
        c,
        spec_alpha(a.position.z as int, c.position.z as int),
    )
    &&& outb.v2 == c
}

/// The two synthesized vertices of a single-triangle clip and the kept
/// front vertex all carry a nonzero w.
pub open spec fn spec_single_clip_w_ok(a: Vertex, b: Vertex, c: Vertex) -> bool {
    &&& spec_lerp(
        a.position.w as int,
        c.position.w as int,
        spec_alpha(a.position.z as int, c.position.z as int),
    ) != 0
    &&& spec_lerp(
        b.position.w as int,
        c.position.w as int,
        spec_alpha(b.position.z as int, c.position.z as int),
    ) != 0
    &&& c.position.w != 0
}

/// The two synthesized vertices of a two-triangle clip and the two kept
/// front vertices all carry a nonzero w.
pub open spec fn spec_double_clip_w_ok(a: Vertex, b: Vertex, c: Vertex) -> bool {
    &&& spec_lerp(
        a.position.w as int,
        b.position.w as int,
        spec_alpha(a.position.z as int, b.position.z as int),
    ) != 0
    &&& spec_lerp(
        a.position.w as int,
        c.position.w as int,
        spec_alpha(a.position.z as int, c.position.z as int),
    ) != 0
    &&& b.position.w != 0
    &&& c.position.w != 0
}

/// Whether every vertex that survives near-plane clipping keeps a
/// nonzero w, so its perspective divide is defined.  The case analysis
/// mirrors [`Triangle::clip_cull_triangle`]; for a fully-behind triangle
/// the question does not arise.
pub open spec fn spec_clip_w_ok(t: Triangle) -> bool {
    let c = spec_behind_count(t);
    if c == 0 {
        t.v0.position.w != 0 && t.v1.position.w != 0 && t.v2.position.w != 0
    } else if c == 2 {
        if !spec_behind(t.v2) {
            spec_single_clip_w_ok(t.v0, t.v1, t.v2)
        } else if !spec_behind(t.v1) {
            spec_single_clip_w_ok(t.v0, t.v2, t.v1)
        } else {
            spec_single_clip_w_ok(t.v1, t.v2, t.v0)
        }
    } else if c == 1 {
        if spec_behind(t.v0) {
            spec_double_clip_w_ok(t.v0, t.v2, t.v1)
        } else if spec_behind(t.v1) {
            spec_double_clip_w_ok(t.v1, t.v0, t.v2)
        } else {
            spec_double_clip_w_ok(t.v2, t.v1, t.v0)
        }
    } else {
        true
    }
}

/// A One outcome of the whole per-triangle stage: the screen mapping of
/// exactly what near-plane clipping leaves — the input itself when no
/// vertex is behind, else the single clipped triangle of the matching
/// case.
pub open spec fn spec_render_one_ok(out: Triangle, src: Triangle, vp: Viewport) -> bool {
    if spec_behind_count(src) == 0 {
        spec_screen_mapped(out, src, vp)
    } else {
        &&& spec_behind_count(src) == 2
        &&& exists|mid: Triangle|
            #[trigger] spec_screen_mapped(out, mid, vp) && (if !spec_behind(src.v2) {
                spec_single_clip_ok(mid, src.v0, src.v1, src.v2)
            } else if !spec_behind(src.v1) {
                spec_single_clip_ok(mid, src.v0, src.v2, src.v1)
            } else {
                spec_single_clip_ok(mid, src.v1, src.v2, src.v0)
            })
    }
}

/// A Two outcome of the whole per-triangle stage: the screen mappings of
/// the two triangles near-plane clipping leaves for the matching
/// one-behind case.
pub open spec fn spec_render_two_ok(
    outa: Triangle,
    outb: Triangle,
    src: Triangle,
    vp: Viewport,
) -> bool {
    &&& spec_behind_count(src) == 1
    &&& exists|mida: Triangle, midb: Triangle|
        #[trigger] spec_screen_mapped(outa, mida, vp) && #[trigger] spec_screen_mapped(
            outb,
            midb,
            vp,
        ) && (if spec_behind(src.v0) {
            spec_double_clip_ok(mida, midb, src.v0, src.v2, src.v1)
        } else if spec_behind(src.v1) {
            spec_double_clip_ok(mida, midb, src.v1, src.v0, src.v2)
        } else {
            spec_double_clip_ok(mida, midb, src.v2, src.v1, src.v0)
        })
}

/// The frustum rejection test: every vertex beyond the same clip plane
/// on the same side (left, right, bottom, top, far, or near).  A
/// triangle whose vertices exceed |w| on opposite sides may cross the
/// view volume and is kept.
pub open spec fn spec_cull_frustum(t: Triangle) -> bool {
    ||| (t.v0.position.x > t.v0.position.w && t.v1.position.x > t.v1.position.w
        && t.v2.position.x > t.v2.position.w)
    ||| (t.v0.position.x < -t.v0.position.w && t.v1.position.x < -t.v1.position.w
        && t.v2.position.x < -t.v2.position.w)
    ||| (t.v0.position.y > t.v0.position.w && t.v1.position.y > t.v1.position.w
        && t.v2.position.y > t.v2.position.w)
    ||| (t.v0.position.y < -t.v0.position.w && t.v1.position.y < -t.v1.position.w
        && t.v2.position.y < -t.v2.position.w)
    ||| (t.v0.position.z > t.v0.position.w && t.v1.position.z > t.v1.position.w
        && t.v2.position.z > t.v2.position.w)
    ||| (t.v0.position.z < 0 && t.v1.position.z < 0 && t.v2.position.z < 0)
}

/// The view-space backface test: the triangle's geometric normal points
/// away from every vertex's view direction.  Normalization is omitted —
/// it scales by positive factors and cannot change any sign.
pub open spec fn spec_backface(p0: Vec4Fx, p1: Vec4Fx, p2: Vec4Fx) -> bool {
    let nx = (p1.y - p0.y) * (p2.z - p0.z) - (p1.z - p0.z) * (p2.y - p0.y);
    let ny = (p1.z - p0.z) * (p2.x - p0.x) - (p1.x - p0.x) * (p2.z - p0.z);
    let nz = (p1.x - p0.x) * (p2.y - p0.y) - (p1.y - p0.y) * (p2.x - p0.x);
    &&& p0.x * nx + p0.y * ny + p0.z * nz < 0
    &&& p1.x * nx + p1.y * ny + p1.z * nz < 0
    &&& p2.x * nx + p2.y * ny + p2.z * nz < 0
}

/// A vertex reordering as a pure value transformation.
pub open spec fn spec_reorder(t: Triangle, order: VerticesOrder) -> Triangle {
    match order {
        VerticesOrder::ABC => t,
        VerticesOrder::ACB => Triangle { v0: t.v0, v1: t.v2, v2: t.v1, ..t },
        VerticesOrder::BAC => Triangle { v0: t.v1, v1: t.v0, v2: t.v2, ..t },
        VerticesOrder::BCA => Triangle { v0: t.v1, v1: t.v2, v2: t.v0, ..t },
        VerticesOrder::CAB => Triangle { v0: t.v2, v1: t.v0, v2: t.v1, ..t },
        VerticesOrder::CBA => Triangle { v0: t.v2, v1: t.v1, v2: t.v0, ..t },
    }
}

/// One vertex after the perspective divide: every position component
/// scaled by the reciprocal-w and saturated to the attribute range, the
/// interpolated attributes untouched.
pub open spec fn spec_ndc_vertex(r: Vertex, orig: Vertex, rec: int) -> bool {
    &&& r.position.x as int == spec_clamp_val(spec_fx_mul(orig.position.x as int, rec))
    &&& r.position.y as int == spec_clamp_val(spec_fx_mul(orig.position.y as int, rec))
    &&& r.position.z as int == spec_clamp_val(spec_fx_mul(orig.position.z as int, rec))
    &&& r.position.w as int == spec_clamp_val(spec_fx_mul(orig.position.w as int, rec))
    &&& r.normal == orig.normal
    &&& r.color == orig.color
    &&& r.uv == orig.uv
}

/// An NDC x coordinate mapped from `[-1, 1]` to `[0, width)` pixels.
pub open spec fn spec_screen_x(ndc_x: int, width: int) -> int {
    spec_clamp_val(spec_map_to_range(ndc_x, -65536, 65536, 0, width * 65536))
}

/// An NDC y coordinate mapped to `[0, height)` pixels, flipped because
/// screen space grows downward.
pub open spec fn spec_screen_y(ndc_y: int, height: int) -> int {
    spec_clamp_val(spec_map_to_range(-ndc_y, -65536, 65536, 0, height * 65536))
}

/// The whole screen-mapping contract: reciprocals, NDC vertices, screen
/// coordinates, signed total area and the clamped bounding box.
pub open spec fn spec_screen_mapped(out: Triangle, src: Triangle, vp: Viewport) -> bool {
    let r0 = spec_fx_div(65536, src.v0.position.w as int);
    let r1 = spec_fx_div(65536, src.v1.position.w as int);
    let r2 = spec_fx_div(65536, src.v2.position.w as int);
    &&& out.rec0 as int == r0
    &&& out.rec1 as int == r1
    &&& out.rec2 as int == r2
    &&& spec_ndc_vertex(out.v0, src.v0, r0)
    &&& spec_ndc_vertex(out.v1, src.v1, r1)
    &&& spec_ndc_vertex(out.v2, src.v2, r2)
    &&& out.ssc0.x as int == spec_screen_x(out.v0.position.x as int, vp.width as int)
    &&& out.ssc0.y as int == spec_screen_y(out.v0.position.y as int, vp.height as int)
    &&& out.ssc1.x as int == spec_screen_x(out.v1.position.x as int, vp.width as int)
    &&& out.ssc1.y as int == spec_screen_y(out.v1.position.y as int, vp.height as int)
    &&& out.ssc2.x as int == spec_screen_x(out.v2.position.x as int, vp.width as int)
    &&& out.ssc2.y as int == spec_screen_y(out.v2.position.y as int, vp.height as int)
    &&& out.total_area as int == spec_edge(
        out.ssc0.x as int,
        out.ssc0.y as int,
        out.ssc1.x as int,
        out.ssc1.y as int,
        out.ssc2.x as int,
        out.ssc2.y as int,
    )
    &&& out.aabb == Some(spec_aabb_of(out.ssc0, out.ssc1, out.ssc2, vp.width as int, vp.height as int))
}

/// The clamped screen bounding box of three screen points.
pub open spec fn spec_aabb_of(s0: Vec2Fx, s1: Vec2Fx, s2: Vec2Fx, width: int, height: int) -> Aabb {
    Aabb {
        min: Vec2Fx {
            x: vstd::math::max(
                vstd::math::min(vstd::math::min(s0.x as int, s1.x as int), s2.x as int),
                0,
            ) as i64,
            y: vstd::math::max(
                vstd::math::min(vstd::math::min(s0.y as int, s1.y as int), s2.y as int),
                0,
            ) as i64,
        },
        max: Vec2Fx {
            x: vstd::math::min(
                vstd::math::max(vstd::math::max(s0.x as int, s1.x as int), s2.x as int),
                (width - 1) * 65536,
            ) as i64,
            y: vstd::math::min(
                vstd::math::max(vstd::math::max(s0.y as int, s1.y as int), s2.y as int),
                (height - 1) * 65536,
            ) as i64,
        },
    }
}

impl Triangle {
    /// The three source vertices are within the attribute range.
    pub open spec fn vertices_wf(self) -> bool {
        &&& self.v0.wf()
        &&& self.v1.wf()
        &&& self.v2.wf()
    }

    /// A screen-mapped triangle the fragment stage can consume: bounded
    /// attributes, bounded reciprocals, bounded screen coordinates, and a
    /// total-area field that really is the edge function of its screen
    /// coordinates.
    pub open spec fn screen_wf(self) -> bool {
        &&& self.vertices_wf()
        &&& fx_abs(self.rec0 as int) <= FX_REC_MAX as int
        &&& fx_abs(self.rec1 as int) <= FX_REC_MAX as int
        &&& fx_abs(self.rec2 as int) <= FX_REC_MAX as int
        &&& self.ssc0.wf()
        &&& self.ssc1.wf()
        &&& self.ssc2.wf()
        &&& self.total_area as int == spec_edge(
            self.ssc0.x as int,
            self.ssc0.y as int,
            self.ssc1.x as int,
            self.ssc1.y as int,
            self.ssc2.x as int,
            self.ssc2.y as int,
        )
    }

    /// The bounding box is present and sits inside the target surface,
    /// which is what keeps the binning loops inside the tile grid.
    pub open spec fn aabb_wf(self, width: int, height: int) -> bool {
        match self.aabb {
            Some(bb) => {
                &&& 0 <= bb.min.x
                &&& 0 <= bb.min.y
                &&& bb.max.x <= (width - 1) * 65536
                &&& bb.max.y <= (height - 1) * 65536
                &&& fx_abs(bb.min.x as int) <= FX_VAL_MAX as int
                &&& fx_abs(bb.min.y as int) <= FX_VAL_MAX as int
                &&& fx_abs(bb.max.x as int) <= FX_VAL_MAX as int
                &&& fx_abs(bb.max.y as int) <= FX_VAL_MAX as int
            },
            None => false,
        }
    }

    /// A fresh triangle around three vertices, scratch fields zeroed.
    pub fn new(vertices: [Vertex; 3]) -> (r: Self)
        ensures
            r.v0 == vertices[0],
            r.v1 == vertices[1],
            r.v2 == vertices[2],
            r.rec0 == 0i64 && r.rec1 == 0i64 && r.rec2 == 0i64,
            r.ssc0 == (Vec2Fx { x: 0, y: 0 }),
            r.ssc1 == (Vec2Fx { x: 0, y: 0 }),
            r.ssc2 == (Vec2Fx { x: 0, y: 0 }),
            r.total_area == 0i64,
            r.aabb is None,
    {
        Triangle {
            v0: vertices[0],
            v1: vertices[1],
            v2: vertices[2],
            rec0: 0,
            rec1: 0,
            rec2: 0,
            ssc0: Vec2Fx { x: 0, y: 0 },
            ssc1: Vec2Fx { x: 0, y: 0 },
            ssc2: Vec2Fx { x: 0, y: 0 },
            total_area: 0,
            aabb: None,
        }
    }

    /// A copy with the vertices permuted.
    pub fn reorder(&self, order: VerticesOrder) -> (r: Triangle)
        ensures
            r == spec_reorder(*self, order),
    {
        match order {
            VerticesOrder::ABC => *self,
            VerticesOrder::ACB => Triangle { v0: self.v0, v1: self.v2, v2: self.v1, ..*self },
            VerticesOrder::BAC => Triangle { v0: self.v1, v1: self.v0, v2: self.v2, ..*self },
            VerticesOrder::BCA => Triangle { v0: self.v1, v1: self.v2, v2: self.v0, ..*self },
            VerticesOrder::CAB => Triangle { v0: self.v2, v1: self.v0, v2: self.v1, ..*self },
            VerticesOrder::CBA => Triangle { v0: self.v2, v1: self.v1, v2: self.v0, ..*self },
        }
    }

    /// The frustum rejection test against the six clip planes.
    pub fn cull_triangle_view_frustum(triangle: &Triangle) -> (r: bool)
        requires
            triangle.vertices_wf(),
        ensures
            r == spec_cull_frustum(*triangle),
    {
        let p0 = triangle.v0.position;
        let p1 = triangle.v1.position;
        let p2 = triangle.v2.position;
        if p0.x > p0.w && p1.x > p1.w && p2.x > p2.w {
            return true;
        }
        if p0.x < -p0.w && p1.x < -p1.w && p2.x < -p2.w {
            return true;
        }
        if p0.y > p0.w && p1.y > p1.w && p2.y > p2.w {
            return true;
        }
        if p0.y < -p0.w && p1.y < -p1.w && p2.y < -p2.w {
            return true;
        }
        if p0.z > p0.w && p1.z > p1.w && p2.z > p2.w {
            return true;
        }
        if p0.z < 0 && p1.z < 0 && p2.z < 0 {
            return true;
        }
        false
    }

    /// The view-space backface test on three positions.
    pub fn cull_triangle_backface(pos_0: &Vec4Fx, pos_1: &Vec4Fx, pos_2: &Vec4Fx) -> (r: bool)
        requires
            pos_0.wf(),
            pos_1.wf(),
            pos_2.wf(),
        ensures
            r == spec_backface(*pos_0, *pos_1, *pos_2),
    {
        let nx: i128 = cross_term(
            pos_1.y - pos_0.y,
            pos_2.z - pos_0.z,
            pos_1.z - pos_0.z,
            pos_2.y - pos_0.y,
        );
        let ny: i128 = cross_term(
            pos_1.z - pos_0.z,
            pos_2.x - pos_0.x,
            pos_1.x - pos_0.x,
            pos_2.z - pos_0.z,
        );
        let nz: i128 = cross_term(
            pos_1.x - pos_0.x,
            pos_2.y - pos_0.y,
            pos_1.y - pos_0.y,
            pos_2.x - pos_0.x,
        );
        let dot0: i128 = dot_normal(pos_0, nx, ny, nz);
        let dot1: i128 = dot_normal(pos_1, nx, ny, nz);
        let dot2: i128 = dot_normal(pos_2, nx, ny, nz);
        dot0 < 0 && dot1 < 0 && dot2 < 0
    }

    /// Clip a triangle whose first two vertices are behind the near plane
    /// into the single triangle that remains in front.
    pub fn clip_triangle_one(&self) -> (r: Triangle)
        requires
            self.vertices_wf(),
            spec_behind(self.v0),
            spec_behind(self.v1),
            !spec_behind(self.v2),
        ensures
            spec_single_clip_ok(r, self.v0, self.v1, self.v2),
            r.v0.wf(),
            r.v1.wf(),
            r.v2.wf(),
            r.rec0 == self.rec0 && r.rec1 == self.rec1 && r.rec2 == self.rec2,
            r.ssc0 == self.ssc0 && r.ssc1 == self.ssc1 && r.ssc2 == self.ssc2,
            r.total_area == self.total_area,
            r.aabb == self.aabb,
    {
        let v0z: i64 = self.v0.position.z;
        let v1z: i64 = self.v1.position.z;
        let v2z: i64 = self.v2.position.z;
        let alpha_a: i64 = clip_alpha(v0z, v2z);
        let alpha_b: i64 = clip_alpha(v1z, v2z);
        let mut nv0: Vertex = crate::render_utils::lerp(self.v0, self.v2, alpha_a);
        let mut nv1: Vertex = crate::render_utils::lerp(self.v1, self.v2, alpha_b);
        // Exact arithmetic would land the synthesized vertices exactly on
        // the near plane; pin the stored depth there.
        nv0.position.z = 0;
        nv1.position.z = 0;
        Triangle { v0: nv0, v1: nv1, v2: self.v2, ..*self }
    }

    /// Clip a triangle whose first vertex alone is behind the near plane
    /// into the two triangles that cover the remaining quad.
    pub fn clip_triangle_two(&self) -> (r: (Triangle, Triangle))
        requires
            self.vertices_wf(),
            spec_behind(self.v0),
            !spec_behind(self.v1),
            !spec_behind(self.v2),
        ensures
            spec_double_clip_ok(r.0, r.1, self.v0, self.v1, self.v2),
            r.0.v0.wf() && r.0.v1.wf() && r.0.v2.wf(),
            r.1.v0.wf() && r.1.v1.wf() && r.1.v2.wf(),
            r.0.rec0 == self.rec0 && r.0.rec1 == self.rec1 && r.0.rec2 == self.rec2,
            r.1.rec0 == self.rec0 && r.1.rec1 == self.rec1 && r.1.rec2 == self.rec2,
            r.0.total_area == self.total_area && r.1.total_area == self.total_area,
            r.0.aabb == self.aabb && r.1.aabb == self.aabb,
    {
        let v0z: i64 = self.v0.position.z;
        let v1z: i64 = self.v1.position.z;
        let v2z: i64 = self.v2.position.z;
        let alpha_a: i64 = clip_alpha(v0z, v1z);
        let alpha_b: i64 = clip_alpha(v0z, v2z);
        let mut v0_a: Vertex = crate::render_utils::lerp(self.v0, self.v1, alpha_a);
        let mut v0_b: Vertex = crate::render_utils::lerp(self.v0, self.v2, alpha_b);
        v0_a.position.z = 0;
        v0_b.position.z = 0;
        let mut result_a: Triangle = *self;
        let mut result_b: Triangle = *self;
        result_a.v0 = v0_a;
        result_b.v0 = v0_a;
        result_b.v1 = v0_b;
        (result_a, result_b)
    }

    /// Frustum rejection followed by near-plane clipping.
    ///
    /// The outcome's shape is a function of how many vertices lie behind
    /// the near plane: a frustum-rejected triangle (which includes all
    /// three behind) is dropped; none behind passes through unchanged;
    /// two behind yield one clipped triangle whose two synthesized
    /// vertices lie exactly on the plane; one behind yields two
    /// triangles covering the remaining quad, with the on-plane
    /// vertices shared as stated.
    pub fn clip_cull_triangle(tri: &Triangle) -> (res: ClipResult)
        requires
            tri.vertices_wf(),
        ensures
            (res is Clipped) <==> spec_cull_frustum(*tri),
            !spec_cull_frustum(*tri) ==> match res {
                ClipResult::Clipped => false,
                ClipResult::One(t) => {
                    &&& t.vertices_wf()
                    &&& if spec_behind_count(*tri) == 0 {
                        t == *tri
                    } else {
                        &&& spec_behind_count(*tri) == 2
                        &&& if !spec_behind(tri.v2) {
                            spec_single_clip_ok(t, tri.v0, tri.v1, tri.v2)
                        } else if !spec_behind(tri.v1) {
                            spec_single_clip_ok(t, tri.v0, tri.v2, tri.v1)
                        } else {
                            spec_single_clip_ok(t, tri.v1, tri.v2, tri.v0)
                        }
                    }
                },
                ClipResult::Two(pair) => {
                    &&& pair.0.vertices_wf()
                    &&& pair.1.vertices_wf()
                    &&& spec_behind_count(*tri) == 1
                    &&& if spec_behind(tri.v0) {
                        spec_double_clip_ok(pair.0, pair.1, tri.v0, tri.v2, tri.v1)
                    } else if spec_behind(tri.v1) {
                        spec_double_clip_ok(pair.0, pair.1, tri.v1, tri.v0, tri.v2)
                    } else {
                        spec_double_clip_ok(pair.0, pair.1, tri.v2, tri.v1, tri.v0)
                    }
                },
            },
    {
        if Self::cull_triangle_view_frustum(tri) {
            ClipResult::Clipped
        } else {
            if tri.v0.position.z < 0 {
                if tri.v1.position.z < 0 {
                    ClipResult::One(Self::clip_triangle_one(tri))
                } else if tri.v2.position.z < 0 {
                    ClipResult::One(Self::clip_triangle_one(&tri.reorder(VerticesOrder::ACB)))
                } else {
                    ClipResult::Two(Self::clip_triangle_two(&tri.reorder(VerticesOrder::ACB)))
                }
            } else if tri.v1.position.z < 0 {
                if tri.v2.position.z < 0 {
                    ClipResult::One(Self::clip_triangle_one(&tri.reorder(VerticesOrder::BCA)))
                } else {
                    ClipResult::Two(Self::clip_triangle_two(&tri.reorder(VerticesOrder::BAC)))
                }
            } else if tri.v2.position.z < 0 {
                ClipResult::Two(Self::clip_triangle_two(&tri.reorder(VerticesOrder::CBA)))
            } else {
                ClipResult::One(*tri)
            }
        }
    }

    /// Compute and store the clamped screen bounding box of three screen
    /// points.
    pub fn calc_aabb(&mut self, vertices: [Vec2Fx; 3], viewport: &Viewport)
        requires
            vertices[0].wf(),
            vertices[1].wf(),
            vertices[2].wf(),
            viewport.wf(),
        ensures
            final(self).aabb == Some(
                spec_aabb_of(
                    vertices[0],
                    vertices[1],
                    vertices[2],
                    viewport.width as int,
                    viewport.height as int,
                ),
            ),
            final(self).aabb_wf(viewport.width as int, viewport.height as int),
            final(self).v0 == old(self).v0 && final(self).v1 == old(self).v1 && final(self).v2
                == old(self).v2,
            final(self).rec0 == old(self).rec0 && final(self).rec1 == old(self).rec1,
            final(self).rec2 == old(self).rec2,
            final(self).ssc0 == old(self).ssc0 && final(self).ssc1 == old(self).ssc1,
            final(self).ssc2 == old(self).ssc2,
            final(self).total_area == old(self).total_area,
    {
        let min_x: i64 = max_i64(min_i64(min_i64(vertices[0].x, vertices[1].x), vertices[2].x), 0);
        let min_y: i64 = max_i64(min_i64(min_i64(vertices[0].y, vertices[1].y), vertices[2].y), 0);
        let max_x: i64 = min_i64(
            max_i64(max_i64(vertices[0].x, vertices[1].x), vertices[2].x),
            (viewport.width as i64 - 1) * FX_ONE,
        );
        let max_y: i64 = min_i64(
            max_i64(max_i64(vertices[0].y, vertices[1].y), vertices[2].y),
            (viewport.height as i64 - 1) * FX_ONE,
        );
        self.aabb = Some(
            Aabb { min: Vec2Fx { x: min_x, y: min_y }, max: Vec2Fx { x: max_x, y: max_y } },
        );
    }

    /// Perspective divide, screen mapping, total area and bounding box:
    /// the stage between clipping and binning.
    ///
    /// Screen coordinates saturate at the pipeline's ±4096-pixel range;
    /// geometry projecting further off-screen is cut at that guard band.
    pub fn triangle_to_screen(triangle: &Triangle, viewport: &Viewport) -> (tri: Triangle)
        requires
            triangle.vertices_wf(),
            triangle.v0.position.w != 0,
            triangle.v1.position.w != 0,
            triangle.v2.position.w != 0,
            viewport.wf(),
        ensures
            spec_screen_mapped(tri, *triangle, *viewport),
            tri.screen_wf(),
            tri.aabb_wf(viewport.width as int, viewport.height as int),
    {
        let mut tri: Triangle = *triangle;

        let rec0: i64 = fx_div(FX_ONE, tri.v0.position.w);
        let rec1: i64 = fx_div(FX_ONE, tri.v1.position.w);
        let rec2: i64 = fx_div(FX_ONE, tri.v2.position.w);

        let ndc0: Vertex = ndc_vertex(&tri.v0, rec0);
        let ndc1: Vertex = ndc_vertex(&tri.v1, rec1);
        let ndc2: Vertex = ndc_vertex(&tri.v2, rec2);

        let wfx: i64 = (viewport.width as i64) * FX_ONE;
        let hfx: i64 = (viewport.height as i64) * FX_ONE;

        let sc0 = Vec2Fx {
            x: clamp_val(map_to_range(ndc0.position.x, -FX_ONE, FX_ONE, 0, wfx)),
            y: clamp_val(map_to_range(-ndc0.position.y, -FX_ONE, FX_ONE, 0, hfx)),
        };
        let sc1 = Vec2Fx {
            x: clamp_val(map_to_range(ndc1.position.x, -FX_ONE, FX_ONE, 0, wfx)),
            y: clamp_val(map_to_range(-ndc1.position.y, -FX_ONE, FX_ONE, 0, hfx)),
        };
        let sc2 = Vec2Fx {
            x: clamp_val(map_to_range(ndc2.position.x, -FX_ONE, FX_ONE, 0, wfx)),
            y: clamp_val(map_to_range(-ndc2.position.y, -FX_ONE, FX_ONE, 0, hfx)),
        };

        tri.calc_aabb([sc0, sc1, sc2], viewport);
        let total_area: i64 = edge_fun(sc0, sc1, sc2);

        tri.v0 = ndc0;
        tri.v1 = ndc1;
        tri.v2 = ndc2;

        tri.rec0 = rec0;
        tri.rec1 = rec1;
        tri.rec2 = rec2;

        tri.ssc0 = sc0;
        tri.ssc1 = sc1;
        tri.ssc2 = sc2;

        tri.total_area = total_area;

        tri
    }

    /// Clip, cull and screen-map one triangle.
    ///
    /// A clipped output vertex whose interpolated w lands exactly at zero
    /// would have no perspective divide; such degenerate survivors are
    /// dropped rather than divided by zero.
    pub fn render_triangle(&self, viewport: &Viewport) -> (res: ClipResult)
        requires
            self.vertices_wf(),
            viewport.wf(),
        ensures
            (res is Clipped) <==> (spec_cull_frustum(*self) || !spec_clip_w_ok(*self)),
            (res is One) <==> (!spec_cull_frustum(*self) && spec_clip_w_ok(*self)
                && spec_behind_count(*self) != 1),
            (res is Two) <==> (!spec_cull_frustum(*self) && spec_clip_w_ok(*self)
                && spec_behind_count(*self) == 1),
            match res {
                ClipResult::Clipped => true,
                ClipResult::One(t) => {
                    &&& t.screen_wf()
                    &&& t.aabb_wf(viewport.width as int, viewport.height as int)
                    &&& spec_render_one_ok(t, *self, *viewport)
                    &&& spec_behind_count(*self) == 2 ==> t.v0.position.z == 0
                        && t.v1.position.z == 0
                },
                ClipResult::Two(pair) => {
                    &&& pair.0.screen_wf()
                    &&& pair.1.screen_wf()
                    &&& pair.0.aabb_wf(viewport.width as int, viewport.height as int)
                    &&& pair.1.aabb_wf(viewport.width as int, viewport.height as int)
                    &&& spec_render_two_ok(pair.0, pair.1, *self, *viewport)
                    &&& pair.0.v0.position.z == 0 && pair.1.v0.position.z == 0
                        && pair.1.v1.position.z == 0
                },
            },
    {
        match Self::clip_cull_triangle(self) {
            ClipResult::Clipped => ClipResult::Clipped,
            ClipResult::One(tri) => {
                if tri.v0.position.w != 0 && tri.v1.position.w != 0 && tri.v2.position.w != 0 {
                    let mapped: Triangle = Self::triangle_to_screen(&tri, viewport);
                    proof {
                        if spec_behind_count(*self) == 2 {
                            lemma_ndc_of_zero_is_zero(tri.v0.position.z as int, mapped.rec0 as int);
                            lemma_ndc_of_zero_is_zero(tri.v1.position.z as int, mapped.rec1 as int);
                            assert(spec_screen_mapped(mapped, tri, *viewport) && (
                            if !spec_behind(self.v2) {
                                spec_single_clip_ok(tri, self.v0, self.v1, self.v2)
                            } else if !spec_behind(self.v1) {
                                spec_single_clip_ok(tri, self.v0, self.v2, self.v1)
                            } else {
                                spec_single_clip_ok(tri, self.v1, self.v2, self.v0)
                            }));
                        } else {
                            assert(tri == *self);
                        }
                        assert(spec_clip_w_ok(*self));
                    }
                    ClipResult::One(mapped)
                } else {
                    proof {
                        assert(!spec_clip_w_ok(*self));
                    }
                    ClipResult::Clipped
                }
            },
            ClipResult::Two(tri) => {
                if tri.0.v0.position.w != 0 && tri.0.v1.position.w != 0 && tri.0.v2.position.w != 0
                    && tri.1.v0.position.w != 0 && tri.1.v1.position.w != 0
                    && tri.1.v2.position.w != 0 {
                    let mapped_a: Triangle = Self::triangle_to_screen(&tri.0, viewport);
                    let mapped_b: Triangle = Self::triangle_to_screen(&tri.1, viewport);
                    proof {
                        lemma_ndc_of_zero_is_zero(tri.0.v0.position.z as int, mapped_a.rec0 as int);
                        lemma_ndc_of_zero_is_zero(tri.1.v0.position.z as int, mapped_b.rec0 as int);
                        lemma_ndc_of_zero_is_zero(tri.1.v1.position.z as int, mapped_b.rec1 as int);
                        assert(spec_screen_mapped(mapped_a, tri.0, *viewport) && spec_screen_mapped(
                            mapped_b,
                            tri.1,
                            *viewport,
                        ) && (if spec_behind(self.v0) {
                            spec_double_clip_ok(tri.0, tri.1, self.v0, self.v2, self.v1)
                        } else if spec_behind(self.v1) {
                            spec_double_clip_ok(tri.0, tri.1, self.v1, self.v0, self.v2)
                        } else {
                            spec_double_clip_ok(tri.0, tri.1, self.v2, self.v1, self.v0)
                        }));
                        assert(spec_clip_w_ok(*self));
                    }
                    ClipResult::Two((mapped_a, mapped_b))
                } else {
                    proof {
                        assert(!spec_clip_w_ok(*self));
                    }
                    ClipResult::Clipped
                }
            },
        }
    }
}

/// A vertex exactly on the near plane stays there through the
/// perspective divide: zero times any reciprocal is zero.
proof fn lemma_ndc_of_zero_is_zero(z: int, rec: int)
    requires
        z == 0,
    ensures
        spec_clamp_val(spec_fx_mul(z, rec)) == 0,
{
    assert(z * rec == 0) by (nonlinear_arith)
        requires
            z == 0,
    ;
    crate::fx::lemma_rdiv_quot_bound(z * rec, 65536, 0);
}

/// The interpolation parameter carrying depth `za < 0` onto the plane
/// towards `zb >= 0`, always in `[0, 1]`.
fn clip_alpha(za: i64, zb: i64) -> (r: i64)
    requires
        fx_abs(za as int) <= FX_VAL_MAX as int,
        fx_abs(zb as int) <= FX_VAL_MAX as int,
        za < 0,
        zb >= 0,
    ensures
        r as int == spec_alpha(za as int, zb as int),
        0 <= r <= FX_ONE,
{
    proof {
        crate::fx::lemma_rdiv_quot_bound(
            (-za as int) * 65536,
            (zb - za) as int,
            65536,
        );
        assert(((-za as int) * 65536) * ((zb - za) as int) >= 0) by (nonlinear_arith)
            requires
                (-za as int) * 65536 >= 0,
                (zb - za) as int > 0,
        ;
        crate::fx::lemma_rdiv_nonneg((-za as int) * 65536, (zb - za) as int);
    }
    fx_div(-za, zb - za)
}

/// One cross-product term `a * b - c * d` on attribute-sized operands.
fn cross_term(a: i64, b: i64, c: i64, d: i64) -> (r: i128)
    requires
        fx_abs(a as int) <= 0x20000000,
        fx_abs(b as int) <= 0x20000000,
        fx_abs(c as int) <= 0x20000000,
        fx_abs(d as int) <= 0x20000000,
    ensures
        r as int == (a as int) * (b as int) - (c as int) * (d as int),
        fx_abs(r as int) <= 0x800000000000000,
{
    proof {
        crate::fx::lemma_mag_mul_bound(a as int, b as int, 0x20000000, 0x20000000);
        crate::fx::lemma_mag_mul_bound(c as int, d as int, 0x20000000, 0x20000000);
    }
    wide_mul(a, b) - wide_mul(c, d)
}

/// The dot product of a position with a (wide) normal vector.
fn dot_normal(p: &Vec4Fx, nx: i128, ny: i128, nz: i128) -> (r: i128)
    requires
        p.wf(),
        fx_abs(nx as int) <= 0x800000000000000,
        fx_abs(ny as int) <= 0x800000000000000,
        fx_abs(nz as int) <= 0x800000000000000,
    ensures
        r as int == (p.x as int) * (nx as int) + (p.y as int) * (ny as int) + (p.z as int) * (
        nz as int),
{
    proof {
        crate::fx::lemma_mag_mul_bound(p.x as int, nx as int, 0x10000000, 0x800000000000000);
        crate::fx::lemma_mag_mul_bound(p.y as int, ny as int, 0x10000000, 0x800000000000000);
        crate::fx::lemma_mag_mul_bound(p.z as int, nz as int, 0x10000000, 0x800000000000000);
    }
    (p.x as i128) * nx + (p.y as i128) * ny + (p.z as i128) * nz
}

/// One vertex through the perspective divide.
fn ndc_vertex(v: &Vertex, rec: i64) -> (r: Vertex)
    requires
        v.wf(),
        fx_abs(rec as int) <= FX_REC_MAX as int,
    ensures
        spec_ndc_vertex(r, *v, rec as int),
        r.wf(),
{
    proof {
        crate::fx::lemma_mag_mul_bound(v.position.x as int, rec as int, 0x10000000, 0x100000000);
        crate::fx::lemma_mag_mul_bound(v.position.y as int, rec as int, 0x10000000, 0x100000000);
        crate::fx::lemma_mag_mul_bound(v.position.z as int, rec as int, 0x10000000, 0x100000000);
        crate::fx::lemma_mag_mul_bound(v.position.w as int, rec as int, 0x10000000, 0x100000000);
    }
    Vertex {
        position: Vec4Fx {
            x: clamp_val(crate::fx::fx_mul(v.position.x, rec)),
            y: clamp_val(crate::fx::fx_mul(v.position.y, rec)),
            z: clamp_val(crate::fx::fx_mul(v.position.z, rec)),
            w: clamp_val(crate::fx::fx_mul(v.position.w, rec)),
        },
        normal: v.normal,
        color: v.color,
        uv: v.uv,
    }
}


/// The input triangle the geometry stage builds from index triple `k`:
/// three vertex copies with zeroed scratch fields.
pub open spec fn spec_mesh_tri(verts: Seq<Vertex>, indices: Seq<u32>, k: int) -> Triangle {
    Triangle {
        v0: verts[indices[3 * k] as int],
        v1: verts[indices[3 * k + 1] as int],
        v2: verts[indices[3 * k + 2] as int],
        rec0: 0,
        rec1: 0,
        rec2: 0,
        ssc0: Vec2Fx { x: 0, y: 0 },
        ssc1: Vec2Fx { x: 0, y: 0 },
        ssc2: Vec2Fx { x: 0, y: 0 },
        total_area: 0,
        aabb: None,
    }
}

/// Whether index triple `k` passes the view-space backface test.
pub open spec fn spec_mesh_faces(views: Seq<Vec4Fx>, indices: Seq<u32>, k: int) -> bool {
    spec_backface(
        views[indices[3 * k] as int],
        views[indices[3 * k + 1] as int],
        views[indices[3 * k + 2] as int],
    )
}

/// How many screen triangles index triple `k` contributes: none when it
/// faces away, is frustum-rejected or loses a surviving vertex's w; two
/// when exactly one vertex is behind the near plane; one otherwise.
pub open spec fn spec_mesh_chunk(
    verts: Seq<Vertex>,
    views: Seq<Vec4Fx>,
    indices: Seq<u32>,
    k: int,
) -> int {
    if !spec_mesh_faces(views, indices, k) {
        0
    } else {
        let t = spec_mesh_tri(verts, indices, k);
        if spec_cull_frustum(t) || !spec_clip_w_ok(t) {
            0
        } else if spec_behind_count(t) == 1 {
            2
        } else {
            1
        }
    }
}

/// Where index triple `k`'s contribution starts in the geometry stage's
/// output: the sum of the chunks before it.
pub open spec fn spec_mesh_offset(
    verts: Seq<Vertex>,
    views: Seq<Vec4Fx>,
    indices: Seq<u32>,
    k: int,
) -> int
    decreases k,
{
    if k <= 0 {
        0
    } else {
        spec_mesh_offset(verts, views, indices, k - 1) + spec_mesh_chunk(
            verts,
            views,
            indices,
            k - 1,
        )
    }
}

/// Offsets grow with the triple index, by at most two per triple.
pub proof fn lemma_mesh_offset_mono(
    verts: Seq<Vertex>,
    views: Seq<Vec4Fx>,
    indices: Seq<u32>,
    j: int,
    k: int,
)
    requires
        0 <= j <= k,
    ensures
        spec_mesh_offset(verts, views, indices, j) <= spec_mesh_offset(verts, views, indices, k),
        spec_mesh_offset(verts, views, indices, k) <= spec_mesh_offset(verts, views, indices, j)
            + 2 * (k - j),
    decreases k - j,
{
    if j < k {
        lemma_mesh_offset_mono(verts, views, indices, j, k - 1);
    }
}

/// The geometry stage's per-triangle loop: walk the index buffer in
/// triples, keep the triangles whose view-space winding faces the camera,
/// and run each survivor through near-plane clipping and screen mapping.
///
/// The host supplies attributes already transformed to clip space and the
/// matching view-space positions used by the backface test.  The output
/// is the in-order concatenation of each triple's contribution: nothing
/// for a facing-away, frustum-rejected or w-degenerate triangle, the one
/// screen-mapped clip result for a zero- or two-behind triangle, and the
/// two screen-mapped clip results for a one-behind triangle.
/// Appending to the geometry stage's output disturbs no earlier
/// triple's recorded contribution.
proof fn lemma_mesh_prefix_stable(
    verts: Seq<Vertex>,
    views: Seq<Vec4Fx>,
    indices: Seq<u32>,
    vp: Viewport,
    pre: Seq<Triangle>,
    cur: Seq<Triangle>,
    k: int,
)
    requires
        0 <= k,
        pre.len() == spec_mesh_offset(verts, views, indices, k),
        pre.len() <= cur.len(),
        forall|idx: int| 0 <= idx < pre.len() ==> cur[idx] == pre[idx],
        forall|j: int|
            0 <= j < k ==> {
                let base = spec_mesh_offset(verts, views, indices, j);
                let t_in = spec_mesh_tri(verts, indices, j);
                &&& ((#[trigger] spec_mesh_chunk(verts, views, indices, j)) == 1
                    ==> spec_render_one_ok(pre[base], t_in, vp))
                &&& (spec_mesh_chunk(verts, views, indices, j) == 2 ==> spec_render_two_ok(
                    pre[base],
                    pre[base + 1],
                    t_in,
                    vp,
                ))
            },
    ensures
        forall|j: int|
            0 <= j < k ==> {
                let base = spec_mesh_offset(verts, views, indices, j);
                let t_in = spec_mesh_tri(verts, indices, j);
                &&& ((#[trigger] spec_mesh_chunk(verts, views, indices, j)) == 1
                    ==> spec_render_one_ok(cur[base], t_in, vp))
                &&& (spec_mesh_chunk(verts, views, indices, j) == 2 ==> spec_render_two_ok(
                    cur[base],
                    cur[base + 1],
                    t_in,
                    vp,
                ))
            },
{
    assert forall|j: int| 0 <= j < k implies {
        let base = spec_mesh_offset(verts, views, indices, j);
        let t_in = spec_mesh_tri(verts, indices, j);
        &&& ((#[trigger] spec_mesh_chunk(verts, views, indices, j)) == 1 ==> spec_render_one_ok(
            cur[base],
            t_in,
            vp,
        ))
        &&& (spec_mesh_chunk(verts, views, indices, j) == 2 ==> spec_render_two_ok(
            cur[base],
            cur[base + 1],
            t_in,
            vp,
        ))
    } by {
        lemma_mesh_offset_mono(verts, views, indices, j + 1, k);
        lemma_mesh_offset_mono(verts, views, indices, 0, j);
        if spec_mesh_chunk(verts, views, indices, j) >= 1 {
            assert(cur[spec_mesh_offset(verts, views, indices, j)] == pre[spec_mesh_offset(
                verts,
                views,
                indices,
                j,
            )]);
        }
        if spec_mesh_chunk(verts, views, indices, j) == 2 {
            assert(cur[spec_mesh_offset(verts, views, indices, j) + 1] == pre[spec_mesh_offset(
                verts,
                views,
                indices,
                j,
            ) + 1]);
        }
    }
}

/// Handle one index triple for the geometry stage: run the backface
/// test and, for a facing triangle, append what clipping and screen
/// mapping leave of it.
fn submit_one_triple(
    out: &mut Vec<Triangle>,
    vertices: &Vec<Vertex>,
    view_positions: &Vec<Vec4Fx>,
    indices: &Vec<u32>,
    viewport: &Viewport,
    k: usize,
)
    requires
        vertices@.len() == view_positions@.len(),
        forall|i: int| 0 <= i < vertices@.len() ==> (#[trigger] vertices@[i]).wf(),
        forall|i: int| 0 <= i < view_positions@.len() ==> (#[trigger] view_positions@[i]).wf(),
        forall|i: int| 0 <= i < indices@.len() ==> (#[trigger] indices@[i]) < vertices@.len(),
        viewport.wf(),
        3 * k + 2 < indices@.len(),
        old(out)@.len() == spec_mesh_offset(vertices@, view_positions@, indices@, k as int),
    ensures
        final(out)@.len() == spec_mesh_offset(
            vertices@,
            view_positions@,
            indices@,
            k as int + 1,
        ),
        forall|idx: int| 0 <= idx < old(out)@.len() ==> final(out)@[idx] == old(out)@[idx],
        forall|t: int|
            old(out)@.len() <= t < final(out)@.len() ==> (#[trigger] final(out)@[t]).screen_wf()
                && final(out)@[t].aabb_wf(viewport.width as int, viewport.height as int),
        spec_mesh_chunk(vertices@, view_positions@, indices@, k as int) == 1
            ==> spec_render_one_ok(
            final(out)@[old(out)@.len() as int],
            spec_mesh_tri(vertices@, indices@, k as int),
            *viewport,
        ),
        spec_mesh_chunk(vertices@, view_positions@, indices@, k as int) == 2
            ==> spec_render_two_ok(
            final(out)@[old(out)@.len() as int],
            final(out)@[old(out)@.len() as int + 1],
            spec_mesh_tri(vertices@, indices@, k as int),
            *viewport,
        ),
{
    let n: usize = indices.len();
    let i: usize = 3 * k;
    let i0: usize = indices[i] as usize;
    let i1: usize = indices[i + 1] as usize;
    let i2: usize = indices[i + 2] as usize;

    // Triangles whose view-space normal does not face every view
    // direction are discarded before clipping.
    if Triangle::cull_triangle_backface(
        &view_positions[i0],
        &view_positions[i1],
        &view_positions[i2],
    ) {
        let tri = Triangle::new([vertices[i0], vertices[i1], vertices[i2]]);
        proof {
            assert(tri == spec_mesh_tri(vertices@, indices@, k as int));
        }
        match Triangle::render_triangle(&tri, viewport) {
            ClipResult::Clipped => {
                proof {
                    assert(spec_mesh_chunk(vertices@, view_positions@, indices@, k as int) == 0);
                }
            },
            ClipResult::One(t) => {
                out.push(t);
                proof {
                    assert(spec_mesh_chunk(vertices@, view_positions@, indices@, k as int) == 1);
                }
            },
            ClipResult::Two(pair) => {
                out.push(pair.0);
                out.push(pair.1);
                proof {
                    assert(spec_mesh_chunk(vertices@, view_positions@, indices@, k as int) == 2);
                }
            },
        }
    } else {
        proof {
            assert(spec_mesh_chunk(vertices@, view_positions@, indices@, k as int) == 0);
        }
    }
}

/// The geometry stage's per-triangle loop: walk the index buffer in
/// triples, keep the triangles whose view-space winding faces the camera,
/// and run each survivor through near-plane clipping and screen mapping.
///
/// The host supplies attributes already transformed to clip space and the
/// matching view-space positions used by the backface test.  The output
/// is the in-order concatenation of each triple's contribution: nothing
/// for a facing-away, frustum-rejected or w-degenerate triangle, the one
/// screen-mapped clip result for a zero- or two-behind triangle, and the
/// two screen-mapped clip results for a one-behind triangle.
pub fn submit_mesh_triangles(
    vertices: &Vec<Vertex>,
    view_positions: &Vec<Vec4Fx>,
    indices: &Vec<u32>,
    viewport: &Viewport,
) -> (out: Vec<Triangle>)
    requires
        vertices@.len() == view_positions@.len(),
        forall|i: int| 0 <= i < vertices@.len() ==> (#[trigger] vertices@[i]).wf(),
        forall|i: int| 0 <= i < view_positions@.len() ==> (#[trigger] view_positions@[i]).wf(),
        forall|i: int| 0 <= i < indices@.len() ==> (#[trigger] indices@[i]) < vertices@.len(),
        viewport.wf(),
    ensures
        out@.len() == spec_mesh_offset(
            vertices@,
            view_positions@,
            indices@,
            indices@.len() as int / 3,
        ),
        forall|t: int|
            0 <= t < out@.len() ==> (#[trigger] out@[t]).screen_wf() && out@[t].aabb_wf(
                viewport.width as int,
                viewport.height as int,
            ),
        forall|k: int|
            0 <= k < indices@.len() as int / 3 ==> {
                let base = spec_mesh_offset(vertices@, view_positions@, indices@, k);
                let t_in = spec_mesh_tri(vertices@, indices@, k);
                &&& ((#[trigger] spec_mesh_chunk(vertices@, view_positions@, indices@, k)) == 1
                    ==> spec_render_one_ok(out@[base], t_in, *viewport))
                &&& (spec_mesh_chunk(vertices@, view_positions@, indices@, k) == 2
                    ==> spec_render_two_ok(out@[base], out@[base + 1], t_in, *viewport))
            },
{
    let mut out: Vec<Triangle> = Vec::new();
    let n: usize = indices.len();
    let n_tris: usize = n / 3;
    let mut k: usize = 0;
    while k < n_tris
        invariant
            0 <= k <= n_tris,
            n == indices@.len(),
            n_tris == n as int / 3,
            vertices@.len() == view_positions@.len(),
            forall|j: int| 0 <= j < vertices@.len() ==> (#[trigger] vertices@[j]).wf(),
            forall|j: int|
                0 <= j < view_positions@.len() ==> (#[trigger] view_positions@[j]).wf(),
            forall|j: int| 0 <= j < indices@.len() ==> (#[trigger] indices@[j]) < vertices@.len(),
            viewport.wf(),
            out@.len() == spec_mesh_offset(vertices@, view_positions@, indices@, k as int),
            forall|t: int|
                0 <= t < out@.len() ==> (#[trigger] out@[t]).screen_wf() && out@[t].aabb_wf(
                    viewport.width as int,
                    viewport.height as int,
                ),
            forall|j: int|
                0 <= j < k ==> {
                    let base = spec_mesh_offset(vertices@, view_positions@, indices@, j);
                    let t_in = spec_mesh_tri(vertices@, indices@, j);
                    &&& ((#[trigger] spec_mesh_chunk(vertices@, view_positions@, indices@, j))
                        == 1 ==> spec_render_one_ok(out@[base], t_in, *viewport))
                    &&& (spec_mesh_chunk(vertices@, view_positions@, indices@, j) == 2
                        ==> spec_render_two_ok(out@[base], out@[base + 1], t_in, *viewport))
                },
        decreases n_tris - k,
    {
        proof {
            vstd::arithmetic::div_mod::lemma_fundamental_div_mod(n as int, 3);
            assert(3 * (k as int) + 2 < n);
        }
        let ghost pre_out: Seq<Triangle> = out@;
        submit_one_triple(&mut out, vertices, view_positions, indices, viewport, k);
        proof {
            lemma_mesh_prefix_stable(
                vertices@,
                view_positions@,
                indices@,
                *viewport,
                pre_out,
                out@,
                k as int,
            );
        }
        k = k + 1;
    }
    out
}

} // verus!
