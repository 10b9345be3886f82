//! Fragment shading: per-pixel coverage, perspective-correct
//! interpolation, the depth test, and one pixel program per render mode.
//!
//! Every program shares the same skeleton: evaluate the three edge
//! functions at the pixel center, compute barycentric weights and the
//! interpolated depth, test against the depth buffer, and only then
//! compute and write a color.

use vstd::prelude::*;

use crate::fx::{
    fx_abs, fx_div, fx_mul, fx_mul_wide, fx255_byte, rdiv_i128, spec_fx_div, spec_fx_mul,
    spec_fx255_byte, spec_rdiv, FX_ONE, FX_REC_MAX, FX_VAL_MAX,
};
use crate::material::Material;
use crate::render_mode::RenderMode;
use crate::render_utils::{
    argb8_to_u32, barycentric_coordinates, edge_fun, spec_bary, spec_edge, spec_inside,
    spec_pack_argb,
};
use crate::sampler::{spec_clamp_to_edge, spec_wrap, wrap_uv, Sampler};
use crate::texture::{spec_texel, Texture};
use crate::triangle::Triangle;
use crate::vecmath::{Vec2Fx, Vec3Fx};

verus! {

/// The ambient light factor for the color channels: 0.2 in fixed point.
pub const AMBIENT_FX: i64 = 13107;

/// The ambient factor for the alpha channel.
pub const AMBIENT_ALPHA_FX: i64 = 65536;

/// Each component of the negated light direction: the fixed light is the
/// normalized (-1, -1, -1), so shading dots normals with (1, 1, 1)/sqrt(3).
pub const LIGHT_FX: i64 = 37837;

/// Pi in 16.16 fixed point, the period of the Error pattern.
pub const PI_FX: i64 = 205887;

/// `PI_FX` squared, the denominator of the quadratic sine approximation.
pub const PI_SQ_FX: i64 = 42389456769;

/// The flat overlay color of the Aabb debug mode.
pub const AABB_DEBUG_COLOR: u32 = 0xFF0000FF;

/// First barycentric weight of a pixel against a screen triangle.
pub open spec fn spec_l0(t: Triangle, px: int, py: int) -> int {
    spec_bary(
        spec_edge(px, py, t.ssc1.x as int, t.ssc1.y as int, t.ssc2.x as int, t.ssc2.y as int),
        t.total_area as int,
    )
}

/// Second barycentric weight.
pub open spec fn spec_l1(t: Triangle, px: int, py: int) -> int {
    spec_bary(
        spec_edge(px, py, t.ssc2.x as int, t.ssc2.y as int, t.ssc0.x as int, t.ssc0.y as int),
        t.total_area as int,
    )
}

/// Third barycentric weight.
pub open spec fn spec_l2(t: Triangle, px: int, py: int) -> int {
    spec_bary(
        spec_edge(px, py, t.ssc0.x as int, t.ssc0.y as int, t.ssc1.x as int, t.ssc1.y as int),
        t.total_area as int,
    )
}

/// Whether a pixel center is covered by the triangle under the
/// winding-consistent sign test.
pub open spec fn spec_covered(t: Triangle, px: int, py: int) -> bool {
    spec_inside(
        px,
        py,
        t.ssc0.x as int,
        t.ssc0.y as int,
        t.ssc1.x as int,
        t.ssc1.y as int,
        t.ssc2.x as int,
        t.ssc2.y as int,
    )
}

/// The interpolated depth: plain barycentric interpolation of NDC z.
pub open spec fn spec_frag_depth(t: Triangle, px: int, py: int) -> int {
    spec_fx_mul(spec_l0(t, px, py), t.v0.position.z as int) + spec_fx_mul(
        spec_l1(t, px, py),
        t.v1.position.z as int,
    ) + spec_fx_mul(spec_l2(t, px, py), t.v2.position.z as int)
}

/// The perspective-correction denominator: the interpolated reciprocal-w.
pub open spec fn spec_frag_csum(t: Triangle, px: int, py: int) -> int {
    spec_fx_mul(spec_l0(t, px, py), t.rec0 as int) + spec_fx_mul(
        spec_l1(t, px, py),
        t.rec1 as int,
    ) + spec_fx_mul(spec_l2(t, px, py), t.rec2 as int)
}

/// A perspective-correct interpolated attribute: each vertex value scaled
/// by its reciprocal-w, blended by the barycentric weights, and divided
/// by the interpolated reciprocal-w.
pub open spec fn spec_interp(t: Triangle, px: int, py: int, a0: int, a1: int, a2: int) -> int {
    spec_fx_mul(
        spec_fx_mul(spec_l0(t, px, py), spec_fx_mul(a0, t.rec0 as int)) + spec_fx_mul(
            spec_l1(t, px, py),
            spec_fx_mul(a1, t.rec1 as int),
        ) + spec_fx_mul(spec_l2(t, px, py), spec_fx_mul(a2, t.rec2 as int)),
        spec_fx_div(65536, spec_frag_csum(t, px, py)),
    )
}

/// The VertexColor pixel: interpolated vertex color times 255.
pub open spec fn spec_color_vertex_col(t: Triangle, px: int, py: int) -> int {
    spec_pack_argb(
        255,
        spec_fx255_byte(
            spec_interp(t, px, py, t.v0.color.x as int, t.v1.color.x as int, t.v2.color.x as int),
        ),
        spec_fx255_byte(
            spec_interp(t, px, py, t.v0.color.y as int, t.v1.color.y as int, t.v2.color.y as int),
        ),
        spec_fx255_byte(
            spec_interp(t, px, py, t.v0.color.z as int, t.v1.color.z as int, t.v2.color.z as int),
        ),
    )
}

/// The Uv pixel: interpolated uv clamped to `[0, 1]` as red and green.
pub open spec fn spec_color_uv(t: Triangle, px: int, py: int) -> int {
    spec_pack_argb(
        255,
        spec_fx255_byte(
            spec_clamp_to_edge(
                spec_interp(t, px, py, t.v0.uv.x as int, t.v1.uv.x as int, t.v2.uv.x as int),
            ),
        ),
        spec_fx255_byte(
            spec_clamp_to_edge(
                spec_interp(t, px, py, t.v0.uv.y as int, t.v1.uv.y as int, t.v2.uv.y as int),
            ),
        ),
        0,
    )
}

/// The Normal pixel: interpolated normal remapped from `[-1, 1]` to
/// `[0, 1]`.
pub open spec fn spec_color_normal(t: Triangle, px: int, py: int) -> int {
    spec_pack_argb(
        255,
        spec_fx255_byte(
            spec_fx_mul(
                spec_interp(
                    t,
                    px,
                    py,
                    t.v0.normal.x as int,
                    t.v1.normal.x as int,
                    t.v2.normal.x as int,
                ),
                32768,
            ) + 32768,
        ),
        spec_fx255_byte(
            spec_fx_mul(
                spec_interp(
                    t,
                    px,
                    py,
                    t.v0.normal.y as int,
                    t.v1.normal.y as int,
                    t.v2.normal.y as int,
                ),
                32768,
            ) + 32768,
        ),
        spec_fx255_byte(
            spec_fx_mul(
                spec_interp(
                    t,
                    px,
                    py,
                    t.v0.normal.z as int,
                    t.v1.normal.z as int,
                    t.v2.normal.z as int,
                ),
                32768,
            ) + 32768,
        ),
    )
}

/// The Bary pixel: the raw barycentric weights as color.
pub open spec fn spec_color_bary(t: Triangle, px: int, py: int) -> int {
    spec_pack_argb(
        255,
        spec_fx255_byte(spec_l0(t, px, py)),
        spec_fx255_byte(spec_l1(t, px, py)),
        spec_fx255_byte(spec_l2(t, px, py)),
    )
}

/// The Depth pixel: the interpolated depth as a gray value.
pub open spec fn spec_color_depth(t: Triangle, px: int, py: int) -> int {
    spec_pack_argb(
        255,
        spec_fx255_byte(spec_frag_depth(t, px, py)),
        spec_fx255_byte(spec_frag_depth(t, px, py)),
        spec_fx255_byte(spec_frag_depth(t, px, py)),
    )
}

/// The quadratic approximation of `|sin|`: reduce to one period `[0, pi)`
/// and evaluate the parabola `4 t (pi - t) / pi^2`.
pub open spec fn spec_abs_sine(x: int) -> int {
    let t = x % (PI_FX as int);
    spec_rdiv(4 * t * (PI_FX as int - t) * 65536, PI_SQ_FX as int)
}

/// The Error pixel: a magenta-striped procedural pattern driven by the
/// absolute sine of the interpolated x position, without perspective
/// correction.
pub open spec fn spec_color_error(t: Triangle, px: int, py: int) -> int {
    let cx = spec_fx_mul(spec_l0(t, px, py), t.v0.position.x as int) + spec_fx_mul(
        spec_l1(t, px, py),
        t.v1.position.x as int,
    ) + spec_fx_mul(spec_l2(t, px, py), t.v2.position.x as int);
    let s = spec_abs_sine(cx * 209);
    spec_pack_argb(255, spec_fx255_byte(s), 0, spec_fx255_byte(s))
}

/// The wrapped u coordinate of the interpolated uv under a texture's
/// sampler.
pub open spec fn spec_wrapped_u(tex: Texture, t: Triangle, px: int, py: int) -> int {
    spec_wrap(
        tex.sampler.wrap_s,
        spec_interp(t, px, py, t.v0.uv.x as int, t.v1.uv.x as int, t.v2.uv.x as int),
    )
}

/// The wrapped v coordinate.
pub open spec fn spec_wrapped_v(tex: Texture, t: Triangle, px: int, py: int) -> int {
    spec_wrap(
        tex.sampler.wrap_t,
        spec_interp(t, px, py, t.v0.uv.y as int, t.v1.uv.y as int, t.v2.uv.y as int),
    )
}

/// The packed texel the sampler selects: wrapped uv scaled by the last
/// valid pixel coordinate, truncated.
pub open spec fn spec_sampled_texel(tex: Texture, t: Triangle, px: int, py: int) -> int {
    spec_texel(
        tex,
        (tex.width as int - 1) * spec_wrapped_u(tex, t, px, py) / 65536,
        (tex.height as int - 1) * spec_wrapped_v(tex, t, px, py) / 65536,
    )
}

/// The Texture pixel: the sampled texel's r/g/b bytes as opaque color.
pub open spec fn spec_color_texture(tex: Texture, t: Triangle, px: int, py: int) -> int {
    let texel = spec_sampled_texel(tex, t, px, py);
    spec_pack_argb(255, (texel / 0x10000) % 0x100, (texel / 0x100) % 0x100, texel % 0x100)
}

/// One TextureColor channel: the average of the sampled texture byte and
/// the interpolated vertex color scaled to bytes.
pub open spec fn spec_avg_channel(tex_byte: int, color_fx: int) -> int {
    crate::fx::spec_fx_to_byte(spec_rdiv(tex_byte * 65536 + color_fx * 255, 2))
}

/// The TextureColor pixel: the average of sampled texture color and
/// interpolated vertex color.
pub open spec fn spec_color_tex_col(tex: Texture, t: Triangle, px: int, py: int) -> int {
    let texel = spec_sampled_texel(tex, t, px, py);
    spec_pack_argb(
        255,
        spec_avg_channel(
            (texel / 0x10000) % 0x100,
            spec_interp(t, px, py, t.v0.color.x as int, t.v1.color.x as int, t.v2.color.x as int),
        ),
        spec_avg_channel(
            (texel / 0x100) % 0x100,
            spec_interp(t, px, py, t.v0.color.y as int, t.v1.color.y as int, t.v2.color.y as int),
        ),
        spec_avg_channel(
            texel % 0x100,
            spec_interp(t, px, py, t.v0.color.z as int, t.v1.color.z as int, t.v2.color.z as int),
        ),
    )
}

/// A texture channel byte as a fixed-point value in `[0, 1]`.
pub open spec fn spec_byte_fx(b: int) -> int {
    spec_rdiv(b * 65536, 255)
}

/// The Lambertian intensity: the interpolated normal dotted with the
/// negated light direction.
pub open spec fn spec_intensity(t: Triangle, px: int, py: int) -> int {
    spec_fx_mul(
        spec_interp(t, px, py, t.v0.normal.x as int, t.v1.normal.x as int, t.v2.normal.x as int),
        LIGHT_FX as int,
    ) + spec_fx_mul(
        spec_interp(t, px, py, t.v0.normal.y as int, t.v1.normal.y as int, t.v2.normal.y as int),
        LIGHT_FX as int,
    ) + spec_fx_mul(
        spec_interp(t, px, py, t.v0.normal.z as int, t.v1.normal.z as int, t.v2.normal.z as int),
        LIGHT_FX as int,
    )
}

/// One lit channel: ambient plus clamped diffuse, both scaling the
/// object color.
pub open spec fn spec_lit_channel(obj: int, intensity: int, amb: int) -> int {
    spec_fx_mul(amb, obj) + spec_fx_mul(vstd::math::max(intensity, 0), obj)
}

/// The Default (lit) pixel: texture (or white) times the material tint,
/// under a fixed ambient plus diffuse term.
pub open spec fn spec_color_default(
    t: Triangle,
    tex: Option<Texture>,
    mat: Material,
    px: int,
    py: int,
) -> int {
    let ta = match tex {
        Some(tx) => spec_byte_fx(spec_sampled_texel(tx, t, px, py) / 0x1000000),
        None => 65536int,
    };
    let tr = match tex {
        Some(tx) => spec_byte_fx((spec_sampled_texel(tx, t, px, py) / 0x10000) % 0x100),
        None => 65536int,
    };
    let tg = match tex {
        Some(tx) => spec_byte_fx((spec_sampled_texel(tx, t, px, py) / 0x100) % 0x100),
        None => 65536int,
    };
    let tb = match tex {
        Some(tx) => spec_byte_fx(spec_sampled_texel(tx, t, px, py) % 0x100),
        None => 65536int,
    };
    let inten = spec_intensity(t, px, py);
    spec_pack_argb(
        spec_fx255_byte(
            spec_lit_channel(
                spec_fx_mul(ta, mat.base_color.w as int),
                inten,
                AMBIENT_ALPHA_FX as int,
            ),
        ),
        spec_fx255_byte(
            spec_lit_channel(spec_fx_mul(tr, mat.base_color.x as int), inten, AMBIENT_FX as int),
        ),
        spec_fx255_byte(
            spec_lit_channel(spec_fx_mul(tg, mat.base_color.y as int), inten, AMBIENT_FX as int),
        ),
        spec_fx255_byte(
            spec_lit_channel(spec_fx_mul(tb, mat.base_color.z as int), inten, AMBIENT_FX as int),
        ),
    )
}

/// Whether a mode's color computation divides by the interpolated
/// reciprocal-w, so that a zero denominator suppresses the write.
pub open spec fn spec_needs_csum(mode: RenderMode, tex: Option<Texture>) -> bool {
    match mode {
        RenderMode::Default => true,
        RenderMode::VertexColor => true,
        RenderMode::Texture => tex is Some,
        RenderMode::TextureColor => true,
        RenderMode::Normal => true,
        RenderMode::Uv => true,
        RenderMode::Bary => false,
        RenderMode::Depth => false,
        RenderMode::Aabb => false,
        RenderMode::Error => false,
    }
}

/// Whether a fragment passes coverage, the depth test and the
/// degenerate-denominator guard.
pub open spec fn spec_frag_write(
    t: Triangle,
    mode: RenderMode,
    tex: Option<Texture>,
    px: int,
    py: int,
    d_old: int,
) -> bool {
    &&& spec_covered(t, px, py)
    &&& spec_frag_depth(t, px, py) < d_old
    &&& (spec_needs_csum(mode, tex) ==> spec_frag_csum(t, px, py) != 0)
}

/// The color a written fragment receives under each mode, including the
/// missing-texture fallbacks.
pub open spec fn spec_frag_color(
    t: Triangle,
    mode: RenderMode,
    tex: Option<Texture>,
    mat: Material,
    px: int,
    py: int,
) -> int {
    match mode {
        RenderMode::Default => spec_color_default(t, tex, mat, px, py),
        RenderMode::VertexColor => spec_color_vertex_col(t, px, py),
        RenderMode::Texture => match tex {
            Some(tx) => spec_color_texture(tx, t, px, py),
            None => spec_color_error(t, px, py),
        },
        RenderMode::TextureColor => match tex {
            Some(tx) => spec_color_tex_col(tx, t, px, py),
            None => spec_color_vertex_col(t, px, py),
        },
        RenderMode::Normal => spec_color_normal(t, px, py),
        RenderMode::Uv => spec_color_uv(t, px, py),
        RenderMode::Bary => spec_color_bary(t, px, py),
        RenderMode::Depth => spec_color_depth(t, px, py),
        RenderMode::Aabb => AABB_DEBUG_COLOR as int,
        RenderMode::Error => spec_color_error(t, px, py),
    }
}

/// One fragment applied to one pixel's (color, depth) state.  The Aabb
/// overlay paints unconditionally and leaves depth alone; every other
/// mode writes color and depth only when the fragment passes.
pub open spec fn spec_apply_frag(
    t: Triangle,
    mode: RenderMode,
    tex: Option<Texture>,
    mat: Material,
    px: int,
    py: int,
    c: int,
    d: int,
) -> (int, int) {
    if mode is Aabb {
        (AABB_DEBUG_COLOR as int, d)
    } else if spec_frag_write(t, mode, tex, px, py, d) {
        (spec_frag_color(t, mode, tex, mat, px, py), spec_frag_depth(t, px, py))
    } else {
        (c, d)
    }
}

/// Depth test idempotence: shading the same triangle onto a pixel twice
/// leaves exactly the state one pass leaves.  The second pass interpolates
/// the same depth, which fails the strict less-than test everywhere the
/// first pass wrote.
pub proof fn lemma_depth_test_idempotent(
    t: Triangle,
    mode: RenderMode,
    tex: Option<Texture>,
    mat: Material,
    px: int,
    py: int,
    c: int,
    d: int,
)
    ensures
        spec_apply_frag(
            t,
            mode,
            tex,
            mat,
            px,
            py,
            spec_apply_frag(t, mode, tex, mat, px, py, c, d).0,
            spec_apply_frag(t, mode, tex, mat, px, py, c, d).1,
        ) == spec_apply_frag(t, mode, tex, mat, px, py, c, d),
{
}

/// Occlusion order-independence: at a pixel covered by two triangles,
/// where the second interpolates a strictly smaller depth and both pass
/// against the starting depth, the nearer fragment's color and depth end
/// up in the pixel whichever of the two is shaded first.  The modes that
/// divide by the interpolated reciprocal-w need it nonzero for both
/// triangles, which holds of pipeline triangles (their reciprocals are
/// genuine 1/w values); the Aabb overlay ignores depth and is excluded.
pub proof fn lemma_occlusion_order_independent(
    ta: Triangle,
    tb: Triangle,
    mode: RenderMode,
    tex: Option<Texture>,
    mat: Material,
    px: int,
    py: int,
    c: int,
    d: int,
)
    requires
        !(mode is Aabb),
        spec_covered(ta, px, py),
        spec_covered(tb, px, py),
        spec_frag_depth(tb, px, py) < spec_frag_depth(ta, px, py),
        spec_frag_depth(ta, px, py) < d,
        spec_needs_csum(mode, tex) ==> spec_frag_csum(ta, px, py) != 0,
        spec_needs_csum(mode, tex) ==> spec_frag_csum(tb, px, py) != 0,
    ensures
        spec_apply_frag(
            tb,
            mode,
            tex,
            mat,
            px,
            py,
            spec_apply_frag(ta, mode, tex, mat, px, py, c, d).0,
            spec_apply_frag(ta, mode, tex, mat, px, py, c, d).1,
        ) == (spec_frag_color(tb, mode, tex, mat, px, py), spec_frag_depth(tb, px, py)),
        spec_apply_frag(
            ta,
            mode,
            tex,
            mat,
            px,
            py,
            spec_apply_frag(tb, mode, tex, mat, px, py, c, d).0,
            spec_apply_frag(tb, mode, tex, mat, px, py, c, d).1,
        ) == (spec_frag_color(tb, mode, tex, mat, px, py), spec_frag_depth(tb, px, py)),
{
}

/// The per-pixel postcondition every pixel program shares: lengths are
/// kept, other pixels untouched, and this pixel either receives the given
/// color and depth or keeps its old state.
pub open spec fn spec_pixel_written(
    old_c: Seq<u32>,
    old_d: Seq<i64>,
    new_c: Seq<u32>,
    new_d: Seq<i64>,
    idx: int,
    col: int,
    dep: int,
    write: bool,
) -> bool {
    &&& new_c.len() == old_c.len()
    &&& new_d.len() == old_d.len()
    &&& forall|j: int| 0 <= j < old_c.len() && j != idx ==> new_c[j] == old_c[j]
    &&& forall|j: int| 0 <= j < old_d.len() && j != idx ==> new_d[j] == old_d[j]
    &&& if write {
        new_c[idx] as int == col && new_d[idx] as int == dep
    } else {
        new_c[idx] == old_c[idx] && new_d[idx] == old_d[idx]
    }
}

/// A pixel and triangle pair the programs accept: a well-formed screen
/// triangle of nonzero area covering the pixel center, with both
/// coordinates inside the addressable range.
pub open spec fn spec_frag_pre(t: Triangle, px: int, py: int) -> bool {
    &&& t.screen_wf()
    &&& t.total_area != 0
    &&& spec_covered(t, px, py)
    &&& fx_abs(px) <= FX_VAL_MAX as int
    &&& fx_abs(py) <= FX_VAL_MAX as int
}

/// Barycentric weights and interpolated depth of a covered pixel.
fn frag_setup(t: &Triangle, px: i64, py: i64) -> (r: (Vec3Fx, i64))
    requires
        spec_frag_pre(*t, px as int, py as int),
    ensures
        r.0.x as int == spec_l0(*t, px as int, py as int),
        r.0.y as int == spec_l1(*t, px as int, py as int),
        r.0.z as int == spec_l2(*t, px as int, py as int),
        0 <= r.0.x <= FX_ONE && 0 <= r.0.y <= FX_ONE && 0 <= r.0.z <= FX_ONE,
        r.1 as int == spec_frag_depth(*t, px as int, py as int),
{
    let l: Vec3Fx = barycentric_coordinates(
        Vec2Fx { x: px, y: py },
        t.ssc0,
        t.ssc1,
        t.ssc2,
        t.total_area,
    );
    proof {
        crate::fx::lemma_mag_mul_bound(l.x as int, t.v0.position.z as int, 0x10000, 0x10000000);
        crate::fx::lemma_mag_mul_bound(l.y as int, t.v1.position.z as int, 0x10000, 0x10000000);
        crate::fx::lemma_mag_mul_bound(l.z as int, t.v2.position.z as int, 0x10000, 0x10000000);
        crate::fx::lemma_rdiv_quot_bound(
            l.x as int * t.v0.position.z as int,
            65536,
            0x10000000,
        );
        crate::fx::lemma_rdiv_quot_bound(
            l.y as int * t.v1.position.z as int,
            65536,
            0x10000000,
        );
        crate::fx::lemma_rdiv_quot_bound(
            l.z as int * t.v2.position.z as int,
            65536,
            0x10000000,
        );
    }
    let depth: i64 = fx_mul(l.x, t.v0.position.z) + fx_mul(l.y, t.v1.position.z) + fx_mul(
        l.z,
        t.v2.position.z,
    );
    (l, depth)
}

/// Whether the weights handed around by the pixel programs are the ones
/// of this pixel.
pub open spec fn spec_weights_ok(l: Vec3Fx, t: Triangle, px: int, py: int) -> bool {
    &&& l.x as int == spec_l0(t, px, py)
    &&& l.y as int == spec_l1(t, px, py)
    &&& l.z as int == spec_l2(t, px, py)
    &&& 0 <= l.x <= FX_ONE
    &&& 0 <= l.y <= FX_ONE
    &&& 0 <= l.z <= FX_ONE
}

/// The interpolated reciprocal-w.
fn frag_csum(t: &Triangle, px: i64, py: i64, l: Vec3Fx) -> (r: i64)
    requires
        t.screen_wf(),
        spec_weights_ok(l, *t, px as int, py as int),
    ensures
        r as int == spec_frag_csum(*t, px as int, py as int),
        fx_abs(r as int) <= 0x300000000,
{
    proof {
        crate::fx::lemma_mag_mul_bound(l.x as int, t.rec0 as int, 0x10000, 0x100000000);
        crate::fx::lemma_mag_mul_bound(l.y as int, t.rec1 as int, 0x10000, 0x100000000);
        crate::fx::lemma_mag_mul_bound(l.z as int, t.rec2 as int, 0x10000, 0x100000000);
        crate::fx::lemma_rdiv_quot_bound(l.x as int * t.rec0 as int, 65536, 0x100000000);
        crate::fx::lemma_rdiv_quot_bound(l.y as int * t.rec1 as int, 65536, 0x100000000);
        crate::fx::lemma_rdiv_quot_bound(l.z as int * t.rec2 as int, 65536, 0x100000000);
    }
    fx_mul(l.x, t.rec0) + fx_mul(l.y, t.rec1) + fx_mul(l.z, t.rec2)
}

/// One perspective-correct interpolated attribute.
fn interp_attr(
    t: &Triangle,
    px: i64,
    py: i64,
    l: Vec3Fx,
    corr: i64,
    a0: i64,
    a1: i64,
    a2: i64,
) -> (r: i64)
    requires
        t.screen_wf(),
        spec_weights_ok(l, *t, px as int, py as int),
        corr as int == spec_fx_div(65536, spec_frag_csum(*t, px as int, py as int)),
        fx_abs(corr as int) <= FX_REC_MAX as int,
        fx_abs(a0 as int) <= FX_VAL_MAX as int,
        fx_abs(a1 as int) <= FX_VAL_MAX as int,
        fx_abs(a2 as int) <= FX_VAL_MAX as int,
    ensures
        r as int == spec_interp(*t, px as int, py as int, a0 as int, a1 as int, a2 as int),
        fx_abs(r as int) <= 0x4000000000000000,
{
    proof {
        crate::fx::lemma_mag_mul_bound(a0 as int, t.rec0 as int, 0x10000000, 0x100000000);
        crate::fx::lemma_mag_mul_bound(a1 as int, t.rec1 as int, 0x10000000, 0x100000000);
        crate::fx::lemma_mag_mul_bound(a2 as int, t.rec2 as int, 0x10000000, 0x100000000);
        crate::fx::lemma_rdiv_quot_bound(a0 as int * t.rec0 as int, 65536, 0x100000000000);
        crate::fx::lemma_rdiv_quot_bound(a1 as int * t.rec1 as int, 65536, 0x100000000000);
        crate::fx::lemma_rdiv_quot_bound(a2 as int * t.rec2 as int, 65536, 0x100000000000);
    }
    let ar0: i64 = fx_mul(a0, t.rec0);
    let ar1: i64 = fx_mul(a1, t.rec1);
    let ar2: i64 = fx_mul(a2, t.rec2);
    proof {
        crate::fx::lemma_mag_mul_bound(l.x as int, ar0 as int, 0x10000, 0x100000000000);
        crate::fx::lemma_mag_mul_bound(l.y as int, ar1 as int, 0x10000, 0x100000000000);
        crate::fx::lemma_mag_mul_bound(l.z as int, ar2 as int, 0x10000, 0x100000000000);
        crate::fx::lemma_rdiv_quot_bound(l.x as int * ar0 as int, 65536, 0x100000000000);
        crate::fx::lemma_rdiv_quot_bound(l.y as int * ar1 as int, 65536, 0x100000000000);
        crate::fx::lemma_rdiv_quot_bound(l.z as int * ar2 as int, 65536, 0x100000000000);
    }
    let s: i64 = fx_mul(l.x, ar0) + fx_mul(l.y, ar1) + fx_mul(l.z, ar2);
    proof {
        crate::fx::lemma_mag_mul_bound(s as int, corr as int, 0x300000000000, 0x100000000);
        crate::fx::lemma_rdiv_quot_bound(s as int * corr as int, 65536, 0x4000000000000000);
    }
    fx_mul(s, corr)
}

/// A texture channel byte as a fixed-point value in `[0, 1]`.
fn byte_fx(b: u8) -> (r: i64)
    ensures
        r as int == spec_byte_fx(b as int),
        0 <= r <= FX_ONE,
{
    proof {
        crate::fx::lemma_rdiv_quot_bound(b as int * 65536, 255, 0x10000);
        assert((b as int * 65536) * 255 >= 0) by (nonlinear_arith)
            requires
                b as int >= 0,
        ;
        crate::fx::lemma_rdiv_nonneg(b as int * 65536, 255);
        assert(fx_abs(b as int * 65536) <= 0x10000 * fx_abs(255)) by (nonlinear_arith)
            requires
                0 <= b as int <= 255,
        ;
    }
    let r: i128 = rdiv_i128((b as i128) * (FX_ONE as i128), 255);
    r as i64
}

/// Store a color and depth at one pixel.
fn write_pixel(color_buff: &mut Vec<u32>, z_buffer: &mut Vec<i64>, idx: usize, col: u32, dep: i64)
    requires
        idx < old(color_buff)@.len(),
        idx < old(z_buffer)@.len(),
    ensures
        final(color_buff)@ == old(color_buff)@.update(idx as int, col),
        final(z_buffer)@ == old(z_buffer)@.update(idx as int, dep),
{
    color_buff.set(idx, col);
    z_buffer.set(idx, dep);
}

/// The wrapped texture coordinates of a covered pixel under a sampler.
fn calc_uv_sampler(uv: Vec2Fx, sampler: &Sampler) -> (r: Vec2Fx)
    requires
        uv.x > i64::MIN,
        uv.y > i64::MIN,
    ensures
        r.x as int == spec_wrap(sampler.wrap_s, uv.x as int),
        r.y as int == spec_wrap(sampler.wrap_t, uv.y as int),
        0 <= r.x <= FX_ONE,
        0 <= r.y <= FX_ONE,
{
    Vec2Fx { x: wrap_uv(sampler.wrap_s, uv.x), y: wrap_uv(sampler.wrap_t, uv.y) }
}

/// Sample a texture at the interpolated uv: wrap both coordinates and
/// fetch the selected texel's channel bytes.  An out-of-range lookup
/// would be a fatal bug in the wrap math, not a recoverable input; the
/// wrap contracts prove it can never happen.
fn sample_texture(tex: &Texture, iu: i64, iv: i64) -> (argb: [u8; 4])
    requires
        tex.wf(),
        1 <= tex.width,
        1 <= tex.height,
        iu > i64::MIN,
        iv > i64::MIN,
    ensures
        argb[0] as int == spec_texel_of(*tex, iu as int, iv as int) / 0x1000000,
        argb[1] as int == (spec_texel_of(*tex, iu as int, iv as int) / 0x10000) % 0x100,
        argb[2] as int == (spec_texel_of(*tex, iu as int, iv as int) / 0x100) % 0x100,
        argb[3] as int == spec_texel_of(*tex, iu as int, iv as int) % 0x100,
{
    let uv: Vec2Fx = calc_uv_sampler(Vec2Fx { x: iu, y: iv }, &tex.sampler);
    let ix: i64 = tex_coord(tex.width, uv.x);
    let iy: i64 = tex_coord(tex.height, uv.y);
    tex.get_pixel(ix as u32, iy as u32)
}

/// The packed texel selected for interpolated (unwrapped) coordinates.
pub open spec fn spec_texel_of(tex: Texture, iu: int, iv: int) -> int {
    spec_texel(
        tex,
        (tex.width as int - 1) * spec_wrap(tex.sampler.wrap_s, iu) / 65536,
        (tex.height as int - 1) * spec_wrap(tex.sampler.wrap_t, iv) / 65536,
    )
}

/// A borrowed optional texture as the owned value the specs speak of.
pub open spec fn spec_opt_tex(t: Option<&Texture>) -> Option<Texture> {
    match t {
        Some(tx) => Some(*tx),
        None => None,
    }
}

/// What the pixel programs ask of an optional texture: present ones are
/// well-formed and at least one texel in each direction.
pub open spec fn spec_tex_opt_wf(t: Option<Texture>) -> bool {
    match t {
        Some(tx) => tx.wf() && 1 <= tx.width && 1 <= tx.height,
        None => true,
    }
}

/// Saturate a wide fixed-point value to a color byte.
fn fx_byte_wide(v: i128) -> (r: u8)
    ensures
        r as int == crate::fx::spec_fx_to_byte(v as int),
{
    if v < 0 {
        0
    } else {
        let q: u128 = (v as u128) / (FX_ONE as u128);
        if q > 255 {
            255
        } else {
            q as u8
        }
    }
}

/// The quadratic `|sin|` approximation driving the Error pattern.
fn abs_sine_fx(x: i64) -> (r: i64)
    requires
        x > i64::MIN,
    ensures
        r as int == spec_abs_sine(x as int),
        0 <= r <= FX_ONE,
{
    let t: i64 = crate::fx::emod_i64(x, PI_FX);
    proof {
        let ti = t as int;
        assert(0 <= 4 * ti * (205887 - ti) && 4 * ti * (205887 - ti) <= 205887 * 205887)
            by (nonlinear_arith)
            requires
                0 <= ti < 205887,
        ;
        assert(fx_abs(4 * ti * (205887 - ti) * 65536) <= 65536 * fx_abs(42389456769int))
            by (nonlinear_arith)
            requires
                0 <= 4 * ti * (205887 - ti) <= 205887 * 205887,
                205887 * 205887 == 42389456769,
        ;
        crate::fx::lemma_rdiv_quot_bound(4 * ti * (205887 - ti) * 65536, 42389456769int, 65536);
        assert((4 * ti * (205887 - ti) * 65536) * 42389456769 >= 0) by (nonlinear_arith)
            requires
                0 <= 4 * ti * (205887 - ti),
        ;
        crate::fx::lemma_rdiv_nonneg(4 * ti * (205887 - ti) * 65536, 42389456769int);
    }
    let num: i128 = 4 * (t as i128) * ((PI_FX as i128) - (t as i128)) * 65536;
    let r: i128 = rdiv_i128(num, PI_SQ_FX as i128);
    r as i64
}

impl Triangle {
    /// The Aabb debug overlay: paint the pixel regardless of coverage.
    pub fn render_aabb(&self, color_buff: &mut Vec<u32>, idx: usize)
        requires
            idx < old(color_buff)@.len(),
        ensures
            final(color_buff)@ == old(color_buff)@.update(idx as int, AABB_DEBUG_COLOR),
    {
        color_buff.set(idx, AABB_DEBUG_COLOR);
    }

    /// The VertexColor pixel program.
    pub fn render_pixel_vertex_col(
        &self,
        px: i64,
        py: i64,
        color_buff: &mut Vec<u32>,
        z_buffer: &mut Vec<i64>,
        idx: usize,
    )
        requires
            spec_frag_pre(*self, px as int, py as int),
            idx < old(color_buff)@.len(),
            old(z_buffer)@.len() == old(color_buff)@.len(),
        ensures
            spec_pixel_written(
                old(color_buff)@,
                old(z_buffer)@,
                final(color_buff)@,
                final(z_buffer)@,
                idx as int,
                spec_color_vertex_col(*self, px as int, py as int),
                spec_frag_depth(*self, px as int, py as int),
                spec_frag_depth(*self, px as int, py as int) < old(z_buffer)@[idx as int]
                    && spec_frag_csum(*self, px as int, py as int) != 0,
            ),
    {
        let (l, depth): (Vec3Fx, i64) = frag_setup(self, px, py);
        if depth < z_buffer[idx] {
            let csum: i64 = frag_csum(self, px, py, l);
            if csum != 0 {
                let corr: i64 = fx_div(FX_ONE, csum);
                let cx: i64 = interp_attr(
                    self,
                    px,
                    py,
                    l,
                    corr,
                    self.v0.color.x,
                    self.v1.color.x,
                    self.v2.color.x,
                );
                let cy: i64 = interp_attr(
                    self,
                    px,
                    py,
                    l,
                    corr,
                    self.v0.color.y,
                    self.v1.color.y,
                    self.v2.color.y,
                );
                let cz: i64 = interp_attr(
                    self,
                    px,
                    py,
                    l,
                    corr,
                    self.v0.color.z,
                    self.v1.color.z,
                    self.v2.color.z,
                );
                let col: u32 = argb8_to_u32(
                    255,
                    fx255_byte(cx as i128),
                    fx255_byte(cy as i128),
                    fx255_byte(cz as i128),
                );
                write_pixel(color_buff, z_buffer, idx, col, depth);
            }
        }
    }

    /// The Uv pixel program.
    pub fn render_pixel_uv(
        &self,
        px: i64,
        py: i64,
        color_buff: &mut Vec<u32>,
        z_buffer: &mut Vec<i64>,
        idx: usize,
    )
        requires
            spec_frag_pre(*self, px as int, py as int),
            idx < old(color_buff)@.len(),
            old(z_buffer)@.len() == old(color_buff)@.len(),
        ensures
            spec_pixel_written(
                old(color_buff)@,
                old(z_buffer)@,
                final(color_buff)@,
                final(z_buffer)@,
                idx as int,
                spec_color_uv(*self, px as int, py as int),
                spec_frag_depth(*self, px as int, py as int),
                spec_frag_depth(*self, px as int, py as int) < old(z_buffer)@[idx as int]
                    && spec_frag_csum(*self, px as int, py as int) != 0,
            ),
    {
        let (l, depth): (Vec3Fx, i64) = frag_setup(self, px, py);
        if depth < z_buffer[idx] {
            let csum: i64 = frag_csum(self, px, py, l);
            if csum != 0 {
                let corr: i64 = fx_div(FX_ONE, csum);
                let u: i64 = interp_attr(
                    self,
                    px,
                    py,
                    l,
                    corr,
                    self.v0.uv.x,
                    self.v1.uv.x,
                    self.v2.uv.x,
                );
                let v: i64 = interp_attr(
                    self,
                    px,
                    py,
                    l,
                    corr,
                    self.v0.uv.y,
                    self.v1.uv.y,
                    self.v2.uv.y,
                );
                let uc: i64 = crate::sampler::clamp_to_edge(u);
                let vc: i64 = crate::sampler::clamp_to_edge(v);
                let col: u32 = argb8_to_u32(
                    255,
                    fx255_byte(uc as i128),
                    fx255_byte(vc as i128),
                    0,
                );
                write_pixel(color_buff, z_buffer, idx, col, depth);
            }
        }
    }

    /// The Normal pixel program.
    pub fn render_pixel_normal(
        &self,
        px: i64,
        py: i64,
        color_buff: &mut Vec<u32>,
        z_buffer: &mut Vec<i64>,
        idx: usize,
    )
        requires
            spec_frag_pre(*self, px as int, py as int),
            idx < old(color_buff)@.len(),
            old(z_buffer)@.len() == old(color_buff)@.len(),
        ensures
            spec_pixel_written(
                old(color_buff)@,
                old(z_buffer)@,
                final(color_buff)@,
                final(z_buffer)@,
                idx as int,
                spec_color_normal(*self, px as int, py as int),
                spec_frag_depth(*self, px as int, py as int),
                spec_frag_depth(*self, px as int, py as int) < old(z_buffer)@[idx as int]
                    && spec_frag_csum(*self, px as int, py as int) != 0,
            ),
    {
        let (l, depth): (Vec3Fx, i64) = frag_setup(self, px, py);
        if depth < z_buffer[idx] {
            let csum: i64 = frag_csum(self, px, py, l);
            if csum != 0 {
                let corr: i64 = fx_div(FX_ONE, csum);
                let nx: i64 = interp_attr(
                    self,
                    px,
                    py,
                    l,
                    corr,
                    self.v0.normal.x,
                    self.v1.normal.x,
                    self.v2.normal.x,
                );
                let ny: i64 = interp_attr(
                    self,
                    px,
                    py,
                    l,
                    corr,
                    self.v0.normal.y,
                    self.v1.normal.y,
                    self.v2.normal.y,
                );
                let nz: i64 = interp_attr(
                    self,
                    px,
                    py,
                    l,
                    corr,
                    self.v0.normal.z,
                    self.v1.normal.z,
                    self.v2.normal.z,
                );
                let rx: i64 = remap_normal(nx);
                let ry: i64 = remap_normal(ny);
                let rz: i64 = remap_normal(nz);
                let col: u32 = argb8_to_u32(
                    255,
                    fx255_byte(rx as i128),
                    fx255_byte(ry as i128),
                    fx255_byte(rz as i128),
                );
                write_pixel(color_buff, z_buffer, idx, col, depth);
            }
        }
    }

    /// The Bary pixel program.
    pub fn render_pixel_bary(
        &self,
        px: i64,
        py: i64,
        color_buff: &mut Vec<u32>,
        z_buffer: &mut Vec<i64>,
        idx: usize,
    )
        requires
            spec_frag_pre(*self, px as int, py as int),
            idx < old(color_buff)@.len(),
            old(z_buffer)@.len() == old(color_buff)@.len(),
        ensures
            spec_pixel_written(
                old(color_buff)@,
                old(z_buffer)@,
                final(color_buff)@,
                final(z_buffer)@,
                idx as int,
                spec_color_bary(*self, px as int, py as int),
                spec_frag_depth(*self, px as int, py as int),
                spec_frag_depth(*self, px as int, py as int) < old(z_buffer)@[idx as int],
            ),
    {
        let (l, depth): (Vec3Fx, i64) = frag_setup(self, px, py);
        if depth < z_buffer[idx] {
            let col: u32 = argb8_to_u32(
                255,
                fx255_byte(l.x as i128),
                fx255_byte(l.y as i128),
                fx255_byte(l.z as i128),
            );
            write_pixel(color_buff, z_buffer, idx, col, depth);
        }
    }

    /// The Depth pixel program.
    pub fn render_pixel_depth(
        &self,
        px: i64,
        py: i64,
        color_buff: &mut Vec<u32>,
        z_buffer: &mut Vec<i64>,
        idx: usize,
    )
        requires
            spec_frag_pre(*self, px as int, py as int),
            idx < old(color_buff)@.len(),
            old(z_buffer)@.len() == old(color_buff)@.len(),
        ensures
            spec_pixel_written(
                old(color_buff)@,
                old(z_buffer)@,
                final(color_buff)@,
                final(z_buffer)@,
                idx as int,
                spec_color_depth(*self, px as int, py as int),
                spec_frag_depth(*self, px as int, py as int),
                spec_frag_depth(*self, px as int, py as int) < old(z_buffer)@[idx as int],
            ),
    {
        let (l, depth): (Vec3Fx, i64) = frag_setup(self, px, py);
        if depth < z_buffer[idx] {
            let b: u8 = fx255_byte(depth as i128);
            let col: u32 = argb8_to_u32(255, b, b, b);
            write_pixel(color_buff, z_buffer, idx, col, depth);
        }
    }

    /// The Error pixel program: the fallback pattern.
    pub fn render_error(
        &self,
        px: i64,
        py: i64,
        color_buff: &mut Vec<u32>,
        z_buffer: &mut Vec<i64>,
        idx: usize,
    )
        requires
            spec_frag_pre(*self, px as int, py as int),
            idx < old(color_buff)@.len(),
            old(z_buffer)@.len() == old(color_buff)@.len(),
        ensures
            spec_pixel_written(
                old(color_buff)@,
                old(z_buffer)@,
                final(color_buff)@,
                final(z_buffer)@,
                idx as int,
                spec_color_error(*self, px as int, py as int),
                spec_frag_depth(*self, px as int, py as int),
                spec_frag_depth(*self, px as int, py as int) < old(z_buffer)@[idx as int],
            ),
    {
        let (l, depth): (Vec3Fx, i64) = frag_setup(self, px, py);
        if depth < z_buffer[idx] {
            proof {
                crate::fx::lemma_mag_mul_bound(
                    l.x as int,
                    self.v0.position.x as int,
                    0x10000,
                    0x10000000,
                );
                crate::fx::lemma_mag_mul_bound(
                    l.y as int,
                    self.v1.position.x as int,
                    0x10000,
                    0x10000000,
                );
                crate::fx::lemma_mag_mul_bound(
                    l.z as int,
                    self.v2.position.x as int,
                    0x10000,
                    0x10000000,
                );
                crate::fx::lemma_rdiv_quot_bound(
                    l.x as int * self.v0.position.x as int,
                    65536,
                    0x10000000,
                );
                crate::fx::lemma_rdiv_quot_bound(
                    l.y as int * self.v1.position.x as int,
                    65536,
                    0x10000000,
                );
                crate::fx::lemma_rdiv_quot_bound(
                    l.z as int * self.v2.position.x as int,
                    65536,
                    0x10000000,
                );
            }
            let cx: i64 = fx_mul(l.x, self.v0.position.x) + fx_mul(l.y, self.v1.position.x)
                + fx_mul(l.z, self.v2.position.x);
            let s: i64 = abs_sine_fx(cx * 209);
            let b: u8 = fx255_byte(s as i128);
            let col: u32 = argb8_to_u32(255, b, 0, b);
            write_pixel(color_buff, z_buffer, idx, col, depth);
        }
    }

    /// The Texture pixel program.
    pub fn render_pixel_texture(
        &self,
        px: i64,
        py: i64,
        color_buff: &mut Vec<u32>,
        z_buffer: &mut Vec<i64>,
        texture: &Texture,
        idx: usize,
    )
        requires
            spec_frag_pre(*self, px as int, py as int),
            texture.wf(),
            1 <= texture.width,
            1 <= texture.height,
            idx < old(color_buff)@.len(),
            old(z_buffer)@.len() == old(color_buff)@.len(),
        ensures
            spec_pixel_written(
                old(color_buff)@,
                old(z_buffer)@,
                final(color_buff)@,
                final(z_buffer)@,
                idx as int,
                spec_color_texture(*texture, *self, px as int, py as int),
                spec_frag_depth(*self, px as int, py as int),
                spec_frag_depth(*self, px as int, py as int) < old(z_buffer)@[idx as int]
                    && spec_frag_csum(*self, px as int, py as int) != 0,
            ),
    {
        let (l, depth): (Vec3Fx, i64) = frag_setup(self, px, py);
        if depth < z_buffer[idx] {
            let csum: i64 = frag_csum(self, px, py, l);
            if csum != 0 {
                let corr: i64 = fx_div(FX_ONE, csum);
                let iu: i64 = interp_attr(
                    self,
                    px,
                    py,
                    l,
                    corr,
                    self.v0.uv.x,
                    self.v1.uv.x,
                    self.v2.uv.x,
                );
                let iv: i64 = interp_attr(
                    self,
                    px,
                    py,
                    l,
                    corr,
                    self.v0.uv.y,
                    self.v1.uv.y,
                    self.v2.uv.y,
                );
                let argb: [u8; 4] = sample_texture(texture, iu, iv);
                let col: u32 = argb8_to_u32(255, argb[1], argb[2], argb[3]);
                write_pixel(color_buff, z_buffer, idx, col, depth);
            }
        }
    }

    /// The TextureColor pixel program: texture averaged with vertex color.
    pub fn render_pixel_tex_col(
        &self,
        px: i64,
        py: i64,
        color_buff: &mut Vec<u32>,
        z_buffer: &mut Vec<i64>,
        texture: &Texture,
        idx: usize,
    )
        requires
            spec_frag_pre(*self, px as int, py as int),
            texture.wf(),
            1 <= texture.width,
            1 <= texture.height,
            idx < old(color_buff)@.len(),
            old(z_buffer)@.len() == old(color_buff)@.len(),
        ensures
            spec_pixel_written(
                old(color_buff)@,
                old(z_buffer)@,
                final(color_buff)@,
                final(z_buffer)@,
                idx as int,
                spec_color_tex_col(*texture, *self, px as int, py as int),
                spec_frag_depth(*self, px as int, py as int),
                spec_frag_depth(*self, px as int, py as int) < old(z_buffer)@[idx as int]
                    && spec_frag_csum(*self, px as int, py as int) != 0,
            ),
    {
        let (l, depth): (Vec3Fx, i64) = frag_setup(self, px, py);
        if depth < z_buffer[idx] {
            let csum: i64 = frag_csum(self, px, py, l);
            if csum != 0 {
                let corr: i64 = fx_div(FX_ONE, csum);
                let iu: i64 = interp_attr(
                    self,
                    px,
                    py,
                    l,
                    corr,
                    self.v0.uv.x,
                    self.v1.uv.x,
                    self.v2.uv.x,
                );
                let iv: i64 = interp_attr(
                    self,
                    px,
                    py,
                    l,
                    corr,
                    self.v0.uv.y,
                    self.v1.uv.y,
                    self.v2.uv.y,
                );
                let cx: i64 = interp_attr(
                    self,
                    px,
                    py,
                    l,
                    corr,
                    self.v0.color.x,
                    self.v1.color.x,
                    self.v2.color.x,
                );
                let cy: i64 = interp_attr(
                    self,
                    px,
                    py,
                    l,
                    corr,
                    self.v0.color.y,
                    self.v1.color.y,
                    self.v2.color.y,
                );
                let cz: i64 = interp_attr(
                    self,
                    px,
                    py,
                    l,
                    corr,
                    self.v0.color.z,
                    self.v1.color.z,
                    self.v2.color.z,
                );
                let argb: [u8; 4] = sample_texture(texture, iu, iv);
                let col: u32 = argb8_to_u32(
                    255,
                    avg_channel(argb[1], cx),
                    avg_channel(argb[2], cy),
                    avg_channel(argb[3], cz),
                );
                write_pixel(color_buff, z_buffer, idx, col, depth);
            }
        }
    }

    /// The Default (lit) pixel program.
    pub fn render_default(
        &self,
        px: i64,
        py: i64,
        color_buff: &mut Vec<u32>,
        z_buffer: &mut Vec<i64>,
        texture: Option<&Texture>,
        material: &Material,
        idx: usize,
    )
        requires
            spec_frag_pre(*self, px as int, py as int),
            spec_tex_opt_wf(spec_opt_tex(texture)),
            material.wf(),
            idx < old(color_buff)@.len(),
            old(z_buffer)@.len() == old(color_buff)@.len(),
        ensures
            spec_pixel_written(
                old(color_buff)@,
                old(z_buffer)@,
                final(color_buff)@,
                final(z_buffer)@,
                idx as int,
                spec_color_default(*self, spec_opt_tex(texture), *material, px as int, py as int),
                spec_frag_depth(*self, px as int, py as int),
                spec_frag_depth(*self, px as int, py as int) < old(z_buffer)@[idx as int]
                    && spec_frag_csum(*self, px as int, py as int) != 0,
            ),
    {
        let (l, depth): (Vec3Fx, i64) = frag_setup(self, px, py);
        if depth < z_buffer[idx] {
            let csum: i64 = frag_csum(self, px, py, l);
            if csum != 0 {
                let corr: i64 = fx_div(FX_ONE, csum);
                let mut ta: i64 = FX_ONE;
                let mut tr: i64 = FX_ONE;
                let mut tg: i64 = FX_ONE;
                let mut tb: i64 = FX_ONE;
                if let Some(tex) = texture {
                    let iu: i64 = interp_attr(
                        self,
                        px,
                        py,
                        l,
                        corr,
                        self.v0.uv.x,
                        self.v1.uv.x,
                        self.v2.uv.x,
                    );
                    let iv: i64 = interp_attr(
                        self,
                        px,
                        py,
                        l,
                        corr,
                        self.v0.uv.y,
                        self.v1.uv.y,
                        self.v2.uv.y,
                    );
                    let argb: [u8; 4] = sample_texture(tex, iu, iv);
                    ta = byte_fx(argb[0]);
                    tr = byte_fx(argb[1]);
                    tg = byte_fx(argb[2]);
                    tb = byte_fx(argb[3]);
                }
                let nx: i64 = interp_attr(
                    self,
                    px,
                    py,
                    l,
                    corr,
                    self.v0.normal.x,
                    self.v1.normal.x,
                    self.v2.normal.x,
                );
                let ny: i64 = interp_attr(
                    self,
                    px,
                    py,
                    l,
                    corr,
                    self.v0.normal.y,
                    self.v1.normal.y,
                    self.v2.normal.y,
                );
                let nz: i64 = interp_attr(
                    self,
                    px,
                    py,
                    l,
                    corr,
                    self.v0.normal.z,
                    self.v1.normal.z,
                    self.v2.normal.z,
                );
                let t0: i64 = light_term(nx);
                let t1: i64 = light_term(ny);
                let t2: i64 = light_term(nz);
                let intensity: i128 = (t0 as i128) + (t1 as i128) + (t2 as i128);
                let ba: u8 = lit_channel(ta, material.base_color.w, intensity, AMBIENT_ALPHA_FX);
                let br: u8 = lit_channel(tr, material.base_color.x, intensity, AMBIENT_FX);
                let bg: u8 = lit_channel(tg, material.base_color.y, intensity, AMBIENT_FX);
                let bb: u8 = lit_channel(tb, material.base_color.z, intensity, AMBIENT_FX);
                let col: u32 = argb8_to_u32(ba, br, bg, bb);
                write_pixel(color_buff, z_buffer, idx, col, depth);
            }
        }
    }
}

/// Two distinct grid cells never share a row-major index.
pub(crate) proof fn lemma_grid_distinct(sx: int, ax: int, ay: int, bx: int, by: int)
    requires
        0 <= ax < sx,
        0 <= bx < sx,
        ax != bx || ay != by,
    ensures
        ax + ay * sx != bx + by * sx,
{
    assert(ax + ay * sx != bx + by * sx) by (nonlinear_arith)
        requires
            0 <= ax < sx,
            0 <= bx < sx,
            ax != bx || ay != by,
    ;
}

impl Triangle {
    /// Shade one pixel under the selected mode, with the missing-texture
    /// fallbacks and the degenerate-area guard.
    fn render_one_pixel(
        &self,
        px: i64,
        py: i64,
        color_buff: &mut Vec<u32>,
        z_buffer: &mut Vec<i64>,
        texture: Option<&Texture>,
        material: &Material,
        render_type: &RenderMode,
        idx: usize,
    )
        requires
            self.screen_wf(),
            fx_abs(px as int) <= FX_VAL_MAX as int,
            fx_abs(py as int) <= FX_VAL_MAX as int,
            spec_tex_opt_wf(spec_opt_tex(texture)),
            material.wf(),
            idx < old(color_buff)@.len(),
            old(z_buffer)@.len() == old(color_buff)@.len(),
        ensures
            final(color_buff)@.len() == old(color_buff)@.len(),
            final(z_buffer)@.len() == old(z_buffer)@.len(),
            forall|j: int|
                0 <= j < old(color_buff)@.len() && j != idx ==> final(color_buff)@[j] == old(
                    color_buff,
                )@[j] && final(z_buffer)@[j] == old(z_buffer)@[j],
            (final(color_buff)@[idx as int] as int, final(z_buffer)@[idx as int] as int)
                == spec_apply_frag(
                *self,
                *render_type,
                spec_opt_tex(texture),
                *material,
                px as int,
                py as int,
                old(color_buff)@[idx as int] as int,
                old(z_buffer)@[idx as int] as int,
            ),
    {
        if let RenderMode::Aabb = *render_type {
            self.render_aabb(color_buff, idx);
            return ;
        }
        if self.total_area == 0 {
            return ;
        }
        let p = Vec2Fx { x: px, y: py };
        let e0: i64 = edge_fun(p, self.ssc1, self.ssc2);
        let e1: i64 = edge_fun(p, self.ssc2, self.ssc0);
        let e2: i64 = edge_fun(p, self.ssc0, self.ssc1);
        let inside: bool = if self.total_area > 0 {
            e0 >= 0 && e1 >= 0 && e2 >= 0
        } else {
            e0 <= 0 && e1 <= 0 && e2 <= 0
        };
        if !inside {
            return ;
        }
        match *render_type {
            RenderMode::Default => {
                self.render_default(px, py, color_buff, z_buffer, texture, material, idx);
            },
            RenderMode::Error => {
                self.render_error(px, py, color_buff, z_buffer, idx);
            },
            RenderMode::VertexColor => {
                self.render_pixel_vertex_col(px, py, color_buff, z_buffer, idx);
            },
            RenderMode::Texture => {
                match texture {
                    Some(tex) => {
                        self.render_pixel_texture(px, py, color_buff, z_buffer, tex, idx);
                    },
                    None => {
                        self.render_error(px, py, color_buff, z_buffer, idx);
                    },
                }
            },
            RenderMode::TextureColor => {
                match texture {
                    Some(tex) => {
                        self.render_pixel_tex_col(px, py, color_buff, z_buffer, tex, idx);
                    },
                    None => {
                        self.render_pixel_vertex_col(px, py, color_buff, z_buffer, idx);
                    },
                }
            },
            RenderMode::Uv => {
                self.render_pixel_uv(px, py, color_buff, z_buffer, idx);
            },
            RenderMode::Bary => {
                self.render_pixel_bary(px, py, color_buff, z_buffer, idx);
            },
            RenderMode::Depth => {
                self.render_pixel_depth(px, py, color_buff, z_buffer, idx);
            },
            RenderMode::Aabb => {},
            RenderMode::Normal => {
                self.render_pixel_normal(px, py, color_buff, z_buffer, idx);
            },
        }
    }

    /// Shade every pixel of a tile's rectangle against this triangle.
    ///
    /// The rectangle is given by its top-left pixel and size; each local
    /// pixel `(ix, iy)` maps to buffer index `ix + iy * size_x` and is
    /// tested at its center, half a pixel in from the corner.
    pub fn render_fragments(
        &self,
        pos_x: i64,
        pos_y: i64,
        size_x: i64,
        size_y: i64,
        color_buff: &mut Vec<u32>,
        z_buffer: &mut Vec<i64>,
        texture: Option<&Texture>,
        material: &Material,
        render_type: &RenderMode,
    )
        requires
            self.screen_wf(),
            material.wf(),
            spec_tex_opt_wf(spec_opt_tex(texture)),
            0 <= pos_x && 0 <= pos_y && 0 <= size_x && 0 <= size_y,
            pos_x + size_x <= 4096,
            pos_y + size_y <= 4096,
            old(color_buff)@.len() == size_x * size_y,
            old(z_buffer)@.len() == size_x * size_y,
        ensures
            final(color_buff)@.len() == old(color_buff)@.len(),
            final(z_buffer)@.len() == old(z_buffer)@.len(),
            forall|ix: int, iy: int|
                0 <= ix < size_x && 0 <= iy < size_y ==> (
                #[trigger] final(color_buff)@[ix + iy * size_x] as int,
                final(z_buffer)@[ix + iy * size_x] as int) == spec_apply_frag(
                    *self,
                    *render_type,
                    spec_opt_tex(texture),
                    *material,
                    (pos_x + ix) * 65536 + 32768,
                    (pos_y + iy) * 65536 + 32768,
                    old(color_buff)@[ix + iy * size_x] as int,
                    old(z_buffer)@[ix + iy * size_x] as int,
                ),
    {
        let ghost orig_c: Seq<u32> = color_buff@;
        let ghost orig_d: Seq<i64> = z_buffer@;
        let mut idx_x: i64 = 0;
        while idx_x < size_x
            invariant
                0 <= idx_x <= size_x,
                self.screen_wf(),
                material.wf(),
                spec_tex_opt_wf(spec_opt_tex(texture)),
                0 <= pos_x && 0 <= pos_y && 0 <= size_x && 0 <= size_y,
                pos_x + size_x <= 4096,
                pos_y + size_y <= 4096,
                orig_c.len() == size_x * size_y,
                orig_d.len() == size_x * size_y,
                color_buff@.len() == orig_c.len(),
                z_buffer@.len() == orig_d.len(),
                forall|jx: int, jy: int|
                    0 <= jx < idx_x && 0 <= jy < size_y ==> (
                    #[trigger] color_buff@[jx + jy * size_x] as int,
                    z_buffer@[jx + jy * size_x] as int) == spec_apply_frag(
                        *self,
                        *render_type,
                        spec_opt_tex(texture),
                        *material,
                        (pos_x + jx) * 65536 + 32768,
                        (pos_y + jy) * 65536 + 32768,
                        orig_c[jx + jy * size_x] as int,
                        orig_d[jx + jy * size_x] as int,
                    ),
                forall|jx: int, jy: int|
                    idx_x <= jx < size_x && 0 <= jy < size_y ==> #[trigger] color_buff@[jx + jy
                        * size_x] == orig_c[jx + jy * size_x] && z_buffer@[jx + jy * size_x]
                        == orig_d[jx + jy * size_x],
            decreases size_x - idx_x,
        {
            let mut idx_y: i64 = 0;
            while idx_y < size_y
                invariant
                    0 <= idx_x < size_x,
                    0 <= idx_y <= size_y,
                    self.screen_wf(),
                    material.wf(),
                    spec_tex_opt_wf(spec_opt_tex(texture)),
                    0 <= pos_x && 0 <= pos_y && 0 <= size_x && 0 <= size_y,
                    pos_x + size_x <= 4096,
                    pos_y + size_y <= 4096,
                    orig_c.len() == size_x * size_y,
                    orig_d.len() == size_x * size_y,
                    color_buff@.len() == orig_c.len(),
                    z_buffer@.len() == orig_d.len(),
                    forall|jx: int, jy: int|
                        0 <= jx < size_x && 0 <= jy < size_y && (jx < idx_x || (jx == idx_x && jy
                            < idx_y)) ==> (
                        #[trigger] color_buff@[jx + jy * size_x] as int,
                        z_buffer@[jx + jy * size_x] as int) == spec_apply_frag(
                            *self,
                            *render_type,
                            spec_opt_tex(texture),
                            *material,
                            (pos_x + jx) * 65536 + 32768,
                            (pos_y + jy) * 65536 + 32768,
                            orig_c[jx + jy * size_x] as int,
                            orig_d[jx + jy * size_x] as int,
                        ),
                    forall|jx: int, jy: int|
                        0 <= jx < size_x && 0 <= jy < size_y && (jx > idx_x || (jx == idx_x && jy
                            >= idx_y)) ==> #[trigger] color_buff@[jx + jy * size_x] == orig_c[jx
                            + jy * size_x] && z_buffer@[jx + jy * size_x] == orig_d[jx + jy
                            * size_x],
                decreases size_y - idx_y,
            {
                let x: i64 = pos_x + idx_x;
                let y: i64 = pos_y + idx_y;
                let px: i64 = x * FX_ONE + 32768;
                let py: i64 = y * FX_ONE + 32768;
                proof {
                    assert(0 <= idx_x + idx_y * size_x && idx_x + idx_y * size_x < size_x
                        * size_y && idx_y * size_x <= 0x1000000) by (nonlinear_arith)
                        requires
                            0 <= idx_x < size_x,
                            0 <= idx_y < size_y,
                            size_x <= 4096,
                            size_y <= 4096,
                    ;
                    assert(size_x * size_y <= 0x1000000) by (nonlinear_arith)
                        requires
                            0 <= size_x <= 4096,
                            0 <= size_y <= 4096,
                    ;
                }
                let idx: usize = (idx_x + idx_y * size_x) as usize;
                let ghost pre_c: Seq<u32> = color_buff@;
                let ghost pre_d: Seq<i64> = z_buffer@;
                self.render_one_pixel(
                    px,
                    py,
                    color_buff,
                    z_buffer,
                    texture,
                    material,
                    render_type,
                    idx,
                );
                proof {
                    assert forall|jx: int, jy: int|
                        0 <= jx < size_x && 0 <= jy < size_y && !(jx == idx_x && jy == idx_y)
                        implies #[trigger] color_buff@[jx + jy * size_x] == pre_c[jx + jy
                        * size_x] && z_buffer@[jx + jy * size_x] == pre_d[jx + jy * size_x] by {
                        lemma_grid_distinct(
                            size_x as int,
                            jx,
                            jy,
                            idx_x as int,
                            idx_y as int,
                        );
                        assert(0 <= jx + jy * size_x && jx + jy * size_x < size_x * size_y)
                            by (nonlinear_arith)
                            requires
                                0 <= jx < size_x,
                                0 <= jy < size_y,
                        ;
                    }
                }
                idx_y = idx_y + 1;
            }
            idx_x = idx_x + 1;
        }
    }
}

/// A normal component remapped from `[-1, 1]` to `[0, 1]`.
fn remap_normal(n: i64) -> (r: i64)
    requires
        fx_abs(n as int) <= 0x4000000000000000,
    ensures
        r as int == spec_fx_mul(n as int, 32768) + 32768,
{
    proof {
        crate::fx::lemma_mag_mul_bound(n as int, 32768, 0x4000000000000000, 0x8000);
        crate::fx::lemma_rdiv_quot_bound(n as int * 32768, 65536, 0x2000000000000000);
    }
    fx_mul(n, 32768) + 32768
}

/// One TextureColor channel: average of texture byte and color byte.
fn avg_channel(tex_byte: u8, color_fx: i64) -> (r: u8)
    requires
        fx_abs(color_fx as int) <= 0x4000000000000000,
    ensures
        r as int == spec_avg_channel(tex_byte as int, color_fx as int),
{
    proof {
        crate::fx::lemma_rdiv_quot_bound(
            tex_byte as int * 65536 + color_fx as int * 255,
            2,
            0x7fffffffffffffffffff,
        );
        assert(fx_abs(tex_byte as int * 65536 + color_fx as int * 255) <= 0x7fffffffffffffffffff
            * fx_abs(2int));
    }
    let s: i128 = (tex_byte as i128) * 65536 + (color_fx as i128) * 255;
    let v: i128 = rdiv_i128(s, 2);
    fx_byte_wide(v)
}

/// One diffuse dot-product term.
fn light_term(n: i64) -> (r: i64)
    requires
        fx_abs(n as int) <= 0x4000000000000000,
    ensures
        r as int == spec_fx_mul(n as int, LIGHT_FX as int),
        fx_abs(r as int) <= 0x4000000000000000,
{
    proof {
        crate::fx::lemma_mag_mul_bound(n as int, 37837, 0x4000000000000000, 0x10000);
        crate::fx::lemma_rdiv_quot_bound(n as int * 37837, 65536, 0x4000000000000000);
    }
    fx_mul(n, LIGHT_FX)
}

/// One lit channel: ambient plus clamped diffuse over the object color
/// (texture channel times material tint).
fn lit_channel(tex_fx: i64, base: i64, intensity: i128, amb: i64) -> (r: u8)
    requires
        0 <= tex_fx <= FX_ONE,
        fx_abs(base as int) <= FX_VAL_MAX as int,
        fx_abs(intensity as int) <= 0x10000000000000000,
        0 <= amb <= FX_ONE,
    ensures
        r as int == spec_fx255_byte(
            spec_lit_channel(
                spec_fx_mul(tex_fx as int, base as int),
                intensity as int,
                amb as int,
            ),
        ),
{
    proof {
        crate::fx::lemma_mag_mul_bound(tex_fx as int, base as int, 0x10000, 0x10000000);
        crate::fx::lemma_rdiv_quot_bound(tex_fx as int * base as int, 65536, 0x10000000);
    }
    let obj: i64 = fx_mul(tex_fx, base);
    proof {
        crate::fx::lemma_mag_mul_bound(amb as int, obj as int, 0x10000, 0x10000000);
        crate::fx::lemma_rdiv_quot_bound(amb as int * obj as int, 65536, 0x10000000);
    }
    let ambient: i64 = fx_mul(amb, obj);
    let maxi: i128 = if intensity >= 0 {
        intensity
    } else {
        0
    };
    proof {
        crate::fx::lemma_mag_mul_bound(
            maxi as int,
            obj as int,
            0x10000000000000000,
            0x10000000,
        );
        crate::fx::lemma_rdiv_quot_bound(
            maxi as int * obj as int,
            65536,
            0x100000000000000000000,
        );
    }
    let diffuse: i128 = fx_mul_wide(maxi, obj as i128);
    let lit: i128 = (ambient as i128) + diffuse;
    fx255_byte(lit)
}

/// Map a wrapped coordinate in `[0, 1]` to a pixel index in
/// `[0, dim - 1]`.
fn tex_coord(dim: u32, w: i64) -> (r: i64)
    requires
        1 <= dim,
        0 <= w <= FX_ONE,
    ensures
        r as int == (dim as int - 1) * (w as int) / 65536,
        0 <= r < dim,
{
    proof {
        assert(0 <= (dim as int - 1) * (w as int) && (dim as int - 1) * (w as int) <= (dim as int
            - 1) * 65536) by (nonlinear_arith)
            requires
                0 <= w as int <= 65536,
                0 <= dim as int - 1,
        ;
        vstd::arithmetic::div_mod::lemma_div_pos_is_pos((dim as int - 1) * (w as int), 65536);
        vstd::arithmetic::div_mod::lemma_div_is_ordered(
            (dim as int - 1) * (w as int),
            (dim as int - 1) * 65536,
            65536,
        );
        vstd::arithmetic::div_mod::lemma_div_multiples_vanish(dim as int - 1, 65536);
    }
    let p: i128 = ((dim as i128) - 1) * (w as i128);
    let r: u64 = (p as u64) / (FX_ONE as u64);
    r as i64
}

} // verus!
