//! Edge functions, barycentric coordinates, color packing and range mapping.

use vstd::prelude::*;

use crate::fx::{
    fx_abs, fx_to_byte, lerp_fx, rdiv_i128, spec_fx_div, spec_fx_mul, spec_fx_to_byte, spec_lerp,
    spec_rdiv, FX_ONE, FX_VAL_MAX,
};
use crate::vecmath::{Vec2Fx, Vec3Fx};
use crate::vertex::Vertex;

verus! {

/// Largest magnitude an edge-function value can take on well-formed
/// screen coordinates.
pub const FX_EDGE_MAX: i64 = 0x800000000000000;

/// The 2-D cross product `(p - v0) x (v1 - v0)`: positive on one side of
/// the directed edge `v0 -> v1`, negative on the other, zero on the line.
pub open spec fn spec_edge(px: int, py: int, ax: int, ay: int, bx: int, by: int) -> int {
    (px - ax) * (by - ay) - (py - ay) * (bx - ax)
}

/// The winding-consistent sign test the rasterizer uses for coverage:
/// all three edge values carry the sign of the signed total area.
/// A zero-area triangle covers nothing.  Points on an edge count as
/// covered for positive winding; this is the documented tie rule.
pub open spec fn spec_inside(
    px: int,
    py: int,
    x0: int,
    y0: int,
    x1: int,
    y1: int,
    x2: int,
    y2: int,
) -> bool {
    let area = spec_edge(x0, y0, x1, y1, x2, y2);
    let e0 = spec_edge(px, py, x1, y1, x2, y2);
    let e1 = spec_edge(px, py, x2, y2, x0, y0);
    let e2 = spec_edge(px, py, x0, y0, x1, y1);
    if area > 0 {
        e0 >= 0 && e1 >= 0 && e2 >= 0
    } else if area < 0 {
        e0 <= 0 && e1 <= 0 && e2 <= 0
    } else {
        false
    }
}

/// One barycentric weight in 16.16 fixed point: `e / area`.
pub open spec fn spec_bary(e: int, area: int) -> int {
    spec_rdiv(e * (FX_ONE as int), area)
}

/// Edge function sign consistency.
///
/// For a triangle of nonzero signed area, the implementation's
/// winding-consistent sign test accepts a point exactly when all three
/// normalized edge evaluations `e_i / area` are nonnegative — stated here
/// sign-exactly as `e_i * area >= 0`.  In particular a point with all three
/// normalized values strictly positive is accepted, and a point with some
/// normalized value strictly negative is rejected.
pub proof fn lemma_edge_sign_consistency(
    px: int,
    py: int,
    x0: int,
    y0: int,
    x1: int,
    y1: int,
    x2: int,
    y2: int,
)
    requires
        spec_edge(x0, y0, x1, y1, x2, y2) != 0,
    ensures
        spec_inside(px, py, x0, y0, x1, y1, x2, y2) <==> {
            let area = spec_edge(x0, y0, x1, y1, x2, y2);
            &&& spec_edge(px, py, x1, y1, x2, y2) * area >= 0
            &&& spec_edge(px, py, x2, y2, x0, y0) * area >= 0
            &&& spec_edge(px, py, x0, y0, x1, y1) * area >= 0
        },
{
    let area = spec_edge(x0, y0, x1, y1, x2, y2);
    let e0 = spec_edge(px, py, x1, y1, x2, y2);
    let e1 = spec_edge(px, py, x2, y2, x0, y0);
    let e2 = spec_edge(px, py, x0, y0, x1, y1);
    assert(area != 0 ==> ((e0 * area >= 0) <==> (if area > 0 {
        e0 >= 0
    } else {
        e0 <= 0
    }))) by (nonlinear_arith);
    assert(area != 0 ==> ((e1 * area >= 0) <==> (if area > 0 {
        e1 >= 0
    } else {
        e1 <= 0
    }))) by (nonlinear_arith);
    assert(area != 0 ==> ((e2 * area >= 0) <==> (if area > 0 {
        e2 >= 0
    } else {
        e2 <= 0
    }))) by (nonlinear_arith);
}

/// Barycentric partition of unity, at the exact integer level.
///
/// The three edge values at any point sum to the triangle's signed area,
/// so the exact rational weights `e_i / area` sum to one, and weighting
/// the triangle's own vertices by them reproduces the query point
/// (each identity scaled through by `area`).
pub proof fn lemma_bary_partition(
    px: int,
    py: int,
    x0: int,
    y0: int,
    x1: int,
    y1: int,
    x2: int,
    y2: int,
)
    ensures
        spec_edge(px, py, x1, y1, x2, y2) + spec_edge(px, py, x2, y2, x0, y0) + spec_edge(
            px,
            py,
            x0,
            y0,
            x1,
            y1,
        ) == spec_edge(x0, y0, x1, y1, x2, y2),
        spec_edge(px, py, x1, y1, x2, y2) * x0 + spec_edge(px, py, x2, y2, x0, y0) * x1
            + spec_edge(px, py, x0, y0, x1, y1) * x2 == spec_edge(x0, y0, x1, y1, x2, y2) * px,
        spec_edge(px, py, x1, y1, x2, y2) * y0 + spec_edge(px, py, x2, y2, x0, y0) * y1
            + spec_edge(px, py, x0, y0, x1, y1) * y2 == spec_edge(x0, y0, x1, y1, x2, y2) * py,
{
    // Work in point-relative coordinates; the binomial expansions below are
    // small enough for the nonlinear solver, and everything else is linear.
    let u0: int = x0 - px;
    let v0: int = y0 - py;
    let u1: int = x1 - px;
    let v1: int = y1 - py;
    let u2: int = x2 - px;
    let v2: int = y2 - py;
    let e0: int = spec_edge(px, py, x1, y1, x2, y2);
    let e1: int = spec_edge(px, py, x2, y2, x0, y0);
    let e2: int = spec_edge(px, py, x0, y0, x1, y1);
    let area: int = spec_edge(x0, y0, x1, y1, x2, y2);
    assert((-u1) * (v2 - v1) - (-v1) * (u2 - u1) == u2 * v1 - u1 * v2) by (nonlinear_arith);
    assert((-u2) * (v0 - v2) - (-v2) * (u0 - u2) == u0 * v2 - u2 * v0) by (nonlinear_arith);
    assert((-u0) * (v1 - v0) - (-v0) * (u1 - u0) == u1 * v0 - u0 * v1) by (nonlinear_arith);
    assert(e0 == u2 * v1 - u1 * v2);
    assert(e1 == u0 * v2 - u2 * v0);
    assert(e2 == u1 * v0 - u0 * v1);
    assert((u0 - u1) * (v2 - v1) - (v0 - v1) * (u2 - u1) == u0 * v2 - u0 * v1 - u1 * v2 - u2 * v0
        + u1 * v0 + u2 * v1) by (nonlinear_arith);
    assert(area == e0 + e1 + e2);
    assert((u2 * v1 - u1 * v2) * u0 == u0 * u2 * v1 - u0 * u1 * v2) by (nonlinear_arith);
    assert((u0 * v2 - u2 * v0) * u1 == u0 * u1 * v2 - u1 * u2 * v0) by (nonlinear_arith);
    assert((u1 * v0 - u0 * v1) * u2 == u1 * u2 * v0 - u0 * u2 * v1) by (nonlinear_arith);
    assert(e0 * u0 + e1 * u1 + e2 * u2 == 0);
    assert((u2 * v1 - u1 * v2) * v0 == u2 * v0 * v1 - u1 * v0 * v2) by (nonlinear_arith);
    assert((u0 * v2 - u2 * v0) * v1 == u0 * v1 * v2 - u2 * v0 * v1) by (nonlinear_arith);
    assert((u1 * v0 - u0 * v1) * v2 == u1 * v0 * v2 - u0 * v1 * v2) by (nonlinear_arith);
    assert(e0 * v0 + e1 * v1 + e2 * v2 == 0);
    assert(e0 * x0 == e0 * px + e0 * u0) by (nonlinear_arith)
        requires
            x0 == px + u0,
    ;
    assert(e1 * x1 == e1 * px + e1 * u1) by (nonlinear_arith)
        requires
            x1 == px + u1,
    ;
    assert(e2 * x2 == e2 * px + e2 * u2) by (nonlinear_arith)
        requires
            x2 == px + u2,
    ;
    assert(e0 * y0 == e0 * py + e0 * v0) by (nonlinear_arith)
        requires
            y0 == py + v0,
    ;
    assert(e1 * y1 == e1 * py + e1 * v1) by (nonlinear_arith)
        requires
            y1 == py + v1,
    ;
    assert(e2 * y2 == e2 * py + e2 * v2) by (nonlinear_arith)
        requires
            y2 == py + v2,
    ;
    assert((e0 + e1 + e2) * px == e0 * px + e1 * px + e2 * px) by (nonlinear_arith);
    assert((e0 + e1 + e2) * py == e0 * py + e1 * py + e2 * py) by (nonlinear_arith);
    assert(area * px == (e0 + e1 + e2) * px);
    assert(area * py == (e0 + e1 + e2) * py);
}

/// Exec edge function on fixed-point screen coordinates.
pub fn edge_fun(p: Vec2Fx, v0: Vec2Fx, v1: Vec2Fx) -> (r: i64)
    requires
        p.wf(),
        v0.wf(),
        v1.wf(),
    ensures
        r as int == spec_edge(p.x as int, p.y as int, v0.x as int, v0.y as int, v1.x as int, v1.y as int),
        fx_abs(r as int) <= FX_EDGE_MAX as int,
{
    proof {
        crate::fx::lemma_mag_mul_bound(
            (p.x - v0.x) as int,
            (v1.y - v0.y) as int,
            0x20000000,
            0x20000000,
        );
        crate::fx::lemma_mag_mul_bound(
            (p.y - v0.y) as int,
            (v1.x - v0.x) as int,
            0x20000000,
            0x20000000,
        );
    }
    let e: i128 = ((p.x - v0.x) as i128) * ((v1.y - v0.y) as i128) - ((p.y - v0.y) as i128) * ((
    v1.x - v0.x) as i128);
    e as i64
}

/// Exact barycentric weights of a covered point, in 16.16 fixed point.
///
/// The caller passes the triangle's signed total area (as computed by the
/// edge function on its vertices); coverage plus the partition identity
/// keep each weight within `[0, 1]`, which is what lets the weights live
/// in an `i64`.
pub fn barycentric_coordinates(point: Vec2Fx, v0: Vec2Fx, v1: Vec2Fx, v2: Vec2Fx, area: i64) -> (r:
    Vec3Fx)
    requires
        point.wf(),
        v0.wf(),
        v1.wf(),
        v2.wf(),
        area as int == spec_edge(v0.x as int, v0.y as int, v1.x as int, v1.y as int, v2.x as int, v2.y as int),
        area != 0,
        spec_inside(
            point.x as int,
            point.y as int,
            v0.x as int,
            v0.y as int,
            v1.x as int,
            v1.y as int,
            v2.x as int,
            v2.y as int,
        ),
    ensures
        r.x as int == spec_bary(
            spec_edge(point.x as int, point.y as int, v1.x as int, v1.y as int, v2.x as int, v2.y as int),
            area as int,
        ),
        r.y as int == spec_bary(
            spec_edge(point.x as int, point.y as int, v2.x as int, v2.y as int, v0.x as int, v0.y as int),
            area as int,
        ),
        r.z as int == spec_bary(
            spec_edge(point.x as int, point.y as int, v0.x as int, v0.y as int, v1.x as int, v1.y as int),
            area as int,
        ),
        0 <= r.x <= FX_ONE,
        0 <= r.y <= FX_ONE,
        0 <= r.z <= FX_ONE,
{
    proof {
        lemma_bary_partition(
            point.x as int,
            point.y as int,
            v0.x as int,
            v0.y as int,
            v1.x as int,
            v1.y as int,
            v2.x as int,
            v2.y as int,
        );
    }
    let m0: i64 = edge_fun(point, v1, v2);
    let m1: i64 = edge_fun(point, v2, v0);
    let m2: i64 = edge_fun(point, v0, v1);
    proof {
        assert(m0 as int * area as int >= 0) by (nonlinear_arith)
            requires
                ((area as int) > 0 && (m0 as int) >= 0) || ((area as int) < 0 && (m0 as int) <= 0),
        ;
        assert(m1 as int * area as int >= 0) by (nonlinear_arith)
            requires
                ((area as int) > 0 && (m1 as int) >= 0) || ((area as int) < 0 && (m1 as int) <= 0),
        ;
        assert(m2 as int * area as int >= 0) by (nonlinear_arith)
            requires
                ((area as int) > 0 && (m2 as int) >= 0) || ((area as int) < 0 && (m2 as int) <= 0),
        ;
    }
    let l0: i64 = bary_weight(m0, area);
    let l1: i64 = bary_weight(m1, area);
    let l2: i64 = bary_weight(m2, area);
    Vec3Fx { x: l0, y: l1, z: l2 }
}

/// One barycentric weight `e / area`, for an edge value that shares the
/// area's sign and cannot exceed it in magnitude.
fn bary_weight(e: i64, area: i64) -> (r: i64)
    requires
        area != 0,
        fx_abs(e as int) <= fx_abs(area as int),
        e as int * area as int >= 0,
        fx_abs(e as int) <= FX_EDGE_MAX as int,
    ensures
        r as int == spec_bary(e as int, area as int),
        0 <= r <= FX_ONE,
{
    proof {
        assert(fx_abs(e as int * 65536) <= 65536 * fx_abs(area as int)) by (nonlinear_arith)
            requires
                fx_abs(e as int) <= fx_abs(area as int),
        ;
        crate::fx::lemma_rdiv_quot_bound(e as int * 65536, area as int, 65536);
        assert((e as int * 65536) * (area as int) >= 0) by (nonlinear_arith)
            requires
                e as int * area as int >= 0,
        ;
        crate::fx::lemma_rdiv_nonneg(e as int * 65536, area as int);
    }
    let w: i128 = rdiv_i128((e as i128) * (FX_ONE as i128), area as i128);
    w as i64
}

/// Componentwise linear interpolation between two vertices, the operation
/// near-plane clipping uses to synthesize on-plane vertices.
pub fn lerp(start: Vertex, end: Vertex, alpha: i64) -> (r: Vertex)
    requires
        start.wf(),
        end.wf(),
        0 <= alpha <= FX_ONE,
    ensures
        r.position.x as int == spec_lerp(start.position.x as int, end.position.x as int, alpha as int),
        r.position.y as int == spec_lerp(start.position.y as int, end.position.y as int, alpha as int),
        r.position.z as int == spec_lerp(start.position.z as int, end.position.z as int, alpha as int),
        r.position.w as int == spec_lerp(start.position.w as int, end.position.w as int, alpha as int),
        r.normal.x as int == spec_lerp(start.normal.x as int, end.normal.x as int, alpha as int),
        r.normal.y as int == spec_lerp(start.normal.y as int, end.normal.y as int, alpha as int),
        r.normal.z as int == spec_lerp(start.normal.z as int, end.normal.z as int, alpha as int),
        r.color.x as int == spec_lerp(start.color.x as int, end.color.x as int, alpha as int),
        r.color.y as int == spec_lerp(start.color.y as int, end.color.y as int, alpha as int),
        r.color.z as int == spec_lerp(start.color.z as int, end.color.z as int, alpha as int),
        r.uv.x as int == spec_lerp(start.uv.x as int, end.uv.x as int, alpha as int),
        r.uv.y as int == spec_lerp(start.uv.y as int, end.uv.y as int, alpha as int),
        r.wf(),
{
    Vertex {
        position: crate::vecmath::Vec4Fx {
            x: lerp_fx(start.position.x, end.position.x, alpha),
            y: lerp_fx(start.position.y, end.position.y, alpha),
            z: lerp_fx(start.position.z, end.position.z, alpha),
            w: lerp_fx(start.position.w, end.position.w, alpha),
        },
        normal: Vec3Fx {
            x: lerp_fx(start.normal.x, end.normal.x, alpha),
            y: lerp_fx(start.normal.y, end.normal.y, alpha),
            z: lerp_fx(start.normal.z, end.normal.z, alpha),
        },
        color: Vec3Fx {
            x: lerp_fx(start.color.x, end.color.x, alpha),
            y: lerp_fx(start.color.y, end.color.y, alpha),
            z: lerp_fx(start.color.z, end.color.z, alpha),
        },
        uv: Vec2Fx {
            x: lerp_fx(start.uv.x, end.uv.x, alpha),
            y: lerp_fx(start.uv.y, end.uv.y, alpha),
        },
    }
}

/// A packed 0xAARRGGBB pixel from four channel bytes.
pub open spec fn spec_pack_argb(a: int, r: int, g: int, b: int) -> int {
    a * 0x1000000 + r * 0x10000 + g * 0x100 + b
}

/// Pack alpha/red/green/blue bytes into one 0xAARRGGBB word.
pub fn argb8_to_u32(a: u8, r: u8, g: u8, b: u8) -> (res: u32)
    ensures
        res as int == spec_pack_argb(a as int, r as int, g as int, b as int),
{
    let mut argb: u32 = a as u32;
    argb = (argb * 0x100) + r as u32;
    argb = (argb * 0x100) + g as u32;
    argb = (argb * 0x100) + b as u32;
    argb
}

/// Pack bytes given in r/g/b/a order into the same 0xAARRGGBB layout the
/// rest of the pipeline uses.
pub fn rgba8_to_u32(a: u8, r: u8, g: u8, b: u8) -> (res: u32)
    ensures
        res as int == spec_pack_argb(a as int, r as int, g as int, b as int),
{
    let mut argb: u32 = a as u32;
    argb = (argb * 0x100) + r as u32;
    argb = (argb * 0x100) + g as u32;
    argb = (argb * 0x100) + b as u32;
    argb
}

/// Unpack a 0xAARRGGBB word into `[a, r, g, b]` bytes.
pub fn u32_to_argb8(pix: u32) -> (argb: [u8; 4])
    ensures
        argb[0] as int == pix as int / 0x1000000,
        argb[1] as int == (pix as int / 0x10000) % 0x100,
        argb[2] as int == (pix as int / 0x100) % 0x100,
        argb[3] as int == pix as int % 0x100,
{
    proof {
        assert(pix >> 24 == pix / 0x1000000 && pix >> 24 < 0x100) by (bit_vector);
        assert((pix >> 16) & 0xff == (pix / 0x10000) % 0x100) by (bit_vector);
        assert((pix >> 8) & 0xff == (pix / 0x100) % 0x100) by (bit_vector);
        assert(pix & 0xff == pix % 0x100) by (bit_vector);
        assert((pix >> 16) & 0xff < 0x100 && (pix >> 8) & 0xff < 0x100 && pix & 0xff < 0x100)
            by (bit_vector);
    }
    let b3: u8 = (pix & 0xff) as u8;
    let b2: u8 = ((pix >> 8) & 0xff) as u8;
    let b1: u8 = ((pix >> 16) & 0xff) as u8;
    let b0: u8 = (pix >> 24) as u8;
    [b0, b1, b2, b3]
}

/// Packing and unpacking a pixel are mutually inverse.
pub proof fn lemma_pack_unpack_argb(a: int, r: int, g: int, b: int)
    requires
        0 <= a < 0x100,
        0 <= r < 0x100,
        0 <= g < 0x100,
        0 <= b < 0x100,
    ensures
        spec_pack_argb(a, r, g, b) / 0x1000000 == a,
        (spec_pack_argb(a, r, g, b) / 0x10000) % 0x100 == r,
        (spec_pack_argb(a, r, g, b) / 0x100) % 0x100 == g,
        spec_pack_argb(a, r, g, b) % 0x100 == b,
{
    let p = spec_pack_argb(a, r, g, b);
    vstd::arithmetic::div_mod::lemma_fundamental_div_mod_converse(
        p,
        0x1000000,
        a,
        r * 0x10000 + g * 0x100 + b,
    );
    vstd::arithmetic::div_mod::lemma_fundamental_div_mod_converse(
        p,
        0x10000,
        a * 0x100 + r,
        g * 0x100 + b,
    );
    vstd::arithmetic::div_mod::lemma_fundamental_div_mod_converse(
        p,
        0x100,
        a * 0x10000 + r * 0x100 + g,
        b,
    );
    vstd::arithmetic::div_mod::lemma_fundamental_div_mod_converse(a * 0x100 + r, 0x100, a, r);
    vstd::arithmetic::div_mod::lemma_fundamental_div_mod_converse(
        a * 0x10000 + r * 0x100 + g,
        0x100,
        a * 0x100 + r,
        g,
    );
}

/// A fixed-point vector of 0..255-scaled channels packed as opaque color.
pub fn vec3_to_u32(val: Vec3Fx) -> (res: u32)
    ensures
        res as int == spec_pack_argb(
            255,
            spec_fx_to_byte(val.x as int),
            spec_fx_to_byte(val.y as int),
            spec_fx_to_byte(val.z as int),
        ),
{
    let r: u8 = fx_to_byte(val.x);
    let g: u8 = fx_to_byte(val.y);
    let b: u8 = fx_to_byte(val.z);
    argb8_to_u32(255, r, g, b)
}

/// A fixed-point vector of 0..255-scaled channels packed with its own alpha.
pub fn vec4_to_u32(val: crate::vecmath::Vec4Fx) -> (res: u32)
    ensures
        res as int == spec_pack_argb(
            spec_fx_to_byte(val.w as int),
            spec_fx_to_byte(val.x as int),
            spec_fx_to_byte(val.y as int),
            spec_fx_to_byte(val.z as int),
        ),
{
    let a: u8 = fx_to_byte(val.w);
    let r: u8 = fx_to_byte(val.x);
    let g: u8 = fx_to_byte(val.y);
    let b: u8 = fx_to_byte(val.z);
    argb8_to_u32(a, r, g, b)
}

/// Map `v` from the range `[a1, a2]` to the range `[b1, b2]`.
pub open spec fn spec_map_to_range(v: int, a1: int, a2: int, b1: int, b2: int) -> int {
    b1 + spec_fx_div(spec_fx_mul(v - a1, b2 - b1), a2 - a1)
}

/// Exec counterpart of [`spec_map_to_range`].
pub fn map_to_range(v: i64, a1: i64, a2: i64, b1: i64, b2: i64) -> (r: i64)
    requires
        a1 != a2,
        fx_abs(v as int) <= FX_VAL_MAX as int,
        fx_abs(a1 as int) <= FX_VAL_MAX as int,
        fx_abs(a2 as int) <= FX_VAL_MAX as int,
        fx_abs(b1 as int) <= FX_VAL_MAX as int,
        fx_abs(b2 as int) <= FX_VAL_MAX as int,
    ensures
        r as int == spec_map_to_range(v as int, a1 as int, a2 as int, b1 as int, b2 as int),
{
    proof {
        crate::fx::lemma_mag_mul_bound(
            (v - a1) as int,
            (b2 - b1) as int,
            0x20000000,
            0x20000000,
        );
        crate::fx::lemma_rdiv_quot_bound(
            ((v - a1) as int) * ((b2 - b1) as int),
            FX_ONE as int,
            0x40000000000,
        );
    }
    let t: i64 = crate::fx::fx_mul(v - a1, b2 - b1);
    let q: i64 = crate::fx::fx_div(t, a2 - a1);
    b1 + q
}

} // verus!
