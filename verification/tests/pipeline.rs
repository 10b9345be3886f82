use tangl::fx::FX_ONE;
use tangl::material::Material;
use tangl::render_mode::RenderMode;
use tangl::render_utils::edge_fun;
use tangl::sliced_buffer::SlicedBuffers;
use tangl::texture::Texture;
use tangl::triangle::{Aabb, Triangle};
use tangl::vecmath::{Vec2Fx, Vec3Fx, Vec4Fx};
use tangl::vertex::Vertex;
use tangl::TanglRenderer;

const CLEAR: u32 = 0xFF000000;
const FAR: i64 = i64::MAX;

fn screen_vertex(color: (i64, i64, i64), z: i64, uv: (i64, i64)) -> Vertex {
    Vertex {
        position: Vec4Fx { x: FX_ONE / 2, y: 0, z, w: FX_ONE },
        normal: Vec3Fx { x: 0, y: 0, z: FX_ONE },
        color: Vec3Fx { x: color.0, y: color.1, z: color.2 },
        uv: Vec2Fx { x: uv.0, y: uv.1 },
    }
}

/// A triangle already in screen space: pixel-coordinate corners, uniform
/// depth and color, reciprocal-w of one.
fn screen_triangle(
    corners: [(i64, i64); 3],
    color: (i64, i64, i64),
    z: i64,
    uvs: [(i64, i64); 3],
    surface: i64,
) -> Triangle {
    let ssc = [
        Vec2Fx { x: corners[0].0 * FX_ONE, y: corners[0].1 * FX_ONE },
        Vec2Fx { x: corners[1].0 * FX_ONE, y: corners[1].1 * FX_ONE },
        Vec2Fx { x: corners[2].0 * FX_ONE, y: corners[2].1 * FX_ONE },
    ];
    let mut t = Triangle::new([
        screen_vertex(color, z, uvs[0]),
        screen_vertex(color, z, uvs[1]),
        screen_vertex(color, z, uvs[2]),
    ]);
    t.ssc0 = ssc[0];
    t.ssc1 = ssc[1];
    t.ssc2 = ssc[2];
    t.rec0 = FX_ONE;
    t.rec1 = FX_ONE;
    t.rec2 = FX_ONE;
    t.total_area = edge_fun(ssc[0], ssc[1], ssc[2]);
    let lim = (surface - 1) * FX_ONE;
    let min_x = ssc.iter().map(|v| v.x).min().unwrap().max(0);
    let min_y = ssc.iter().map(|v| v.y).min().unwrap().max(0);
    let max_x = ssc.iter().map(|v| v.x).max().unwrap().min(lim);
    let max_y = ssc.iter().map(|v| v.y).max().unwrap().min(lim);
    t.aabb = Some(Aabb {
        min: Vec2Fx { x: min_x, y: min_y },
        max: Vec2Fx { x: max_x, y: max_y },
    });
    t
}

fn fresh_frame(dim: u32, tile: i64) -> SlicedBuffers {
    let mut sb = SlicedBuffers::from_buffers(dim, dim, tile);
    sb.clear_color(CLEAR);
    sb.clear_depth(FAR);
    sb.clear_tiles();
    sb
}

/// An axis-aligned white quad rendered in VertexColor mode: full white at
/// an interior pixel, the clear color outside the quad.
#[test]
fn quad_end_to_end_vertex_color() {
    let mut sb = fresh_frame(16, 16);
    let white = (FX_ONE, FX_ONE, FX_ONE);
    let t1 = screen_triangle([(0, 0), (10, 0), (10, 10)], white, 0, [(0, 0); 3], 16);
    let t2 = screen_triangle([(0, 0), (10, 10), (0, 10)], white, 0, [(0, 0); 3], 16);
    sb.triangles.push(t1);
    sb.triangles.push(t2);
    sb.aa_bb_comparison();
    sb.render(None, &Material::default(), &RenderMode::VertexColor);
    let out = sb.transfer_buffer();
    assert_eq!(out.len(), 256);
    assert_eq!(out[5 + 5 * 16], 0xFFFFFFFF);
    assert_eq!(out[15 + 15 * 16], CLEAR);
}

/// Occlusion: of two overlapping triangles at different depths the nearer
/// one wins at every overlapping pixel, in either submission order.
#[test]
fn occlusion_nearer_triangle_wins() {
    let red = (FX_ONE, 0, 0);
    let green = (0, FX_ONE, 0);
    let corners = [(0, 0), (10, 0), (0, 10)];
    let far_tri = screen_triangle(corners, red, FX_ONE / 2, [(0, 0); 3], 16);
    let near_tri = screen_triangle(corners, green, FX_ONE / 4, [(0, 0); 3], 16);

    for order in [[far_tri, near_tri], [near_tri, far_tri]] {
        let mut sb = fresh_frame(16, 16);
        sb.triangles.push(order[0]);
        sb.triangles.push(order[1]);
        sb.aa_bb_comparison();
        sb.render(None, &Material::default(), &RenderMode::VertexColor);
        let out = sb.transfer_buffer();
        assert_eq!(out[2 + 2 * 16], 0xFF00FF00);
    }
}

/// Depth-test idempotence: rendering the same frame twice without
/// clearing leaves exactly the buffers one pass leaves.
#[test]
fn rendering_twice_equals_once() {
    let mut sb = fresh_frame(16, 4);
    let tri = screen_triangle(
        [(1, 1), (12, 2), (4, 13)],
        (FX_ONE / 2, FX_ONE / 4, FX_ONE),
        FX_ONE / 8,
        [(0, 0); 3],
        16,
    );
    sb.triangles.push(tri);
    sb.aa_bb_comparison();
    let mat = Material::default();
    sb.render(None, &mat, &RenderMode::VertexColor);
    let once = sb.transfer_buffer();
    sb.render(None, &mat, &RenderMode::VertexColor);
    let twice = sb.transfer_buffer();
    assert_eq!(once, twice);
}

/// Binning: a triangle lands in exactly the tiles its bounding box's
/// tile buckets span.
#[test]
fn binning_follows_bounding_boxes() {
    let mut sb = fresh_frame(32, 16);
    // Spans all four 16-pixel tiles.
    let wide = screen_triangle([(2, 2), (28, 4), (6, 30)], (FX_ONE, 0, 0), 0, [(0, 0); 3], 32);
    // Stays inside the top-left tile.
    let small = screen_triangle([(1, 1), (9, 2), (3, 9)], (FX_ONE, 0, 0), 0, [(0, 0); 3], 32);
    sb.triangles.push(wide);
    sb.triangles.push(small);
    sb.aa_bb_comparison();
    assert_eq!(sb.tiles[0].tri_idx, vec![0, 1]);
    assert_eq!(sb.tiles[1].tri_idx, vec![0]);
    assert_eq!(sb.tiles[2].tri_idx, vec![0]);
    assert_eq!(sb.tiles[3].tri_idx, vec![0]);
}

/// Texture mode samples the bound texture at the interpolated uv.
#[test]
fn texture_mode_samples_texels() {
    let mut sb = fresh_frame(16, 16);
    let tri = screen_triangle(
        [(0, 0), (12, 0), (0, 12)],
        (FX_ONE, FX_ONE, FX_ONE),
        0,
        [(0, 0), (0, 0), (0, 0)],
        16,
    );
    sb.triangles.push(tri);
    sb.aa_bb_comparison();
    let tex = Texture::from_rgb8(1, 1, &vec![10, 20, 30]);
    sb.render(Some(&tex), &Material::default(), &RenderMode::Texture);
    let out = sb.transfer_buffer();
    // The packed texel is (a=10, r=20, g=30, b=255); the Texture program
    // writes its r/g/b bytes under an opaque alpha.
    let expected = 0xFF000000 | (20 << 16) | (30 << 8) | 255;
    assert_eq!(out[2 + 2 * 16], expected);
    // A pixel outside the triangle keeps the clear color.
    assert_eq!(out[15 + 15 * 16], CLEAR);
}

/// A missing texture in Texture mode falls back to the Error pattern
/// rather than rendering nothing.
#[test]
fn texture_mode_without_texture_uses_fallback() {
    let mut sb = fresh_frame(16, 16);
    let tri = screen_triangle(
        [(0, 0), (12, 0), (0, 12)],
        (FX_ONE, FX_ONE, FX_ONE),
        0,
        [(0, 0); 3],
        16,
    );
    sb.triangles.push(tri);
    sb.aa_bb_comparison();
    sb.render(None, &Material::default(), &RenderMode::Texture);
    let out = sb.transfer_buffer();
    // The fallback pattern at this pixel: the interpolated NDC x is
    // 32769/65536, whose scaled absolute sine lands on channel byte 198,
    // written as a magenta stripe.
    assert_eq!(out[2 + 2 * 16], 0xFFC600C6);
}

/// The Aabb debug overlay paints every pixel of a tile that received the
/// triangle, regardless of coverage.
#[test]
fn aabb_mode_floods_binned_tiles() {
    let mut sb = fresh_frame(16, 8);
    // Bounding box only reaches the top-left 8-pixel tile.
    let tri = screen_triangle([(1, 1), (5, 1), (1, 5)], (FX_ONE, 0, 0), 0, [(0, 0); 3], 16);
    sb.triangles.push(tri);
    sb.aa_bb_comparison();
    sb.render(None, &Material::default(), &RenderMode::Aabb);
    let out = sb.transfer_buffer();
    assert_eq!(out[7 + 7 * 16], 0xFF0000FF);
    assert_eq!(out[8 + 7 * 16], CLEAR);
    assert_eq!(out[7 + 8 * 16], CLEAR);
}

/// The renderer facade drives a whole frame.
#[test]
fn renderer_facade_frame() {
    let mut r = TanglRenderer::Tangl_Init(16, 16, 16);
    r.Tangl_ClearColor(CLEAR);
    r.Tangl_ClearDepth(FAR);
    let handle = r.Tangl_GenTexture(Texture::from_rgb8(1, 1, &vec![1, 2, 3]));
    assert_eq!(handle, 1);
    assert!(r.tex_manager.get_texture(&handle).is_some());
    let ib = r.Tangl_GenIndexBuffer(vec![0, 1, 2]);
    assert_eq!(ib, 1);
    let tri = screen_triangle(
        [(0, 0), (10, 0), (10, 10)],
        (FX_ONE, FX_ONE, FX_ONE),
        0,
        [(0, 0); 3],
        16,
    );
    r.buffers.triangles.push(tri);
    r.buffers.aa_bb_comparison();
    r.buffers.render(None, &Material::default(), &RenderMode::VertexColor);
    let out = r.Tangl_SendForDisplay();
    assert_eq!(out.len(), 256);
    assert_eq!(out[8 + 4 * 16], 0xFFFFFFFF);
    r.Tangl_DestroyTexture(&handle);
    assert!(r.tex_manager.get_texture(&handle).is_none());
}

/// Output assembly stitches clamped edge tiles back into a flat image.
#[test]
fn transfer_gathers_edge_tiles() {
    // 10x10 surface with 8-pixel tiles: the right and bottom tiles shrink.
    let mut sb = fresh_frame(10, 8);
    assert_eq!(sb.tiles.len(), 4);
    assert_eq!(sb.tiles[1].size_x, 2);
    assert_eq!(sb.tiles[3].size_x, 2);
    assert_eq!(sb.tiles[3].size_y, 2);
    // Paint each tile a distinct color through the Aabb overlay by
    // binning one triangle per tile region.
    sb.triangles.push(screen_triangle([(1, 1), (2, 1), (1, 2)], (0, 0, 0), 0, [(0, 0); 3], 10));
    sb.aa_bb_comparison();
    sb.render(None, &Material::default(), &RenderMode::Aabb);
    let out = sb.transfer_buffer();
    assert_eq!(out.len(), 100);
    // Only the first tile's 8x8 region is painted.
    assert_eq!(out[0], 0xFF0000FF);
    assert_eq!(out[7 + 7 * 10], 0xFF0000FF);
    assert_eq!(out[8], CLEAR);
    assert_eq!(out[9 + 9 * 10], CLEAR);
}

/// One exactly computed pixel for each remaining pixel program, on a
/// triangle with weights (1/2, 1/4, 1/4) at the probed pixel center.
#[test]
fn shading_modes_exact_pixels() {
    let corners = [(0, 0), (10, 0), (0, 10)];
    let probe = 2 + 2 * 16;
    let mut expected = Vec::new();
    // Lit: white object, diffuse 37837/65536 plus 0.2 ambient on rgb,
    // full ambient on alpha.
    expected.push((RenderMode::Default, 0xFFC6C6C6u32));
    // Normal (0,0,1) remapped to (0.5, 0.5, 1.0).
    expected.push((RenderMode::Normal, 0xFF7F7FFF));
    // Raw barycentric weights as color.
    expected.push((RenderMode::Bary, 0xFF7F3F3F));
    // Uniform depth 1/4 as gray.
    expected.push((RenderMode::Depth, 0xFF3F3F3F));
    // Uniform uv (0.5, 0.5) as red/green.
    expected.push((RenderMode::Uv, 0xFF7F7F00));
    for (mode, want) in expected {
        let mut sb = fresh_frame(16, 16);
        let mut tri = screen_triangle(
            corners,
            (FX_ONE, FX_ONE, FX_ONE),
            FX_ONE / 4,
            [(FX_ONE / 2, FX_ONE / 2); 3],
            16,
        );
        tri.v0.normal = Vec3Fx { x: 0, y: 0, z: FX_ONE };
        tri.v1.normal = tri.v0.normal;
        tri.v2.normal = tri.v0.normal;
        sb.triangles.push(tri);
        sb.aa_bb_comparison();
        let white = Material {
            base_tex_idx: -1,
            base_color: Vec4Fx { x: FX_ONE, y: FX_ONE, z: FX_ONE, w: FX_ONE },
        };
        sb.render(None, &white, &mode);
        let out = sb.transfer_buffer();
        assert_eq!(out[probe], want, "mode {:?}", mode);
    }
}

/// An empty frame stays at the clear color everywhere.
#[test]
fn empty_frame_is_clear() {
    let mut sb = fresh_frame(16, 8);
    sb.aa_bb_comparison();
    sb.render(None, &Material::default(), &RenderMode::VertexColor);
    let out = sb.transfer_buffer();
    assert!(out.iter().all(|&p| p == CLEAR));
}

/// A degenerate zero-area triangle covers nothing and writes nothing.
#[test]
fn zero_area_triangle_writes_nothing() {
    let mut sb = fresh_frame(16, 16);
    let tri = screen_triangle([(3, 3), (3, 3), (3, 3)], (FX_ONE, 0, 0), 0, [(0, 0); 3], 16);
    sb.triangles.push(tri);
    sb.aa_bb_comparison();
    // The degenerate triangle is still binned conservatively ...
    assert_eq!(sb.tiles[0].tri_idx, vec![0u32]);
    // ... but the fragment stage skips it entirely.
    sb.render(None, &Material::default(), &RenderMode::VertexColor);
    let out = sb.transfer_buffer();
    assert!(out.iter().all(|&p| p == CLEAR));
}
