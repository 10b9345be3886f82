use tangl::fx::FX_ONE;
use tangl::render_utils::{barycentric_coordinates, edge_fun};
use tangl::triangle::{submit_mesh_triangles, ClipResult, Triangle, VerticesOrder};
use tangl::vecmath::{Vec2Fx, Vec3Fx, Vec4Fx};
use tangl::vertex::Vertex;
use tangl::viewport::Viewport;

fn vert(x: i64, y: i64, z: i64, w: i64) -> Vertex {
    Vertex {
        position: Vec4Fx { x, y, z, w },
        normal: Vec3Fx { x: 0, y: 0, z: FX_ONE },
        color: Vec3Fx { x: FX_ONE, y: FX_ONE, z: FX_ONE },
        uv: Vec2Fx { x: 0, y: 0 },
    }
}

#[test]
fn edge_function_signs() {
    // Directed edge from (0,0) to (1,0): a point above is on one side, a
    // point below on the other, a point on the line gives zero.
    let a = Vec2Fx { x: 0, y: 0 };
    let b = Vec2Fx { x: FX_ONE, y: 0 };
    let above = Vec2Fx { x: 0, y: FX_ONE };
    let on = Vec2Fx { x: 3 * FX_ONE, y: 0 };
    let below = Vec2Fx { x: 0, y: -FX_ONE };
    assert!(edge_fun(above, a, b) < 0);
    assert_eq!(edge_fun(on, a, b), 0);
    assert!(edge_fun(below, a, b) > 0);
}

#[test]
fn barycentric_weights_sum_to_one() {
    // Triangle (0,0), (10,0), (0,10) in pixels; query (2.5, 2.5).
    let v0 = Vec2Fx { x: 0, y: 0 };
    let v1 = Vec2Fx { x: 10 * FX_ONE, y: 0 };
    let v2 = Vec2Fx { x: 0, y: 10 * FX_ONE };
    let area = edge_fun(v0, v1, v2);
    let p = Vec2Fx { x: 5 * 32768, y: 5 * 32768 };
    let l = barycentric_coordinates(p, v0, v1, v2, area);
    assert_eq!(l.x, 32768);
    assert_eq!(l.y, 16384);
    assert_eq!(l.z, 16384);
    assert_eq!(l.x + l.y + l.z, FX_ONE);
    // The weighted vertices reproduce the query point exactly here.
    let rx = (l.x as i128 * v0.x as i128 + l.y as i128 * v1.x as i128
        + l.z as i128 * v2.x as i128)
        / FX_ONE as i128;
    assert_eq!(rx as i64, p.x);
}

#[test]
fn reorder_permutes_vertices() {
    let t = Triangle::new([vert(1, 0, 0, FX_ONE), vert(2, 0, 0, FX_ONE), vert(3, 0, 0, FX_ONE)]);
    let r = t.reorder(VerticesOrder::BCA);
    assert_eq!(r.v0.position.x, 2);
    assert_eq!(r.v1.position.x, 3);
    assert_eq!(r.v2.position.x, 1);
    let r2 = t.reorder(VerticesOrder::ACB);
    assert_eq!(r2.v0.position.x, 1);
    assert_eq!(r2.v1.position.x, 3);
    assert_eq!(r2.v2.position.x, 2);
}

#[test]
fn clip_keeps_triangle_with_no_vertex_behind() {
    let t = Triangle::new([
        vert(0, 0, 0, FX_ONE),
        vert(FX_ONE / 2, 0, FX_ONE / 2, FX_ONE),
        vert(0, FX_ONE / 2, FX_ONE / 2, FX_ONE),
    ]);
    match Triangle::clip_cull_triangle(&t) {
        ClipResult::One(r) => {
            assert_eq!(r.v0, t.v0);
            assert_eq!(r.v1, t.v1);
            assert_eq!(r.v2, t.v2);
        },
        _ => panic!("expected a pass-through"),
    }
}

#[test]
fn clip_drops_triangle_fully_behind() {
    let t = Triangle::new([
        vert(0, 0, -FX_ONE, FX_ONE),
        vert(FX_ONE, 0, -FX_ONE, FX_ONE),
        vert(0, FX_ONE, -2 * FX_ONE, FX_ONE),
    ]);
    assert!(matches!(Triangle::clip_cull_triangle(&t), ClipResult::Clipped));
}

#[test]
fn clip_drops_triangle_outside_frustum() {
    // All x beyond +w.
    let t = Triangle::new([
        vert(2 * FX_ONE, 0, FX_ONE / 2, FX_ONE),
        vert(3 * FX_ONE, 0, FX_ONE / 2, FX_ONE),
        vert(2 * FX_ONE, FX_ONE, FX_ONE / 2, FX_ONE),
    ]);
    assert!(matches!(Triangle::clip_cull_triangle(&t), ClipResult::Clipped));
}

#[test]
fn frustum_keeps_crossing_triangle() {
    // Vertices beyond |w| on opposite sides: the triangle spans the view
    // volume and must not be rejected.
    let t = Triangle::new([
        vert(2 * FX_ONE, 0, FX_ONE / 2, FX_ONE),
        vert(-2 * FX_ONE, 0, FX_ONE / 2, FX_ONE),
        vert(2 * FX_ONE, 0, FX_ONE / 2, FX_ONE),
    ]);
    assert!(matches!(Triangle::clip_cull_triangle(&t), ClipResult::One(_)));
}

#[test]
fn clip_two_behind_yields_one_on_plane_triangle() {
    // v0 and v1 behind at z = -1, v2 in front at z = +1; alphas are 1/2.
    let t = Triangle::new([
        vert(-FX_ONE, 0, -FX_ONE, FX_ONE),
        vert(FX_ONE, 0, -FX_ONE, FX_ONE),
        vert(0, FX_ONE, FX_ONE, FX_ONE),
    ]);
    match Triangle::clip_cull_triangle(&t) {
        ClipResult::One(r) => {
            assert_eq!(r.v0.position.z, 0);
            assert_eq!(r.v1.position.z, 0);
            assert_eq!(r.v2, t.v2);
            // v0 interpolated halfway towards v2.
            assert_eq!(r.v0.position.x, -32768);
            assert_eq!(r.v0.position.y, 32768);
            assert_eq!(r.v1.position.x, 32768);
            assert_eq!(r.v1.position.y, 32768);
        },
        _ => panic!("expected a single clipped triangle"),
    }
}

#[test]
fn clip_one_behind_yields_two_sharing_plane_vertex() {
    // Only v0 behind; the quad is split into two triangles that share the
    // synthesized on-plane vertex.
    let t = Triangle::new([
        vert(0, 0, -FX_ONE, FX_ONE),
        vert(FX_ONE, 0, FX_ONE, FX_ONE),
        vert(0, FX_ONE, FX_ONE, FX_ONE),
    ]);
    match Triangle::clip_cull_triangle(&t) {
        ClipResult::Two((a, b)) => {
            assert_eq!(a.v0, b.v0);
            assert_eq!(a.v0.position.z, 0);
            assert_eq!(b.v1.position.z, 0);
            // The reorder for this case hands (v0, v2, v1) to the clip, so
            // the first output triangle keeps v2 then v1.
            assert_eq!(a.v1, t.v2);
            assert_eq!(a.v2, t.v1);
            assert_eq!(b.v2, t.v1);
            // Halfway interpolants.
            assert_eq!(a.v0.position.x, 0);
            assert_eq!(a.v0.position.y, 32768);
            assert_eq!(b.v1.position.x, 32768);
            assert_eq!(b.v1.position.y, 0);
        },
        _ => panic!("expected two clipped triangles"),
    }
}

#[test]
fn backface_test_is_sign_exact() {
    // A triangle in front of the camera wound one way faces it; flipping
    // two vertices flips the verdict.
    let p0 = Vec4Fx { x: 0, y: 0, z: FX_ONE, w: FX_ONE };
    let p1 = Vec4Fx { x: FX_ONE, y: 0, z: FX_ONE, w: FX_ONE };
    let p2 = Vec4Fx { x: 0, y: FX_ONE, z: FX_ONE, w: FX_ONE };
    let facing = Triangle::cull_triangle_backface(&p0, &p1, &p2);
    let away = Triangle::cull_triangle_backface(&p0, &p2, &p1);
    assert_ne!(facing, away);
}

#[test]
fn screen_mapping_centers_origin() {
    let vp = Viewport::new(16, 16);
    let t = Triangle::new([
        vert(0, 0, FX_ONE / 2, FX_ONE),
        vert(FX_ONE / 2, 0, FX_ONE / 2, FX_ONE),
        vert(0, FX_ONE / 2, FX_ONE / 2, FX_ONE),
    ]);
    let r = Triangle::triangle_to_screen(&t, &vp);
    // NDC origin lands at the center of the 16-pixel surface.
    assert_eq!(r.ssc0.x, 8 * FX_ONE);
    assert_eq!(r.ssc0.y, 8 * FX_ONE);
    // Reciprocal of w = 1 is 1.
    assert_eq!(r.rec0, FX_ONE);
    // +x goes right, +y in NDC goes up so the screen y shrinks.
    assert_eq!(r.ssc1.x, 12 * FX_ONE);
    assert_eq!(r.ssc2.y, 4 * FX_ONE);
    // The stored area is the edge function of the mapped corners.
    assert_eq!(r.total_area, edge_fun(r.ssc0, r.ssc1, r.ssc2));
    let bb = r.aabb.expect("screen mapping computes a bounding box");
    assert_eq!(bb.min.x, 8 * FX_ONE);
    assert_eq!(bb.min.y, 4 * FX_ONE);
    assert_eq!(bb.max.x, 12 * FX_ONE);
    assert_eq!(bb.max.y, 8 * FX_ONE);
}

#[test]
fn geometry_stage_submits_facing_triangles() {
    let vp = Viewport::new(16, 16);
    // One triangle in front of the camera, wound to face it, and the
    // same triangle wound away: only one survives the stage.
    let vertices = vec![
        vert(0, 0, FX_ONE / 2, FX_ONE),
        vert(FX_ONE / 2, 0, FX_ONE / 2, FX_ONE),
        vert(0, FX_ONE / 2, FX_ONE / 2, FX_ONE),
    ];
    let views = vec![
        Vec4Fx { x: 0, y: 0, z: FX_ONE, w: FX_ONE },
        Vec4Fx { x: FX_ONE, y: 0, z: FX_ONE, w: FX_ONE },
        Vec4Fx { x: 0, y: FX_ONE, z: FX_ONE, w: FX_ONE },
    ];
    let both_windings: Vec<u32> = vec![0, 1, 2, 0, 2, 1];
    let out = submit_mesh_triangles(&vertices, &views, &both_windings, &vp);
    assert_eq!(out.len(), 1);
    assert_eq!(out[0].rec0, FX_ONE);
    assert!(out[0].aabb.is_some());
}

#[test]
fn render_drops_surviving_vertex_with_zero_w() {
    let vp = Viewport::new(16, 16);
    // No vertex behind the near plane and nothing frustum-rejected, but
    // one survivor has w = 0: its perspective divide is undefined, so
    // the whole triangle is dropped.
    let t = Triangle::new([
        vert(0, 0, 0, 0),
        vert(FX_ONE / 2, 0, FX_ONE / 2, FX_ONE),
        vert(0, FX_ONE / 2, FX_ONE / 2, FX_ONE),
    ]);
    assert!(matches!(Triangle::render_triangle(&t, &vp), ClipResult::Clipped));
    // With a proper w it maps through.
    let ok = Triangle::new([
        vert(0, 0, 0, FX_ONE),
        vert(FX_ONE / 2, 0, FX_ONE / 2, FX_ONE),
        vert(0, FX_ONE / 2, FX_ONE / 2, FX_ONE),
    ]);
    assert!(matches!(Triangle::render_triangle(&ok, &vp), ClipResult::One(_)));
}
