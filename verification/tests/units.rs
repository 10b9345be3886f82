use tangl::add;
use tangl::fx::{
    ediv_i64, ediv_nonneg, emod_i64, fx_div, fx_mul, fx_to_byte, fx255_byte, lerp_fx, FX_ONE,
};
use tangl::render_mode::RenderMode;
use tangl::render_utils::{argb8_to_u32, map_to_range, rgba8_to_u32, u32_to_argb8, vec3_to_u32};
use tangl::sampler::{clamp_to_edge, mirror, repeat, wrap_uv, Sampler, Wrap};
use tangl::tex_manager::TextureManager;
use tangl::texture::Texture;
use tangl::vecmath::Vec3Fx;

#[test]
fn it_works() {
    let result = add(2, 2);
    assert_eq!(result, 4);
}

#[test]
fn fx_mul_exact_and_rounded() {
    assert_eq!(fx_mul(FX_ONE, FX_ONE), FX_ONE);
    assert_eq!(fx_mul(2 * FX_ONE, 3 * FX_ONE), 6 * FX_ONE);
    // 3 * 0.5 at the smallest scale: 1.5 rounds away from zero to 2.
    assert_eq!(fx_mul(3, 32768), 2);
    assert_eq!(fx_mul(-3, 32768), -2);
}

#[test]
fn fx_div_exact_and_rounded() {
    assert_eq!(fx_div(FX_ONE, FX_ONE), FX_ONE);
    assert_eq!(fx_div(FX_ONE, 2 * FX_ONE), 32768);
    assert_eq!(fx_div(-FX_ONE, 2 * FX_ONE), -32768);
    // 1/3 in 16.16: 21845.33 rounds to 21845.
    assert_eq!(fx_div(FX_ONE, 3 * FX_ONE), 21845);
}

#[test]
fn euclidean_div_mod() {
    assert_eq!(emod_i64(-1, 65536), 65535);
    assert_eq!(emod_i64(131073, 65536), 1);
    assert_eq!(ediv_nonneg(131073, 65536), 2);
    assert_eq!(ediv_i64(-1, 65536), -1);
    assert_eq!(ediv_i64(-65536, 65536), -1);
    assert_eq!(ediv_i64(-65537, 65536), -2);
}

#[test]
fn byte_conversion_saturates() {
    assert_eq!(fx_to_byte(-5), 0);
    assert_eq!(fx_to_byte(255 * FX_ONE), 255);
    assert_eq!(fx_to_byte(256 * FX_ONE), 255);
    assert_eq!(fx_to_byte(128 * FX_ONE + 32768), 128);
    assert_eq!(fx255_byte(FX_ONE as i128), 255);
    assert_eq!(fx255_byte((FX_ONE / 2) as i128), 127);
    assert_eq!(fx255_byte(-1), 0);
    assert_eq!(fx255_byte((2 * FX_ONE) as i128), 255);
}

#[test]
fn lerp_endpoints_and_middle() {
    assert_eq!(lerp_fx(0, 65536, 0), 0);
    assert_eq!(lerp_fx(0, 65536, FX_ONE), 65536);
    assert_eq!(lerp_fx(0, 65536, 32768), 32768);
    assert_eq!(lerp_fx(-65536, 65536, 32768), 0);
}

#[test]
fn map_to_range_centers() {
    // ndc 0 maps to half the 16-pixel surface.
    assert_eq!(map_to_range(0, -FX_ONE, FX_ONE, 0, 16 * FX_ONE), 8 * FX_ONE);
    assert_eq!(map_to_range(-FX_ONE, -FX_ONE, FX_ONE, 0, 16 * FX_ONE), 0);
    assert_eq!(map_to_range(FX_ONE, -FX_ONE, FX_ONE, 0, 16 * FX_ONE), 16 * FX_ONE);
}

#[test]
fn packing_round_trip() {
    let p = argb8_to_u32(1, 2, 3, 4);
    assert_eq!(p, 0x01020304);
    assert_eq!(rgba8_to_u32(1, 2, 3, 4), 0x01020304);
    let b = u32_to_argb8(p);
    assert_eq!(b, [1, 2, 3, 4]);
    let q = argb8_to_u32(b[0], b[1], b[2], b[3]);
    assert_eq!(q, p);
}

#[test]
fn vec3_packs_opaque() {
    let v = Vec3Fx { x: 255 * FX_ONE, y: 0, z: 128 * FX_ONE };
    assert_eq!(vec3_to_u32(v), 0xFFFF0080);
}

#[test]
fn wrap_clamp_to_edge() {
    assert_eq!(clamp_to_edge(-5 * FX_ONE), 0);
    assert_eq!(clamp_to_edge(FX_ONE + 1), FX_ONE);
    assert_eq!(clamp_to_edge(12345), 12345);
}

#[test]
fn wrap_repeat_range_and_period() {
    // 1.5 wraps to 0.5; -0.25 wraps to 0.75.
    assert_eq!(repeat(3 * 32768), 32768);
    assert_eq!(repeat(-16384), 49152);
    for u in [-200000i64, -1, 0, 1, 12345, 65535, 65536, 99999] {
        let w = repeat(u);
        assert!(0 <= w && w < FX_ONE);
        assert_eq!(repeat(u + FX_ONE), w);
    }
}

#[test]
fn wrap_mirror_range_and_symmetry() {
    // 1.25 reflects to 0.75; 0.25 stays 0.25.
    assert_eq!(mirror(81920), 49152);
    assert_eq!(mirror(16384), 16384);
    assert_eq!(mirror(-16384), 16384);
    for u in [0i64, 1, 16384, 32768, 49152, 65535, 65536] {
        let w = mirror(u);
        assert!(0 <= w && w <= FX_ONE);
        assert_eq!(mirror(2 * FX_ONE - u), w);
    }
}

#[test]
fn wrap_uv_dispatch() {
    assert_eq!(wrap_uv(Wrap::ClampToEdge, 2 * FX_ONE), FX_ONE);
    assert_eq!(wrap_uv(Wrap::Repeat, 2 * FX_ONE + 7), 7);
    assert_eq!(wrap_uv(Wrap::Mirror, FX_ONE + 16384), 49152);
}

#[test]
fn render_mode_cycle() {
    assert_eq!(RenderMode::default(), RenderMode::Default);
    assert_eq!(RenderMode::new(0), RenderMode::Default);
    assert_eq!(RenderMode::new(1), RenderMode::VertexColor);
    assert_eq!(RenderMode::new(9), RenderMode::Error);
    assert_eq!(RenderMode::Error.next_mode(), RenderMode::Default);
    assert_eq!(RenderMode::Default.previous_mode(), RenderMode::Error);
    let mut m = RenderMode::TextureColor;
    for _ in 0..10 {
        m = m.next_mode();
    }
    assert_eq!(m, RenderMode::TextureColor);
    for _ in 0..10 {
        m = m.previous_mode();
    }
    assert_eq!(m, RenderMode::TextureColor);
    assert_eq!(RenderMode::Uv.previous_mode().next_mode(), RenderMode::Uv);
}

#[test]
fn texture_from_bytes_and_get_pixel() {
    let pixels: Vec<u8> = vec![10, 20, 30, 40, 50, 60];
    let tex = Texture::from_rgb8(2, 1, &pixels);
    assert_eq!(tex.width, 2);
    assert_eq!(tex.height, 1);
    assert_eq!(tex.data.len(), 2);
    assert_eq!(tex.get_pixel(0, 0), [10, 20, 30, 255]);
    assert_eq!(tex.get_pixel(1, 0), [40, 50, 60, 255]);

    let rgba: Vec<u8> = vec![1, 2, 3, 4];
    let tex2 = Texture::from_rgba8(1, 1, &rgba);
    assert_eq!(tex2.get_pixel(0, 0), [1, 2, 3, 4]);

    let d = Texture::default();
    assert_eq!(d.width, 0);
    assert_eq!(d.sampler, Sampler { wrap_s: Wrap::Repeat, wrap_t: Wrap::Repeat });
}

#[test]
fn texture_manager_handles() {
    let mut mgr = TextureManager::new();
    let a = mgr.add_texture(Texture::default());
    assert_eq!(a, 1);
    let b = mgr.add_texture(Texture::from_rgb8(1, 1, &vec![9, 9, 9]));
    assert_eq!(b, 2);
    assert!(mgr.get_texture(&a).is_some());
    assert!(mgr.get_texture(&b).is_some());
    assert!(mgr.get_texture(&3).is_none());
    assert!(mgr.get_texture(&0).is_none());
    mgr.destroy_texture(&a);
    assert!(mgr.get_texture(&a).is_none());
    assert!(mgr.get_texture(&b).is_some());
    // handles are never reused
    let c = mgr.add_texture(Texture::default());
    assert_eq!(c, 3);
}
