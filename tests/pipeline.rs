use shader_bridge::cache::{final_key, target_key, ResourceCache, TextureKey};
use shader_bridge::format::{BitDepth, EgressShader, PixelFormat, Ratio};
use shader_bridge::frame::{frame_timing, plan_frame, plan_image, readback};
use shader_bridge::input::{bool_flag, join_names, option_value, update_applies, InputKind, InputVariant};
use shader_bridge::layout::{depad_rows, padded_row_bytes, staging_size, unpadded_row_bytes};
use shader_bridge::scene::PipelineState;

type State = PipelineState<u32, u32, u32>;

fn fresh(depth: BitDepth) -> State {
    PipelineState::new(depth, 0, 100, 200)
}

fn ensure_target(c: &mut ResourceCache<u32, u32>, w: u32, h: u32, d: BitDepth, allocs: &mut u32) {
    if !c.target_hit(w, h) {
        *allocs += 1;
        c.install_targets(w, h, d, *allocs, *allocs + 1000);
    }
}

#[test]
fn padded_rows_round_up_to_256() {
    assert_eq!(padded_row_bytes(100, 4), Some(512));
    assert_eq!(padded_row_bytes(64, 4), Some(256));
    assert_eq!(padded_row_bytes(0, 4), Some(0));
    assert_eq!(padded_row_bytes(65, 4), Some(512));
    assert_eq!(padded_row_bytes(100, 16), Some(1792));
    assert_eq!(padded_row_bytes(u32::MAX, 1), None);
    assert_eq!(padded_row_bytes(u32::MAX - 255, 1), Some(u32::MAX - 255));
    assert_eq!(unpadded_row_bytes(100, 4), Some(400));
    assert_eq!(unpadded_row_bytes(u32::MAX, 2), None);
    assert_eq!(staging_size(64, 512), 32768);
}

#[test]
fn depth_scale_for_sixteen_bit() {
    let s = BitDepth::Sixteen.depth_scale();
    assert_eq!(s, Ratio { num: 65535, den: 32768 });
    let f = s.num as f32 / s.den as f32;
    assert!(f > 1.9999 && f < 2.0);
    for d in [BitDepth::Eight, BitDepth::Float32] {
        let s = d.depth_scale();
        assert_eq!(s.num as f32 / s.den as f32, 1.0);
    }
}

#[test]
fn format_tables() {
    assert_eq!(BitDepth::from_tag(0), Some(BitDepth::Eight));
    assert_eq!(BitDepth::from_tag(1), Some(BitDepth::Sixteen));
    assert_eq!(BitDepth::from_tag(2), Some(BitDepth::Float32));
    assert_eq!(BitDepth::from_tag(3), None);
    assert_eq!(BitDepth::Sixteen.tag(), 1);
    assert_eq!(BitDepth::Eight.host_format(), PixelFormat::Rgba8Unorm);
    assert_eq!(BitDepth::Sixteen.host_format(), PixelFormat::Rgba16Uint);
    assert_eq!(BitDepth::Float32.host_format(), PixelFormat::Rgba32Float);
    assert_eq!(BitDepth::Sixteen.intermediate_format(), PixelFormat::Rgba16Float);
    assert_eq!(BitDepth::Eight.intermediate_format(), PixelFormat::Rgba8Unorm);
    assert_eq!(BitDepth::Sixteen.upload_format(), PixelFormat::Rgba16Unorm);
    assert_eq!(BitDepth::Sixteen.egress_shader(), EgressShader::Sixteen);
    assert_eq!(BitDepth::Float32.egress_shader(), EgressShader::Plain);
    assert_eq!(PixelFormat::Rgba8Unorm.bytes_per_pixel(), 4);
    assert_eq!(PixelFormat::Rgba16Uint.bytes_per_pixel(), 8);
    assert_eq!(PixelFormat::Rgba32Float.bytes_per_pixel(), 16);
}

#[test]
fn second_target_request_reuses() {
    for d in [BitDepth::Eight, BitDepth::Sixteen, BitDepth::Float32] {
        let mut c: ResourceCache<u32, u32> = ResourceCache::new();
        let mut allocs = 0u32;
        ensure_target(&mut c, 640, 480, d, &mut allocs);
        ensure_target(&mut c, 640, 480, d, &mut allocs);
        assert_eq!(allocs, 1);
        assert_eq!(c.target(), Some(&1));
        assert_eq!(c.final_target(), Some(&1001));
        ensure_target(&mut c, 641, 480, d, &mut allocs);
        assert_eq!(allocs, 2);
    }
}

#[test]
fn staging_and_input_cache() {
    let mut c: ResourceCache<u32, u32> = ResourceCache::new();
    assert!(!c.staging_hit(16384));
    c.install_staging(16384, 7);
    assert!(c.staging_hit(16384));
    assert!(!c.staging_hit(16385));
    assert_eq!(c.staging(), Some(&7));

    let a = "image_a".to_string();
    let b = "image_b".to_string();
    let ka = target_key(64, 64, BitDepth::Eight);
    assert_eq!(ka, TextureKey { width: 64, height: 64, format: PixelFormat::Rgba8Unorm });
    assert!(!c.input_hit(&a, ka));
    c.install_input(&a, ka, 1);
    assert!(c.input_hit(&a, ka));
    assert!(!c.input_hit(&b, ka));
    let ka2 = target_key(32, 64, BitDepth::Eight);
    assert!(!c.input_hit(&a, ka2));
    c.install_input(&a, ka2, 2);
    assert!(c.input_hit(&a, ka2));
    assert_eq!(c.input(&a), Some(&2));
    c.install_input(&b, ka, 3);
    assert_eq!(c.input(&b), Some(&3));
    c.clear_inputs();
    assert_eq!(c.input(&a), None);
    assert_eq!(c.input(&b), None);
    assert_eq!(
        final_key(8, 9, BitDepth::Sixteen),
        TextureKey { width: 8, height: 9, format: PixelFormat::Rgba16Uint }
    );
}

#[test]
fn load_same_source_twice_compiles_once() {
    let mut s = fresh(BitDepth::Eight);
    assert!(s.scene_was_reloaded());
    let src = "void main() {}".to_string();
    assert!(s.needs_compile(&src));
    let msg = s.finish_load(&src, Ok(5));
    assert_eq!(msg, "");
    assert!(!s.needs_compile(&src));
    assert!(s.scene_was_reloaded());
    assert!(!s.scene_was_reloaded());
    assert_eq!(*s.main_context(), 5);
    assert!(!s.is_default());
    assert_eq!(s.source_string(), src);
}

#[test]
fn reload_flag_reads_true_once_per_transition() {
    let mut s = fresh(BitDepth::Eight);
    assert!(s.scene_was_reloaded());
    assert!(!s.scene_was_reloaded());
    let src = "a".to_string();
    s.finish_load(&src, Ok(1));
    assert!(s.scene_was_reloaded());
    assert!(!s.scene_was_reloaded());
    s.unload(0);
    assert!(s.scene_was_reloaded());
    assert!(!s.scene_was_reloaded());
    s.change_bit_depth(BitDepth::Float32, Err(0), 101, 201);
    assert!(s.scene_was_reloaded());
    assert!(!s.scene_was_reloaded());
    s.change_bit_depth(BitDepth::Float32, Err(9), 9, 9);
    assert!(!s.scene_was_reloaded());
    assert_eq!(*s.main_context(), 0);
}

#[test]
fn default_state_renders_full_frame() {
    let s = fresh(BitDepth::Eight);
    assert!(s.is_default());
    assert_eq!(s.source_string(), "");
    let r = readback(64, 64, s.bit_depth()).unwrap();
    assert_eq!(r.unpadded, 256);
    assert_eq!(r.padded, 256);
    assert_eq!(r.staging_size, 16384);
    let mapped: Vec<u8> = (0..r.staging_size).map(|i| (i % 251) as u8 + 1).collect();
    let mut out = vec![0u8; (r.unpadded * 64) as usize];
    depad_rows(&mapped, &mut out, 64, r.unpadded, r.padded);
    assert!(out.iter().all(|b| *b != 0));
    assert_eq!(out, mapped);
}

#[test]
fn depad_drops_row_padding() {
    let r = readback(100, 3, BitDepth::Eight).unwrap();
    assert_eq!((r.unpadded, r.padded, r.staging_size), (400, 512, 1536));
    let mapped: Vec<u8> = (0..1536u32).map(|i| if i % 512 < 400 { (i / 512) as u8 + 1 } else { 0 }).collect();
    let mut out = vec![0u8; 1200];
    depad_rows(&mapped, &mut out, 3, 400, 512);
    assert_eq!(&out[0..400], &[1u8; 400][..]);
    assert_eq!(&out[400..800], &[2u8; 400][..]);
    assert_eq!(&out[800..1200], &[3u8; 400][..]);
    assert_eq!(readback(u32::MAX / 4, 1, BitDepth::Eight), None);
    assert_eq!(readback(65536, 65536, BitDepth::Float32), None);
}

#[test]
fn invalid_source_reports_error() {
    let mut s = fresh(BitDepth::Eight);
    s.scene_was_reloaded();
    let bad = "not a shader".to_string();
    let msg = s.finish_load(&bad, Err("expected `main`".to_string()));
    assert_eq!(msg, "expected `main`");
    assert!(s.is_default());
    assert!(!s.scene_was_reloaded());
    assert_eq!(s.source_string(), bad);
    assert!(!s.needs_compile(&bad));
    let other = "also bad".to_string();
    let msg = s.finish_load(&other, Err(String::new()));
    assert!(!msg.is_empty());
}

#[test]
fn failed_load_after_success_reports_default() {
    let mut s = fresh(BitDepth::Eight);
    let good = "good".to_string();
    assert_eq!(s.finish_load(&good, Ok(3)), "");
    assert!(!s.is_default());
    assert!(s.scene_was_reloaded());
    let bad = "bad".to_string();
    let msg = s.finish_load(&bad, Err("syntax error".to_string()));
    assert_eq!(msg, "syntax error");
    assert!(s.is_default());
    assert!(!s.scene_was_reloaded());
    assert_eq!(*s.main_context(), 3);
    assert_eq!(s.source_string(), bad);
}

#[test]
fn unload_keeps_cache_and_flags_default() {
    let mut s = fresh(BitDepth::Eight);
    {
        let (_, _, _, cache) = s.stages_mut();
        cache.install_targets(8, 8, BitDepth::Eight, 1, 2);
    }
    s.finish_load(&"x".to_string(), Ok(5));
    s.unload(0);
    assert!(s.is_default());
    assert_eq!(s.source_string(), "");
    assert!(s.resources_ref().target_hit(8, 8));
    assert_eq!(s.resources_ref().final_target(), Some(&2));
}

#[test]
fn depth_change_keeps_source_and_drops_inputs() {
    let mut s = fresh(BitDepth::Eight);
    let src = "shader".to_string();
    s.finish_load(&src, Ok(4));
    s.scene_was_reloaded();
    let name = "img".to_string();
    let key = target_key(16, 16, BitDepth::Eight);
    {
        let (_, _, _, cache) = s.stages_mut();
        cache.install_input(&name, key, 11);
        cache.install_targets(16, 16, BitDepth::Eight, 1, 2);
    }
    assert!(s.resources_ref().input_hit(&name, key));
    s.change_bit_depth(BitDepth::Sixteen, Ok(8), 102, 202);
    assert_eq!(s.source_string(), src);
    assert!(s.scene_was_reloaded());
    assert!(!s.is_default());
    assert_eq!(s.bit_depth(), BitDepth::Sixteen);
    assert_eq!(*s.main_context(), 8);
    let plan = plan_image(1024, 16, 16, 1).unwrap();
    assert!(!s.resources_ref().input_hit(&name, plan.key));
    assert_eq!(s.resources_ref().input(&name), None);
    assert!(!s.resources_ref().target_hit(16, 16));
}

#[test]
fn frame_timing_uniforms() {
    let t = frame_timing(100, 25, 4).unwrap();
    assert_eq!(t.elapsed, Ratio { num: 100, den: 25 });
    assert_eq!(t.frame_count, 25);
    assert_eq!(t.delta, 100);
    assert_eq!(frame_timing(7, 1, 2).unwrap().frame_count, 3);
    assert_eq!(frame_timing(u32::MAX, u32::MAX, u32::MAX).unwrap().delta, (u32::MAX as u64) * (u32::MAX as u64));
    assert_eq!(frame_timing(1, 1, 0), None);
}

#[test]
fn image_plans() {
    assert_eq!(plan_image(0, 4, 4, 0), None);
    assert_eq!(plan_image(64, 4, 4, 3), None);
    let p = plan_image(128, 4, 4, 1).unwrap();
    assert_eq!(p.depth, BitDepth::Sixteen);
    assert_eq!(p.upload, PixelFormat::Rgba16Unorm);
    assert_eq!(p.key, TextureKey { width: 4, height: 4, format: PixelFormat::Rgba16Float });
    assert_eq!(p.scale, Ratio { num: 65535, den: 32768 });
    let p = plan_image(64, 4, 4, 2).unwrap();
    assert_eq!(p.upload, PixelFormat::Rgba32Float);
    assert_eq!(p.scale, Ratio { num: 1, den: 1 });
}

#[test]
fn input_rules() {
    assert_eq!(InputKind::IntList.variant(), InputVariant::IntList);
    assert_eq!(InputKind::Point.variant(), InputVariant::Point2d);
    assert_eq!(InputKind::Audio.variant(), InputVariant::Unsupported);
    assert_eq!(InputKind::Event.variant(), InputVariant::Unsupported);
    assert_eq!(InputKind::AudioFft.variant(), InputVariant::Unsupported);
    assert_eq!(InputKind::RawBytes.variant(), InputVariant::Unsupported);
    assert!(update_applies(InputKind::Float, InputKind::Float));
    assert!(!update_applies(InputKind::Float, InputKind::Int));
    assert!(update_applies(InputKind::Int, InputKind::IntList));
    assert!(!update_applies(InputKind::Image, InputKind::Image));
    let values = vec![10, 20, 30];
    assert_eq!(option_value(&values, 1), Some(10));
    assert_eq!(option_value(&values, 3), Some(30));
    assert_eq!(option_value(&values, 0), None);
    assert_eq!(option_value(&values, 4), None);
    assert_eq!(bool_flag(true), 1);
    assert_eq!(bool_flag(false), 0);
    let names = vec!["low".to_string(), "mid".to_string(), "high".to_string()];
    assert_eq!(join_names(&names), "low|mid|high");
    assert_eq!(join_names(&vec!["one".to_string()]), "one");
    assert_eq!(join_names(&Vec::new()), "");
}

#[test]
fn frame_plan_follows_cache() {
    let mut c: ResourceCache<u32, u32> = ResourceCache::new();
    let p = plan_frame(&c, 10, 2, 5, 100, 10, BitDepth::Eight).unwrap();
    assert!(p.new_targets && p.new_staging);
    assert_eq!(p.timing.frame_count, 2);
    assert_eq!(p.readback.padded, 512);
    assert_eq!(p.readback.staging_size, 5120);
    c.install_targets(100, 10, BitDepth::Eight, 1, 2);
    c.install_staging(p.readback.staging_size, 3);
    let q = plan_frame(&c, 10, 2, 5, 100, 10, BitDepth::Eight).unwrap();
    assert!(!q.new_targets && !q.new_staging);
    let r = plan_frame(&c, 10, 2, 5, 100, 10, BitDepth::Float32).unwrap();
    assert!(!r.new_targets && r.new_staging);
    assert_eq!(plan_frame(&c, 10, 2, 0, 100, 10, BitDepth::Eight), None);
}
