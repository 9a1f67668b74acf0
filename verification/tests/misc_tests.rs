use blured::params::{scene_is_dynamic, Effect, ImageFit, ImageSource, Monitor, SlideshowInterval};
use blured::raymarch::{antialiase, MarchResult, Ray};
use blured::slideshow::{frame_sleep_nanos, SlideShowData, FRAME_TIME_TARGET_MS};
use blured::wlclient::{classify_global, keep_waiting_for_configure, missing_protocol, WlGlobal};
use glam::{Vec2, Vec3};

#[test]
fn defaults() {
    assert_eq!(SlideshowInterval::default(), SlideshowInterval::Sec(30));
    assert_eq!(ImageFit::default(), ImageFit::FillV);
    assert_eq!(ImageSource::default(), ImageSource::Builtin);
    assert_eq!(Monitor::default(), Monitor::Auto);
}

#[test]
fn interval_seconds() {
    assert_eq!(SlideshowInterval::Sec(45).secs(), 45);
    assert_eq!(SlideshowInterval::Min(2).secs(), 120);
    assert_eq!(SlideshowInterval::Min(u32::MAX).secs(), u32::MAX as u64 * 60);
}

#[test]
fn dynamic_scenes() {
    let n: Effect<(), ()> = Effect::Neuro(());
    let b: Effect<(), ()> = Effect::Blur(());
    let c: Effect<(), ()> = Effect::Custom("x.wgsl".to_string());
    assert!(n.require_dynamic());
    assert!(!b.require_dynamic());
    assert!(!c.require_dynamic());
    assert!(scene_is_dynamic(false, &n));
    assert!(scene_is_dynamic(true, &b));
    assert!(!scene_is_dynamic(false, &c));
}

#[test]
fn slideshow_timing() {
    let mut s = SlideShowData::default();
    assert!(!s.manage(u128::MAX));
    s.apply_config(true, SlideshowInterval::Sec(30));
    assert_eq!(s.interval_secs, 30);
    assert!(!s.manage(30_000_000_000));
    assert!(s.manage(30_000_000_001));
    s.set_active(false);
    assert!(!s.manage(60_000_000_000));
}

#[test]
fn frame_pacing() {
    assert_eq!(FRAME_TIME_TARGET_MS, 33);
    assert_eq!(frame_sleep_nanos(0), 33_000_000);
    assert_eq!(frame_sleep_nanos(3_000_000), 30_000_000);
    assert_eq!(frame_sleep_nanos(40_000_000), 0);
}

#[test]
fn wayland_globals() {
    assert_eq!(classify_global("wl_shm"), Some(WlGlobal::Shm));
    assert_eq!(classify_global("wl_compositor"), Some(WlGlobal::Compositor));
    assert_eq!(classify_global("zwlr_layer_shell_v1"), Some(WlGlobal::LayerShell));
    assert_eq!(classify_global("wl_seat"), None);
    assert!(!missing_protocol(true, true, true));
    assert!(missing_protocol(true, false, true));
    assert!(keep_waiting_for_configure((0, 0), 0));
    assert!(!keep_waiting_for_configure((0, 0), 5_000_000_000));
    assert!(!keep_waiting_for_configure((1920, 0), 0));
}

#[test]
fn ray_and_march_result() {
    let r = Ray::new(Vec3::new(1.0, 2.0, 3.0), Vec3::Z);
    assert_eq!(r.ori, Vec3::new(1.0, 2.0, 3.0));
    assert_eq!(r.dir, Vec3::Z);
    assert_ne!(MarchResult::Hit, MarchResult::Miss);
}

/// The multisampling as the shader writes it, with float literals.
fn antialiase_reference(aa: u32, uv: Vec2, f: impl Fn(Vec2) -> Vec3) -> Vec3 {
    let mut color = Vec3::ZERO;
    for off_x in 0..aa {
        for off_y in 0..aa {
            let offset = (Vec2::new(off_x as f32, off_y as f32) / aa as f32 - 0.5) * 0.0012;
            color += f(uv + offset);
        }
    }
    color / (aa * aa) as f32
}

#[test]
fn antialiase_matches_shader_arithmetic() {
    let f = |p: Vec2| Vec3::new(p.x.sin(), p.y * p.x, (p.x + 3.0 * p.y).cos());
    for aa in [1u32, 2, 3, 4] {
        for uv in [Vec2::ZERO, Vec2::new(0.3, -0.7), Vec2::new(123.25, 0.001)] {
            let a = antialiase(aa, uv, f);
            let b = antialiase_reference(aa, uv, f);
            assert_eq!(a.to_array().map(f32::to_bits), b.to_array().map(f32::to_bits));
        }
    }
    let constant = antialiase(2, Vec2::ZERO, |_| Vec3::splat(0.5));
    assert_eq!(constant, Vec3::splat(0.5));
}
