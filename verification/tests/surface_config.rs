//! Surface format choice and resize behaviour.

use rendercore::graphics::context::{
    choose_format, GraphicsContext, SurfaceCaps, SurfaceFormat,
};

fn fmt(id: u32, srgb: bool) -> SurfaceFormat {
    SurfaceFormat { id, srgb }
}

#[test]
fn format_choice_prefers_first_srgb() {
    let formats = vec![fmt(1, false), fmt(2, true), fmt(3, true), fmt(4, false)];
    assert_eq!(choose_format(&formats), fmt(2, true));
}

#[test]
fn format_choice_falls_back_to_first() {
    let formats = vec![fmt(9, false), fmt(8, false)];
    assert_eq!(choose_format(&formats), fmt(9, false));
}

#[test]
fn new_context_configures_to_window_size() {
    let caps = SurfaceCaps {
        formats: vec![fmt(5, true)],
        present_modes: vec![1, 2],
        alpha_modes: vec![3, 4],
    };
    let ctx = GraphicsContext::new((1024, 768), &caps);
    assert_eq!(ctx.size, (1024, 768));
    assert_eq!(ctx.config.width, 1024);
    assert_eq!(ctx.config.height, 768);
    assert_eq!(ctx.config.format, fmt(5, true));
    assert_eq!(ctx.config.present_mode, 1);
    assert_eq!(ctx.config.alpha_mode, 3);
}

#[test]
fn resize_updates_only_the_dimensions() {
    let caps = SurfaceCaps {
        formats: vec![fmt(5, true)],
        present_modes: vec![1],
        alpha_modes: vec![3],
    };
    let mut ctx = GraphicsContext::new((100, 100), &caps);
    ctx.resize((640, 360));
    assert_eq!(ctx.size, (640, 360));
    assert_eq!(ctx.config.width, 640);
    assert_eq!(ctx.config.height, 360);
    assert_eq!(ctx.config.format, fmt(5, true));
    assert_eq!(ctx.config.present_mode, 1);
    assert_eq!(ctx.config.alpha_mode, 3);
}

#[test]
fn resize_twice_with_same_size_is_idempotent() {
    let caps = SurfaceCaps {
        formats: vec![fmt(5, false)],
        present_modes: vec![1],
        alpha_modes: vec![3],
    };
    let mut ctx = GraphicsContext::new((100, 100), &caps);
    ctx.resize((640, 360));
    let config_after_first = ctx.config;
    let size_after_first = ctx.size;
    ctx.resize((640, 360));
    assert_eq!(ctx.config, config_after_first);
    assert_eq!(ctx.size, size_after_first);
}
