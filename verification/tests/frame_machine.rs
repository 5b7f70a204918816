//! The per-frame state machine: recording order and the unpresentable
//! surface path.

use rendercore::fixed::FX_ONE;
use rendercore::graphics::color::Color;
use rendercore::graphics::context::{SurfaceCaps, SurfaceFormat};
use rendercore::graphics::geometry::GeometryBuilder;
use rendercore::graphics::renderer::{RenderCommand, Renderer};

fn test_caps() -> SurfaceCaps {
    SurfaceCaps {
        formats: vec![
            SurfaceFormat { id: 10, srgb: false },
            SurfaceFormat { id: 11, srgb: true },
        ],
        present_modes: vec![2, 3],
        alpha_modes: vec![7],
    }
}

#[test]
fn clear_then_draw_records_in_order() {
    let mut renderer = Renderer::new((800, 600), &test_caps());
    let mut frame = renderer.begin_frame(true).expect("frame");
    frame.clear(Color::red());
    frame.draw_triangle(FX_ONE / 2, Color::white());
    let commands = frame.present();
    assert_eq!(commands.len(), 2);
    match &commands[0] {
        RenderCommand::Clear(c) => assert_eq!(*c, Color::red()),
        other => panic!("expected a clear first, got {:?}", other),
    }
    match &commands[1] {
        RenderCommand::Draw(g) => {
            assert_eq!(g.indices, vec![0, 1, 2]);
            assert_eq!(g.vertices.len(), 3);
        }
        other => panic!("expected a draw second, got {:?}", other),
    }
}

#[test]
fn unpresentable_surface_yields_no_frame() {
    let mut renderer = Renderer::new((800, 600), &test_caps());
    // a minimized window: the surface cannot yield a texture
    assert!(renderer.begin_frame(false).is_none());
    // and the renderer still works on the next tick
    assert!(renderer.begin_frame(true).is_some());
}

#[test]
fn new_frame_starts_empty() {
    let mut renderer = Renderer::new((100, 100), &test_caps());
    let frame = renderer.begin_frame(true).expect("frame");
    assert_eq!(frame.present().len(), 0);
}

#[test]
fn later_clears_are_recorded_after_earlier_ones() {
    let mut renderer = Renderer::new((100, 100), &test_caps());
    let mut frame = renderer.begin_frame(true).expect("frame");
    frame.clear(Color::red());
    frame.clear(Color::blue());
    let commands = frame.present();
    assert_eq!(
        commands,
        vec![
            RenderCommand::Clear(Color::red()),
            RenderCommand::Clear(Color::blue()),
        ]
    );
}

#[test]
fn draw_helpers_record_builder_output() {
    let mut renderer = Renderer::new((100, 100), &test_caps());
    let mut frame = renderer.begin_frame(true).expect("frame");
    frame.draw_rectangle(2 * FX_ONE, FX_ONE, Color::green());
    frame.draw_circle(FX_ONE, 5, Color::blue());
    frame.draw_quad(FX_ONE, Color::white());
    frame.draw_geometry(GeometryBuilder::triangle(FX_ONE, Color::red()));
    let commands = frame.present();
    assert_eq!(commands.len(), 4);
    assert_eq!(
        commands[0],
        RenderCommand::Draw(GeometryBuilder::rectangle(2 * FX_ONE, FX_ONE, Color::green()))
    );
    assert_eq!(
        commands[1],
        RenderCommand::Draw(GeometryBuilder::circle(FX_ONE, 5, Color::blue()))
    );
    assert_eq!(
        commands[2],
        RenderCommand::Draw(GeometryBuilder::rectangle(FX_ONE, FX_ONE, Color::white()))
    );
    assert_eq!(
        commands[3],
        RenderCommand::Draw(GeometryBuilder::triangle(FX_ONE, Color::red()))
    );
}

#[test]
fn renderer_pipeline_format_follows_surface() {
    let renderer = Renderer::new((640, 480), &test_caps());
    // the chosen format is the first sRGB one the surface offers
    assert_eq!(renderer.context.config.format, SurfaceFormat { id: 11, srgb: true });
    assert_eq!(
        renderer.pipeline.pipeline.surface_format,
        renderer.context.config.format
    );
}

#[test]
fn renderer_resize_keeps_pipeline_format_valid() {
    let mut renderer = Renderer::new((640, 480), &test_caps());
    renderer.resize((320, 240));
    assert_eq!(renderer.context.config.width, 320);
    assert_eq!(renderer.context.config.height, 240);
    assert_eq!(
        renderer.pipeline.pipeline.surface_format,
        renderer.context.config.format
    );
}
