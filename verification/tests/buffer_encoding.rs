//! The pipeline state and the byte-exact buffer encoding.

use rendercore::fixed::FX_ONE;
use rendercore::graphics::color::Color;
use rendercore::graphics::context::{SurfaceConfig, SurfaceFormat};
use rendercore::graphics::geometry::GeometryBuilder;
use rendercore::graphics::pipeline::{RenderPipeline, VertexFormat, VERTEX_STRIDE};

fn test_config() -> SurfaceConfig {
    SurfaceConfig {
        format: SurfaceFormat { id: 42, srgb: true },
        width: 800,
        height: 600,
        present_mode: 0,
        alpha_mode: 0,
    }
}

#[test]
fn pipeline_state_is_fixed_at_creation() {
    let p = RenderPipeline::new(&test_config());
    let state = p.get_pipeline();
    assert_eq!(state.surface_format, SurfaceFormat { id: 42, srgb: true });
    assert_eq!(state.array_stride, 28);
    assert_eq!(state.attributes.len(), 2);
    assert_eq!(state.attributes[0].shader_location, 0);
    assert_eq!(state.attributes[0].offset, 0);
    assert_eq!(state.attributes[0].format, VertexFormat::Float32x3);
    assert_eq!(state.attributes[1].shader_location, 1);
    assert_eq!(state.attributes[1].offset, 12);
    assert_eq!(state.attributes[1].format, VertexFormat::Float32x4);
}

#[test]
fn buffer_sizes_follow_the_stride() {
    let p = RenderPipeline::new(&test_config());
    let g = GeometryBuilder::circle(FX_ONE, 6, Color::white());
    let (vb, ib) = p.create_buffers(&g);
    assert_eq!(vb.len(), VERTEX_STRIDE as usize * g.vertices.len());
    assert_eq!(ib.len(), 4 * g.indices.len());
}

#[test]
fn index_buffer_is_little_endian_u32() {
    let p = RenderPipeline::new(&test_config());
    let g = GeometryBuilder::rectangle(FX_ONE, FX_ONE, Color::white());
    let (_, ib) = p.create_buffers(&g);
    let mut expected: Vec<u8> = Vec::new();
    for i in [0u32, 1, 2, 0, 2, 3] {
        expected.extend_from_slice(&i.to_le_bytes());
    }
    assert_eq!(ib, expected);
}

#[test]
fn encoded_circle_rim_decodes_to_radius() {
    let p = RenderPipeline::new(&test_config());
    let r: i64 = 157286;  // about 0.15
    let radius = r as f64 / FX_ONE as f64;
    let g = GeometryBuilder::circle(r, 16, Color::blue());
    let (vb, _) = p.create_buffers(&g);
    // decode each rim vertex's position straight from the buffer bytes
    for vi in 1..g.vertices.len() {
        let base = vi * VERTEX_STRIDE as usize;
        let mut coords = [0.0f64; 3];
        for k in 0..3 {
            let at = base + 4 * k;
            let word = [vb[at], vb[at + 1], vb[at + 2], vb[at + 3]];
            coords[k] = f32::from_le_bytes(word) as f64;
        }
        let d = (coords[0] * coords[0] + coords[1] * coords[1] + coords[2] * coords[2]).sqrt();
        assert!((d - radius).abs() < 1e-3, "vertex {} distance {}", vi, d);
    }
}

#[test]
fn vertex_buffer_encodes_floats_at_declared_offsets() {
    let p = RenderPipeline::new(&test_config());
    let c = Color::rgb(FX_ONE / 2, 0, FX_ONE);
    let g = GeometryBuilder::rectangle(2 * FX_ONE, 2 * FX_ONE, c);
    let (vb, _) = p.create_buffers(&g);
    assert_eq!(vb.len(), 4 * 28);
    let corners: [[f32; 3]; 4] = [
        [-1.0, -1.0, 0.0],
        [1.0, -1.0, 0.0],
        [1.0, 1.0, 0.0],
        [-1.0, 1.0, 0.0],
    ];
    let color: [f32; 4] = [0.5, 0.0, 1.0, 1.0];
    for (vi, corner) in corners.iter().enumerate() {
        let base = vi * 28;
        // position: three floats at byte offset 0
        for (k, x) in corner.iter().enumerate() {
            let at = base + 4 * k;
            assert_eq!(&vb[at..at + 4], &x.to_le_bytes(), "vertex {} coord {}", vi, k);
        }
        // color: four floats at byte offset 12
        for (k, x) in color.iter().enumerate() {
            let at = base + 12 + 4 * k;
            assert_eq!(&vb[at..at + 4], &x.to_le_bytes(), "vertex {} channel {}", vi, k);
        }
    }
}
