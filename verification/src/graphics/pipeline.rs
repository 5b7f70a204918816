//! The render pipeline's fixed state, and the byte-exact encoding of
//! geometry into the vertex and index buffers the pipeline consumes.
//!
//! The vertex layout is position (three 32-bit floats at byte offset 0)
//! followed by color (four 32-bit floats at byte offset 12), 28 bytes per
//! vertex; indices are 32-bit words.  All words are little-endian.

use vstd::prelude::*;
use crate::fixed::{f32_bits_spec, fx_to_f32_bits};
use crate::graphics::context::{SurfaceConfig, SurfaceFormat};
use crate::graphics::geometry::{Geometry, Vertex};

verus! {

/// The byte size of one encoded vertex.
pub const VERTEX_STRIDE: u32 = 28;

/// A vertex attribute's wire format.
#[derive(Clone, Copy, Debug, PartialEq, Eq, Structural)]
pub enum VertexFormat {
    Float32x3,
    Float32x4,
}

/// One attribute of the declared vertex layout.
#[derive(Clone, Copy, Debug, PartialEq, Eq, Structural)]
pub struct VertexAttribute {
    pub shader_location: u32,
    pub offset: u32,
    pub format: VertexFormat,
}

/// The pipeline state fixed at construction: the surface format the
/// pipeline renders into, and the vertex layout it declares.
pub struct PipelineState {
    pub surface_format: SurfaceFormat,
    pub array_stride: u32,
    pub attributes: Vec<VertexAttribute>,
}

/// The declared vertex layout: position at offset 0, color at offset 12.
pub open spec fn layout_attributes() -> Seq<VertexAttribute> {
    seq![
        VertexAttribute { shader_location: 0, offset: 0, format: VertexFormat::Float32x3 },
        VertexAttribute { shader_location: 1, offset: 12, format: VertexFormat::Float32x4 },
    ]
}

/// The four little-endian bytes of a 32-bit word.
pub open spec fn le_bytes32(w: int) -> Seq<u8> {
    seq![
        (w % 256) as u8,
        ((w / 256) % 256) as u8,
        ((w / 65536) % 256) as u8,
        ((w / 16777216) % 256) as u8,
    ]
}

/// The 28 bytes of one encoded vertex: its three coordinates then its four
/// color channels, each as a little-endian single-precision float.
pub open spec fn vertex_bytes_spec(v: Vertex) -> Seq<u8> {
    le_bytes32(f32_bits_spec(v.position@[0])) + le_bytes32(f32_bits_spec(v.position@[1]))
        + le_bytes32(f32_bits_spec(v.position@[2])) + le_bytes32(f32_bits_spec(v.color@[0]))
        + le_bytes32(f32_bits_spec(v.color@[1])) + le_bytes32(f32_bits_spec(v.color@[2]))
        + le_bytes32(f32_bits_spec(v.color@[3]))
}

/// The vertex buffer contents: each vertex's bytes, in order.
pub open spec fn vertices_bytes_spec(vs: Seq<Vertex>) -> Seq<u8>
    decreases vs.len(),
{
    if vs.len() == 0 {
        Seq::empty()
    } else {
        vertices_bytes_spec(vs.drop_last()) + vertex_bytes_spec(vs.last())
    }
}

/// The index buffer contents: each index as a little-endian 32-bit word.
pub open spec fn indices_bytes_spec(ixs: Seq<u32>) -> Seq<u8>
    decreases ixs.len(),
{
    if ixs.len() == 0 {
        Seq::empty()
    } else {
        indices_bytes_spec(ixs.drop_last()) + le_bytes32(ixs.last() as int)
    }
}

/// Each vertex takes exactly `VERTEX_STRIDE` bytes.
pub proof fn lemma_vertices_bytes_len(vs: Seq<Vertex>)
    ensures
        vertices_bytes_spec(vs).len() == VERTEX_STRIDE * vs.len(),
    decreases vs.len(),
{
    if vs.len() > 0 {
        lemma_vertices_bytes_len(vs.drop_last());
    }
}

/// Each index takes exactly four bytes.
pub proof fn lemma_indices_bytes_len(ixs: Seq<u32>)
    ensures
        indices_bytes_spec(ixs).len() == 4 * ixs.len(),
    decreases ixs.len(),
{
    if ixs.len() > 0 {
        lemma_indices_bytes_len(ixs.drop_last());
    }
}

/// Append the four little-endian bytes of a word.
fn push_word(buf: &mut Vec<u8>, w: u32)
    ensures
        final(buf)@ == old(buf)@ + le_bytes32(w as int),
{
    buf.push((w % 256) as u8);
    buf.push(((w / 256) % 256) as u8);
    buf.push(((w / 65536) % 256) as u8);
    buf.push(((w / 16777216) % 256) as u8);
    proof {
        assert(final(buf)@ =~= old(buf)@ + le_bytes32(w as int));
    }
}

/// Append one vertex's 28 bytes.
fn push_vertex(buf: &mut Vec<u8>, v: &Vertex)
    ensures
        final(buf)@ == old(buf)@ + vertex_bytes_spec(*v),
{
    push_word(buf, fx_to_f32_bits(v.position[0]));
    push_word(buf, fx_to_f32_bits(v.position[1]));
    push_word(buf, fx_to_f32_bits(v.position[2]));
    push_word(buf, fx_to_f32_bits(v.color[0]));
    push_word(buf, fx_to_f32_bits(v.color[1]));
    push_word(buf, fx_to_f32_bits(v.color[2]));
    push_word(buf, fx_to_f32_bits(v.color[3]));
    proof {
        assert(final(buf)@ =~= old(buf)@ + vertex_bytes_spec(*v));
    }
}

/// The compiled pipeline's state.
pub struct RenderPipeline {
    pub pipeline: PipelineState,
}

impl RenderPipeline {
    /// A pipeline over the given surface configuration: its output format
    /// is the configuration's format, and it declares the fixed vertex
    /// layout of position at offset 0 and color at offset 12, 28 bytes per
    /// vertex.
    pub fn new(config: &SurfaceConfig) -> (p: RenderPipeline)
        ensures
            p.pipeline.surface_format == config.format,
            p.pipeline.array_stride == VERTEX_STRIDE,
            p.pipeline.attributes@ == layout_attributes(),
    {
        let mut attributes: Vec<VertexAttribute> = Vec::new();
        attributes.push(
            VertexAttribute { shader_location: 0, offset: 0, format: VertexFormat::Float32x3 },
        );
        attributes.push(
            VertexAttribute { shader_location: 1, offset: 12, format: VertexFormat::Float32x4 },
        );
        let p = RenderPipeline {
            pipeline: PipelineState {
                surface_format: config.format,
                array_stride: VERTEX_STRIDE,
                attributes,
            },
        };
        proof {
            assert(p.pipeline.attributes@ =~= layout_attributes());
        }
        p
    }

    /// The pipeline state, for binding.
    pub fn get_pipeline(&self) -> (p: &PipelineState)
        ensures
            p == &self.pipeline,
    {
        &self.pipeline
    }

    /// The contents of the two GPU buffers for a mesh: the encoded vertex
    /// buffer and the encoded index buffer, byte for byte.
    pub fn create_buffers(&self, geometry: &Geometry) -> (bufs: (Vec<u8>, Vec<u8>))
        ensures
            bufs.0@ == vertices_bytes_spec(geometry.vertices@),
            bufs.1@ == indices_bytes_spec(geometry.indices@),
            bufs.0@.len() == VERTEX_STRIDE * geometry.vertices@.len(),
            bufs.1@.len() == 4 * geometry.indices@.len(),
    {
        let mut vb: Vec<u8> = Vec::new();
        let n = geometry.vertices.len();
        let mut i: usize = 0;
        while i < n
            invariant
                i <= n,
                n == geometry.vertices@.len(),
                vb@ == vertices_bytes_spec(geometry.vertices@.take(i as int)),
            decreases n - i,
        {
            push_vertex(&mut vb, &geometry.vertices[i]);
            proof {
                let vs = geometry.vertices@;
                assert(vs.take(i + 1).drop_last() =~= vs.take(i as int));
                assert(vs.take(i + 1).last() == vs[i as int]);
            }
            i = i + 1;
        }

        let mut ib: Vec<u8> = Vec::new();
        let k = geometry.indices.len();
        let mut j: usize = 0;
        while j < k
            invariant
                j <= k,
                k == geometry.indices@.len(),
                ib@ == indices_bytes_spec(geometry.indices@.take(j as int)),
            decreases k - j,
        {
            push_word(&mut ib, geometry.indices[j]);
            proof {
                let ixs = geometry.indices@;
                assert(ixs.take(j + 1).drop_last() =~= ixs.take(j as int));
                assert(ixs.take(j + 1).last() == ixs[j as int]);
            }
            j = j + 1;
        }

        proof {
            assert(geometry.vertices@.take(n as int) =~= geometry.vertices@);
            assert(geometry.indices@.take(k as int) =~= geometry.indices@);
            lemma_vertices_bytes_len(geometry.vertices@);
            lemma_indices_bytes_len(geometry.indices@);
        }
        (vb, ib)
    }
}

} // verus!
