//! Procedural 2D geometry: triangle-list meshes for primitive shapes.
//!
//! Every builder's output is pinned down exactly: the vertex sequence and
//! the index sequence are both stated in the contract, over the fixed-point
//! arithmetic of [`crate::fixed`].

use vstd::prelude::*;
use crate::fixed::{
    FX_LIM, fx_half, fx_half_spec, fx_mul, fx_mul_spec, fx_neg, fx_cos_turn, fx_sin_turn,
    cos_turn_spec, sin_turn_spec,
};
use crate::graphics::color::{Color, to_array_spec};

verus! {

/// `sqrt(3) / 2` in fixed point: the height of an equilateral triangle of
/// unit side.
pub const SQRT3_OVER_2: i64 = 908093;

/// One GPU vertex: a position and an RGBA color, each in fixed point.
#[derive(Clone, Copy, Debug, PartialEq, Eq)]
pub struct Vertex {
    pub position: [i64; 3],
    pub color: [i64; 4],
}

/// The mathematical value of a vertex: its coordinates and its color.
pub struct GVertex {
    pub x: int,
    pub y: int,
    pub z: int,
    pub color: Color,
}

/// The model of a vertex whose color channels are exactly a `Color`'s.
pub open spec fn vertex_view(v: Vertex) -> GVertex {
    GVertex {
        x: v.position@[0] as int,
        y: v.position@[1] as int,
        z: v.position@[2] as int,
        color: Color {
            r: v.color@[0],
            g: v.color@[1],
            b: v.color@[2],
            a: v.color@[3],
        },
    }
}

impl Vertex {
    /// A vertex from a position and a color.
    pub fn new(position: [i64; 3], color: Color) -> (v: Vertex)
        ensures
            v.position@ == position@,
            v.color@ == to_array_spec(color),
            vertex_view(v) == (GVertex {
                x: position@[0] as int,
                y: position@[1] as int,
                z: position@[2] as int,
                color,
            }),
    {
        let v = Vertex { position, color: color.to_array() };
        proof {
            assert(vertex_view(v) == (GVertex {
                x: position@[0] as int,
                y: position@[1] as int,
                z: position@[2] as int,
                color,
            }));
        }
        v
    }
}

/// A drawable triangle-list mesh.
#[derive(Debug, PartialEq, Eq)]
pub struct Geometry {
    pub vertices: Vec<Vertex>,
    pub indices: Vec<u32>,
}

/// The vertex models of a mesh, in order.
pub open spec fn vertices_model(g: Geometry) -> Seq<GVertex> {
    g.vertices@.map_values(|v: Vertex| vertex_view(v))
}

impl Geometry {
    /// A mesh from its vertex and index buffers.
    pub fn new(vertices: Vec<Vertex>, indices: Vec<u32>) -> (g: Geometry)
        ensures
            g.vertices@ == vertices@,
            g.indices@ == indices@,
    {
        Geometry { vertices, indices }
    }

    /// Every index points at a vertex, and the indices form whole triangles.
    pub open spec fn wf(self) -> bool {
        &&& forall|k: int|
            0 <= k < self.indices@.len() ==> (self.indices@[k] as int) < self.vertices@.len()
        &&& self.indices@.len() % 3 == 0
    }
}

/// The vertices of an axis-aligned rectangle of the given width and height,
/// centered at the origin: its four corners in counter-clockwise order
/// starting at the lower left, all in the given color.
pub open spec fn rect_vertices_spec(w: i64, h: i64, c: Color) -> Seq<GVertex> {
    let hw = fx_half_spec(w as int);
    let hh = fx_half_spec(h as int);
    seq![
        GVertex { x: -hw, y: -hh, z: 0, color: c },
        GVertex { x: hw, y: -hh, z: 0, color: c },
        GVertex { x: hw, y: hh, z: 0, color: c },
        GVertex { x: -hw, y: hh, z: 0, color: c },
    ]
}

/// The two triangles that cover a rectangle's corner quad.
pub open spec fn rect_indices_spec() -> Seq<u32> {
    seq![0u32, 1u32, 2u32, 0u32, 2u32, 3u32]
}

/// The vertices of an equilateral triangle with the given side length,
/// centered at the origin with its apex straight up, in the given color.
pub open spec fn triangle_vertices_spec(size: i64, c: Color) -> Seq<GVertex> {
    let height = fx_mul_spec(size as int, SQRT3_OVER_2 as int);
    let hh = fx_half_spec(height);
    let hs = fx_half_spec(size as int);
    seq![
        GVertex { x: 0, y: hh, z: 0, color: c },
        GVertex { x: -hs, y: -hh, z: 0, color: c },
        GVertex { x: hs, y: -hh, z: 0, color: c },
    ]
}

/// The single triangle of a triangle mesh.
pub open spec fn triangle_indices_spec() -> Seq<u32> {
    seq![0u32, 1u32, 2u32]
}

/// Vertex `i` of a circle mesh: the center for `i == 0`, and for rim
/// vertices the point at angle `2 * pi * (i - 1) / segments`, at the given
/// radius from the center.
pub open spec fn circle_vertex_spec(radius: i64, segments: u32, c: Color, i: int) -> GVertex {
    if i == 0 {
        GVertex { x: 0, y: 0, z: 0, color: c }
    } else {
        GVertex {
            x: fx_mul_spec(radius as int, cos_turn_spec(i - 1, segments as int)),
            y: fx_mul_spec(radius as int, sin_turn_spec(i - 1, segments as int)),
            z: 0,
            color: c,
        }
    }
}

/// The `segments + 1` vertices of a circle mesh: one center, then the rim.
pub open spec fn circle_vertices_spec(radius: i64, segments: u32, c: Color) -> Seq<GVertex> {
    Seq::new(segments as nat + 1, |i: int| circle_vertex_spec(radius, segments, c, i))
}

/// Entry `k` of a circle mesh's index buffer.  Wedge `w` (for `k` in
/// `[3w, 3w + 3)`) joins the center, rim vertex `w + 1`, and the next rim
/// vertex, wrapping back to rim vertex `1` after the last segment.
pub open spec fn circle_index_spec(segments: u32, k: int) -> u32 {
    let w = k / 3;
    let j = k % 3;
    if j == 0 {
        0u32
    } else if j == 1 {
        (w + 1) as u32
    } else if w + 1 == segments {
        1u32
    } else {
        (w + 2) as u32
    }
}

/// The `3 * segments` indices of a circle mesh.
pub open spec fn circle_indices_spec(segments: u32) -> Seq<u32> {
    Seq::new(3 * segments as nat, |k: int| circle_index_spec(segments, k))
}

proof fn lemma_div3(i: int, j: int)
    requires
        0 <= i,
        0 <= j < 3,
    ensures
        (3 * i + j) / 3 == i,
        (3 * i + j) % 3 == j,
{
    assert((3 * i + j) / 3 == i && (3 * i + j) % 3 == j) by (nonlinear_arith)
        requires
            0 <= i,
            0 <= j < 3,
    ;
}

/// Rim vertex 1 of any circle mesh sits exactly at the radius along the
/// positive x axis: the tessellation starts at angle zero.
pub proof fn lemma_circle_first_rim_vertex(radius: i64, segments: u32, c: Color)
    requires
        segments >= 1,
    ensures
        circle_vertex_spec(radius, segments, c, 1) == (GVertex {
            x: radius as int,
            y: 0,
            z: 0,
            color: c,
        }),
{
    crate::fixed::lemma_turn_starts_at_unit(segments as int);
    crate::fixed::lemma_fx_mul_one(radius as int);
    crate::fixed::lemma_fx_mul_zero(radius as int);
}

/// Builders for the primitive 2D shapes.
pub struct GeometryBuilder;

impl GeometryBuilder {
    /// An equilateral triangle of the given side length, centered at the
    /// origin, apex up, all three vertices in the given color.
    pub fn triangle(size: i64, color: Color) -> (g: Geometry)
        requires
            -FX_LIM <= size <= FX_LIM,
        ensures
            vertices_model(g) == triangle_vertices_spec(size, color),
            g.indices@ == triangle_indices_spec(),
            g.wf(),
    {
        let height = fx_mul(size, SQRT3_OVER_2);
        let half_height = fx_half(height);
        let half_size = fx_half(size);
        let mut vertices: Vec<Vertex> = Vec::new();
        vertices.push(Vertex::new([0, half_height, 0], color));
        vertices.push(Vertex::new([fx_neg(half_size), fx_neg(half_height), 0], color));
        vertices.push(Vertex::new([half_size, fx_neg(half_height), 0], color));
        let mut indices: Vec<u32> = Vec::new();
        indices.push(0);
        indices.push(1);
        indices.push(2);
        let g = Geometry::new(vertices, indices);
        proof {
            assert(vertices_model(g) =~= triangle_vertices_spec(size, color));
            assert(g.indices@ =~= triangle_indices_spec());
        }
        g
    }

    /// An axis-aligned rectangle of the given width and height, centered at
    /// the origin, covered by two triangles, all four corners in the given
    /// color.
    pub fn rectangle(width: i64, height: i64, color: Color) -> (g: Geometry)
        requires
            width > i64::MIN,
            height > i64::MIN,
        ensures
            vertices_model(g) == rect_vertices_spec(width, height, color),
            g.indices@ == rect_indices_spec(),
            g.wf(),
    {
        let half_width = fx_half(width);
        let half_height = fx_half(height);
        let mut vertices: Vec<Vertex> = Vec::new();
        vertices.push(Vertex::new([fx_neg(half_width), fx_neg(half_height), 0], color));
        vertices.push(Vertex::new([half_width, fx_neg(half_height), 0], color));
        vertices.push(Vertex::new([half_width, half_height, 0], color));
        vertices.push(Vertex::new([fx_neg(half_width), half_height, 0], color));
        let mut indices: Vec<u32> = Vec::new();
        indices.push(0);
        indices.push(1);
        indices.push(2);
        indices.push(0);
        indices.push(2);
        indices.push(3);
        let g = Geometry::new(vertices, indices);
        proof {
            assert(vertices_model(g) =~= rect_vertices_spec(width, height, color));
            assert(g.indices@ =~= rect_indices_spec());
        }
        g
    }

    /// A circle approximated by `segments` wedges fanned around a center
    /// vertex.  Rim vertex `i` (1-indexed) sits at angle
    /// `2 * pi * (i - 1) / segments`; the last wedge wraps back to rim
    /// vertex 1.  Fewer than 3 segments yield degenerate geometry, which is
    /// the caller's responsibility to avoid.
    pub fn circle(radius: i64, segments: u32, color: Color) -> (g: Geometry)
        requires
            -FX_LIM <= radius <= FX_LIM,
            segments < 1431655765,
        ensures
            vertices_model(g) == circle_vertices_spec(radius, segments, color),
            g.indices@ == circle_indices_spec(segments),
            g.wf(),
    {
        let mut vertices: Vec<Vertex> = Vec::new();
        let mut indices: Vec<u32> = Vec::new();

        vertices.push(Vertex::new([0, 0, 0], color));

        let mut i: u32 = 0;
        while i < segments
            invariant
                0 <= i <= segments,
                -FX_LIM <= radius <= FX_LIM,
                vertices@.len() == i + 1,
                forall|j: int|
                    0 <= j <= i ==> vertex_view(vertices@[j]) == circle_vertex_spec(
                        radius,
                        segments,
                        color,
                        j,
                    ),
            decreases segments - i,
        {
            let x = fx_mul(radius, fx_cos_turn(i, segments));
            let y = fx_mul(radius, fx_sin_turn(i, segments));
            vertices.push(Vertex::new([x, y, 0], color));
            i = i + 1;
        }

        let mut i: u32 = 0;
        while i < segments
            invariant
                0 <= i <= segments,
                segments < 1431655765,
                indices@.len() == 3 * i,
                forall|k: int|
                    0 <= k < 3 * i ==> indices@[k] == circle_index_spec(segments, k),
            decreases segments - i,
        {
            let next: u32 = if i + 1 == segments {
                1
            } else {
                i + 2
            };
            indices.push(0);
            indices.push(i + 1);
            indices.push(next);
            proof {
                lemma_div3(i as int, 0);
                lemma_div3(i as int, 1);
                lemma_div3(i as int, 2);
            }
            i = i + 1;
        }

        let g = Geometry::new(vertices, indices);
        proof {
            assert(vertices_model(g) =~= circle_vertices_spec(radius, segments, color));
            assert(g.indices@ =~= circle_indices_spec(segments));
        }
        g
    }

    /// A square: exactly the rectangle whose width and height are both the
    /// given size.  The output is pinned to the same vertex and index
    /// models as `rectangle(size, size, color)`.
    pub fn quad(size: i64, color: Color) -> (g: Geometry)
        requires
            size > i64::MIN,
        ensures
            vertices_model(g) == rect_vertices_spec(size, size, color),
            g.indices@ == rect_indices_spec(),
            g.wf(),
    {
        Self::rectangle(size, size, color)
    }
}

} // verus!
