//! Geometry of a mesh: vertices, indices and the arguments of an indirect
//! draw.

use vstd::prelude::*;
use crate::scene::geometry::GeometrySource;

verus! {

/// A corner of a mesh. Position and texture coordinate are whole numbers:
/// the built-in geometry has no others.
#[derive(Clone, Copy, Debug, PartialEq, Eq, Structural)]
pub struct Vertex {
    pub x: i32,
    pub y: i32,
    pub z: i32,
    pub u: i32,
    pub v: i32,
}

/// The component count of a vertex attribute of single-precision numbers.
#[derive(Clone, Copy, Debug, PartialEq, Eq, Structural)]
pub enum VertexFormat {
    Float32x2,
    Float32x3,
}

/// One attribute of a vertex as the vertex stage reads it.
#[derive(Clone, Copy, Debug, PartialEq, Eq, Structural)]
pub struct VertexAttribute {
    pub offset: u64,
    pub shader_location: u32,
    pub format: VertexFormat,
}

/// How vertices lie in the vertex buffer: one after the other,
/// `array_stride` bytes apart.
#[derive(Debug)]
pub struct VertexBufferLayout {
    pub array_stride: u64,
    pub attributes: Vec<VertexAttribute>,
}

impl Vertex {
    /// The layout of a vertex in the buffer: the position, three numbers of
    /// four bytes, at location 0, then the texture coordinate, two such
    /// numbers, at location 1.
    pub fn desc() -> (layout: VertexBufferLayout)
        ensures
            layout.array_stride == 20,
            layout.attributes@ == seq![
                VertexAttribute { offset: 0, shader_location: 0, format: VertexFormat::Float32x3 },
                VertexAttribute { offset: 12, shader_location: 1, format: VertexFormat::Float32x2 },
            ],
    {
        let attributes = vec![
            VertexAttribute { offset: 0, shader_location: 0, format: VertexFormat::Float32x3 },
            VertexAttribute { offset: 12, shader_location: 1, format: VertexFormat::Float32x2 },
        ];
        assert(attributes@ =~= seq![
            VertexAttribute { offset: 0, shader_location: 0, format: VertexFormat::Float32x3 },
            VertexAttribute { offset: 12, shader_location: 1, format: VertexFormat::Float32x2 },
        ]);
        VertexBufferLayout { array_stride: 20, attributes }
    }
}

/// The arguments of an indirect draw.
#[derive(Clone, Copy, Debug, PartialEq, Eq, Structural)]
pub struct DrawIndirect {
    /// The number of vertices to draw.
    pub vertex_count: u32,
    /// The number of instances to draw.
    pub instance_count: u32,
    /// The index of the first vertex to draw.
    pub base_vertex: u32,
    /// The instance ID of the first instance to draw.
    pub base_instance: u32,
}

/// The corners of the quad: top left, bottom right, bottom left, top right.
pub open spec fn spec_quad_vertices() -> Seq<Vertex> {
    seq![
        Vertex { x: -1i32, y: 1, z: 0, u: 0, v: 1 },
        Vertex { x: 1, y: -1i32, z: 0, u: 1, v: 0 },
        Vertex { x: -1i32, y: -1i32, z: 0, u: 0, v: 0 },
        Vertex { x: 1, y: 1, z: 0, u: 1, v: 1 },
    ]
}

/// The two triangles of the quad, wound clockwise.
pub open spec fn spec_quad_indices() -> Seq<u16> {
    seq![0u16, 1u16, 2u16, 0u16, 3u16, 1u16]
}

/// The vertices of a geometry source. Every source is drawn as the quad.
pub fn get_vertices(geometry: &GeometrySource) -> (vertices: Vec<Vertex>)
    ensures
        vertices@ == spec_quad_vertices(),
{
    let vertices = vec![
        Vertex { x: -1, y: 1, z: 0, u: 0, v: 1 },
        Vertex { x: 1, y: -1, z: 0, u: 1, v: 0 },
        Vertex { x: -1, y: -1, z: 0, u: 0, v: 0 },
        Vertex { x: 1, y: 1, z: 0, u: 1, v: 1 },
    ];
    assert(vertices@ =~= spec_quad_vertices());
    vertices
}

/// The indices of a geometry source. Every source is drawn as the quad.
pub fn get_indices(geometry: &GeometrySource) -> (indices: Vec<u16>)
    ensures
        indices@ == spec_quad_indices(),
{
    let indices: Vec<u16> = vec![0, 1, 2, 0, 3, 1];
    assert(indices@ =~= spec_quad_indices());
    indices
}

/// What the buffers of a mesh hold.
#[derive(Debug)]
pub struct MeshBuffers {
    pub vertices: Vec<Vertex>,
    pub indices: Vec<u16>,
    pub indirect: DrawIndirect,
    pub index_count: u32,
}

impl MeshBuffers {
    /// The buffers of a geometry source: its vertices and indices, and an
    /// indirect draw of one instance of all its indices.
    pub fn new(geometry_source: &GeometrySource) -> (buffers: Self)
        ensures
            buffers.vertices@ == spec_quad_vertices(),
            buffers.indices@ == spec_quad_indices(),
            buffers.index_count == 6,
            buffers.indirect == (DrawIndirect {
                vertex_count: 6,
                instance_count: 1,
                base_vertex: 0,
                base_instance: 0,
            }),
    {
        let vertices = get_vertices(geometry_source);
        let indices = get_indices(geometry_source);
        let index_count: u32 = 6;
        MeshBuffers {
            vertices,
            indices,
            indirect: DrawIndirect {
                vertex_count: index_count,
                instance_count: 1,
                base_vertex: 0,
                base_instance: 0,
            },
            index_count,
        }
    }
}

} // verus!
