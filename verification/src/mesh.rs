//! The fixed mesh: a unit cube of 24 vertices and 36 indices with
//! per-face texture coordinates, uploaded once at startup and never
//! mutated.
//!
//! Every coordinate of the cube lies on the unit lattice, so positions
//! and texture coordinates are carried as whole numbers; the
//! surrounding binary converts them to the device's floating-point
//! vertex format at upload, following the layout described by
//! [`Vertex::desc`].

use vstd::prelude::*;

verus! {

/// Byte distance between consecutive vertices in the device buffer:
/// three 32-bit position channels plus two 32-bit texture channels.
pub const VERTEX_STRIDE_BYTES: u32 = 20;

/// Byte offset of the texture-coordinate attribute inside one vertex.
pub const VERTEX_UV_OFFSET_BYTES: u32 = 12;

/// One mesh vertex: a lattice position and a texture coordinate.
#[derive(Clone, Copy, PartialEq, Eq, Debug)]
pub struct Vertex {
    pub pos: [u32; 3],
    pub uv: [u32; 2],
}

/// Channel layout of one vertex attribute in the device buffer.
#[derive(Clone, Copy, PartialEq, Eq, Structural, Debug)]
pub enum VertexFormat {
    Float32x3,
    Float32x2,
}

/// One attribute of the vertex buffer layout.
#[derive(Clone, Copy, PartialEq, Eq, Structural, Debug)]
pub struct VertexAttributeDesc {
    pub shader_location: u32,
    pub offset: u32,
    pub format: VertexFormat,
}

/// The vertex buffer's layout: stride and per-vertex attributes, as
/// the pipeline expects them.
pub struct VertexBufferLayoutDesc {
    pub array_stride: u32,
    pub attributes: Vec<VertexAttributeDesc>,
}

/// The two attributes of [`Vertex`]: position at offset zero in shader
/// location zero, texture coordinates after it in location one.
pub open spec fn vertex_attributes_spec() -> Seq<VertexAttributeDesc> {
    seq![
        VertexAttributeDesc { shader_location: 0, offset: 0, format: VertexFormat::Float32x3 },
        VertexAttributeDesc {
            shader_location: 1,
            offset: VERTEX_UV_OFFSET_BYTES,
            format: VertexFormat::Float32x2,
        },
    ]
}

impl Vertex {
    pub fn new(pos: [u32; 3], uv: [u32; 2]) -> (r: Vertex)
        ensures
            r == (Vertex { pos, uv }),
    {
        Vertex { pos, uv }
    }

    /// The buffer layout the pipeline binds this vertex type with.
    pub fn desc() -> (r: VertexBufferLayoutDesc)
        ensures
            r.array_stride == VERTEX_STRIDE_BYTES,
            r.attributes@ == vertex_attributes_spec(),
    {
        let mut attributes: Vec<VertexAttributeDesc> = Vec::new();
        attributes.push(
            VertexAttributeDesc { shader_location: 0, offset: 0, format: VertexFormat::Float32x3 },
        );
        attributes.push(
            VertexAttributeDesc {
                shader_location: 1,
                offset: VERTEX_UV_OFFSET_BYTES,
                format: VertexFormat::Float32x2,
            },
        );
        assert(attributes@ =~= vertex_attributes_spec());
        VertexBufferLayoutDesc { array_stride: VERTEX_STRIDE_BYTES, attributes }
    }
}

/// The cube's 24 corner positions, four per face, in face order.
pub open spec fn cube_positions_spec() -> Seq<[u32; 3]> {
    seq![
        [0u32, 0u32, 0u32],
        [0u32, 1u32, 0u32],
        [1u32, 1u32, 0u32],
        [1u32, 0u32, 0u32],
        [1u32, 0u32, 0u32],
        [1u32, 1u32, 0u32],
        [1u32, 1u32, 1u32],
        [1u32, 0u32, 1u32],
        [1u32, 0u32, 1u32],
        [1u32, 1u32, 1u32],
        [0u32, 1u32, 1u32],
        [0u32, 0u32, 1u32],
        [0u32, 0u32, 1u32],
        [0u32, 1u32, 1u32],
        [0u32, 1u32, 0u32],
        [0u32, 0u32, 0u32],
        [0u32, 1u32, 0u32],
        [0u32, 1u32, 1u32],
        [1u32, 1u32, 1u32],
        [1u32, 1u32, 0u32],
        [0u32, 0u32, 0u32],
        [0u32, 0u32, 1u32],
        [1u32, 0u32, 1u32],
        [1u32, 0u32, 0u32],
    ]
}

/// The texture coordinates: the same quad corners for every face.
pub open spec fn cube_uvs_spec() -> Seq<[u32; 2]> {
    seq![
        [0u32, 0u32],
        [0u32, 1u32],
        [1u32, 1u32],
        [1u32, 0u32],
        [0u32, 0u32],
        [0u32, 1u32],
        [1u32, 1u32],
        [1u32, 0u32],
        [0u32, 0u32],
        [0u32, 1u32],
        [1u32, 1u32],
        [1u32, 0u32],
        [0u32, 0u32],
        [0u32, 1u32],
        [1u32, 1u32],
        [1u32, 0u32],
        [0u32, 0u32],
        [0u32, 1u32],
        [1u32, 1u32],
        [1u32, 0u32],
        [0u32, 0u32],
        [0u32, 1u32],
        [1u32, 1u32],
        [1u32, 0u32],
    ]
}

/// The 36 indices: two triangles per face; the last face's winding is
/// flipped so that every face fronts outward.
pub open spec fn cube_indices_spec() -> Seq<u32> {
    seq![
        0u32, 1u32, 3u32, 3u32, 1u32, 2u32,
        4u32, 5u32, 7u32, 7u32, 5u32, 6u32,
        8u32, 9u32, 11u32, 11u32, 9u32, 10u32,
        12u32, 13u32, 15u32, 15u32, 13u32, 14u32,
        16u32, 17u32, 19u32, 19u32, 17u32, 18u32,
        23u32, 21u32, 20u32, 22u32, 21u32, 23u32,
    ]
}

/// Each cube vertex pairs the position with the matching coordinate.
pub open spec fn cube_vertices_spec() -> Seq<Vertex> {
    Seq::new(24, |i: int| Vertex { pos: cube_positions_spec()[i], uv: cube_uvs_spec()[i] })
}

/// The fixed geometry with its index list; `wf` says every index names
/// an existing vertex.
pub struct Mesh {
    pub vertices: Vec<Vertex>,
    pub indices: Vec<u32>,
}

impl Mesh {
    pub open spec fn wf(self) -> bool {
        forall|i: int|
            0 <= i < self.indices@.len() ==> (self.indices@[i] as int) < self.vertices@.len()
    }

    pub fn cube_vertex_positions() -> (r: Vec<[u32; 3]>)
        ensures
            r@ == cube_positions_spec(),
    {
        let r: Vec<[u32; 3]> = vec![
            [0u32, 0u32, 0u32],
            [0u32, 1u32, 0u32],
            [1u32, 1u32, 0u32],
            [1u32, 0u32, 0u32],
            [1u32, 0u32, 0u32],
            [1u32, 1u32, 0u32],
            [1u32, 1u32, 1u32],
            [1u32, 0u32, 1u32],
            [1u32, 0u32, 1u32],
            [1u32, 1u32, 1u32],
            [0u32, 1u32, 1u32],
            [0u32, 0u32, 1u32],
            [0u32, 0u32, 1u32],
            [0u32, 1u32, 1u32],
            [0u32, 1u32, 0u32],
            [0u32, 0u32, 0u32],
            [0u32, 1u32, 0u32],
            [0u32, 1u32, 1u32],
            [1u32, 1u32, 1u32],
            [1u32, 1u32, 0u32],
            [0u32, 0u32, 0u32],
            [0u32, 0u32, 1u32],
            [1u32, 0u32, 1u32],
            [1u32, 0u32, 0u32],
        ];
        assert(r@ =~= cube_positions_spec());
        r
    }

    pub fn cube_uv_coords() -> (r: Vec<[u32; 2]>)
        ensures
            r@ == cube_uvs_spec(),
    {
        let r: Vec<[u32; 2]> = vec![
            [0u32, 0u32],
            [0u32, 1u32],
            [1u32, 1u32],
            [1u32, 0u32],
            [0u32, 0u32],
            [0u32, 1u32],
            [1u32, 1u32],
            [1u32, 0u32],
            [0u32, 0u32],
            [0u32, 1u32],
            [1u32, 1u32],
            [1u32, 0u32],
            [0u32, 0u32],
            [0u32, 1u32],
            [1u32, 1u32],
            [1u32, 0u32],
            [0u32, 0u32],
            [0u32, 1u32],
            [1u32, 1u32],
            [1u32, 0u32],
            [0u32, 0u32],
            [0u32, 1u32],
            [1u32, 1u32],
            [1u32, 0u32],
        ];
        assert(r@ =~= cube_uvs_spec());
        r
    }

    pub fn cube_indices() -> (r: Vec<u32>)
        ensures
            r@ == cube_indices_spec(),
    {
        let r: Vec<u32> = vec![
            0u32, 1u32, 3u32, 3u32, 1u32, 2u32,
            4u32, 5u32, 7u32, 7u32, 5u32, 6u32,
            8u32, 9u32, 11u32, 11u32, 9u32, 10u32,
            12u32, 13u32, 15u32, 15u32, 13u32, 14u32,
            16u32, 17u32, 19u32, 19u32, 17u32, 18u32,
            23u32, 21u32, 20u32, 22u32, 21u32, 23u32,
        ];
        assert(r@ =~= cube_indices_spec());
        r
    }

    /// Pair each position with its coordinate, as the upload does.
    pub fn cube() -> (r: Mesh)
        ensures
            r.vertices@ == cube_vertices_spec(),
            r.indices@ == cube_indices_spec(),
            r.wf(),
    {
        let positions = Mesh::cube_vertex_positions();
        let uvs = Mesh::cube_uv_coords();
        let mut vertices: Vec<Vertex> = Vec::new();
        let mut i: usize = 0;
        while i < 24
            invariant
                positions@ == cube_positions_spec(),
                uvs@ == cube_uvs_spec(),
                i <= 24,
                vertices@.len() == i,
                forall|j: int| 0 <= j < i ==> vertices@[j] == cube_vertices_spec()[j],
            decreases 24 - i,
        {
            vertices.push(Vertex::new(positions[i], uvs[i]));
            i = i + 1;
        }
        assert(vertices@ =~= cube_vertices_spec());
        let indices = Mesh::cube_indices();
        let r = Mesh { vertices, indices };
        proof {
            lemma_cube_indices_valid();
        }
        r
    }

    /// How many indices one indexed draw of this mesh covers.
    pub fn index_count(&self) -> (r: u32)
        requires
            self.indices@.len() <= u32::MAX,
        ensures
            r == self.indices@.len(),
    {
        self.indices.len() as u32
    }
}

/// Every index of the fixed cube names one of its 24 vertices.
pub proof fn lemma_cube_indices_valid()
    ensures
        cube_indices_spec().len() == 36,
        cube_vertices_spec().len() == 24,
        forall|i: int| 0 <= i < 36 ==> cube_indices_spec()[i] < 24,
{
}

} // verus!
