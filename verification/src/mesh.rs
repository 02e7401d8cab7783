//! Mesh construction.
//!
//! `MeshBuilder` accumulates a vertex list and an index list; `build`
//! snapshots them into an immutable `Mesh`.  Indices are stored
//! per-corner, three per triangle, so a mesh's element count equals its
//! index count.  The GPU shell uploads a `Mesh`'s two lists as its
//! vertex and index buffers.

use vstd::prelude::*;

use crate::fx::FX_ONE;
use crate::vec3::Vec3;

verus! {

/// A tenth of a unit: the red tint shared by the two minor channels of
/// the builder's flat vertex color.
pub const COLOR_TENTH: i64 = 6554;

/// An RGBA color with fixed-point channels.
#[derive(Clone, Copy, Debug, PartialEq, Eq, Structural)]
pub struct Color {
    pub r: i64,
    pub g: i64,
    pub b: i64,
    pub a: i64,
}

/// The flat color given to every built vertex: an opaque red.
pub open spec fn builder_color() -> Color {
    Color { r: FX_ONE, g: COLOR_TENTH, b: COLOR_TENTH, a: FX_ONE }
}

/// One vertex of a mesh: position, normal and flat color.  Normals are
/// exact direction vectors; the GPU shell normalizes them when it
/// converts to floats.
#[derive(Clone, Copy, Debug, PartialEq, Eq, Structural)]
pub struct MeshVertex {
    pub position: Vec3,
    pub normal: Vec3,
    pub color: Color,
}

/// The vertex the builder appends for a position and a normal.
pub open spec fn built_vertex(position: Vec3, normal: Vec3) -> MeshVertex {
    MeshVertex { position, normal, color: builder_color() }
}

/// The four vertices `add_quad` appends: the quad's corners in winding
/// order, all sharing the flat normal `cross(length, width)`.
pub open spec fn quad_vertices(position: Vec3, width: Vec3, length: Vec3) -> Seq<MeshVertex> {
    let n = length.cross_spec(width);
    seq![
        built_vertex(position, n),
        built_vertex(position.add_spec(length), n),
        built_vertex(position.add_spec(width).add_spec(length), n),
        built_vertex(position.add_spec(width), n),
    ]
}

/// The six indices `add_quad` appends: two triangles splitting the quad
/// along the diagonal from its first corner.
pub open spec fn quad_indices(base: int) -> Seq<u32> {
    seq![
        base as u32,
        (base + 1) as u32,
        (base + 2) as u32,
        base as u32,
        (base + 2) as u32,
        (base + 3) as u32,
    ]
}

/// The six indices `add_linked_quad` appends when it links: two
/// triangles stitching the vertex `v` (the one just appended) to its
/// predecessor and to the two vertices `offset` and `offset + 1` places
/// earlier.
pub open spec fn linked_quad_indices(v: int, offset: int) -> Seq<u32> {
    seq![
        v as u32,
        (v - offset) as u32,
        (v - 1) as u32,
        (v - offset) as u32,
        (v - offset - 1) as u32,
        (v - 1) as u32,
    ]
}

/// An immutable mesh: named vertex and index lists ready for upload,
/// the element (index) count, and the owning model's material slot.
#[derive(Debug)]
pub struct Mesh {
    pub name: String,
    pub vertices: Vec<MeshVertex>,
    pub indices: Vec<u32>,
    pub num_elements: u32,
    pub material: usize,
}

impl Mesh {
    /// Every index addresses a vertex and the element count is the
    /// index count.
    pub open spec fn valid(self) -> bool {
        &&& forall|i: int|
            0 <= i < self.indices@.len() ==> (self.indices@[i] as int) < self.vertices@.len()
        &&& self.num_elements as int == self.indices@.len()
    }

    /// The number of triangles: one per three indices.
    pub open spec fn triangle_count(self) -> int {
        self.indices@.len() as int / 3
    }
}

/// Accumulates vertices and triangle indices for one mesh.
pub struct MeshBuilder {
    label: String,
    vertices: Vec<MeshVertex>,
    indices: Vec<u32>,
}

impl MeshBuilder {
    /// The vertices accumulated so far.
    pub closed spec fn vertices_view(self) -> Seq<MeshVertex> {
        self.vertices@
    }

    /// The indices accumulated so far.
    pub closed spec fn indices_view(self) -> Seq<u32> {
        self.indices@
    }

    /// The label that will name the built mesh.
    pub closed spec fn label_view(self) -> Seq<char> {
        self.label@
    }

    /// Every accumulated index addresses an accumulated vertex.
    pub open spec fn valid(self) -> bool {
        forall|i: int|
            0 <= i < self.indices_view().len() ==> (self.indices_view()[i] as int)
                < self.vertices_view().len()
    }

    /// An empty builder carrying a label for the built mesh.
    pub fn new(label: &str) -> (b: MeshBuilder)
        ensures
            b.vertices_view() == Seq::<MeshVertex>::empty(),
            b.indices_view() == Seq::<u32>::empty(),
            b.label_view() == label@,
    {
        MeshBuilder { indices: Vec::new(), label: label.to_string(), vertices: Vec::new() }
    }

    /// Appends one triangle's three corner indices.
    pub fn add_face(&mut self, indices: (u32, u32, u32))
        ensures
            final(self).vertices_view() == old(self).vertices_view(),
            final(self).indices_view() == old(self).indices_view() + seq![
                indices.0,
                indices.1,
                indices.2,
            ],
            final(self).label_view() == old(self).label_view(),
    {
        let (i1, i2, i3) = indices;
        self.indices.push(i1);
        self.indices.push(i2);
        self.indices.push(i3);
        proof {
            assert(self.indices@ =~= old(self).indices@ + seq![indices.0, indices.1, indices.2]);
        }
    }

    /// Appends one vertex with the builder's flat color.
    pub fn add_vertex(&mut self, position: Vec3, normal: Vec3)
        ensures
            final(self).vertices_view() == old(self).vertices_view() + seq![
                built_vertex(position, normal),
            ],
            final(self).indices_view() == old(self).indices_view(),
            final(self).label_view() == old(self).label_view(),
    {
        self.vertices.push(
            MeshVertex {
                position,
                normal,
                color: Color { r: FX_ONE, g: COLOR_TENTH, b: COLOR_TENTH, a: FX_ONE },
            },
        );
        proof {
            assert(self.vertices@ =~= old(self).vertices@ + seq![built_vertex(position, normal)]);
        }
    }

    /// Appends a quad: four corner vertices sharing the flat normal
    /// `cross(length, width)` and two triangles splitting the quad
    /// along its first diagonal.  Always emits exactly 4 vertices and 2
    /// triangles.
    pub fn add_quad(&mut self, position: Vec3, width: Vec3, length: Vec3)
        requires
            position.bounded(crate::fx::FX_BOUND as int),
            width.bounded(crate::fx::FX_BOUND as int),
            length.bounded(crate::fx::FX_BOUND as int),
            old(self).vertices_view().len() + 4 <= u32::MAX,
        ensures
            final(self).vertices_view() == old(self).vertices_view() + quad_vertices(
                position,
                width,
                length,
            ),
            final(self).indices_view() == old(self).indices_view() + quad_indices(
                old(self).vertices_view().len() as int,
            ),
            final(self).label_view() == old(self).label_view(),
    {
        let normal = length.cross(width);
        self.add_vertex(position, normal);
        self.add_vertex(position.add(length), normal);
        self.add_vertex(position.add(width).add(length), normal);
        self.add_vertex(position.add(width), normal);

        let base_index: u32 = (self.vertices.len() as u32) - 4;

        self.add_face((base_index, base_index + 1, base_index + 2));
        self.add_face((base_index, base_index + 2, base_index + 3));
        proof {
            assert(self.vertices@ =~= old(self).vertices@ + quad_vertices(
                position,
                width,
                length,
            ));
            assert(self.indices@ =~= old(self).indices@ + quad_indices(
                old(self).vertices@.len() as int,
            ));
        }
    }

    /// Appends a triangle: three vertices sharing the flat normal
    /// `cross(v1 - v0, v2 - v0)` and one face.
    pub fn add_triangle(&mut self, v0: Vec3, v1: Vec3, v2: Vec3)
        requires
            v0.bounded(crate::fx::FX_BOUND as int / 2),
            v1.bounded(crate::fx::FX_BOUND as int / 2),
            v2.bounded(crate::fx::FX_BOUND as int / 2),
            old(self).vertices_view().len() + 3 <= u32::MAX,
        ensures
            final(self).vertices_view() == old(self).vertices_view() + seq![
                built_vertex(v0, v1.sub_spec(v0).cross_spec(v2.sub_spec(v0))),
                built_vertex(v1, v1.sub_spec(v0).cross_spec(v2.sub_spec(v0))),
                built_vertex(v2, v1.sub_spec(v0).cross_spec(v2.sub_spec(v0))),
            ],
            final(self).indices_view() == old(self).indices_view() + seq![
                old(self).vertices_view().len() as u32,
                (old(self).vertices_view().len() + 1) as u32,
                (old(self).vertices_view().len() + 2) as u32,
            ],
            final(self).label_view() == old(self).label_view(),
    {
        let normal = v1.sub(v0).cross(v2.sub(v0));
        self.add_vertex(v0, normal);
        self.add_vertex(v1, normal);
        self.add_vertex(v2, normal);

        let base_index: u32 = (self.vertices.len() as u32) - 3;

        self.add_face((base_index, base_index + 1, base_index + 2));
        proof {
            let n = v1.sub_spec(v0).cross_spec(v2.sub_spec(v0));
            assert(self.vertices@ =~= old(self).vertices@ + seq![
                built_vertex(v0, n),
                built_vertex(v1, n),
                built_vertex(v2, n),
            ]);
            assert(self.indices@ =~= old(self).indices@ + seq![
                old(self).vertices@.len() as u32,
                (old(self).vertices@.len() + 1) as u32,
                (old(self).vertices@.len() + 2) as u32,
            ]);
        }
    }

    /// Appends one vertex with the fixed up normal; when `link` is
    /// true, also stitches two triangles joining it to the previous
    /// vertex and to the two vertices `index_offset` and
    /// `index_offset + 1` places earlier.  Linking demands that those
    /// vertices exist.
    pub fn add_linked_quad(&mut self, position: Vec3, link: bool, index_offset: u32)
        requires
            old(self).vertices_view().len() + 1 <= u32::MAX,
            link ==> index_offset as int + 1 <= old(self).vertices_view().len(),
        ensures
            final(self).vertices_view() == old(self).vertices_view() + seq![
                built_vertex(position, (Vec3 { x: 0i64, y: FX_ONE, z: 0i64 })),
            ],
            final(self).indices_view() == if link {
                old(self).indices_view() + linked_quad_indices(
                    old(self).vertices_view().len() as int,
                    index_offset as int,
                )
            } else {
                old(self).indices_view()
            },
            final(self).label_view() == old(self).label_view(),
    {
        self.add_vertex(position, Vec3::unit_y_fx());

        if link {
            let i0: u32 = (self.vertices.len() as u32) - 1;
            let i1: u32 = i0 - 1;
            let i2: u32 = i0 - index_offset;
            let i3: u32 = i0 - index_offset - 1;

            self.add_face((i0, i2, i1));
            self.add_face((i2, i3, i1));
            proof {
                assert(self.indices@ =~= old(self).indices@ + linked_quad_indices(
                    old(self).vertices@.len() as int,
                    index_offset as int,
                ));
            }
        }
    }

    /// Snapshots the accumulated lists into an immutable mesh named by
    /// the builder's label, with one element per index and the default
    /// material slot.
    pub fn build(&self) -> (m: Mesh)
        requires
            self.valid(),
            self.indices_view().len() <= u32::MAX,
        ensures
            m.name@ == self.label_view(),
            m.vertices@ == self.vertices_view(),
            m.indices@ == self.indices_view(),
            m.num_elements as int == self.indices_view().len(),
            m.material == 0,
            m.valid(),
    {
        let vertices = clone_vertices(&self.vertices);
        let indices = clone_indices(&self.indices);
        Mesh {
            name: self.label.clone(),
            vertices,
            indices,
            num_elements: indices_len_u32(&self.indices),
            material: 0,
        }
    }
}

/// Copies a vertex list.
fn clone_vertices(v: &Vec<MeshVertex>) -> (r: Vec<MeshVertex>)
    ensures
        r@ == v@,
{
    let mut r: Vec<MeshVertex> = Vec::new();
    let mut i: usize = 0;
    while i < v.len()
        invariant
            0 <= i <= v.len(),
            r@ == v@.subrange(0, i as int),
        decreases v.len() - i,
    {
        r.push(v[i]);
        i = i + 1;
        proof {
            assert(r@ =~= v@.subrange(0, i as int));
        }
    }
    proof {
        assert(r@ =~= v@);
    }
    r
}

/// Copies an index list.
fn clone_indices(v: &Vec<u32>) -> (r: Vec<u32>)
    ensures
        r@ == v@,
{
    let mut r: Vec<u32> = Vec::new();
    let mut i: usize = 0;
    while i < v.len()
        invariant
            0 <= i <= v.len(),
            r@ == v@.subrange(0, i as int),
        decreases v.len() - i,
    {
        r.push(v[i]);
        i = i + 1;
        proof {
            assert(r@ =~= v@.subrange(0, i as int));
        }
    }
    proof {
        assert(r@ =~= v@);
    }
    r
}

/// The index count as the GPU's 32-bit element count.
fn indices_len_u32(v: &Vec<u32>) -> (n: u32)
    requires
        v@.len() <= u32::MAX,
    ensures
        n as int == v@.len(),
{
    v.len() as u32
}

} // verus!
