//! Models: procedural primitives built from quads.
//!
//! A model is an ordered list of meshes.  The cube and plane are exact:
//! their vertex and index lists are stated in full.  The height-field
//! surface samples its column heights at random, so its contract states
//! what holds of every outcome: the grid positions, the up normals, the
//! height range, and the stitched topology.

use vstd::prelude::*;

use crate::fx::{FX_BOUND, FX_ONE};
use crate::mesh::{linked_quad_indices, quad_indices, quad_vertices, Mesh, MeshBuilder, MeshVertex};
use crate::rng::{fresh_rng, random_below};
use crate::vec3::Vec3;

verus! {

/// The primitives a scene can add without loading a file.
#[derive(Clone, Copy, Debug, PartialEq, Eq, Structural)]
pub enum ModelPrimitive {
    Cube,
    Plane,
}

/// An ordered list of meshes drawn together: procedural meshes and,
/// for loaded models, imported meshes carrying tangent frames.
#[derive(Debug)]
pub struct Model {
    pub meshes: Vec<Mesh>,
    pub imported: Vec<crate::import::ImportedMesh>,
}

/// The number of grid rows (and columns) of points the surface
/// primitive emits: one more than the cell count, so a surface of
/// `count` cells spans `count + 1` columns of points either way.
pub open spec fn surface_rows(count: u32) -> int {
    count as int + 1
}

/// The x or z coordinate of the grid column `j`: points sit `size`
/// units apart, centered near the origin.
pub open spec fn grid_coord(size: i64, count: u32, j: int) -> int {
    (size as int) * (j - count as int / 2)
}

/// What holds of every vertex of a surface: the fixed up normal, the
/// flat color, the exact grid position, and a sampled height inside
/// `[0, height_max)`.
pub open spec fn surface_vertex_ok(
    vx: MeshVertex,
    v: int,
    rows: int,
    size: i64,
    count: u32,
    height_max: i64,
) -> bool {
    &&& vx.normal == (Vec3 { x: 0i64, y: FX_ONE, z: 0i64 })
    &&& vx.color == crate::mesh::builder_color()
    &&& vx.position.x as int == grid_coord(size, count, v % rows)
    &&& vx.position.z as int == grid_coord(size, count, v / rows)
    &&& 0 <= vx.position.y as int
    &&& (vx.position.y as int) < height_max as int
}

/// The six indices of the stitched cell at row `i`, column `j` (both
/// at least 1): exactly the two triangles `add_linked_quad` emitted at
/// that grid point.
pub open spec fn surface_cell_ok(indices: Seq<u32>, rows: int, i: int, j: int) -> bool {
    indices.subrange(
        6 * ((i - 1) * (rows - 1) + (j - 1)),
        6 * ((i - 1) * (rows - 1) + (j - 1)) + 6,
    ) == linked_quad_indices(i * rows + j, rows)
}

/// The cube's extents and corners, derived from its edge length.
pub open spec fn cube_up(size: i64) -> Vec3 {
    Vec3 { x: 0i64, y: size, z: 0i64 }
}

pub open spec fn cube_right(size: i64) -> Vec3 {
    Vec3 { x: size, y: 0i64, z: 0i64 }
}

pub open spec fn cube_forward(size: i64) -> Vec3 {
    Vec3 { x: 0i64, y: 0i64, z: size }
}

pub open spec fn cube_up_n(size: i64) -> Vec3 {
    Vec3 { x: 0i64, y: (-(size as int)) as i64, z: 0i64 }
}

pub open spec fn cube_right_n(size: i64) -> Vec3 {
    Vec3 { x: (-(size as int)) as i64, y: 0i64, z: 0i64 }
}

pub open spec fn cube_forward_n(size: i64) -> Vec3 {
    Vec3 { x: 0i64, y: 0i64, z: (-(size as int)) as i64 }
}

pub open spec fn cube_near(size: i64) -> Vec3 {
    Vec3 {
        x: (-((size as int) / 2)) as i64,
        y: 0i64,
        z: (-((size as int) / 2)) as i64,
    }
}

pub open spec fn cube_far(size: i64) -> Vec3 {
    Vec3 { x: ((size as int) / 2) as i64, y: size, z: ((size as int) / 2) as i64 }
}

/// The cube's six quads, each described by a corner and two extents,
/// in build order: three fanning out of the near corner, three out of
/// the far corner.
pub open spec fn cube_vertices(size: i64) -> Seq<MeshVertex> {
    quad_vertices(cube_near(size), cube_forward(size), cube_right(size)) + quad_vertices(
        cube_near(size),
        cube_right(size),
        cube_up(size),
    ) + quad_vertices(cube_near(size), cube_up(size), cube_forward(size)) + quad_vertices(
        cube_far(size),
        cube_right_n(size),
        cube_forward_n(size),
    ) + quad_vertices(cube_far(size), cube_up_n(size), cube_right_n(size)) + quad_vertices(
        cube_far(size),
        cube_forward_n(size),
        cube_up_n(size),
    )
}

/// The cube's index list: one quad's two triangles per four vertices.
pub open spec fn cube_indices() -> Seq<u32> {
    quad_indices(0) + quad_indices(4) + quad_indices(8) + quad_indices(12) + quad_indices(16)
        + quad_indices(20)
}

/// The plane's four vertices: one quad centered on the origin.
pub open spec fn plane_vertices(size: i64) -> Seq<MeshVertex> {
    let half = ((size as int) / 2) as i64;
    quad_vertices(
        Vec3 { x: (-(half as int)) as i64, y: 0i64, z: (-(half as int)) as i64 },
        Vec3 { x: size, y: 0i64, z: 0i64 },
        Vec3 { x: 0i64, y: 0i64, z: size },
    )
}

impl Model {
    /// A cube of the given edge length sitting on the horizontal plane,
    /// centered on the vertical axis: six quads, twelve triangles,
    /// twenty-four vertices, every normal collinear with a coordinate
    /// axis.
    pub fn cube(size: i64) -> (m: Model)
        requires
            0 < size <= FX_BOUND,
        ensures
            m.meshes@.len() == 1,
            m.imported@.len() == 0,
            m.meshes@[0].vertices@ == cube_vertices(size),
            m.meshes@[0].indices@ == cube_indices(),
            m.meshes@[0].vertices@.len() == 24,
            m.meshes@[0].indices@.len() == 36,
            m.meshes@[0].valid(),
            forall|i: int|
                0 <= i < 24 ==> (#[trigger] m.meshes@[0].vertices@[i]).normal.axis_aligned(),
    {
        let mut builder = MeshBuilder::new("Cube");
        let half: i64 = size / 2;
        let up = Vec3::new(0, size, 0);
        let right = Vec3::new(size, 0, 0);
        let forward = Vec3::new(0, 0, size);
        let near_corner = Vec3::new(-half, 0, -half);
        let far_corner = Vec3::new(half, size, half);

        builder.add_quad(near_corner, forward, right);
        builder.add_quad(near_corner, right, up);
        builder.add_quad(near_corner, up, forward);

        builder.add_quad(far_corner, right.neg(), forward.neg());
        builder.add_quad(far_corner, up.neg(), right.neg());
        builder.add_quad(far_corner, forward.neg(), up.neg());

        proof {
            assert(builder.vertices_view() =~= cube_vertices(size));
            assert(builder.indices_view() =~= cube_indices());
            lemma_cube_lists(size);
        }
        let mesh = builder.build();
        Model { meshes: vec![mesh], imported: Vec::new() }
    }

    /// A square plane of the given edge length centered on the origin:
    /// one quad, two triangles, four vertices.
    pub fn plane(size: i64) -> (m: Model)
        requires
            0 < size <= FX_BOUND,
        ensures
            m.meshes@.len() == 1,
            m.imported@.len() == 0,
            m.meshes@[0].vertices@ == plane_vertices(size),
            m.meshes@[0].indices@ == quad_indices(0),
            m.meshes@[0].vertices@.len() == 4,
            m.meshes@[0].indices@.len() == 6,
            m.meshes@[0].valid(),
    {
        let mut builder = MeshBuilder::new("Plane");
        let half: i64 = size / 2;

        builder.add_quad(
            Vec3::new(-half, 0, -half),
            Vec3::new(size, 0, 0),
            Vec3::new(0, 0, size),
        );

        proof {
            assert(builder.vertices_view() =~= plane_vertices(size));
            assert(builder.indices_view() =~= quad_indices(0));
            assert forall|i: int| 0 <= i < 6 implies (quad_indices(0)[i] as int) < 4 by {
                if i == 0 {
                } else if i == 1 {
                } else if i == 2 {
                } else if i == 3 {
                } else if i == 4 {
                } else {
                    assert(i == 5);
                }
            }
        }
        let mesh = builder.build();
        Model { meshes: vec![mesh], imported: Vec::new() }
    }

    /// A height-field surface: a square grid of points `size` units
    /// apart, each at a height sampled uniformly at random from
    /// `[0, height_max)`, stitched into a continuous sheet of quads by
    /// linking every point outside the first row and column to its
    /// neighbors.  The stitching, positions, normals and height range
    /// hold of every outcome of the sampling.
    pub fn surface(count: u32, size: i64, height_max: i64) -> (m: Model)
        requires
            1 <= count <= 20000,
            0 < size,
            (size as int) * (count as int) <= FX_BOUND as int,
            1 <= height_max <= FX_BOUND,
        ensures
            m.meshes@.len() == 1,
            m.imported@.len() == 0,
            m.meshes@[0].vertices@.len() == surface_rows(count) * surface_rows(count),
            m.meshes@[0].indices@.len() == 6 * (surface_rows(count) - 1) * (surface_rows(count)
                - 1),
            m.meshes@[0].valid(),
            forall|v: int|
                0 <= v < surface_rows(count) * surface_rows(count) ==> surface_vertex_ok(
                    #[trigger] m.meshes@[0].vertices@[v],
                    v,
                    surface_rows(count),
                    size,
                    count,
                    height_max,
                ),
            forall|r: int, c: int|
                1 <= r < surface_rows(count) && 1 <= c < surface_rows(count)
                    ==> surface_cell_ok(m.meshes@[0].indices@, surface_rows(count), r, c),
            surface_rows(count) >= 2 ==> forall|v: int|
                0 <= v < surface_rows(count) * surface_rows(count) ==> #[trigger] vertex_referenced(
                    m.meshes@[0].indices@,
                    v,
                ),
    {
        let rows: u32 = count + 1;
        let half: u32 = count / 2;
        let ghost rs: int = rows as int;
        proof {
            assert(rs == surface_rows(count));
            assert(rs * rs <= 20001 * 20001) by (nonlinear_arith)
                requires
                    1 <= rs <= 20001,
            ;
            assert(size <= FX_BOUND) by (nonlinear_arith)
                requires
                    0 < size,
                    1 <= count,
                    (size as int) * (count as int) <= FX_BOUND as int,
            ;
        }
        let mut builder = MeshBuilder::new("Quad Grid");
        let mut rng = fresh_rng();
        let mut i: u32 = 0;
        while i < rows
            invariant
                1 <= rows <= 20001,
                rs == rows as int,
                rs == surface_rows(count),
                1 <= count <= 20000,
                size <= FX_BOUND,
                half as int == count as int / 2,
                0 < size,
                (size as int) * (count as int) <= FX_BOUND as int,
                1 <= height_max <= FX_BOUND,
                0 <= i <= rows,
                builder.vertices_view().len() == i as int * rs,
                builder.indices_view().len() == if i == 0 {
                    0int
                } else {
                    6 * ((i as int - 1) * (rs - 1))
                },
                builder.valid(),
                builder.label_view() == "Quad Grid"@,
                forall|v: int|
                    0 <= v < builder.vertices_view().len() ==> surface_vertex_ok(
                        #[trigger] builder.vertices_view()[v],
                        v,
                        rs,
                        size,
                        count,
                        height_max,
                    ),
                forall|r: int, c: int|
                    1 <= r < i as int && 1 <= c < rs ==> surface_cell_ok(
                        builder.indices_view(),
                        rs,
                        r,
                        c,
                    ),
            decreases rows - i,
        {
            let mut j: u32 = 0;
            while j < rows
                invariant
                    1 <= rows <= 20001,
                    rs == rows as int,
                    rs == surface_rows(count),
                    1 <= count <= 20000,
                    size <= FX_BOUND,
                    half as int == count as int / 2,
                    0 < size,
                    (size as int) * (count as int) <= FX_BOUND as int,
                    1 <= height_max <= FX_BOUND,
                    0 <= i < rows,
                    0 <= j <= rows,
                    builder.vertices_view().len() == i as int * rs + j as int,
                    builder.indices_view().len() == if i == 0 {
                        0int
                    } else {
                        6 * ((i as int - 1) * (rs - 1) + (if j == 0 {
                            0int
                        } else {
                            j as int - 1
                        }))
                    },
                    builder.valid(),
                    builder.label_view() == "Quad Grid"@,
                    forall|v: int|
                        0 <= v < builder.vertices_view().len() ==> surface_vertex_ok(
                            #[trigger] builder.vertices_view()[v],
                            v,
                            rs,
                            size,
                            count,
                            height_max,
                        ),
                    forall|r: int, c: int|
                        1 <= r && 1 <= c < rs && (r < i as int || (r == i as int && c < j as int))
                            ==> surface_cell_ok(builder.indices_view(), rs, r, c),
                decreases rows - j,
            {
                proof {
                    lemma_surface_step_bounds(
                        count,
                        size,
                        rs,
                        half as int,
                        i as int,
                        j as int,
                    );
                }
                let y = random_below(&mut rng, height_max);
                let x: i64 = size * ((j as i64) - (half as i64));
                let z: i64 = size * ((i as i64) - (half as i64));
                let link = i > 0 && j > 0;
                let ghost pre = builder;
                let ghost v0: int = i as int * rs + j as int;
                builder.add_linked_quad(Vec3::new(x, y, z), link, rows);
                proof {
                    vstd::arithmetic::div_mod::lemma_fundamental_div_mod_converse(
                        v0,
                        rs,
                        i as int,
                        j as int,
                    );
                    assert forall|v: int|
                        0 <= v < builder.vertices_view().len() implies surface_vertex_ok(
                        #[trigger] builder.vertices_view()[v],
                        v,
                        rs,
                        size,
                        count,
                        height_max,
                    ) by {
                        if v < v0 {
                            assert(builder.vertices_view()[v] == pre.vertices_view()[v]);
                        } else {
                            assert(v == v0);
                        }
                    }
                    if link {
                        lemma_linked_quad_indices_facts(v0, rs);
                        assert(builder.indices_view().subrange(
                            pre.indices_view().len() as int,
                            pre.indices_view().len() as int + 6,
                        ) =~= linked_quad_indices(v0, rs));
                        assert forall|r: int, c: int|
                            1 <= r && 1 <= c < rs && (r < i as int || (r == i as int && c
                                < j as int + 1)) implies surface_cell_ok(
                            builder.indices_view(),
                            rs,
                            r,
                            c,
                        ) by {
                            let base = 6 * ((r - 1) * (rs - 1) + (c - 1));
                            if r == i as int && c == j as int {
                                assert(base == pre.indices_view().len());
                            } else {
                                assert(surface_cell_ok(pre.indices_view(), rs, r, c));
                                assert(base + 6 <= pre.indices_view().len()) by (nonlinear_arith)
                                    requires
                                        base == 6 * ((r - 1) * (rs - 1) + (c - 1)),
                                        1 <= r,
                                        1 <= c < rs,
                                        r < i as int || (r == i as int && c < j as int),
                                        pre.indices_view().len() == 6 * ((i as int - 1) * (rs - 1)
                                            + (if j == 0 {
                                            0int
                                        } else {
                                            j as int - 1
                                        })),
                                ;
                                assert(builder.indices_view().subrange(base, base + 6)
                                    =~= pre.indices_view().subrange(base, base + 6));
                            }
                        }
                        assert forall|k: int|
                            0 <= k < builder.indices_view().len() implies (
                        #[trigger] builder.indices_view()[k] as int)
                            < builder.vertices_view().len() by {
                            if k < pre.indices_view().len() {
                                assert(builder.indices_view()[k] == pre.indices_view()[k]);
                            } else {
                                assert(builder.indices_view()[k] == linked_quad_indices(v0, rs)[k
                                    - pre.indices_view().len()]);
                            }
                        }
                    }
                }
                j = j + 1;
            }
            proof {
                assert((i as int - 1) * (rs - 1) + (rs - 1) == (i as int) * (rs - 1))
                    by (nonlinear_arith);
                assert((i as int) * rs + rs == (i as int + 1) * rs) by (nonlinear_arith);
            }
            i = i + 1;
        }
        proof {
            assert(rs * rs == builder.vertices_view().len());
            assert(builder.indices_view().len() == 6 * (rs - 1) * (rs - 1) && builder.indices_view().len() <= 0xffff_ffff) by (nonlinear_arith)
                requires
                    builder.indices_view().len() == 6 * ((rs - 1) * (rs - 1)),
                    1 <= rs <= 20001,
            ;
        }
        let mesh = builder.build();
        proof {
            if rs >= 2 {
                lemma_surface_fully_referenced(mesh.indices@, rs);
            }
        }
        Model { meshes: vec![mesh], imported: Vec::new() }
    }
}

/// The cube's lists have the promised lengths, all its indices address
/// its vertices, and each of its normals is collinear with a
/// coordinate axis.
#[verifier::rlimit(30)]
proof fn lemma_cube_lists(size: i64)
    requires
        0 < size <= FX_BOUND,
    ensures
        cube_vertices(size).len() == 24,
        cube_indices().len() == 36,
        forall|i: int|
            0 <= i < 36 ==> (#[trigger] cube_indices()[i] as int) < 24,
        forall|i: int| 0 <= i < 24 ==> (#[trigger] cube_vertices(size)[i]).normal.axis_aligned(),
{
    assert(cube_vertices(size).len() == 24);
    assert(cube_indices().len() == 36);
    assert(size as int * size as int > 0) by (nonlinear_arith)
        requires
            size as int > 0,
    ;
    assert forall|i: int| 0 <= i < 36 implies (#[trigger] cube_indices()[i] as int) < 24 by {
        let q = i / 6;
        let r = i % 6;
        assert(cube_indices()[i] == quad_indices(4 * q)[r]);
        assert((quad_indices(4 * q)[r] as int) < 4 * q + 4);
    }
    lemma_cube_normals(size);
    lemma_quad_vertices_axis(cube_near(size), cube_forward(size), cube_right(size));
    lemma_quad_vertices_axis(cube_near(size), cube_right(size), cube_up(size));
    lemma_quad_vertices_axis(cube_near(size), cube_up(size), cube_forward(size));
    lemma_quad_vertices_axis(cube_far(size), cube_right_n(size), cube_forward_n(size));
    lemma_quad_vertices_axis(cube_far(size), cube_up_n(size), cube_right_n(size));
    lemma_quad_vertices_axis(cube_far(size), cube_forward_n(size), cube_up_n(size));
    let q1 = quad_vertices(cube_near(size), cube_forward(size), cube_right(size));
    let q2 = quad_vertices(cube_near(size), cube_right(size), cube_up(size));
    let q3 = quad_vertices(cube_near(size), cube_up(size), cube_forward(size));
    let q4 = quad_vertices(cube_far(size), cube_right_n(size), cube_forward_n(size));
    let q5 = quad_vertices(cube_far(size), cube_up_n(size), cube_right_n(size));
    let q6 = quad_vertices(cube_far(size), cube_forward_n(size), cube_up_n(size));
    assert(cube_vertices(size) == q1 + q2 + q3 + q4 + q5 + q6);
    assert forall|i: int| 0 <= i < 24 implies (#[trigger] cube_vertices(size)[
        i
    ]).normal.axis_aligned() by {
        if i < 4 {
            assert(cube_vertices(size)[i] == q1[i]);
        } else if i < 8 {
            assert(cube_vertices(size)[i] == q2[i - 4]);
        } else if i < 12 {
            assert(cube_vertices(size)[i] == q3[i - 8]);
        } else if i < 16 {
            assert(cube_vertices(size)[i] == q4[i - 12]);
        } else if i < 20 {
            assert(cube_vertices(size)[i] == q5[i - 16]);
        } else {
            assert(cube_vertices(size)[i] == q6[i - 20]);
        }
    }
}

/// The six face normals of the cube are collinear with the coordinate
/// axes: each is a cross product of two of the cube's axis extents.
proof fn lemma_cube_normals(size: i64)
    requires
        0 < size <= FX_BOUND,
    ensures
        cube_right(size).cross_spec(cube_forward(size)).axis_aligned(),
        cube_up(size).cross_spec(cube_right(size)).axis_aligned(),
        cube_forward(size).cross_spec(cube_up(size)).axis_aligned(),
        cube_forward_n(size).cross_spec(cube_right_n(size)).axis_aligned(),
        cube_right_n(size).cross_spec(cube_up_n(size)).axis_aligned(),
        cube_up_n(size).cross_spec(cube_forward_n(size)).axis_aligned(),
{
    let s = size as int;
    assert(0 < s * s <= 0x1000_0000_0000_0000) by (nonlinear_arith)
        requires
            0 < s <= FX_BOUND as int,
    ;
    assert((-s) * (-s) == s * s) by (nonlinear_arith);
    assert(cube_right(size).cross_spec(cube_forward(size)).x as int == 0);
    assert(cube_right(size).cross_spec(cube_forward(size)).z as int == 0);
    assert(cube_right(size).cross_spec(cube_forward(size)).y as int == -(s * s));
    assert(cube_up(size).cross_spec(cube_right(size)).x as int == 0);
    assert(cube_up(size).cross_spec(cube_right(size)).y as int == 0);
    assert(cube_up(size).cross_spec(cube_right(size)).z as int == -(s * s));
    assert(cube_forward(size).cross_spec(cube_up(size)).y as int == 0);
    assert(cube_forward(size).cross_spec(cube_up(size)).z as int == 0);
    assert(cube_forward(size).cross_spec(cube_up(size)).x as int == -(s * s));
    assert(cube_forward_n(size).cross_spec(cube_right_n(size)).x as int == 0);
    assert(cube_forward_n(size).cross_spec(cube_right_n(size)).z as int == 0);
    assert(cube_forward_n(size).cross_spec(cube_right_n(size)).y as int == s * s);
    assert(cube_right_n(size).cross_spec(cube_up_n(size)).x as int == 0);
    assert(cube_right_n(size).cross_spec(cube_up_n(size)).y as int == 0);
    assert(cube_right_n(size).cross_spec(cube_up_n(size)).z as int == s * s);
    assert(cube_up_n(size).cross_spec(cube_forward_n(size)).y as int == 0);
    assert(cube_up_n(size).cross_spec(cube_forward_n(size)).z as int == 0);
    assert(cube_up_n(size).cross_spec(cube_forward_n(size)).x as int == s * s);
}

/// When a quad's flat normal is collinear with a coordinate axis, so
/// is the normal of each of its four emitted vertices.
proof fn lemma_quad_vertices_axis(p: Vec3, w: Vec3, l: Vec3)
    requires
        l.cross_spec(w).axis_aligned(),
    ensures
        quad_vertices(p, w, l).len() == 4,
        forall|j: int| 0 <= j < 4 ==> (#[trigger] quad_vertices(p, w, l)[j]).normal.axis_aligned(),
{
    assert forall|j: int| 0 <= j < 4 implies (#[trigger] quad_vertices(p, w, l)[
        j
    ]).normal.axis_aligned() by {
        if j == 0 {
        } else if j == 1 {
        } else if j == 2 {
        } else {
            assert(j == 3);
        }
    }
}

/// Every vertex a quad emits carries the quad's flat normal
/// `cross(length, width)`.
proof fn lemma_quad_vertices_normal(p: Vec3, w: Vec3, l: Vec3, j: int)
    requires
        0 <= j < 4,
    ensures
        quad_vertices(p, w, l).len() == 4,
        quad_vertices(p, w, l)[j].normal == l.cross_spec(w),
{
    if j == 0 {
    } else if j == 1 {
    } else if j == 2 {
    } else {
        assert(j == 3);
    }
}


/// The per-step bounds of the surface loops: the grid coordinates are
/// bounded and the vertex ids fit the index type.
proof fn lemma_surface_step_bounds(count: u32, size: i64, rs: int, half: int, i: int, j: int)
    requires
        1 <= count <= 20000,
        0 < size,
        (size as int) * (count as int) <= FX_BOUND as int,
        half == count as int / 2,
        rs == count as int + 1,
        0 <= i < rs,
        0 <= j < rs,
    ensures
        -(FX_BOUND as int) <= (size as int) * (j - half) <= FX_BOUND as int,
        -(FX_BOUND as int) <= (size as int) * (i - half) <= FX_BOUND as int,
        i * rs + j + 1 < 0xffff_ffff,
        i >= 1 && j >= 1 ==> rs + 1 <= i * rs + j,
{
    assert(-(count as int) <= j - half <= count as int);
    assert(-(count as int) <= i - half <= count as int);
    assert(-(FX_BOUND as int) <= (size as int) * (j - half) <= FX_BOUND as int)
        by (nonlinear_arith)
        requires
            0 < size,
            -(count as int) <= j - half <= count as int,
            (size as int) * (count as int) <= FX_BOUND as int,
    ;
    assert(-(FX_BOUND as int) <= (size as int) * (i - half) <= FX_BOUND as int)
        by (nonlinear_arith)
        requires
            0 < size,
            -(count as int) <= i - half <= count as int,
            (size as int) * (count as int) <= FX_BOUND as int,
    ;
    assert(i * rs + j + 1 < 0xffff_ffff) by (nonlinear_arith)
        requires
            0 <= i < rs,
            0 <= j < rs,
            1 <= rs <= 20001,
    ;
    if i >= 1 && j >= 1 {
        assert(rs + 1 <= i * rs + j) by (nonlinear_arith)
            requires
                1 <= i,
                1 <= j,
                1 <= rs,
        ;
    }
}

/// The values of a stitched cell's six indices: all lie between the
/// diagonal predecessor and the new vertex itself.
proof fn lemma_linked_quad_indices_facts(v0: int, off: int)
    requires
        1 <= off,
        off + 1 <= v0 < 0xffff_ffff,
    ensures
        forall|t: int|
            0 <= t < 6 ==> v0 - off - 1 <= (#[trigger] linked_quad_indices(v0, off)[t] as int)
                <= v0,
{
    assert forall|t: int|
        0 <= t < 6 implies v0 - off - 1 <= (#[trigger] linked_quad_indices(v0, off)[t] as int)
        <= v0 by {
        if t == 0 {
        } else if t == 1 {
        } else if t == 2 {
        } else if t == 3 {
        } else if t == 4 {
        } else {
            assert(t == 5);
        }
    }
}


/// Some triangle corner of `indices` references the vertex `v`.
pub open spec fn vertex_referenced(indices: Seq<u32>, v: int) -> bool {
    exists|k: int| 0 <= k < indices.len() && (#[trigger] indices[k] as int) == v
}

/// A stitched surface grid is fully connected: every vertex of the
/// grid, border and interior alike, is referenced by at least one
/// triangle corner of the stitched cells.
pub proof fn lemma_surface_fully_referenced(indices: Seq<u32>, rows: int)
    requires
        2 <= rows,
        rows * rows < 0xffff_ffff,
        indices.len() == 6 * (rows - 1) * (rows - 1),
        forall|r: int, c: int|
            1 <= r < rows && 1 <= c < rows ==> surface_cell_ok(indices, rows, r, c),
    ensures
        forall|v: int| 0 <= v < rows * rows ==> #[trigger] vertex_referenced(indices, v),
{
    assert forall|v: int| 0 <= v < rows * rows implies #[trigger] vertex_referenced(
        indices,
        v,
    ) by {
        let a = v / rows;
        let b = v % rows;
        vstd::arithmetic::div_mod::lemma_fundamental_div_mod(v, rows);
        assert(a < rows) by (nonlinear_arith)
            requires
                v < rows * rows,
                v == rows * a + b,
                0 <= b < rows,
                rows >= 2,
        ;
        assert(a >= 0) by (nonlinear_arith)
            requires
                v >= 0,
                v == rows * a + b,
                0 <= b < rows,
                rows >= 2,
        ;
        assert(0 <= v < 0xffff_ffff);
        if a >= 1 && b >= 1 {
            assert(a * rows + b == v) by (nonlinear_arith)
                requires
                    v == rows * a + b,
            ;
            assert(linked_quad_indices(a * rows + b, rows)[0] as int == v);
            lemma_surface_cell_witness(indices, rows, a, b, 0, v);
        } else if a == 0 && b >= 1 {
            assert(v == b) by (nonlinear_arith)
                requires
                    v == rows * a + b,
                    a == 0,
            ;
            assert(1 * rows + b == rows + b) by (nonlinear_arith);
            assert(linked_quad_indices(1 * rows + b, rows)[1] as int == v);
            lemma_surface_cell_witness(indices, rows, 1, b, 1, v);
        } else if a >= 1 && b == 0 {
            assert(a * rows + 1 - 1 == v) by (nonlinear_arith)
                requires
                    v == rows * a + b,
                    b == 0,
            ;
            assert(linked_quad_indices(a * rows + 1, rows)[2] as int == v);
            lemma_surface_cell_witness(indices, rows, a, 1, 2, v);
        } else {
            assert(v == 0) by (nonlinear_arith)
                requires
                    v == rows * a + b,
                    a == 0,
                    b == 0,
            ;
            assert(1 * rows + 1 == rows + 1) by (nonlinear_arith);
            assert(linked_quad_indices(1 * rows + 1, rows)[4] as int == 0);
            lemma_surface_cell_witness(indices, rows, 1, 1, 4, v);
        }
    }
}

/// Exhibits the corner `t` of the stitched cell at `(r, c)` as a
/// reference to the vertex `v`.
proof fn lemma_surface_cell_witness(indices: Seq<u32>, rows: int, r: int, c: int, t: int, v: int)
    requires
        2 <= rows,
        rows * rows < 0xffff_ffff,
        indices.len() == 6 * (rows - 1) * (rows - 1),
        surface_cell_ok(indices, rows, r, c),
        1 <= r < rows,
        1 <= c < rows,
        0 <= t < 6,
        linked_quad_indices(r * rows + c, rows)[t] as int == v,
    ensures
        vertex_referenced(indices, v),
{
    let base = 6 * ((r - 1) * (rows - 1) + (c - 1));
    assert(0 <= base && base + 6 <= indices.len()) by (nonlinear_arith)
        requires
            base == 6 * ((r - 1) * (rows - 1) + (c - 1)),
            indices.len() == 6 * (rows - 1) * (rows - 1),
            1 <= r < rows,
            1 <= c < rows,
    ;
    assert(indices.subrange(base, base + 6) == linked_quad_indices(r * rows + c, rows));
    assert(indices[base + t] == linked_quad_indices(r * rows + c, rows)[t]);
    assert(indices[base + t] as int == v);
}

} // verus!


