//! Mesh construction, procedural models, and the imported-model
//! pipeline, exercised on concrete values.

use viewer_core::fx::{FX_ONE, FX_PI};
use viewer_core::import::{import_mesh, ImportError, MeshSource};
use viewer_core::mesh::MeshBuilder;
use viewer_core::model::{Model, ModelPrimitive};
use viewer_core::vec3::Vec3;

fn v(x: i64, y: i64, z: i64) -> Vec3 {
    Vec3 { x, y, z }
}

#[test]
fn quad_emits_four_vertices_and_two_triangles() {
    let mut builder = MeshBuilder::new("quad");
    let origin = v(0, 0, 0);
    let width = v(2 * FX_ONE, 0, 0);
    let length = v(0, 0, 3 * FX_ONE);
    builder.add_quad(origin, width, length);
    let mesh = builder.build();
    assert_eq!(mesh.vertices.len(), 4);
    assert_eq!(mesh.indices.len(), 6);
    assert_eq!(mesh.num_elements, 6);
    assert_eq!(mesh.indices, vec![0, 1, 2, 0, 2, 3]);
    // The analytic normal is cross(length, width); every emitted
    // vertex carries it.
    let ln = (length.y as i128 * width.z as i128 - length.z as i128 * width.y as i128) as i64;
    let lny = (length.z as i128 * width.x as i128 - length.x as i128 * width.z as i128) as i64;
    let lnz = (length.x as i128 * width.y as i128 - length.y as i128 * width.x as i128) as i64;
    for vert in &mesh.vertices {
        assert_eq!(vert.normal.x, ln);
        assert_eq!(vert.normal.y, lny);
        assert_eq!(vert.normal.z, lnz);
    }
    // Corner order: origin, origin+length, origin+width+length,
    // origin+width.
    assert_eq!(mesh.vertices[0].position, origin);
    assert_eq!(mesh.vertices[1].position, v(0, 0, 3 * FX_ONE));
    assert_eq!(mesh.vertices[2].position, v(2 * FX_ONE, 0, 3 * FX_ONE));
    assert_eq!(mesh.vertices[3].position, v(2 * FX_ONE, 0, 0));
}

#[test]
fn triangle_emits_flat_normal() {
    let mut builder = MeshBuilder::new("tri");
    builder.add_triangle(v(0, 0, 0), v(FX_ONE, 0, 0), v(0, FX_ONE, 0));
    let mesh = builder.build();
    assert_eq!(mesh.vertices.len(), 3);
    assert_eq!(mesh.indices, vec![0, 1, 2]);
    // cross((1,0,0), (0,1,0)) scaled: (0, 0, FX_ONE^2).
    for vert in &mesh.vertices {
        assert_eq!(vert.normal.x, 0);
        assert_eq!(vert.normal.y, 0);
        assert_eq!(vert.normal.z, FX_ONE * FX_ONE);
    }
}

#[test]
fn linked_quad_stitches_two_triangles() {
    let mut builder = MeshBuilder::new("grid");
    // A 2x2 grid of points, stitched at the last one.
    builder.add_linked_quad(v(0, 0, 0), false, 2);
    builder.add_linked_quad(v(FX_ONE, 0, 0), false, 2);
    builder.add_linked_quad(v(0, 0, FX_ONE), false, 2);
    builder.add_linked_quad(v(FX_ONE, 0, FX_ONE), true, 2);
    let mesh = builder.build();
    assert_eq!(mesh.vertices.len(), 4);
    // i0 = 3, i1 = 2, i2 = 1, i3 = 0.
    assert_eq!(mesh.indices, vec![3, 1, 2, 1, 0, 2]);
    for vert in &mesh.vertices {
        assert_eq!(vert.normal, v(0, FX_ONE, 0));
    }
}

#[test]
fn cube_has_twelve_triangles_and_axis_normals() {
    let model = Model::cube(FX_ONE);
    assert_eq!(model.meshes.len(), 1);
    let mesh = &model.meshes[0];
    assert_eq!(mesh.vertices.len(), 24);
    assert_eq!(mesh.indices.len(), 36);
    assert_eq!(mesh.num_elements, 36);
    let sq = FX_ONE * FX_ONE;
    for vert in &mesh.vertices {
        let n = vert.normal;
        let axis = [
            (n.x, n.y, n.z) == (0, sq, 0),
            (n.x, n.y, n.z) == (0, -sq, 0),
            (n.x, n.y, n.z) == (sq, 0, 0),
            (n.x, n.y, n.z) == (-sq, 0, 0),
            (n.x, n.y, n.z) == (0, 0, sq),
            (n.x, n.y, n.z) == (0, 0, -sq),
        ];
        assert!(axis.iter().any(|&b| b));
    }
    for &i in &mesh.indices {
        assert!((i as usize) < mesh.vertices.len());
    }
    // Two opposite corners of the unit box.
    let half = FX_ONE / 2;
    assert!(mesh.vertices.iter().any(|w| w.position == v(-half, 0, -half)));
    assert!(mesh.vertices.iter().any(|w| w.position == v(half, FX_ONE, half)));
}

#[test]
fn plane_is_one_quad() {
    let model = Model::plane(FX_ONE);
    assert_eq!(model.meshes.len(), 1);
    let mesh = &model.meshes[0];
    assert_eq!(mesh.vertices.len(), 4);
    assert_eq!(mesh.indices.len(), 6);
}

#[test]
fn surface_grid_is_fully_connected() {
    // count = 4 cells across: 5 rows of points either way.
    let model = Model::surface(4, FX_ONE, 1);
    let mesh = &model.meshes[0];
    assert_eq!(mesh.vertices.len(), 25);
    // 2 * (5 - 1)^2 = 32 triangles, 96 corner indices.
    assert_eq!(mesh.indices.len(), 96);
    let mut referenced = vec![false; mesh.vertices.len()];
    for &i in &mesh.indices {
        assert!((i as usize) < mesh.vertices.len());
        referenced[i as usize] = true;
    }
    assert!(referenced.iter().all(|&r| r));
    for vert in &mesh.vertices {
        assert_eq!(vert.normal, v(0, FX_ONE, 0));
        // height_max = 1 admits only the zero height.
        assert_eq!(vert.position.y, 0);
    }
    // Columns are `size` apart, centered near the origin.
    assert_eq!(mesh.vertices[0].position.x, -2 * FX_ONE);
    assert_eq!(mesh.vertices[0].position.z, -2 * FX_ONE);
    assert_eq!(mesh.vertices[1].position.x - mesh.vertices[0].position.x, FX_ONE);
}

#[test]
fn surface_odd_count_keeps_one_point_per_cell_corner() {
    // count cells need count + 1 columns of points, odd or even.
    let model = Model::surface(3, FX_ONE, 1);
    let mesh = &model.meshes[0];
    assert_eq!(mesh.vertices.len(), 16);
    // 2 * 3^2 triangles, three indices each.
    assert_eq!(mesh.indices.len(), 54);
}

#[test]
fn surface_heights_stay_in_range() {
    let max = 100 * FX_ONE;
    let model = Model::surface(8, FX_ONE, max);
    for vert in &model.meshes[0].vertices {
        assert!(0 <= vert.position.y && vert.position.y < max);
    }
}

#[test]
fn model_primitive_variants_build() {
    for primitive in [ModelPrimitive::Cube, ModelPrimitive::Plane] {
        let m = match primitive {
            ModelPrimitive::Cube => Model::cube(FX_ONE),
            ModelPrimitive::Plane => Model::plane(FX_ONE),
        };
        assert_eq!(m.meshes.len(), 1);
        assert_eq!(m.imported.len(), 0);
    }
}

fn single_triangle_source() -> MeshSource {
    MeshSource {
        name: String::from("tri"),
        positions: vec![0, 0, 0, FX_ONE, 0, 0, 0, FX_ONE, 0],
        normals: vec![0, 0, FX_ONE, 0, 0, FX_ONE, 0, 0, FX_ONE],
        texcoords: vec![0, 0, FX_ONE, 0, 0, FX_ONE],
        indices: vec![0, 1, 2],
        material: 0,
    }
}

#[test]
fn single_triangle_tangent_frame_is_canonical() {
    // UVs (0,0), (1,0), (0,1) at positions (0,0,0), (1,0,0), (0,1,0)
    // give tangent (1,0,0) and bitangent (0,1,0) at all corners.
    let mesh = import_mesh(&single_triangle_source()).unwrap();
    assert_eq!(mesh.vertices.len(), 3);
    for vert in &mesh.vertices {
        assert_eq!(vert.tangent, v(FX_ONE, 0, 0));
        assert_eq!(vert.bitangent, v(0, FX_ONE, 0));
    }
    assert_eq!(mesh.indices, vec![0, 1, 2]);
    assert_eq!(mesh.num_elements, 3);
    assert_eq!(mesh.name, "tri");
}

#[test]
fn tangent_generation_is_order_independent() {
    // Two triangles sharing an edge, processed in both orders.
    let positions = vec![
        0, 0, 0, //
        FX_ONE, 0, 0, //
        0, FX_ONE, 0, //
        FX_ONE, FX_ONE, FX_ONE / 2,
    ];
    let normals = vec![0, 0, FX_ONE, 0, 0, FX_ONE, 0, 0, FX_ONE, 0, 0, FX_ONE];
    let texcoords = vec![0, 0, FX_ONE, 0, 0, FX_ONE, FX_ONE, FX_ONE];
    let forward = MeshSource {
        name: String::from("pair"),
        positions: positions.clone(),
        normals: normals.clone(),
        texcoords: texcoords.clone(),
        indices: vec![0, 1, 2, 1, 3, 2],
        material: 0,
    };
    let swapped = MeshSource {
        name: String::from("pair"),
        positions,
        normals,
        texcoords,
        indices: vec![1, 3, 2, 0, 1, 2],
        material: 0,
    };
    let a = import_mesh(&forward).unwrap();
    let b = import_mesh(&swapped).unwrap();
    for (va, vb) in a.vertices.iter().zip(b.vertices.iter()) {
        assert_eq!(va.tangent, vb.tangent);
        assert_eq!(va.bitangent, vb.bitangent);
    }
}

#[test]
fn import_rejects_missing_normals() {
    let mut s = single_triangle_source();
    s.normals = Vec::new();
    assert_eq!(import_mesh(&s).unwrap_err(), ImportError::MissingNormals);
}

#[test]
fn import_rejects_missing_texcoords() {
    let mut s = single_triangle_source();
    s.texcoords = Vec::new();
    assert_eq!(import_mesh(&s).unwrap_err(), ImportError::MissingTexCoords);
}

#[test]
fn import_rejects_ragged_attributes() {
    let mut s = single_triangle_source();
    s.positions.push(7);
    assert_eq!(import_mesh(&s).unwrap_err(), ImportError::MalformedAttributes);
    let mut s = single_triangle_source();
    s.normals.pop();
    assert_eq!(import_mesh(&s).unwrap_err(), ImportError::MalformedAttributes);
}

#[test]
fn import_rejects_out_of_range_index() {
    let mut s = single_triangle_source();
    s.indices = vec![0, 1, 3];
    assert_eq!(import_mesh(&s).unwrap_err(), ImportError::IndexOutOfRange);
}

#[test]
fn import_rejects_oversized_coordinates() {
    let mut s = single_triangle_source();
    s.positions[0] = i64::MAX / 2;
    assert_eq!(import_mesh(&s).unwrap_err(), ImportError::OutOfBounds);
}

#[test]
fn degenerate_uv_triangle_contributes_nothing() {
    // All three corners share one UV point: the parallelogram is
    // degenerate, so the tangent frame stays zero.
    let s = MeshSource {
        name: String::from("degenerate"),
        positions: vec![0, 0, 0, FX_ONE, 0, 0, 0, FX_ONE, 0],
        normals: vec![0, 0, FX_ONE, 0, 0, FX_ONE, 0, 0, FX_ONE],
        texcoords: vec![0, 0, 0, 0, 0, 0],
        indices: vec![0, 1, 2],
        material: 0,
    };
    let mesh = import_mesh(&s).unwrap();
    for vert in &mesh.vertices {
        assert_eq!(vert.tangent, v(0, 0, 0));
        assert_eq!(vert.bitangent, v(0, 0, 0));
    }
}

#[test]
fn load_builds_a_model_or_reports_first_failure() {
    let good = single_triangle_source();
    let model = Model::load(&vec![good]).unwrap();
    assert_eq!(model.imported.len(), 1);
    assert_eq!(model.meshes.len(), 0);

    let mut bad = single_triangle_source();
    bad.indices = vec![9, 9, 9];
    let err = Model::load(&vec![single_triangle_source(), bad]).unwrap_err();
    assert_eq!(err, ImportError::IndexOutOfRange);
}

#[test]
fn fixed_point_constants_are_consistent() {
    assert_eq!(FX_ONE, 65536);
    assert_eq!(FX_PI, 2 * viewer_core::fx::FX_HALF_PI);
}
