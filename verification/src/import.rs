//! The imported-model pipeline: validation and tangent-space
//! generation.
//!
//! The shell parses a triangulated polygon file and hands over plain
//! quantized attribute arrays; this module validates them and builds
//! the imported meshes.  Tangents and bitangents are generated by
//! solving each triangle's UV-to-edge system exactly, accumulating the
//! unnormalized contributions additively into the three corner
//! vertices, and finally dividing by each vertex's triangle-incidence
//! count.  Accumulating before averaging weights each triangle by its
//! UV area; because the per-triangle contributions are exact integers,
//! the accumulated sums do not depend on the order in which the
//! triangles are processed.
//!
//! A triangle whose UV parallelogram is degenerate (squared-area
//! determinant smaller than `DET_EPS` in magnitude) contributes
//! nothing: its system has no stable solution, so it is skipped
//! explicitly rather than poisoning its corners.

use vstd::prelude::*;

use crate::fx::{fx_div_trunc, FX_ONE};
use crate::model::Model;
use crate::vec3::Vec3;

verus! {

/// Positions and texture coordinates of imported geometry stay within
/// this bound (2^29 units), so the tangent solve cannot overflow.
pub const IMPORT_POS_BOUND: i64 = 536870912;

/// Texture coordinates stay within sixteen texture units.
pub const IMPORT_UV_BOUND: i64 = 1048576;

/// The degeneracy threshold on the UV parallelogram's determinant:
/// 1/256 of a square texture unit.
pub const DET_EPS: i64 = 256;

/// One vertex of an imported mesh: position, texture coordinates,
/// normal, and the generated tangent frame.  Directions are exact
/// unnormalized vectors; the GPU shell normalizes on conversion.
#[derive(Clone, Copy, Debug, PartialEq, Eq, Structural)]
pub struct ModelVertex {
    pub position: Vec3,
    pub uv_u: i64,
    pub uv_v: i64,
    pub normal: Vec3,
    pub tangent: Vec3,
    pub bitangent: Vec3,
}

/// One parsed mesh as the shell hands it over: quantized attribute
/// arrays, per-corner indices, and the material slot.
pub struct MeshSource {
    pub name: String,
    pub positions: Vec<i64>,
    pub normals: Vec<i64>,
    pub texcoords: Vec<i64>,
    pub indices: Vec<u32>,
    pub material: usize,
}

/// Why an import was rejected.  A failed import leaves the scene
/// unchanged: no partial model is produced.
#[derive(Clone, Copy, Debug, PartialEq, Eq, Structural)]
pub enum ImportError {
    /// The mesh has no normals, which tangent generation requires.
    MissingNormals,
    /// The mesh has no texture coordinates, which tangent generation
    /// requires.
    MissingTexCoords,
    /// Attribute array lengths disagree or are not whole records.
    MalformedAttributes,
    /// A corner index addresses no vertex.
    IndexOutOfRange,
    /// A coordinate lies outside the importable world.
    OutOfBounds,
}

/// An imported mesh ready for upload.
#[derive(Debug)]
pub struct ImportedMesh {
    pub name: String,
    pub vertices: Vec<ModelVertex>,
    pub indices: Vec<u32>,
    pub num_elements: u32,
    pub material: usize,
}

impl ImportedMesh {
    /// Every index addresses a vertex and the element count is the
    /// index count.
    pub open spec fn valid(self) -> bool {
        &&& forall|i: int|
            0 <= i < self.indices@.len() ==> (self.indices@[i] as int) < self.vertices@.len()
        &&& self.num_elements as int == self.indices@.len()
    }
}

/// A per-vertex accumulator: tangent and bitangent sums and the
/// triangle-incidence count.
pub struct GAcc {
    pub tx: int,
    pub ty: int,
    pub tz: int,
    pub bx: int,
    pub by: int,
    pub bz: int,
    pub n: int,
}

/// One triangle's contribution: its three corner slots and the exact
/// tangent and bitangent it adds to each.  A skipped (degenerate)
/// triangle carries corner `-1`, which no slot matches.
pub struct GContrib {
    pub i0: int,
    pub i1: int,
    pub i2: int,
    pub tx: int,
    pub ty: int,
    pub tz: int,
    pub bx: int,
    pub by: int,
    pub bz: int,
}

/// The zero accumulator.
pub open spec fn acc_zero() -> GAcc {
    GAcc { tx: 0, ty: 0, tz: 0, bx: 0, by: 0, bz: 0, n: 0 }
}

/// Adds one contribution into one slot, if the slot exists.
pub open spec fn slot_add(s: Seq<GAcc>, i: int, c: GContrib) -> Seq<GAcc> {
    if 0 <= i < s.len() {
        s.update(
            i,
            GAcc {
                tx: s[i].tx + c.tx,
                ty: s[i].ty + c.ty,
                tz: s[i].tz + c.tz,
                bx: s[i].bx + c.bx,
                by: s[i].by + c.by,
                bz: s[i].bz + c.bz,
                n: s[i].n + 1,
            },
        )
    } else {
        s
    }
}

/// Adds one triangle's contribution into its three corner slots.
pub open spec fn add_contribution(s: Seq<GAcc>, c: GContrib) -> Seq<GAcc> {
    slot_add(slot_add(slot_add(s, c.i0, c), c.i1, c), c.i2, c)
}

/// Truncating division by a nonzero divisor of either sign.
pub open spec fn div_signed(a: int, d: int) -> int {
    if d >= 0 {
        fx_div_trunc(a, d)
    } else {
        -fx_div_trunc(a, -d)
    }
}

/// The contribution of triangle `t`: solve the 2-by-2 UV-to-edge
/// system for the tangent and bitangent, scaled to fixed point by the
/// signed determinant.  Degenerate triangles contribute nothing.
pub open spec fn contribution(
    positions: Seq<i64>,
    texcoords: Seq<i64>,
    indices: Seq<u32>,
    t: int,
) -> GContrib {
    let c0 = indices[3 * t] as int;
    let c1 = indices[3 * t + 1] as int;
    let c2 = indices[3 * t + 2] as int;
    let e1x = positions[3 * c1] - positions[3 * c0];
    let e1y = positions[3 * c1 + 1] - positions[3 * c0 + 1];
    let e1z = positions[3 * c1 + 2] - positions[3 * c0 + 2];
    let e2x = positions[3 * c2] - positions[3 * c0];
    let e2y = positions[3 * c2 + 1] - positions[3 * c0 + 1];
    let e2z = positions[3 * c2 + 2] - positions[3 * c0 + 2];
    let du1 = texcoords[2 * c1] - texcoords[2 * c0];
    let dv1 = texcoords[2 * c1 + 1] - texcoords[2 * c0 + 1];
    let du2 = texcoords[2 * c2] - texcoords[2 * c0];
    let dv2 = texcoords[2 * c2 + 1] - texcoords[2 * c0 + 1];
    let det = du1 * dv2 - du2 * dv1;
    if -DET_EPS < det < DET_EPS {
        GContrib { i0: -1, i1: -1, i2: -1, tx: 0, ty: 0, tz: 0, bx: 0, by: 0, bz: 0 }
    } else {
        GContrib {
            i0: c0,
            i1: c1,
            i2: c2,
            tx: div_signed((e1x * dv2 - e2x * dv1) * (FX_ONE as int), det),
            ty: div_signed((e1y * dv2 - e2y * dv1) * (FX_ONE as int), det),
            tz: div_signed((e1z * dv2 - e2z * dv1) * (FX_ONE as int), det),
            bx: div_signed((e2x * du1 - e1x * du2) * (FX_ONE as int), det),
            by: div_signed((e2y * du1 - e1y * du2) * (FX_ONE as int), det),
            bz: div_signed((e2z * du1 - e1z * du2) * (FX_ONE as int), det),
        }
    }
}

/// The contributions of all triangles, in index-list order.
pub open spec fn contributions(
    positions: Seq<i64>,
    texcoords: Seq<i64>,
    indices: Seq<u32>,
) -> Seq<GContrib> {
    Seq::new(
        (indices.len() / 3) as nat,
        |t: int| contribution(positions, texcoords, indices, t),
    )
}

/// The accumulators after every triangle has been processed, in the
/// given order.
pub open spec fn accumulate(contribs: Seq<GContrib>, n: int) -> Seq<GAcc> {
    contribs.fold_left(
        Seq::new(n as nat, |v: int| acc_zero()),
        |s: Seq<GAcc>, c: GContrib| add_contribution(s, c),
    )
}

/// A vertex's final tangent: the accumulated sum divided by the
/// incidence count, or zero where no triangle touched the vertex.
pub open spec fn finalize_component(sum: int, n: int) -> int {
    if n <= 0 {
        0
    } else {
        fx_div_trunc(sum, n)
    }
}


/// The largest importable mesh: a million vertices or triangles.
pub const IMPORT_MAX_RECORDS: usize = 1048576;

/// The validation verdict on one parsed mesh, in check order: whole
/// attribute records, required attributes present, matching lengths,
/// whole triangles, supported size, indices in range, coordinates in
/// bounds.
pub open spec fn source_error(
    positions: Seq<i64>,
    normals: Seq<i64>,
    texcoords: Seq<i64>,
    indices: Seq<u32>,
) -> Option<ImportError> {
    let n = positions.len() as int / 3;
    if positions.len() as int % 3 != 0 {
        Some(ImportError::MalformedAttributes)
    } else if positions.len() > 0 && normals.len() == 0 {
        Some(ImportError::MissingNormals)
    } else if positions.len() > 0 && texcoords.len() == 0 {
        Some(ImportError::MissingTexCoords)
    } else if normals.len() != positions.len() {
        Some(ImportError::MalformedAttributes)
    } else if 3 * texcoords.len() != 2 * positions.len() {
        Some(ImportError::MalformedAttributes)
    } else if indices.len() as int % 3 != 0 {
        Some(ImportError::MalformedAttributes)
    } else if positions.len() > 3 * IMPORT_MAX_RECORDS || indices.len() > 3 * IMPORT_MAX_RECORDS {
        Some(ImportError::MalformedAttributes)
    } else if exists|k: int| 0 <= k < indices.len() && (indices[k] as int) >= n {
        Some(ImportError::IndexOutOfRange)
    } else if exists|k: int|
        0 <= k < positions.len() && !(-IMPORT_POS_BOUND <= #[trigger] positions[k]
            <= IMPORT_POS_BOUND) {
        Some(ImportError::OutOfBounds)
    } else if exists|k: int|
        0 <= k < normals.len() && !(-IMPORT_POS_BOUND <= #[trigger] normals[k]
            <= IMPORT_POS_BOUND) {
        Some(ImportError::OutOfBounds)
    } else if exists|k: int|
        0 <= k < texcoords.len() && !(-IMPORT_UV_BOUND <= #[trigger] texcoords[k]
            <= IMPORT_UV_BOUND) {
        Some(ImportError::OutOfBounds)
    } else {
        None
    }
}

/// The vertex an import produces: the quantized attributes plus the
/// averaged tangent frame.
pub open spec fn imported_vertex(
    positions: Seq<i64>,
    normals: Seq<i64>,
    texcoords: Seq<i64>,
    accs: Seq<GAcc>,
    v: int,
) -> ModelVertex {
    ModelVertex {
        position: Vec3 {
            x: positions[3 * v],
            y: positions[3 * v + 1],
            z: positions[3 * v + 2],
        },
        uv_u: texcoords[2 * v],
        uv_v: texcoords[2 * v + 1],
        normal: Vec3 { x: normals[3 * v], y: normals[3 * v + 1], z: normals[3 * v + 2] },
        tangent: Vec3 {
            x: finalize_component(accs[v].tx, accs[v].n) as i64,
            y: finalize_component(accs[v].ty, accs[v].n) as i64,
            z: finalize_component(accs[v].tz, accs[v].n) as i64,
        },
        bitangent: Vec3 {
            x: finalize_component(accs[v].bx, accs[v].n) as i64,
            y: finalize_component(accs[v].by, accs[v].n) as i64,
            z: finalize_component(accs[v].bz, accs[v].n) as i64,
        },
    }
}

/// Adding one triangle's contribution commutes with adding another:
/// both orders add the same exact integers into the same slots.
pub proof fn lemma_slot_add_comm(s: Seq<GAcc>, i: int, a: GContrib, j: int, b: GContrib)
    ensures
        slot_add(slot_add(s, i, a), j, b) == slot_add(slot_add(s, j, b), i, a),
{
    if 0 <= i < s.len() && 0 <= j < s.len() {
        if i == j {
            assert(slot_add(slot_add(s, i, a), j, b) =~= slot_add(slot_add(s, j, b), i, a));
        } else {
            assert(slot_add(slot_add(s, i, a), j, b) =~= slot_add(slot_add(s, j, b), i, a));
        }
    } else {
        assert(slot_add(slot_add(s, i, a), j, b) =~= slot_add(slot_add(s, j, b), i, a));
    }
}

/// Whole-contribution commutativity, by bubbling the six slot
/// additions past each other.
pub proof fn lemma_add_contribution_comm(s: Seq<GAcc>, x: GContrib, y: GContrib)
    ensures
        add_contribution(add_contribution(s, x), y) == add_contribution(
            add_contribution(s, y),
            x,
        ),
{
    let x1 = slot_add(s, x.i0, x);
    let x2 = slot_add(x1, x.i1, x);
    let x3 = slot_add(x2, x.i2, x);
    lemma_slot_add_comm(x2, x.i2, x, y.i0, y);
    lemma_slot_add_comm(x1, x.i1, x, y.i0, y);
    lemma_slot_add_comm(s, x.i0, x, y.i0, y);
    let y1 = slot_add(s, y.i0, y);
    lemma_slot_add_comm(slot_add(y1, x.i0, x), x.i1, x, y.i1, y);
    lemma_slot_add_comm(y1, x.i0, x, y.i1, y);
    let y2 = slot_add(y1, y.i1, y);
    lemma_slot_add_comm(slot_add(slot_add(y2, x.i0, x), x.i1, x), x.i2, x, y.i2, y);
    lemma_slot_add_comm(slot_add(y2, x.i0, x), x.i1, x, y.i2, y);
    lemma_slot_add_comm(y2, x.i0, x, y.i2, y);
}

/// Tangent generation is order-independent: processing the triangles
/// in any order (any sequence holding the same triangles) accumulates
/// identical per-vertex tangent and bitangent sums, because each
/// triangle's exact integer contribution is added commutatively.
pub proof fn lemma_accumulation_order_independent(
    c1: Seq<GContrib>,
    c2: Seq<GContrib>,
    n: int,
)
    requires
        c1.to_multiset() == c2.to_multiset(),
    ensures
        accumulate(c1, n) == accumulate(c2, n),
{
    let f = |s: Seq<GAcc>, c: GContrib| add_contribution(s, c);
    assert forall|x: GContrib, y: GContrib, v: Seq<GAcc>| #[trigger]
        f(f(v, x), y) == f(f(v, y), x) by {
        lemma_add_contribution_comm(v, x, y);
    }
    assert(vstd::seq_lib::commutative_foldl(f));
    vstd::seq_lib::lemma_fold_left_permutation(
        c1,
        c2,
        f,
        Seq::new(n as nat, |v: int| acc_zero()),
    );
}


/// The bound on one contribution component: 2^60.
pub const CONTRIB_MAX: i64 = 1152921504606846976;

/// An executable per-vertex accumulator.
#[derive(Clone, Copy, Debug)]
pub struct Acc {
    pub tx: i128,
    pub ty: i128,
    pub tz: i128,
    pub bx: i128,
    pub by: i128,
    pub bz: i128,
    pub n: u32,
}

/// The accumulator's mathematical value.
pub open spec fn acc_view(a: Acc) -> GAcc {
    GAcc {
        tx: a.tx as int,
        ty: a.ty as int,
        tz: a.tz as int,
        bx: a.bx as int,
        by: a.by as int,
        bz: a.bz as int,
        n: a.n as int,
    }
}

/// Each sum is bounded by the incidence count times the contribution
/// bound.
pub open spec fn acc_bounded(a: GAcc) -> bool {
    &&& 0 <= a.n
    &&& -(a.n * CONTRIB_MAX as int) <= a.tx <= a.n * CONTRIB_MAX as int
    &&& -(a.n * CONTRIB_MAX as int) <= a.ty <= a.n * CONTRIB_MAX as int
    &&& -(a.n * CONTRIB_MAX as int) <= a.tz <= a.n * CONTRIB_MAX as int
    &&& -(a.n * CONTRIB_MAX as int) <= a.bx <= a.n * CONTRIB_MAX as int
    &&& -(a.n * CONTRIB_MAX as int) <= a.by <= a.n * CONTRIB_MAX as int
    &&& -(a.n * CONTRIB_MAX as int) <= a.bz <= a.n * CONTRIB_MAX as int
}

/// A contribution's components are bounded and its corners name real
/// vertices or none at all.
pub open spec fn contrib_bounded(c: GContrib, n: int) -> bool {
    &&& (c.i0 == -1 || (0 <= c.i0 < n && 0 <= c.i1 < n && 0 <= c.i2 < n))
    &&& c.i0 == -1 ==> c.i1 == -1 && c.i2 == -1
    &&& -(CONTRIB_MAX as int) <= c.tx <= CONTRIB_MAX as int
    &&& -(CONTRIB_MAX as int) <= c.ty <= CONTRIB_MAX as int
    &&& -(CONTRIB_MAX as int) <= c.tz <= CONTRIB_MAX as int
    &&& -(CONTRIB_MAX as int) <= c.bx <= CONTRIB_MAX as int
    &&& -(CONTRIB_MAX as int) <= c.by <= CONTRIB_MAX as int
    &&& -(CONTRIB_MAX as int) <= c.bz <= CONTRIB_MAX as int
}

/// A quotient by a divisor at least the degeneracy threshold stays
/// within the contribution bound.
proof fn lemma_contrib_quotient_bound(a: int, d: int)
    requires
        d >= DET_EPS as int,
        -(DET_EPS as int) * (CONTRIB_MAX as int) <= a <= (DET_EPS as int) * (CONTRIB_MAX as int),
    ensures
        -(CONTRIB_MAX as int) <= fx_div_trunc(a, d) <= CONTRIB_MAX as int,
{
    assert(-(d * (CONTRIB_MAX as int)) <= a <= d * (CONTRIB_MAX as int)) by (nonlinear_arith)
        requires
            d >= DET_EPS as int,
            DET_EPS as int > 0,
            -(DET_EPS as int) * (CONTRIB_MAX as int) <= a <= (DET_EPS as int) * (
            CONTRIB_MAX as int),
    ;
    crate::fx::lemma_div_trunc_bound(a, d, d * (CONTRIB_MAX as int));
    assert((d * (CONTRIB_MAX as int)) / d == CONTRIB_MAX as int) by (nonlinear_arith)
        requires
            d >= 1,
    ;
}

/// One exactly computed quotient of the tangent solve.
fn solve_component(num: i64, det: i64) -> (q: i64)
    requires
        det >= DET_EPS || det <= -DET_EPS,
        -0x800_0000_0000 <= det <= 0x800_0000_0000,
        -0x10_0000_0000_0000_0000 <= (num as int) * (FX_ONE as int) <= 0x10_0000_0000_0000_0000,
    ensures
        q as int == div_signed((num as int) * (FX_ONE as int), det as int),
        -CONTRIB_MAX <= q <= CONTRIB_MAX,
{
    proof {
        crate::vec3::lemma_product_bound(
            num as int,
            FX_ONE as int,
            0x8000_0000_0000_0000,
            0x1_0000,
        );
    }
    let wide: i128 = (num as i128) * (FX_ONE as i128);
    let (adet, neg) = if det < 0 {
        (-det, true)
    } else {
        (det, false)
    };
    proof {
        assert((DET_EPS as int) * (CONTRIB_MAX as int) == 0x10_0000_0000_0000_0000);
        lemma_contrib_quotient_bound(wide as int, adet as int);
    }
    let q = wide / (adet as i128);
    if neg {
        (-q) as i64
    } else {
        q as i64
    }
}

/// Builds one imported mesh from parsed arrays: validates them, then
/// generates the tangent frame by exact accumulation over the
/// triangles.  The result states, per vertex, exactly the averaged
/// accumulated solve of the UV-to-edge systems.
#[verifier::rlimit(100)]
pub fn import_mesh(source: &MeshSource) -> (r: Result<ImportedMesh, ImportError>)
    ensures
        match r {
            Result::Err(e) => source_error(
                source.positions@,
                source.normals@,
                source.texcoords@,
                source.indices@,
            ) == Some(e),
            Result::Ok(m) => mesh_matches_source(m, source),
        },
{
    let positions = &source.positions;
    let normals = &source.normals;
    let texcoords = &source.texcoords;
    let indices = &source.indices;
    if positions.len() % 3 != 0 {
        return Result::Err(ImportError::MalformedAttributes);
    }
    if positions.len() > 0 && normals.len() == 0 {
        return Result::Err(ImportError::MissingNormals);
    }
    if positions.len() > 0 && texcoords.len() == 0 {
        return Result::Err(ImportError::MissingTexCoords);
    }
    if normals.len() != positions.len() {
        return Result::Err(ImportError::MalformedAttributes);
    }
    if (texcoords.len() as u128) * 3 != (positions.len() as u128) * 2 {
        return Result::Err(ImportError::MalformedAttributes);
    }
    if indices.len() % 3 != 0 {
        return Result::Err(ImportError::MalformedAttributes);
    }
    if positions.len() > 3 * IMPORT_MAX_RECORDS || indices.len() > 3 * IMPORT_MAX_RECORDS {
        return Result::Err(ImportError::MalformedAttributes);
    }
    let n = positions.len() / 3;
    let mut k: usize = 0;
    while k < indices.len()
        invariant
            0 <= k <= indices@.len(),
            n == positions@.len() / 3,
            positions@ == source.positions@,
            normals@ == source.normals@,
            texcoords@ == source.texcoords@,
            indices@ == source.indices@,
            prechecks_ok(positions@, normals@, texcoords@, indices@),
            forall|j: int| 0 <= j < k ==> (#[trigger] indices@[j] as int) < n,
        decreases indices@.len() - k,
    {
        if indices[k] as usize >= n {
            proof {
                assert((indices@[k as int] as int) >= n);
            }
            return Result::Err(ImportError::IndexOutOfRange);
        }
        k = k + 1;
    }
    let mut k: usize = 0;
    while k < positions.len()
        invariant
            0 <= k <= positions@.len(),
            n == positions@.len() / 3,
            positions@ == source.positions@,
            normals@ == source.normals@,
            texcoords@ == source.texcoords@,
            indices@ == source.indices@,
            prechecks_ok(positions@, normals@, texcoords@, indices@),
            forall|j: int| 0 <= j < indices@.len() ==> (#[trigger] indices@[j] as int) < n,
            forall|j: int|
                0 <= j < k ==> -IMPORT_POS_BOUND <= #[trigger] positions@[j] <= IMPORT_POS_BOUND,
        decreases positions@.len() - k,
    {
        if positions[k] < -IMPORT_POS_BOUND || positions[k] > IMPORT_POS_BOUND {
            proof {
                assert(!(-IMPORT_POS_BOUND <= positions@[k as int] <= IMPORT_POS_BOUND));
            }
            return Result::Err(ImportError::OutOfBounds);
        }
        k = k + 1;
    }
    let mut k: usize = 0;
    while k < normals.len()
        invariant
            0 <= k <= normals@.len(),
            n == positions@.len() / 3,
            positions@ == source.positions@,
            normals@ == source.normals@,
            texcoords@ == source.texcoords@,
            indices@ == source.indices@,
            prechecks_ok(positions@, normals@, texcoords@, indices@),
            forall|j: int| 0 <= j < indices@.len() ==> (#[trigger] indices@[j] as int) < n,
            forall|j: int|
                0 <= j < positions@.len() ==> -IMPORT_POS_BOUND <= #[trigger] positions@[j]
                    <= IMPORT_POS_BOUND,
            forall|j: int|
                0 <= j < k ==> -IMPORT_POS_BOUND <= #[trigger] normals@[j] <= IMPORT_POS_BOUND,
        decreases normals@.len() - k,
    {
        if normals[k] < -IMPORT_POS_BOUND || normals[k] > IMPORT_POS_BOUND {
            proof {
                assert(!(-IMPORT_POS_BOUND <= normals@[k as int] <= IMPORT_POS_BOUND));
            }
            return Result::Err(ImportError::OutOfBounds);
        }
        k = k + 1;
    }
    let mut k: usize = 0;
    while k < texcoords.len()
        invariant
            0 <= k <= texcoords@.len(),
            n == positions@.len() / 3,
            positions@ == source.positions@,
            normals@ == source.normals@,
            texcoords@ == source.texcoords@,
            indices@ == source.indices@,
            prechecks_ok(positions@, normals@, texcoords@, indices@),
            forall|j: int| 0 <= j < indices@.len() ==> (#[trigger] indices@[j] as int) < n,
            forall|j: int|
                0 <= j < positions@.len() ==> -IMPORT_POS_BOUND <= #[trigger] positions@[j]
                    <= IMPORT_POS_BOUND,
            forall|j: int|
                0 <= j < normals@.len() ==> -IMPORT_POS_BOUND <= #[trigger] normals@[j]
                    <= IMPORT_POS_BOUND,
            forall|j: int|
                0 <= j < k ==> -IMPORT_UV_BOUND <= #[trigger] texcoords@[j] <= IMPORT_UV_BOUND,
        decreases texcoords@.len() - k,
    {
        if texcoords[k] < -IMPORT_UV_BOUND || texcoords[k] > IMPORT_UV_BOUND {
            proof {
                assert(!(-IMPORT_UV_BOUND <= texcoords@[k as int] <= IMPORT_UV_BOUND));
            }
            return Result::Err(ImportError::OutOfBounds);
        }
        k = k + 1;
    }

    let ghost contribs = contributions(positions@, texcoords@, indices@);
    let mut accs: Vec<Acc> = Vec::new();
    let mut v: usize = 0;
    while v < n
        invariant
            0 <= v <= n,
            accs@.len() == v,
            forall|j: int| 0 <= j < v ==> acc_view(#[trigger] accs@[j]) == acc_zero(),
        decreases n - v,
    {
        accs.push(Acc { tx: 0, ty: 0, tz: 0, bx: 0, by: 0, bz: 0, n: 0 });
        v = v + 1;
    }
    proof {
        assert(accs@.map_values(|a: Acc| acc_view(a)) =~= Seq::new(
            n as nat,
            |j: int| acc_zero(),
        ));
    }
    let tcount = indices.len() / 3;
    let mut t: usize = 0;
    while t < tcount
        invariant
            0 <= t <= tcount,
            tcount == indices@.len() / 3,
            tcount <= IMPORT_MAX_RECORDS,
            n == positions@.len() / 3,
            positions@.len() % 3 == 0,
            n <= IMPORT_MAX_RECORDS,
            3 * texcoords@.len() == 2 * positions@.len(),
            forall|j: int| 0 <= j < indices@.len() ==> (#[trigger] indices@[j] as int) < n,
            forall|j: int|
                0 <= j < positions@.len() ==> -IMPORT_POS_BOUND <= #[trigger] positions@[j]
                    <= IMPORT_POS_BOUND,
            forall|j: int|
                0 <= j < texcoords@.len() ==> -IMPORT_UV_BOUND <= #[trigger] texcoords@[j]
                    <= IMPORT_UV_BOUND,
            contribs == contributions(positions@, texcoords@, indices@),
            accs@.len() == n,
            accs@.map_values(|a: Acc| acc_view(a)) == accumulate(
                contribs.subrange(0, t as int),
                n as int,
            ),
            forall|j: int| 0 <= j < n ==> acc_bounded(acc_view(#[trigger] accs@[j])),
            forall|j: int| 0 <= j < n ==> (#[trigger] accs@[j]).n <= 3 * t,
        decreases tcount - t,
    {
        let c0 = indices[3 * t] as usize;
        let c1 = indices[3 * t + 1] as usize;
        let c2 = indices[3 * t + 2] as usize;
        let e1x = positions[3 * c1] - positions[3 * c0];
        let e1y = positions[3 * c1 + 1] - positions[3 * c0 + 1];
        let e1z = positions[3 * c1 + 2] - positions[3 * c0 + 2];
        let e2x = positions[3 * c2] - positions[3 * c0];
        let e2y = positions[3 * c2 + 1] - positions[3 * c0 + 1];
        let e2z = positions[3 * c2 + 2] - positions[3 * c0 + 2];
        let du1 = texcoords[2 * c1] - texcoords[2 * c0];
        let dv1 = texcoords[2 * c1 + 1] - texcoords[2 * c0 + 1];
        let du2 = texcoords[2 * c2] - texcoords[2 * c0];
        let dv2 = texcoords[2 * c2 + 1] - texcoords[2 * c0 + 1];
        proof {
            lemma_triangle_products(
                e1x as int, e1y as int, e1z as int,
                e2x as int, e2y as int, e2z as int,
                du1 as int, dv1 as int, du2 as int, dv2 as int,
            );
        }
        let det = du1 * dv2 - du2 * dv1;
        let ghost c = contribution(positions@, texcoords@, indices@, t as int);
        let ghost pre = accs@.map_values(|a: Acc| acc_view(a));
        if det > -DET_EPS && det < DET_EPS {
            proof {
                assert(add_contribution(pre, c) =~= pre);
                assert(contribs.subrange(0, t as int + 1).drop_last() =~= contribs.subrange(
                    0,
                    t as int,
                ));
            }
        } else {
            let qtx = solve_component(e1x * dv2 - e2x * dv1, det);
            let qty = solve_component(e1y * dv2 - e2y * dv1, det);
            let qtz = solve_component(e1z * dv2 - e2z * dv1, det);
            let qbx = solve_component(e2x * du1 - e1x * du2, det);
            let qby = solve_component(e2y * du1 - e1y * du2, det);
            let qbz = solve_component(e2z * du1 - e1z * du2, det);
            proof {
                assert(c.tx == qtx as int && c.ty == qty as int && c.tz == qtz as int && c.bx
                    == qbx as int && c.by == qby as int && c.bz == qbz as int && c.i0 == c0 as int
                    && c.i1 == c1 as int && c.i2 == c2 as int);
                lemma_acc_growth(acc_view(accs@[c0 as int]));
                lemma_acc_growth(acc_view(accs@[c1 as int]));
                lemma_acc_growth(acc_view(accs@[c2 as int]));
            }
            let a0 = accs[c0];
            accs[c0] = Acc {
                tx: a0.tx + qtx as i128,
                ty: a0.ty + qty as i128,
                tz: a0.tz + qtz as i128,
                bx: a0.bx + qbx as i128,
                by: a0.by + qby as i128,
                bz: a0.bz + qbz as i128,
                n: a0.n + 1,
            };
            proof {
                assert(accs@.len() == n);
                assert(accs@.map_values(|a: Acc| acc_view(a)) =~= slot_add(pre, c.i0, c));
                lemma_acc_growth(acc_view(accs@[c1 as int]));
                lemma_acc_growth(acc_view(accs@[c2 as int]));
            }
            let ghost mid1 = accs@.map_values(|a: Acc| acc_view(a));
            let a1 = accs[c1];
            accs[c1] = Acc {
                tx: a1.tx + qtx as i128,
                ty: a1.ty + qty as i128,
                tz: a1.tz + qtz as i128,
                bx: a1.bx + qbx as i128,
                by: a1.by + qby as i128,
                bz: a1.bz + qbz as i128,
                n: a1.n + 1,
            };
            proof {
                assert(accs@.len() == n);
                assert(accs@.map_values(|a: Acc| acc_view(a)) =~= slot_add(mid1, c.i1, c));
                lemma_acc_growth(acc_view(accs@[c2 as int]));
            }
            let ghost mid2 = accs@.map_values(|a: Acc| acc_view(a));
            let a2 = accs[c2];
            accs[c2] = Acc {
                tx: a2.tx + qtx as i128,
                ty: a2.ty + qty as i128,
                tz: a2.tz + qtz as i128,
                bx: a2.bx + qbx as i128,
                by: a2.by + qby as i128,
                bz: a2.bz + qbz as i128,
                n: a2.n + 1,
            };
            proof {
                assert(accs@.map_values(|a: Acc| acc_view(a)) =~= slot_add(mid2, c.i2, c));
                assert(contribs.subrange(0, t as int + 1).drop_last() =~= contribs.subrange(
                    0,
                    t as int,
                ));
            }
        }
        t = t + 1;
    }
    proof {
        assert(contribs.subrange(0, tcount as int) =~= contribs);
    }

    let mut vertices: Vec<ModelVertex> = Vec::new();
    let ghost accs_final = accs@.map_values(|a: Acc| acc_view(a));
    let mut v: usize = 0;
    while v < n
        invariant
            0 <= v <= n,
            n == positions@.len() / 3,
            positions@.len() % 3 == 0,
            n <= IMPORT_MAX_RECORDS,
            3 * texcoords@.len() == 2 * positions@.len(),
            normals@.len() == positions@.len(),
            accs@.len() == n,
            accs_final == accs@.map_values(|a: Acc| acc_view(a)),
            forall|j: int| 0 <= j < n ==> acc_bounded(acc_view(#[trigger] accs@[j])),
            vertices@.len() == v,
            forall|j: int|
                0 <= j < v ==> #[trigger] vertices@[j] == imported_vertex(
                    positions@,
                    normals@,
                    texcoords@,
                    accs_final,
                    j,
                ),
        decreases n - v,
    {
        let a = accs[v];
        proof {
            lemma_finalize_bounds(acc_view(a));
        }
        let nn: i128 = a.n as i128;
        let tangent = if a.n == 0 {
            Vec3::new(0, 0, 0)
        } else {
            Vec3::new((a.tx / nn) as i64, (a.ty / nn) as i64, (a.tz / nn) as i64)
        };
        let bitangent = if a.n == 0 {
            Vec3::new(0, 0, 0)
        } else {
            Vec3::new((a.bx / nn) as i64, (a.by / nn) as i64, (a.bz / nn) as i64)
        };
        let vertex = ModelVertex {
            position: Vec3::new(positions[3 * v], positions[3 * v + 1], positions[3 * v + 2]),
            uv_u: texcoords[2 * v],
            uv_v: texcoords[2 * v + 1],
            normal: Vec3::new(normals[3 * v], normals[3 * v + 1], normals[3 * v + 2]),
            tangent,
            bitangent,
        };
        vertices.push(vertex);
        v = v + 1;
        proof {
            assert(vertices@[v as int - 1] == imported_vertex(
                positions@,
                normals@,
                texcoords@,
                accs_final,
                v as int - 1,
            ));
        }
    }

    let out_indices = clone_u32_vec(indices);
    let num_elements = out_indices.len() as u32;
    Result::Ok(
        ImportedMesh {
            name: source.name.clone(),
            vertices,
            indices: out_indices,
            num_elements,
            material: source.material,
        },
    )
}

/// The scalar shape checks that precede the element scans.
pub open spec fn prechecks_ok(
    positions: Seq<i64>,
    normals: Seq<i64>,
    texcoords: Seq<i64>,
    indices: Seq<u32>,
) -> bool {
    &&& positions.len() as int % 3 == 0
    &&& !(positions.len() > 0 && normals.len() == 0)
    &&& !(positions.len() > 0 && texcoords.len() == 0)
    &&& normals.len() == positions.len()
    &&& 3 * texcoords.len() == 2 * positions.len()
    &&& indices.len() as int % 3 == 0
    &&& positions.len() <= 3 * IMPORT_MAX_RECORDS
    &&& indices.len() <= 3 * IMPORT_MAX_RECORDS
}

/// What a successful import promises of its mesh, relative to its
/// source.
pub open spec fn mesh_matches_source(m: ImportedMesh, source: &MeshSource) -> bool {
    &&& source_error(source.positions@, source.normals@, source.texcoords@, source.indices@)
        is None
    &&& m.name@ == source.name@
    &&& m.indices@ == source.indices@
    &&& m.material == source.material
    &&& m.num_elements as int == source.indices@.len()
    &&& m.valid()
    &&& m.vertices@.len() == source.positions@.len() as int / 3
    &&& forall|v: int|
        0 <= v < m.vertices@.len() ==> #[trigger] m.vertices@[v] == imported_vertex(
            source.positions@,
            source.normals@,
            source.texcoords@,
            accumulate(
                contributions(source.positions@, source.texcoords@, source.indices@),
                source.positions@.len() as int / 3,
            ),
            v,
        )
}

/// The products of one triangle's solve stay far inside the 64-bit
/// range.
proof fn lemma_triangle_products(
    e1x: int, e1y: int, e1z: int,
    e2x: int, e2y: int, e2z: int,
    du1: int, dv1: int, du2: int, dv2: int,
)
    requires
        -0x4000_0000 <= e1x <= 0x4000_0000,
        -0x4000_0000 <= e1y <= 0x4000_0000,
        -0x4000_0000 <= e1z <= 0x4000_0000,
        -0x4000_0000 <= e2x <= 0x4000_0000,
        -0x4000_0000 <= e2y <= 0x4000_0000,
        -0x4000_0000 <= e2z <= 0x4000_0000,
        -0x20_0000 <= du1 <= 0x20_0000,
        -0x20_0000 <= dv1 <= 0x20_0000,
        -0x20_0000 <= du2 <= 0x20_0000,
        -0x20_0000 <= dv2 <= 0x20_0000,
    ensures
        -0x400_0000_0000 <= du1 * dv2 <= 0x400_0000_0000,
        -0x400_0000_0000 <= du2 * dv1 <= 0x400_0000_0000,
        -0x8_0000_0000_0000 <= e1x * dv2 <= 0x8_0000_0000_0000,
        -0x8_0000_0000_0000 <= e1y * dv2 <= 0x8_0000_0000_0000,
        -0x8_0000_0000_0000 <= e1z * dv2 <= 0x8_0000_0000_0000,
        -0x8_0000_0000_0000 <= e2x * dv1 <= 0x8_0000_0000_0000,
        -0x8_0000_0000_0000 <= e2y * dv1 <= 0x8_0000_0000_0000,
        -0x8_0000_0000_0000 <= e2z * dv1 <= 0x8_0000_0000_0000,
        -0x8_0000_0000_0000 <= e2x * du1 <= 0x8_0000_0000_0000,
        -0x8_0000_0000_0000 <= e2y * du1 <= 0x8_0000_0000_0000,
        -0x8_0000_0000_0000 <= e2z * du1 <= 0x8_0000_0000_0000,
        -0x8_0000_0000_0000 <= e1x * du2 <= 0x8_0000_0000_0000,
        -0x8_0000_0000_0000 <= e1y * du2 <= 0x8_0000_0000_0000,
        -0x8_0000_0000_0000 <= e1z * du2 <= 0x8_0000_0000_0000,
{
    crate::vec3::lemma_product_bound(du1, dv2, 0x20_0000, 0x20_0000);
    crate::vec3::lemma_product_bound(du2, dv1, 0x20_0000, 0x20_0000);
    crate::vec3::lemma_product_bound(e1x, dv2, 0x4000_0000, 0x20_0000);
    crate::vec3::lemma_product_bound(e1y, dv2, 0x4000_0000, 0x20_0000);
    crate::vec3::lemma_product_bound(e1z, dv2, 0x4000_0000, 0x20_0000);
    crate::vec3::lemma_product_bound(e2x, dv1, 0x4000_0000, 0x20_0000);
    crate::vec3::lemma_product_bound(e2y, dv1, 0x4000_0000, 0x20_0000);
    crate::vec3::lemma_product_bound(e2z, dv1, 0x4000_0000, 0x20_0000);
    crate::vec3::lemma_product_bound(e2x, du1, 0x4000_0000, 0x20_0000);
    crate::vec3::lemma_product_bound(e2y, du1, 0x4000_0000, 0x20_0000);
    crate::vec3::lemma_product_bound(e2z, du1, 0x4000_0000, 0x20_0000);
    crate::vec3::lemma_product_bound(e1x, du2, 0x4000_0000, 0x20_0000);
    crate::vec3::lemma_product_bound(e1y, du2, 0x4000_0000, 0x20_0000);
    crate::vec3::lemma_product_bound(e1z, du2, 0x4000_0000, 0x20_0000);
}

/// A bounded accumulator can take one more bounded contribution
/// without leaving the working range.
proof fn lemma_acc_growth(a: GAcc)
    requires
        acc_bounded(a),
        a.n <= 0x400000,
    ensures
        -0x400000_0000_0000_0000_0000 <= a.tx <= 0x400000_0000_0000_0000_0000,
        -0x400000_0000_0000_0000_0000 <= a.ty <= 0x400000_0000_0000_0000_0000,
        -0x400000_0000_0000_0000_0000 <= a.tz <= 0x400000_0000_0000_0000_0000,
        -0x400000_0000_0000_0000_0000 <= a.bx <= 0x400000_0000_0000_0000_0000,
        -0x400000_0000_0000_0000_0000 <= a.by <= 0x400000_0000_0000_0000_0000,
        -0x400000_0000_0000_0000_0000 <= a.bz <= 0x400000_0000_0000_0000_0000,
{
    assert(a.n * (CONTRIB_MAX as int) <= 0x400000_0000_0000_0000_0000) by (nonlinear_arith)
        requires
            0 <= a.n <= 0x400000,
            CONTRIB_MAX as int == 0x1000_0000_0000_0000,
    ;
}

/// The averaged components stay within the contribution bound.
proof fn lemma_finalize_bounds(a: GAcc)
    requires
        acc_bounded(a),
    ensures
        a.n > 0 ==> -(CONTRIB_MAX as int) <= fx_div_trunc(a.tx, a.n) <= CONTRIB_MAX as int,
        a.n > 0 ==> -(CONTRIB_MAX as int) <= fx_div_trunc(a.ty, a.n) <= CONTRIB_MAX as int,
        a.n > 0 ==> -(CONTRIB_MAX as int) <= fx_div_trunc(a.tz, a.n) <= CONTRIB_MAX as int,
        a.n > 0 ==> -(CONTRIB_MAX as int) <= fx_div_trunc(a.bx, a.n) <= CONTRIB_MAX as int,
        a.n > 0 ==> -(CONTRIB_MAX as int) <= fx_div_trunc(a.by, a.n) <= CONTRIB_MAX as int,
        a.n > 0 ==> -(CONTRIB_MAX as int) <= fx_div_trunc(a.bz, a.n) <= CONTRIB_MAX as int,
{
    if a.n > 0 {
        crate::fx::lemma_div_trunc_bound(a.tx, a.n, a.n * (CONTRIB_MAX as int));
        crate::fx::lemma_div_trunc_bound(a.ty, a.n, a.n * (CONTRIB_MAX as int));
        crate::fx::lemma_div_trunc_bound(a.tz, a.n, a.n * (CONTRIB_MAX as int));
        crate::fx::lemma_div_trunc_bound(a.bx, a.n, a.n * (CONTRIB_MAX as int));
        crate::fx::lemma_div_trunc_bound(a.by, a.n, a.n * (CONTRIB_MAX as int));
        crate::fx::lemma_div_trunc_bound(a.bz, a.n, a.n * (CONTRIB_MAX as int));
        assert((a.n * (CONTRIB_MAX as int)) / a.n == CONTRIB_MAX as int) by (nonlinear_arith)
            requires
                a.n >= 1,
        ;
    }
}

/// Copies an index list.
fn clone_u32_vec(v: &Vec<u32>) -> (r: Vec<u32>)
    ensures
        r@ == v@,
{
    let mut r: Vec<u32> = Vec::new();
    let mut i: usize = 0;
    while i < v.len()
        invariant
            0 <= i <= v.len(),
            r@ == v@.subrange(0, i as int),
        decreases v.len() - i,
    {
        r.push(v[i]);
        i = i + 1;
        proof {
            assert(r@ =~= v@.subrange(0, i as int));
        }
    }
    proof {
        assert(r@ =~= v@);
    }
    r
}

impl Model {
    /// Imports a set of parsed meshes into one model.  Either every
    /// mesh imports, or the first failure is reported and no model is
    /// produced at all: the scene is left unchanged.
    pub fn load(sources: &Vec<MeshSource>) -> (r: Result<Model, ImportError>)
        ensures
            match r {
                Result::Ok(m) => {
                    &&& m.meshes@.len() == 0
                    &&& m.imported@.len() == sources@.len()
                    &&& forall|k: int|
                        0 <= k < sources@.len() ==> mesh_matches_source(
                            #[trigger] m.imported@[k],
                            &sources@[k],
                        )
                },
                Result::Err(e) => exists|k: int|
                    0 <= k < sources@.len() && source_error(
                        (#[trigger] sources@[k]).positions@,
                        sources@[k].normals@,
                        sources@[k].texcoords@,
                        sources@[k].indices@,
                    ) == Some(e) && forall|j: int|
                        0 <= j < k ==> source_error(
                            (#[trigger] sources@[j]).positions@,
                            sources@[j].normals@,
                            sources@[j].texcoords@,
                            sources@[j].indices@,
                        ) is None,
            },
    {
        let mut imported: Vec<ImportedMesh> = Vec::new();
        let mut k: usize = 0;
        while k < sources.len()
            invariant
                0 <= k <= sources@.len(),
                imported@.len() == k,
                forall|j: int|
                    0 <= j < k ==> mesh_matches_source(#[trigger] imported@[j], &sources@[j]),
            decreases sources@.len() - k,
        {
            match import_mesh(&sources[k]) {
                Result::Ok(m) => {
                    imported.push(m);
                },
                Result::Err(e) => {
                    proof {
                        assert forall|j: int| 0 <= j < k implies source_error(
                            (#[trigger] sources@[j]).positions@,
                            sources@[j].normals@,
                            sources@[j].texcoords@,
                            sources@[j].indices@,
                        ) is None by {
                            assert(mesh_matches_source(imported@[j], &sources@[j]));
                        }
                    }
                    return Result::Err(e);
                },
            }
            k = k + 1;
        }
        Result::Ok(Model { meshes: Vec::new(), imported })
    }
}

} // verus!
