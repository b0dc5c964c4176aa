//! Mesh assembly: walk a chunk's voxels, place each voxel's baked model at
//! its world offset, and merge every contribution into one chunk-wide mesh
//! with rebased indices.

use crate::block_models::{BlockModel, BlockModels, VERT_MAX};
use crate::chunk::{spec_local_pos, Chunk, GridPos, AIR, CHUNK_EDGE, CHUNK_POS_MAX};
use crate::geometry::{lemma_abs_mul_bound, v3_add, Fx2, Fx3, V2, V3, SCALE};
use vstd::prelude::*;

verus! {

/// Bound on a world-offset component: `(CHUNK_POS_MAX * CHUNK_EDGE +
/// CHUNK_EDGE) * SCALE` rounded up to a power of two.
pub const OFFSET_MAX: i64 = 0x4000_0000_0000;

/// The vertex/index/normal/UV buffers produced by assembling one chunk.
#[derive(Debug)]
pub struct MeshBuffers {
    pub vertices: Vec<Fx3>,
    pub indices: Vec<u32>,
    pub normals: Vec<Fx3>,
    pub uvs: Vec<Fx2>,
}

/// Mathematical model of a mesh: the same four buffers as sequences of
/// mathematical vectors and unbounded integers.
#[verifier::ext_equal]
pub struct MeshView {
    pub vertices: Seq<V3>,
    pub indices: Seq<int>,
    pub normals: Seq<V3>,
    pub uvs: Seq<V2>,
}

impl View for MeshBuffers {
    type V = MeshView;

    open spec fn view(&self) -> MeshView {
        MeshView {
            vertices: self.vertices@.map_values(|v: Fx3| v@),
            indices: self.indices@.map_values(|i: u32| i as int),
            normals: self.normals@.map_values(|v: Fx3| v@),
            uvs: self.uvs@.map_values(|v: Fx2| v@),
        }
    }
}

impl BlockModel {
    /// The baked buffers of this model as a mathematical mesh.
    pub open spec fn geom(&self) -> MeshView {
        MeshView {
            vertices: self.vertices@.map_values(|v: Fx3| v@),
            indices: self.indices@.map_values(|i: u32| i as int),
            normals: self.normals@.map_values(|v: Fx3| v@),
            uvs: self.uvs@.map_values(|v: Fx2| v@),
        }
    }
}

impl BlockModels {
    /// The registry as a sequence of mathematical meshes, indexed by block
    /// id.
    pub open spec fn geoms(&self) -> Seq<MeshView> {
        self.block_models@.map_values(|m: BlockModel| m.geom())
    }
}

/// The mesh with no geometry at all.
pub open spec fn empty_mesh() -> MeshView {
    MeshView {
        vertices: Seq::empty(),
        indices: Seq::empty(),
        normals: Seq::empty(),
        uvs: Seq::empty(),
    }
}

/// Structural well-formedness of a mesh: normals and texture coordinates
/// pair one-to-one with vertices, two triangles stand for each four
/// vertices, and every index references a vertex.
pub open spec fn mesh_wf(m: MeshView) -> bool {
    &&& m.normals.len() == m.vertices.len()
    &&& m.uvs.len() == m.vertices.len()
    &&& m.indices.len() * 2 == m.vertices.len() * 3
    &&& forall|j: int| 0 <= j < m.indices.len() ==> 0 <= #[trigger] m.indices[j] < m.vertices.len()
}

/// `m` translated by `off`, with its indices rebased onto `base`.
pub open spec fn placed_mesh(m: MeshView, off: V3, base: int) -> MeshView {
    MeshView {
        vertices: Seq::new(m.vertices.len(), |j: int| v3_add(m.vertices[j], off)),
        indices: Seq::new(m.indices.len(), |j: int| m.indices[j] + base),
        normals: m.normals,
        uvs: m.uvs,
    }
}

/// Buffer-wise concatenation.
pub open spec fn mesh_concat(a: MeshView, b: MeshView) -> MeshView {
    MeshView {
        vertices: a.vertices + b.vertices,
        indices: a.indices + b.indices,
        normals: a.normals + b.normals,
        uvs: a.uvs + b.uvs,
    }
}

/// World offset of the voxel with local coordinates `lp` in a chunk at
/// grid position `cpos`: `(cpos * edge + lp) * SCALE`.
pub open spec fn voxel_offset_of(cpos: V3, edge: int, lp: V3) -> V3 {
    V3 {
        x: (cpos.x * edge + lp.x) * (SCALE as int),
        y: (cpos.y * edge + lp.y) * (SCALE as int),
        z: (cpos.z * edge + lp.z) * (SCALE as int),
    }
}

/// World offset of the voxel at `index`.
pub open spec fn voxel_offset(cpos: V3, edge: int, index: int) -> V3 {
    voxel_offset_of(cpos, edge, spec_local_pos(edge, index))
}

/// The voxel at `i` either holds `AIR` or a registered block id.
pub open spec fn voxel_ok(blocks: Seq<u16>, n_models: int, i: int) -> bool {
    blocks[i] == AIR || (blocks[i] as int) < n_models
}

/// `i` is the first voxel whose block id has no registry entry.
pub open spec fn first_bad_voxel(blocks: Seq<u16>, n_models: int, i: int) -> bool {
    &&& 0 <= i < blocks.len()
    &&& !voxel_ok(blocks, n_models, i)
    &&& forall|k: int| 0 <= k < i ==> voxel_ok(blocks, n_models, k)
}

/// The mesh assembled from the first `n` voxels: each non-`AIR` voxel's
/// model, translated to the voxel's world offset, with indices rebased by
/// the vertex count already emitted; `AIR` voxels contribute nothing.
pub open spec fn spec_assemble(
    blocks: Seq<u16>,
    cpos: V3,
    edge: int,
    models: Seq<MeshView>,
    n: int,
) -> MeshView
    decreases n,
{
    if n <= 0 {
        empty_mesh()
    } else {
        let prev = spec_assemble(blocks, cpos, edge, models, n - 1);
        if blocks[n - 1] == AIR {
            prev
        } else {
            mesh_concat(
                prev,
                placed_mesh(
                    models[blocks[n - 1] as int],
                    voxel_offset(cpos, edge, n - 1),
                    prev.vertices.len() as int,
                ),
            )
        }
    }
}

/// Sum over the first `n` voxels of each non-`AIR` voxel's model vertex
/// count.
pub open spec fn total_verts(blocks: Seq<u16>, models: Seq<MeshView>, n: int) -> int
    decreases n,
{
    if n <= 0 {
        0
    } else {
        total_verts(blocks, models, n - 1) + if blocks[n - 1] == AIR {
            0
        } else {
            models[blocks[n - 1] as int].vertices.len() as int
        }
    }
}

/// Every voxel of `c` holds `AIR` or a registered block id.
pub open spec fn all_voxels_ok(c: Chunk, models: BlockModels) -> bool {
    forall|i: int|
        0 <= i < c.block_ids@.len() ==> voxel_ok(
            c.block_ids@,
            models.block_models@.len() as int,
            i,
        )
}

/// The complete mesh of chunk `c` under registry `models`.
pub open spec fn chunk_mesh(c: Chunk, models: BlockModels) -> MeshView {
    spec_assemble(
        c.block_ids@,
        c.position@,
        c.edge as int,
        models.geoms(),
        c.block_ids@.len() as int,
    )
}

/// An assembly failure: a data-integrity error of the chunk, fatal to this
/// chunk alone.
#[derive(Clone, Copy, PartialEq, Eq, Structural, Debug)]
pub enum MeshError {
    MissingModel { block_id: u16 },
}

/// What `assemble` says of its result: success yields exactly the chunk's
/// mesh and is owed whenever every voxel is `AIR` or registered; failure
/// names the block id of the first voxel without a registry entry.
pub open spec fn assemble_result_spec(
    c: Chunk,
    models: BlockModels,
    r: Result<MeshBuffers, MeshError>,
) -> bool {
    &&& (r matches Ok(m) ==> all_voxels_ok(c, models) && m@ == chunk_mesh(c, models))
    &&& (r matches Err(e) ==> !all_voxels_ok(c, models) && exists|i: int|
        #[trigger] first_bad_voxel(c.block_ids@, models.block_models@.len() as int, i) && e == (
        MeshError::MissingModel { block_id: c.block_ids@[i] }))
}

/// A well-formed model's mathematical mesh is structurally well-formed.
pub proof fn lemma_model_geom_wf(m: BlockModel)
    requires
        m.wf(),
    ensures
        mesh_wf(m.geom()),
        m.geom().vertices.len() <= crate::block_models::MODEL_VERT_MAX,
{
    assert forall|j: int| 0 <= j < m.geom().indices.len() implies 0 <= #[trigger] m.geom().indices[j]
        < m.geom().vertices.len() by {
        assert(m.geom().indices[j] == m.indices@[j] as int);
        assert(m.indices@[j] < m.vertices@.len());
    }
}

/// A well-formed registry yields structurally well-formed meshes
/// throughout.
pub proof fn lemma_geoms_wf(models: BlockModels)
    requires
        models.wf(),
    ensures
        forall|k: int|
            0 <= k < models.geoms().len() ==> mesh_wf(#[trigger] models.geoms()[k])
                && models.geoms()[k].vertices.len() <= crate::block_models::MODEL_VERT_MAX,
{
    assert forall|k: int| 0 <= k < models.geoms().len() implies mesh_wf(#[trigger] models.geoms()[k])
        && models.geoms()[k].vertices.len() <= crate::block_models::MODEL_VERT_MAX by {
        lemma_model_geom_wf(models.block_models@[k]);
    }
}

/// The assembled mesh of `n` voxels has exactly `total_verts` vertices,
/// normals and texture coordinates, three indices for every two vertices,
/// and every index references an emitted vertex. This is the index-offset
/// correctness of the running vertex counter: each voxel advances it by
/// the vertex count its model actually contributed.
pub proof fn lemma_assemble_wf(blocks: Seq<u16>, cpos: V3, edge: int, models: Seq<MeshView>, n: int)
    requires
        0 <= n <= blocks.len(),
        forall|k: int| 0 <= k < n ==> voxel_ok(blocks, models.len() as int, k),
        forall|k: int| 0 <= k < models.len() ==> mesh_wf(#[trigger] models[k]),
    ensures
        spec_assemble(blocks, cpos, edge, models, n).vertices.len() == total_verts(
            blocks,
            models,
            n,
        ),
        mesh_wf(spec_assemble(blocks, cpos, edge, models, n)),
    decreases n,
{
    if n > 0 {
        lemma_assemble_wf(blocks, cpos, edge, models, n - 1);
        let prev = spec_assemble(blocks, cpos, edge, models, n - 1);
        let a = spec_assemble(blocks, cpos, edge, models, n);
        if blocks[n - 1] != AIR {
            assert(voxel_ok(blocks, models.len() as int, n - 1));
            let m = models[blocks[n - 1] as int];
            assert(mesh_wf(m));
            let placed = placed_mesh(m, voxel_offset(cpos, edge, n - 1), prev.vertices.len() as int);
            assert(a == mesh_concat(prev, placed));
            assert forall|l: int| 0 <= l < a.indices.len() implies 0 <= #[trigger] a.indices[l]
                < a.vertices.len() by {
                if l < prev.indices.len() {
                    assert(a.indices[l] == prev.indices[l]);
                } else {
                    let k = l - prev.indices.len();
                    assert(a.indices[l] == placed.indices[k]);
                    assert(placed.indices[k] == m.indices[k] + prev.vertices.len());
                    assert(0 <= m.indices[k] < m.vertices.len());
                }
            }
        }
    }
}

/// A chunk of nothing but `AIR` assembles to the empty mesh.
pub proof fn lemma_assemble_all_air(
    blocks: Seq<u16>,
    cpos: V3,
    edge: int,
    models: Seq<MeshView>,
    n: int,
)
    requires
        0 <= n <= blocks.len(),
        forall|k: int| 0 <= k < n ==> blocks[k] == AIR,
    ensures
        spec_assemble(blocks, cpos, edge, models, n) == empty_mesh(),
    decreases n,
{
    if n > 0 {
        lemma_assemble_all_air(blocks, cpos, edge, models, n - 1);
    }
}

/// A chunk with exactly one non-`AIR` voxel assembles to that voxel's
/// model alone, placed at the voxel's offset with indices rebased onto
/// zero; so with a model of `F` faces the output has exactly `4 * F`
/// vertices and `6 * F` indices, every index below `4 * F`.
pub proof fn lemma_assemble_single(
    blocks: Seq<u16>,
    cpos: V3,
    edge: int,
    models: Seq<MeshView>,
    n: int,
    j: int,
)
    requires
        0 <= j < n <= blocks.len(),
        blocks[j] != AIR,
        (blocks[j] as int) < models.len(),
        mesh_wf(models[blocks[j] as int]),
        forall|k: int| 0 <= k < n && k != j ==> blocks[k] == AIR,
    ensures
        spec_assemble(blocks, cpos, edge, models, n) == placed_mesh(
            models[blocks[j] as int],
            voxel_offset(cpos, edge, j),
            0,
        ),
        spec_assemble(blocks, cpos, edge, models, n).vertices.len() == models[blocks[j] as int].vertices.len(),
        spec_assemble(blocks, cpos, edge, models, n).indices.len() == models[blocks[j] as int].indices.len(),
        forall|l: int|
            0 <= l < spec_assemble(blocks, cpos, edge, models, n).indices.len() ==> 0 <= #[trigger] spec_assemble(
                blocks,
                cpos,
                edge,
                models,
                n,
            ).indices[l] < models[blocks[j] as int].vertices.len(),
    decreases n,
{
    let m = models[blocks[j] as int];
    let placed = placed_mesh(m, voxel_offset(cpos, edge, j), 0);
    if n - 1 == j {
        lemma_assemble_all_air(blocks, cpos, edge, models, n - 1);
        assert(spec_assemble(blocks, cpos, edge, models, n) == mesh_concat(empty_mesh(), placed));
        assert(mesh_concat(empty_mesh(), placed) =~= placed);
    } else {
        lemma_assemble_single(blocks, cpos, edge, models, n - 1, j);
    }
}

impl MeshBuffers {
    /// Empty buffers: the zero-triangle mesh.
    pub fn new_empty() -> (r: MeshBuffers)
        ensures
            r@ == empty_mesh(),
    {
        let r = MeshBuffers {
            vertices: Vec::new(),
            indices: Vec::new(),
            normals: Vec::new(),
            uvs: Vec::new(),
        };
        proof {
            assert(r@ =~= empty_mesh());
        }
        r
    }
}

/// World offset of the voxel with local coordinates `lp` in a chunk at
/// `cpos`.
fn voxel_world_offset(cpos: &GridPos, edge: usize, lp: &GridPos) -> (r: Fx3)
    requires
        cpos.wf(),
        1 <= edge <= CHUNK_EDGE,
        0 <= lp.x < edge,
        0 <= lp.y < edge,
        0 <= lp.z < edge,
    ensures
        r@ == voxel_offset_of(cpos@, edge as int, lp@),
        r.bounded(OFFSET_MAX as int),
{
    proof {
        lemma_abs_mul_bound(cpos.x as int, edge as int, CHUNK_POS_MAX as int, CHUNK_EDGE as int);
        lemma_abs_mul_bound(cpos.y as int, edge as int, CHUNK_POS_MAX as int, CHUNK_EDGE as int);
        lemma_abs_mul_bound(cpos.z as int, edge as int, CHUNK_POS_MAX as int, CHUNK_EDGE as int);
        let sum_bound = CHUNK_POS_MAX as int * CHUNK_EDGE as int + CHUNK_EDGE as int;
        lemma_abs_mul_bound(
            cpos.x as int * edge as int + lp.x as int,
            SCALE as int,
            sum_bound,
            SCALE as int,
        );
        lemma_abs_mul_bound(
            cpos.y as int * edge as int + lp.y as int,
            SCALE as int,
            sum_bound,
            SCALE as int,
        );
        lemma_abs_mul_bound(
            cpos.z as int * edge as int + lp.z as int,
            SCALE as int,
            sum_bound,
            SCALE as int,
        );
    }
    Fx3 {
        x: (cpos.x * (edge as i64) + lp.x) * SCALE,
        y: (cpos.y * (edge as i64) + lp.y) * SCALE,
        z: (cpos.z * (edge as i64) + lp.z) * SCALE,
    }
}

/// Assemble the mesh of `chunk` under `models`: walk every voxel in index
/// order, skip `AIR`, and merge each remaining voxel's model, translated
/// to its world offset and with indices rebased by the vertices already
/// emitted. Fails on the first voxel whose block id has no registry
/// entry; the chunk is then structurally invalid and yields no mesh.
pub fn assemble(chunk: &Chunk, models: &BlockModels) -> (r: Result<MeshBuffers, MeshError>)
    requires
        chunk.wf(),
        models.wf(),
    ensures
        assemble_result_spec(*chunk, *models, r),
{
    let ghost blocks = chunk.block_ids@;
    let ghost cpos = chunk.position@;
    let ghost edge = chunk.edge as int;
    let ghost geoms = models.geoms();
    let ghost n_models = models.block_models@.len() as int;

    let volume = chunk.volume();
    let mut vertices: Vec<Fx3> = Vec::new();
    let mut indices: Vec<u32> = Vec::new();
    let mut normals: Vec<Fx3> = Vec::new();
    let mut uvs: Vec<Fx2> = Vec::new();

    proof {
        lemma_geoms_wf(*models);
    }

    let mut i: usize = 0;
    while i < volume
        invariant
            chunk.wf(),
            models.wf(),
            blocks == chunk.block_ids@,
            cpos == chunk.position@,
            edge == chunk.edge as int,
            geoms == models.geoms(),
            n_models == models.block_models@.len() as int,
            volume == blocks.len(),
            volume <= CHUNK_EDGE * CHUNK_EDGE * CHUNK_EDGE,
            i <= volume,
            forall|k: int| 0 <= k < i ==> voxel_ok(blocks, n_models, k),
            vertices@.map_values(|v: Fx3| v@) == spec_assemble(
                blocks,
                cpos,
                edge,
                geoms,
                i as int,
            ).vertices,
            indices@.map_values(|x: u32| x as int) == spec_assemble(
                blocks,
                cpos,
                edge,
                geoms,
                i as int,
            ).indices,
            normals@.map_values(|v: Fx3| v@) == spec_assemble(
                blocks,
                cpos,
                edge,
                geoms,
                i as int,
            ).normals,
            uvs@.map_values(|v: Fx2| v@) == spec_assemble(
                blocks,
                cpos,
                edge,
                geoms,
                i as int,
            ).uvs,
            vertices@.len() == total_verts(blocks, geoms, i as int),
            vertices@.len() <= i * crate::block_models::MODEL_VERT_MAX,
        decreases volume - i,
    {
        let block_id = chunk.block_ids[i];
        if block_id != AIR {
            if (block_id as usize) >= models.block_models.len() {
                proof {
                    assert(!voxel_ok(blocks, n_models, i as int));
                    assert(first_bad_voxel(blocks, n_models, i as int));
                }
                return Err(MeshError::MissingModel { block_id });
            }
            let model = &models.block_models[block_id as usize];
            let lp = chunk.position_from_index(i);
            let off = voxel_world_offset(&chunk.position, chunk.edge, &lp);
            let ghost prev = spec_assemble(blocks, cpos, edge, geoms, i as int);
            let ghost mgeom = geoms[block_id as int];
            let ghost offv = off@;
            let ghost prev_vs = vertices@;
            let ghost prev_is = indices@;
            let ghost prev_ns = normals@;
            let ghost prev_us = uvs@;
            proof {
                lemma_model_geom_wf(*model);
                assert(mgeom == model.geom());
            }

            let base = vertices.len() as u32;
            let mv_len = model.vertices.len();
            let mut j: usize = 0;
            while j < mv_len
                invariant
                    j <= mv_len,
                    mv_len == model.vertices@.len(),
                    model.wf(),
                    off.bounded(OFFSET_MAX as int),
                    offv == off@,
                    vertices@.len() == prev_vs.len() + j,
                    forall|t: int| 0 <= t < prev_vs.len() ==> vertices@[t] == prev_vs[t],
                    forall|t: int|
                        prev_vs.len() <= t < vertices@.len() ==> (#[trigger] vertices@[t])@
                            == v3_add(model.vertices@[t - prev_vs.len()]@, offv),
                decreases mv_len - j,
            {
                vertices.push(model.vertices[j].add(&off));
                j = j + 1;
            }

            let mi_len = model.indices.len();
            j = 0;
            while j < mi_len
                invariant
                    j <= mi_len,
                    mi_len == model.indices@.len(),
                    model.wf(),
                    base + model.vertices@.len() <= u32::MAX,
                    indices@.len() == prev_is.len() + j,
                    forall|t: int| 0 <= t < prev_is.len() ==> indices@[t] == prev_is[t],
                    forall|t: int|
                        prev_is.len() <= t < indices@.len() ==> (#[trigger] indices@[t]) as int
                            == model.indices@[t - prev_is.len()] as int + base as int,
                decreases mi_len - j,
            {
                indices.push(base + model.indices[j]);
                j = j + 1;
            }

            let mn_len = model.normals.len();
            j = 0;
            while j < mn_len
                invariant
                    j <= mn_len,
                    mn_len == model.normals@.len(),
                    normals@.len() == prev_ns.len() + j,
                    forall|t: int| 0 <= t < prev_ns.len() ==> normals@[t] == prev_ns[t],
                    forall|t: int|
                        prev_ns.len() <= t < normals@.len() ==> (#[trigger] normals@[t])
                            == model.normals@[t - prev_ns.len()],
                decreases mn_len - j,
            {
                normals.push(model.normals[j]);
                j = j + 1;
            }

            let mu_len = model.uvs.len();
            j = 0;
            while j < mu_len
                invariant
                    j <= mu_len,
                    mu_len == model.uvs@.len(),
                    uvs@.len() == prev_us.len() + j,
                    forall|t: int| 0 <= t < prev_us.len() ==> uvs@[t] == prev_us[t],
                    forall|t: int|
                        prev_us.len() <= t < uvs@.len() ==> (#[trigger] uvs@[t])
                            == model.uvs@[t - prev_us.len()],
                decreases mu_len - j,
            {
                uvs.push(model.uvs[j]);
                j = j + 1;
            }

            proof {
                assert(lp@ == spec_local_pos(edge, i as int));
                assert(offv == voxel_offset(cpos, edge, i as int));
                let next = spec_assemble(blocks, cpos, edge, geoms, i as int + 1);
                let placed = placed_mesh(
                    mgeom,
                    voxel_offset(cpos, edge, i as int),
                    prev.vertices.len() as int,
                );
                assert(next == mesh_concat(prev, placed));
                assert(prev.vertices.len() == prev_vs.len());
                assert(vertices@.map_values(|v: Fx3| v@) =~= next.vertices);
                assert(indices@.map_values(|x: u32| x as int) =~= next.indices);
                assert(normals@.map_values(|v: Fx3| v@) =~= next.normals);
                assert(uvs@.map_values(|v: Fx2| v@) =~= next.uvs);
            }
        }
        i = i + 1;
    }
    let r = MeshBuffers { vertices, indices, normals, uvs };
    proof {
        assert(r@ =~= chunk_mesh(*chunk, *models));
    }
    Ok(r)
}

} // verus!
