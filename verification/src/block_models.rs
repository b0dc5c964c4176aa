//! The block-model registry: face definitions baked into reusable
//! vertex/index/normal/UV buffers, one model per block type.

use crate::geometry::{
    lemma_rotate_bound, rotate_x, rotate_y, rotate_z, spec_rotate_x, spec_rotate_y, spec_rotate_z,
    v3_add, Angle, AngleV, Fx2, Fx3, V2, V3, SCALE,
};
use vstd::prelude::*;

verus! {

/// Largest magnitude of a face-definition coordinate: a face position
/// component or an edge size, in fixed-point units.
pub const FACE_MAX: i64 = 0x100_0000_0000;

/// Half of `FACE_MAX`: bound on a corner offset before rotation.
pub const HALF_MAX: i64 = 0x80_0000_0000;

/// Bound on a baked vertex component: a corner grows by at most a factor
/// of two per axis rotation, plus the face position.
pub const VERT_MAX: i64 = 0x800_0000_0000;

/// Most vertices a single model may hold, so that a whole chunk's vertex
/// count stays within `u32` index range.
pub const MODEL_VERT_MAX: usize = 65536;

/// Most faces a single model may hold: `MODEL_VERT_MAX / 4`.
pub const MODEL_FACE_MAX: usize = 16384;

/// One quad of a block model in its local space, before rotation: a
/// rectangle of the given size centered at the origin of the face plane,
/// rotated by yaw, pitch and roll and then translated by `position`.
#[derive(Clone, Copy, PartialEq, Eq, Structural, Debug)]
pub struct FaceDef {
    pub position: Fx3,
    pub yaw: Angle,
    pub pitch: Angle,
    pub roll: Angle,
    pub size_x: i64,
    pub size_y: i64,
    pub uv_top_left: Fx2,
    pub uv_bottom_right: Fx2,
}

/// Mathematical model of a `FaceDef`.
pub struct FaceView {
    pub position: V3,
    pub yaw: AngleV,
    pub pitch: AngleV,
    pub roll: AngleV,
    pub size_x: int,
    pub size_y: int,
    pub uv_top_left: V2,
    pub uv_bottom_right: V2,
}

impl View for FaceDef {
    type V = FaceView;

    open spec fn view(&self) -> FaceView {
        FaceView {
            position: self.position@,
            yaw: self.yaw@,
            pitch: self.pitch@,
            roll: self.roll@,
            size_x: self.size_x as int,
            size_y: self.size_y as int,
            uv_top_left: self.uv_top_left@,
            uv_bottom_right: self.uv_bottom_right@,
        }
    }
}

impl FaceDef {
    /// Angles carry fixed-point sines and cosines; position and size are
    /// within the face-coordinate range.
    pub open spec fn wf(&self) -> bool {
        &&& self.yaw.wf()
        &&& self.pitch.wf()
        &&& self.roll.wf()
        &&& self.position.bounded(FACE_MAX as int)
        &&& 0 <= self.size_x <= FACE_MAX
        &&& 0 <= self.size_y <= FACE_MAX
    }
}

/// The definition of one block model: a name, zero or more faces, and an
/// optional texture reference.
pub struct ModelDef {
    pub name: String,
    pub faces: Vec<FaceDef>,
    pub texture_path: Option<String>,
}

impl ModelDef {
    pub open spec fn wf(&self) -> bool {
        &&& self.faces@.len() <= MODEL_FACE_MAX
        &&& forall|i: int| 0 <= i < self.faces@.len() ==> (#[trigger] self.faces@[i]).wf()
    }

    /// The faces as mathematical values.
    pub open spec fn faces_view(&self) -> Seq<FaceView> {
        self.faces@.map_values(|f: FaceDef| f@)
    }
}

/// The corner offsets of a face before rotation, in emission order
/// `[bottom_left, bottom_right, top_right, top_left]`.
pub open spec fn face_corner(f: FaceView, k: int) -> V3 {
    let hx = f.size_x / 2;
    let hy = f.size_y / 2;
    if k == 0 {
        V3 { x: -hx, y: -hy, z: 0 }
    } else if k == 1 {
        V3 { x: hx, y: -hy, z: 0 }
    } else if k == 2 {
        V3 { x: hx, y: hy, z: 0 }
    } else {
        V3 { x: -hx, y: hy, z: 0 }
    }
}

/// Baked position of corner `k` of face `f`: the corner rotated by roll,
/// then yaw, then pitch, then translated by the face position.
pub open spec fn face_vertex(f: FaceView, k: int) -> V3 {
    v3_add(
        spec_rotate_x(f.pitch, spec_rotate_y(f.yaw, spec_rotate_z(f.roll, face_corner(f, k)))),
        f.position,
    )
}

/// Baked normal of face `f`: the canonical forward vector `(0, 0, 1)`
/// rotated by yaw, then pitch.
pub open spec fn face_normal(f: FaceView) -> V3 {
    spec_rotate_x(f.pitch, spec_rotate_y(f.yaw, V3 { x: 0, y: 0, z: SCALE as int }))
}

/// Texture coordinate of corner `k`, pairing `uv_top_left` and
/// `uv_bottom_right` with the corner order: the quad's bottom (local `-Y`)
/// takes the bottom-right V, its top takes the top-left V.
pub open spec fn face_uv(f: FaceView, k: int) -> V2 {
    if k == 0 {
        V2 { x: f.uv_top_left.x, y: f.uv_bottom_right.y }
    } else if k == 1 {
        V2 { x: f.uv_bottom_right.x, y: f.uv_bottom_right.y }
    } else if k == 2 {
        V2 { x: f.uv_bottom_right.x, y: f.uv_top_left.y }
    } else {
        V2 { x: f.uv_top_left.x, y: f.uv_top_left.y }
    }
}

/// Index pattern of one face's two triangles, relative to its first
/// vertex: `(0, 1, 2), (0, 2, 3)`.
pub open spec fn winding(r: int) -> int {
    if r == 0 {
        0
    } else if r == 1 {
        1
    } else if r == 2 {
        2
    } else if r == 3 {
        0
    } else if r == 4 {
        2
    } else {
        3
    }
}

/// Baked geometry for one block type.
pub struct BlockModel {
    pub name: String,
    pub vertices: Vec<Fx3>,
    pub indices: Vec<u32>,
    pub normals: Vec<Fx3>,
    pub uvs: Vec<Fx2>,
    pub texture_path: Option<String>,
}

impl BlockModel {
    /// Each face contributes exactly 4 vertices and 6 indices in the fixed
    /// winding; normals and texture coordinates pair one-to-one with
    /// vertices; every index references a vertex of this model; vertex
    /// components are bounded so a chunk offset can be added without
    /// overflow.
    pub open spec fn wf(&self) -> bool {
        &&& self.normals@.len() == self.vertices@.len()
        &&& self.uvs@.len() == self.vertices@.len()
        &&& self.vertices@.len() % 4 == 0
        &&& self.vertices@.len() <= MODEL_VERT_MAX
        &&& self.indices@.len() * 2 == self.vertices@.len() * 3
        &&& forall|l: int|
            0 <= l < self.indices@.len() ==> (#[trigger] self.indices@[l]) as int == 4 * (l / 6)
                + winding(l % 6)
        &&& forall|l: int|
            0 <= l < self.indices@.len() ==> (#[trigger] self.indices@[l]) < self.vertices@.len()
        &&& forall|v: int|
            0 <= v < self.vertices@.len() ==> (#[trigger] self.vertices@[v]).bounded(
                VERT_MAX as int,
            )
    }

    /// Number of faces baked into this model.
    pub open spec fn spec_face_count(&self) -> int {
        self.vertices@.len() as int / 4
    }
}

/// The buffers of `m` are exactly the bake of `faces`: vertex `v` belongs
/// to face `v / 4` as its corner `v % 4`.
pub open spec fn model_built_from(faces: Seq<FaceView>, m: BlockModel) -> bool {
    &&& m.vertices@.len() == 4 * faces.len()
    &&& forall|v: int|
        0 <= v < m.vertices@.len() ==> (#[trigger] m.vertices@[v])@ == face_vertex(
            faces[v / 4],
            v % 4,
        )
    &&& forall|v: int|
        0 <= v < m.normals@.len() ==> (#[trigger] m.normals@[v])@ == face_normal(faces[v / 4])
    &&& forall|v: int|
        0 <= v < m.uvs@.len() ==> (#[trigger] m.uvs@[v])@ == face_uv(faces[v / 4], v % 4)
}

/// `m` is the bake of `d`, well-formed, with name and texture carried over.
pub open spec fn model_of_def(d: ModelDef, m: BlockModel) -> bool {
    &&& m.wf()
    &&& model_built_from(d.faces_view(), m)
    &&& m.name@ == d.name@
    &&& m.texture_path == d.texture_path
}

/// Floor half of a non-negative value.
fn half_nonneg(a: i64) -> (r: i64)
    requires
        0 <= a,
    ensures
        r as int == (a as int) / 2,
        0 <= r as int <= (a as int) / 2,
{
    ((a as u64) / 2) as i64
}

/// One corner offset taken through the face's full transform: roll, then
/// yaw, then pitch, then the translation by the face position.
fn bake_corner(face: &FaceDef, corner: Fx3) -> (r: Fx3)
    requires
        face.wf(),
        corner.bounded(HALF_MAX as int),
    ensures
        r@ == v3_add(
            spec_rotate_x(face@.pitch, spec_rotate_y(face@.yaw, spec_rotate_z(face@.roll, corner@))),
            face@.position,
        ),
        r.bounded(VERT_MAX as int),
{
    let r1 = rotate_z(&face.roll, &corner);
    proof {
        lemma_rotate_bound(face.roll@, corner@, HALF_MAX as int);
    }
    let r2 = rotate_y(&face.yaw, &r1);
    proof {
        lemma_rotate_bound(face.yaw@, r1@, 2 * HALF_MAX as int);
    }
    let r3 = rotate_x(&face.pitch, &r2);
    proof {
        lemma_rotate_bound(face.pitch@, r2@, 4 * HALF_MAX as int);
    }
    r3.add(&face.position)
}

/// Bake one model definition: for each face emit 4 vertices, 6 indices in
/// the fixed winding against a running vertex counter, 4 copies of the
/// face normal, and the 4 paired texture coordinates.
pub fn bake_model(def: ModelDef) -> (m: BlockModel)
    requires
        def.wf(),
    ensures
        model_of_def(def, m),
{
    let ghost fv = def.faces_view();
    let ModelDef { name, faces, texture_path } = def;
    let mut vertices: Vec<Fx3> = Vec::new();
    let mut indices: Vec<u32> = Vec::new();
    let mut normals: Vec<Fx3> = Vec::new();
    let mut uvs: Vec<Fx2> = Vec::new();
    let mut index_counter: u32 = 0;
    let nfaces = faces.len();
    let mut fi: usize = 0;
    while fi < nfaces
        invariant
            fi <= nfaces,
            nfaces == faces@.len(),
            nfaces <= MODEL_FACE_MAX,
            fv == faces@.map_values(|f: FaceDef| f@),
            forall|i: int| 0 <= i < nfaces ==> (#[trigger] faces@[i]).wf(),
            vertices@.len() == 4 * fi,
            normals@.len() == 4 * fi,
            uvs@.len() == 4 * fi,
            indices@.len() == 6 * fi,
            index_counter == 4 * fi,
            forall|v: int|
                0 <= v < vertices@.len() ==> (#[trigger] vertices@[v])@ == face_vertex(
                    fv[v / 4],
                    v % 4,
                ),
            forall|v: int|
                0 <= v < vertices@.len() ==> (#[trigger] vertices@[v]).bounded(VERT_MAX as int),
            forall|v: int|
                0 <= v < normals@.len() ==> (#[trigger] normals@[v])@ == face_normal(fv[v / 4]),
            forall|v: int|
                0 <= v < uvs@.len() ==> (#[trigger] uvs@[v])@ == face_uv(fv[v / 4], v % 4),
            forall|l: int|
                0 <= l < indices@.len() ==> (#[trigger] indices@[l]) as int == 4 * (l / 6)
                    + winding(l % 6),
            forall|l: int|
                0 <= l < indices@.len() ==> (#[trigger] indices@[l]) < vertices@.len(),
        decreases nfaces - fi,
    {
        let face = faces[fi];
        let hx = half_nonneg(face.size_x);
        let hy = half_nonneg(face.size_y);

        let forward = Fx3 { x: 0, y: 0, z: SCALE };
        let n0 = rotate_y(&face.yaw, &forward);
        proof {
            lemma_rotate_bound(face.yaw@, forward@, SCALE as int);
        }
        let normal = rotate_x(&face.pitch, &n0);

        let v0 = bake_corner(&face, Fx3 { x: -hx, y: -hy, z: 0 });
        let v1 = bake_corner(&face, Fx3 { x: hx, y: -hy, z: 0 });
        let v2 = bake_corner(&face, Fx3 { x: hx, y: hy, z: 0 });
        let v3 = bake_corner(&face, Fx3 { x: -hx, y: hy, z: 0 });

        vertices.push(v0);
        vertices.push(v1);
        vertices.push(v2);
        vertices.push(v3);

        indices.push(index_counter);
        indices.push(index_counter + 1);
        indices.push(index_counter + 2);
        indices.push(index_counter);
        indices.push(index_counter + 2);
        indices.push(index_counter + 3);

        uvs.push(Fx2 { x: face.uv_top_left.x, y: face.uv_bottom_right.y });
        uvs.push(Fx2 { x: face.uv_bottom_right.x, y: face.uv_bottom_right.y });
        uvs.push(Fx2 { x: face.uv_bottom_right.x, y: face.uv_top_left.y });
        uvs.push(Fx2 { x: face.uv_top_left.x, y: face.uv_top_left.y });

        normals.push(normal);
        normals.push(normal);
        normals.push(normal);
        normals.push(normal);

        index_counter = index_counter + 4;
        fi = fi + 1;
    }
    BlockModel { name, vertices, indices, normals, uvs, texture_path }
}

/// The registry: one baked model per block type, indexed by block id.
pub struct BlockModels {
    pub block_models: Vec<BlockModel>,
}

impl BlockModels {
    /// Every registered model is well-formed.
    pub open spec fn wf(&self) -> bool {
        forall|i: int| 0 <= i < self.block_models@.len() ==> (#[trigger] self.block_models@[i]).wf()
    }

    /// Build the registry from model definitions, in order: block id `i`
    /// maps to the bake of `defs[i]`.
    pub fn from_defs(defs: Vec<ModelDef>) -> (r: BlockModels)
        requires
            forall|i: int| 0 <= i < defs@.len() ==> (#[trigger] defs@[i]).wf(),
        ensures
            r.wf(),
            r.block_models@.len() == defs@.len(),
            forall|i: int|
                0 <= i < defs@.len() ==> model_of_def(defs@[i], #[trigger] r.block_models@[i]),
    {
        let ghost orig = defs@;
        let mut remaining = defs;
        let mut block_models: Vec<BlockModel> = Vec::new();
        while remaining.len() > 0
            invariant
                block_models@.len() + remaining@.len() == orig.len(),
                remaining@ == orig.subrange(block_models@.len() as int, orig.len() as int),
                forall|i: int| 0 <= i < orig.len() ==> (#[trigger] orig[i]).wf(),
                forall|i: int|
                    0 <= i < block_models@.len() ==> model_of_def(
                        orig[i],
                        #[trigger] block_models@[i],
                    ),
            decreases remaining@.len(),
        {
            let ghost done = block_models@.len() as int;
            let def = remaining.remove(0);
            proof {
                assert(def == orig[done]);
                assert(remaining@ =~= orig.subrange(done + 1, orig.len() as int));
            }
            let m = bake_model(def);
            block_models.push(m);
        }
        let r = BlockModels { block_models };
        proof {
            assert forall|i: int| 0 <= i < r.block_models@.len() implies (
            #[trigger] r.block_models@[i]).wf() by {
                assert(model_of_def(orig[i], r.block_models@[i]));
            }
        }
        r
    }

    /// Look up the baked model for `block_id`: `Some` exactly when the id
    /// has a registry entry.
    pub fn get_block_model(&self, block_id: u16) -> (r: Option<&BlockModel>)
        ensures
            (block_id as int) < self.block_models@.len() ==> (r matches Some(m) && *m
                == self.block_models@[block_id as int]),
            (block_id as int) >= self.block_models@.len() ==> r is None,
    {
        if (block_id as usize) < self.block_models.len() {
            Some(&self.block_models[block_id as usize])
        } else {
            None
        }
    }
}

} // verus!
