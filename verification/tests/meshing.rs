use voxel_mesh::assembler::{assemble, MeshError};
use voxel_mesh::block_models::{BlockModels, FaceDef, ModelDef};
use voxel_mesh::chunk::{Chunk, GridPos, AIR, CHUNK_EDGE};
use voxel_mesh::geometry::{Angle, Fx2, Fx3, SCALE};

fn zero_rotation() -> Angle {
    Angle { sin: 0, cos: SCALE }
}

fn unit_face() -> FaceDef {
    FaceDef {
        position: Fx3 { x: 0, y: 0, z: 0 },
        yaw: zero_rotation(),
        pitch: zero_rotation(),
        roll: zero_rotation(),
        size_x: SCALE,
        size_y: SCALE,
        uv_top_left: Fx2 { x: 0, y: 0 },
        uv_bottom_right: Fx2 { x: SCALE, y: SCALE },
    }
}

/// An empty model for block id 0 (`AIR` is skipped anyway) followed by a
/// six-face cube for block id 1.
fn cube_registry() -> BlockModels {
    let air = ModelDef { name: String::from("air"), faces: Vec::new(), texture_path: None };
    let mut faces = Vec::new();
    for _ in 0..6 {
        faces.push(unit_face());
    }
    let cube = ModelDef { name: String::from("cube"), faces, texture_path: None };
    BlockModels::from_defs(vec![air, cube])
}

#[test]
fn all_air_chunk_assembles_empty() {
    let models = cube_registry();
    let chunk = Chunk::new(GridPos::new(0, 0, 0));
    let mesh = assemble(&chunk, &models).unwrap();
    assert_eq!(mesh.vertices.len(), 0);
    assert_eq!(mesh.indices.len(), 0);
    assert_eq!(mesh.normals.len(), 0);
    assert_eq!(mesh.uvs.len(), 0);
}

#[test]
fn single_voxel_emits_one_model() {
    let models = cube_registry();
    let mut chunk = Chunk::new_with_edge(GridPos::new(0, 0, 0), 2);
    chunk.set(1, 3);
    let mesh = assemble(&chunk, &models).unwrap();
    // Six faces: 4 vertices and 6 indices each.
    assert_eq!(mesh.vertices.len(), 24);
    assert_eq!(mesh.indices.len(), 36);
    assert_eq!(mesh.normals.len(), 24);
    assert_eq!(mesh.uvs.len(), 24);
    assert!(mesh.indices.iter().all(|&i| i < 24));
}

#[test]
fn two_cubes_in_edge_two_chunk() {
    // Voxels 0 and 7 of an edge-2 chunk set to the cube: 48 vertices,
    // 72 indices, every index below 48.
    let models = cube_registry();
    let mut chunk = Chunk::new_with_edge(GridPos::new(0, 0, 0), 2);
    chunk.set(1, 0);
    chunk.set(1, 7);
    let mesh = assemble(&chunk, &models).unwrap();
    assert_eq!(mesh.vertices.len(), 48);
    assert_eq!(mesh.indices.len(), 72);
    assert!(mesh.indices.iter().all(|&i| i < 48));
    // The second cube's indices are rebased past the first cube's vertices.
    assert!(mesh.indices[36..].iter().all(|&i| (24..48).contains(&i)));
}

#[test]
fn vertex_total_is_sum_over_models() {
    // Block 1 has six faces (24 vertices), block 2 has one face (4).
    let air = ModelDef { name: String::from("air"), faces: Vec::new(), texture_path: None };
    let mut faces = Vec::new();
    for _ in 0..6 {
        faces.push(unit_face());
    }
    let cube = ModelDef { name: String::from("cube"), faces, texture_path: None };
    let panel = ModelDef { name: String::from("panel"), faces: vec![unit_face()], texture_path: None };
    let models = BlockModels::from_defs(vec![air, cube, panel]);

    let mut chunk = Chunk::new_with_edge(GridPos::new(0, 0, 0), 2);
    chunk.set(1, 1);
    chunk.set(2, 2);
    chunk.set(2, 5);
    let mesh = assemble(&chunk, &models).unwrap();
    assert_eq!(mesh.vertices.len(), 24 + 4 + 4);
    assert_eq!(mesh.indices.len(), 36 + 6 + 6);
    assert!(mesh.indices.iter().all(|&i| i < 32));
}

#[test]
fn air_needs_no_registry_entry() {
    // An all-air chunk assembles even against an empty registry: `AIR` is
    // skipped entirely, not looked up.
    let models = BlockModels::from_defs(Vec::new());
    let chunk = Chunk::new_with_edge(GridPos::new(0, 0, 0), 2);
    let mesh = assemble(&chunk, &models).unwrap();
    assert_eq!(mesh.vertices.len(), 0);
}

#[test]
fn missing_model_fails_with_first_bad_block() {
    let models = cube_registry();
    let mut chunk = Chunk::new_with_edge(GridPos::new(0, 0, 0), 2);
    chunk.set(7, 2);
    chunk.set(9, 5);
    let err = assemble(&chunk, &models).unwrap_err();
    assert_eq!(err, MeshError::MissingModel { block_id: 7 });
}

#[test]
fn voxel_world_offsets_follow_chunk_position() {
    // A single unit face at voxel 0 of the chunk at grid position
    // (1, 0, 0) with edge 2: every vertex is shifted by 2 world units in X.
    let air = ModelDef { name: String::from("air"), faces: Vec::new(), texture_path: None };
    let panel = ModelDef { name: String::from("panel"), faces: vec![unit_face()], texture_path: None };
    let models = BlockModels::from_defs(vec![air, panel]);
    let mut chunk = Chunk::new_with_edge(GridPos::new(1, 0, 0), 2);
    chunk.set(1, 0);
    let mesh = assemble(&chunk, &models).unwrap();
    let h = SCALE / 2;
    assert_eq!(mesh.vertices[0], Fx3 { x: 2 * SCALE - h, y: -h, z: 0 });
    assert_eq!(mesh.vertices[1], Fx3 { x: 2 * SCALE + h, y: -h, z: 0 });
    assert_eq!(mesh.vertices[2], Fx3 { x: 2 * SCALE + h, y: h, z: 0 });
    assert_eq!(mesh.vertices[3], Fx3 { x: 2 * SCALE - h, y: h, z: 0 });
}

#[test]
fn get_set_round_trip_and_bounds() {
    let mut chunk = Chunk::new(GridPos::new(0, 0, 0));
    let volume = CHUNK_EDGE * CHUNK_EDGE * CHUNK_EDGE;
    assert_eq!(chunk.get(0), Some(AIR));
    chunk.set(5, 0);
    assert_eq!(chunk.get(0), Some(5));
    chunk.set(9, volume - 1);
    assert_eq!(chunk.get(volume - 1), Some(9));
    // Out of range: get is absent, set is a no-op.
    assert_eq!(chunk.get(volume), None);
    chunk.set(3, volume);
    assert_eq!(chunk.get(volume), None);
    assert_eq!(chunk.get(0), Some(5));
}

#[test]
fn fill_chunk_sets_every_voxel() {
    let mut chunk = Chunk::new_with_edge(GridPos::new(0, 0, 0), 3);
    chunk.fill_chunk(4);
    for i in 0..27 {
        assert_eq!(chunk.get(i), Some(4));
    }
}

#[test]
fn position_from_index_uses_fixed_convention() {
    let chunk = Chunk::new(GridPos::new(0, 0, 0));
    assert_eq!(chunk.position_from_index(0), GridPos::new(0, 0, 0));
    assert_eq!(chunk.position_from_index(1), GridPos::new(1, 0, 0));
    assert_eq!(chunk.position_from_index(32), GridPos::new(0, 1, 0));
    assert_eq!(chunk.position_from_index(1024), GridPos::new(0, 0, 1));
    assert_eq!(chunk.position_from_index(5 + 7 * 32 + 9 * 1024), GridPos::new(5, 7, 9));

    let small = Chunk::new_with_edge(GridPos::new(0, 0, 0), 2);
    assert_eq!(small.position_from_index(7), GridPos::new(1, 1, 1));
}
