use voxel_mesh::block_models::{bake_model, BlockModels, FaceDef, ModelDef};
use voxel_mesh::geometry::{rotate_x, rotate_y, rotate_z, Angle, Fx2, Fx3, SCALE};

fn angle(sin: i64, cos: i64) -> Angle {
    Angle { sin, cos }
}

fn zero_rotation() -> Angle {
    Angle::zero()
}

#[test]
fn unrotated_unit_face_bakes_to_centered_quad() {
    // position (0,0,0), rotation {0,0,0}, size {1,1}, uv (0,0)..(1,1).
    let face = FaceDef {
        position: Fx3 { x: 0, y: 0, z: 0 },
        yaw: zero_rotation(),
        pitch: zero_rotation(),
        roll: zero_rotation(),
        size_x: SCALE,
        size_y: SCALE,
        uv_top_left: Fx2 { x: 0, y: 0 },
        uv_bottom_right: Fx2 { x: SCALE, y: SCALE },
    };
    let def = ModelDef {
        name: String::from("panel"),
        faces: vec![face],
        texture_path: Some(String::from("atlas.png")),
    };
    let model = bake_model(def);

    let h = SCALE / 2;
    // (-0.5,-0.5,0), (0.5,-0.5,0), (0.5,0.5,0), (-0.5,0.5,0).
    assert_eq!(model.vertices, vec![
        Fx3 { x: -h, y: -h, z: 0 },
        Fx3 { x: h, y: -h, z: 0 },
        Fx3 { x: h, y: h, z: 0 },
        Fx3 { x: -h, y: h, z: 0 },
    ]);
    // Normal (0,0,1) on all four vertices.
    assert_eq!(model.normals, vec![Fx3 { x: 0, y: 0, z: SCALE }; 4]);
    // Two triangles (0,1,2), (0,2,3).
    assert_eq!(model.indices, vec![0, 1, 2, 0, 2, 3]);
    // UVs pair the top-left/bottom-right corners with the vertex order.
    assert_eq!(model.uvs, vec![
        Fx2 { x: 0, y: SCALE },
        Fx2 { x: SCALE, y: SCALE },
        Fx2 { x: SCALE, y: 0 },
        Fx2 { x: 0, y: 0 },
    ]);
    assert_eq!(model.name, "panel");
    assert_eq!(model.texture_path.as_deref(), Some("atlas.png"));
}

#[test]
fn quarter_turn_yaw_rotates_vertices_and_normal() {
    // yaw 90 degrees: sin = 1, cos = 0 in fixed point.
    let face = FaceDef {
        position: Fx3 { x: 0, y: 0, z: 0 },
        yaw: angle(SCALE, 0),
        pitch: zero_rotation(),
        roll: zero_rotation(),
        size_x: SCALE,
        size_y: SCALE,
        uv_top_left: Fx2 { x: 0, y: 0 },
        uv_bottom_right: Fx2 { x: SCALE, y: SCALE },
    };
    let def = ModelDef { name: String::from("panel"), faces: vec![face], texture_path: None };
    let model = bake_model(def);

    let h = SCALE / 2;
    // (x, y, z) goes to (z, y, -x) under a quarter turn about Y.
    assert_eq!(model.vertices[0], Fx3 { x: 0, y: -h, z: h });
    assert_eq!(model.vertices[1], Fx3 { x: 0, y: -h, z: -h });
    // The forward normal turns to +X.
    assert_eq!(model.normals[0], Fx3 { x: SCALE, y: 0, z: 0 });
}

#[test]
fn face_position_translates_the_quad() {
    let face = FaceDef {
        position: Fx3 { x: 0, y: 0, z: SCALE / 2 },
        yaw: zero_rotation(),
        pitch: zero_rotation(),
        roll: zero_rotation(),
        size_x: SCALE,
        size_y: SCALE,
        uv_top_left: Fx2 { x: 0, y: 0 },
        uv_bottom_right: Fx2 { x: SCALE, y: SCALE },
    };
    let def = ModelDef { name: String::from("front"), faces: vec![face], texture_path: None };
    let model = bake_model(def);
    let h = SCALE / 2;
    assert_eq!(model.vertices[0], Fx3 { x: -h, y: -h, z: h });
    assert_eq!(model.vertices[2], Fx3 { x: h, y: h, z: h });
}

#[test]
fn multi_face_model_rebases_indices_per_face() {
    let face = FaceDef {
        position: Fx3 { x: 0, y: 0, z: 0 },
        yaw: zero_rotation(),
        pitch: zero_rotation(),
        roll: zero_rotation(),
        size_x: SCALE,
        size_y: SCALE,
        uv_top_left: Fx2 { x: 0, y: 0 },
        uv_bottom_right: Fx2 { x: SCALE, y: SCALE },
    };
    let def = ModelDef {
        name: String::from("slab"),
        faces: vec![face, face, face],
        texture_path: None,
    };
    let model = bake_model(def);
    assert_eq!(model.vertices.len(), 12);
    assert_eq!(model.normals.len(), 12);
    assert_eq!(model.uvs.len(), 12);
    assert_eq!(model.indices, vec![
        0, 1, 2, 0, 2, 3,
        4, 5, 6, 4, 6, 7,
        8, 9, 10, 8, 10, 11,
    ]);
}

#[test]
fn odd_sizes_halve_toward_zero() {
    let face = FaceDef {
        position: Fx3 { x: 0, y: 0, z: 0 },
        yaw: zero_rotation(),
        pitch: zero_rotation(),
        roll: zero_rotation(),
        size_x: SCALE + 1,
        size_y: 3,
        uv_top_left: Fx2 { x: 0, y: 0 },
        uv_bottom_right: Fx2 { x: SCALE, y: SCALE },
    };
    let def = ModelDef { name: String::from("odd"), faces: vec![face], texture_path: None };
    let model = bake_model(def);
    let hx = SCALE / 2;
    assert_eq!(model.vertices[0], Fx3 { x: -hx, y: -1, z: 0 });
    assert_eq!(model.vertices[2], Fx3 { x: hx, y: 1, z: 0 });
}

#[test]
fn empty_model_is_valid_and_contributes_nothing() {
    let def = ModelDef { name: String::from("void"), faces: Vec::new(), texture_path: None };
    let model = bake_model(def);
    assert!(model.vertices.is_empty());
    assert!(model.indices.is_empty());
    assert!(model.normals.is_empty());
    assert!(model.uvs.is_empty());
}

#[test]
fn registry_lookup_finds_registered_ids_only() {
    let a = ModelDef { name: String::from("a"), faces: Vec::new(), texture_path: None };
    let b = ModelDef { name: String::from("b"), faces: Vec::new(), texture_path: None };
    let models = BlockModels::from_defs(vec![a, b]);
    assert_eq!(models.get_block_model(0).unwrap().name, "a");
    assert_eq!(models.get_block_model(1).unwrap().name, "b");
    assert!(models.get_block_model(2).is_none());
}

#[test]
fn axis_rotations_follow_right_handed_convention() {
    let quarter = angle(SCALE, 0);
    let fwd = Fx3 { x: 0, y: 0, z: SCALE };
    let right = Fx3 { x: SCALE, y: 0, z: 0 };
    // Yaw takes +Z to +X.
    assert_eq!(rotate_y(&quarter, &fwd), Fx3 { x: SCALE, y: 0, z: 0 });
    // Pitch takes +Z to -Y.
    assert_eq!(rotate_x(&quarter, &fwd), Fx3 { x: 0, y: -SCALE, z: 0 });
    // Roll takes +X to +Y.
    assert_eq!(rotate_z(&quarter, &right), Fx3 { x: 0, y: SCALE, z: 0 });
}
