use pmxview::draw::{
    convert_to_index_list, edge_flag_of, face_count, plan_draw_assets, sphere_mode_code, texture_slot, Face,
    MaterialSpec, SphereMode,
};

fn face(a: u32, b: u32, c: u32) -> Face {
    Face { vertices: [a, b, c] }
}

fn material(num_face_vertices: i32, texture_index: i32, toon: i32, draw_mode: u8, sphere: SphereMode) -> MaterialSpec {
    MaterialSpec { num_face_vertices, texture_index, toon_texture_index: toon, draw_mode, sphere_mode: sphere }
}

#[test]
fn index_list() {
    assert_eq!(convert_to_index_list(&[]), Vec::<u32>::new());
    assert_eq!(convert_to_index_list(&[face(0, 1, 2), face(2, 1, 3)]), vec![0, 1, 2, 2, 1, 3]);
}

#[test]
fn sphere_codes() {
    assert_eq!(sphere_mode_code(SphereMode::Disabled), 0);
    assert_eq!(sphere_mode_code(SphereMode::Multiply), 1);
    assert_eq!(sphere_mode_code(SphereMode::Add), 2);
    assert_eq!(sphere_mode_code(SphereMode::SubTexture), 3);
}

#[test]
fn texture_slots_clamp_to_blank() {
    assert_eq!(texture_slot(0, 3), 0);
    assert_eq!(texture_slot(2, 3), 2);
    assert_eq!(texture_slot(3, 3), 3);
    assert_eq!(texture_slot(99, 3), 3);
    assert_eq!(texture_slot(-1, 3), 3);
    assert_eq!(texture_slot(0, 0), 0);
}

#[test]
fn edge_flags() {
    assert!(edge_flag_of(0x10));
    assert!(edge_flag_of(0x1f));
    assert!(!edge_flag_of(0x0f));
    assert!(!edge_flag_of(0x01));
    assert!(!edge_flag_of(0xef));
}

#[test]
fn face_counts() {
    assert_eq!(face_count(9), 3);
    assert_eq!(face_count(10), 3);
    assert_eq!(face_count(0), 0);
    assert_eq!(face_count(-2), 0);
    assert_eq!(face_count(-3), (-1i64) as usize);
    assert_eq!(face_count(-7), (-2i64) as usize);
    assert_eq!(face_count(i32::MIN), ((i32::MIN / 3) as i64) as usize);
}

#[test]
fn plans_split_faces_in_order() {
    let faces = vec![face(0, 1, 2), face(1, 2, 3), face(2, 3, 4), face(3, 4, 5)];
    let materials = [
        material(3, 0, -1, 0x10, SphereMode::Add),
        material(6, 5, 1, 0x00, SphereMode::Disabled),
        material(0, 1, 2, 0x11, SphereMode::SubTexture),
    ];
    let plans = plan_draw_assets(faces, 2, &materials);
    assert_eq!(plans.len(), 3);
    assert_eq!(plans[0].indices, vec![0, 1, 2]);
    assert_eq!(plans[0].texture, 0);
    assert_eq!(plans[0].toon_texture_index, 2);
    assert!(plans[0].edge_flag);
    assert_eq!(plans[0].sp, 2);
    assert_eq!(plans[1].indices, vec![1, 2, 3, 2, 3, 4]);
    assert_eq!(plans[1].texture, 2);
    assert_eq!(plans[1].toon_texture_index, 1);
    assert!(!plans[1].edge_flag);
    assert_eq!(plans[1].sp, 0);
    assert!(plans[2].indices.is_empty());
    assert_eq!(plans[2].texture, 1);
    assert_eq!(plans[2].toon_texture_index, 2);
    assert!(plans[2].edge_flag);
    assert_eq!(plans[2].sp, 3);
    let all: Vec<u32> = plans.iter().flat_map(|p| p.indices.clone()).collect();
    assert_eq!(all, vec![0, 1, 2, 1, 2, 3, 2, 3, 4]);
}
