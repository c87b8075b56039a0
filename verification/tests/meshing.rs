use shapez::mesh_groups::group_triangles_by_material;
use shapez::palette::{hue_sector_terms, HsvTerm};
use shapez::palette::HsvTerm::{Value as V, P, Q, T};
use shapez::volume::{MeshBuild, SpawnAction};
use shapez::{ShapeZSettings, ShapeZVolume};

#[test]
fn triangles_are_grouped_by_material_in_order() {
    // Three whole triangles and two trailing indices; the third triangle has no
    // material entry and falls to material 0.
    let indices = [0, 1, 2, 2, 3, 0, 4, 5, 6, 7, 8];
    let face_mats = [2u8, 0];
    let groups = group_triangles_by_material(&indices, &face_mats);
    let keys: Vec<u8> = groups.keys().copied().collect();
    assert_eq!(keys, vec![0, 2]);
    assert_eq!(groups[&0], vec![2, 3, 0, 4, 5, 6]);
    assert_eq!(groups[&2], vec![0, 1, 2]);
}

#[test]
fn trailing_indices_and_surplus_materials_are_ignored() {
    let indices = [0, 1, 2, 3, 4, 5, 6];
    let face_mats = [1u8, 1, 9, 9];
    let full = group_triangles_by_material(&indices, &face_mats);
    let cut = group_triangles_by_material(&indices[..6], &face_mats[..2]);
    assert_eq!(full, cut);
    assert_eq!(full.len(), 1);
    assert_eq!(full[&1], vec![0, 1, 2, 3, 4, 5]);
}

#[test]
fn grouping_covers_every_triangle_once() {
    let indices: Vec<u32> = (0..300).collect();
    let face_mats: Vec<u8> = (0..100u32).map(|t| ((t * 37) % 256) as u8).collect();
    let groups = group_triangles_by_material(&indices, &face_mats);
    let total: usize = groups.values().map(|g| g.len()).sum();
    assert_eq!(total, 300);
    assert!(groups.values().all(|g| !g.is_empty()));
}

#[test]
fn empty_mesh_has_no_groups() {
    assert!(group_triangles_by_material(&[], &[]).is_empty());
    assert!(group_triangles_by_material(&[0, 1], &[3]).is_empty());
}

#[test]
fn sector_table_matches_hsv_conversion() {
    assert_eq!(hue_sector_terms(0), (V, T, P));
    assert_eq!(hue_sector_terms(1), (Q, V, P));
    assert_eq!(hue_sector_terms(2), (P, V, T));
    assert_eq!(hue_sector_terms(3), (P, Q, V));
    assert_eq!(hue_sector_terms(4), (T, P, V));
    assert_eq!(hue_sector_terms(5), (V, P, Q));
    assert_eq!(hue_sector_terms(6), (V, T, P));
    assert_eq!(hue_sector_terms(13), (Q, V, P));
}

#[test]
fn negative_sectors_use_rust_remainder() {
    assert_eq!(hue_sector_terms(-1), (V, P, Q));
    assert_eq!(hue_sector_terms(-6), (V, T, P));
    assert_eq!(hue_sector_terms(-12), (V, T, P));
    assert_eq!(hue_sector_terms(i32::MIN), (V, P, Q));
    assert_eq!(i32::MIN % 6, -2);
}

#[test]
fn every_sector_has_one_value_channel() {
    for s in -20..20 {
        let (r, g, b) = hue_sector_terms(s);
        let terms = [r, g, b];
        assert_eq!(terms.iter().filter(|t| **t == HsvTerm::Value).count(), 1);
        assert_eq!(terms.iter().filter(|t| **t == HsvTerm::P).count(), 1);
        assert!(r != g && g != b && r != b);
    }
}

#[test]
fn settings_start_disabled() {
    assert!(!ShapeZSettings::default().enabled);
}

#[test]
fn new_volume_is_not_spawned() {
    let v = ShapeZVolume::new("examples/circle.shpz".to_string());
    assert_eq!(v.path, "examples/circle.shpz");
    assert!(!v.spawned);
    assert!(v.needs_build());
}

#[test]
fn volume_spawns_once() {
    let mut v = ShapeZVolume::new("a.shpz".to_string());
    let built = MeshBuild::Built { vertex_count: 3, index_count: 3 };
    assert_eq!(v.plan_spawn(built), SpawnAction::SpawnMeshes);
    assert!(v.spawned);
    assert!(!v.needs_build());
    assert_eq!(v.plan_spawn(built), SpawnAction::Nothing);
    assert_eq!(v.plan_spawn(MeshBuild::ParseFailed), SpawnAction::Nothing);
    assert!(v.spawned);
}

#[test]
fn failed_attempts_are_retried() {
    let mut v = ShapeZVolume::new("a.shpz".to_string());
    assert_eq!(v.plan_spawn(MeshBuild::ParseFailed), SpawnAction::ReportParseError);
    assert!(v.needs_build());
    assert_eq!(v.plan_spawn(MeshBuild::CompileFailed), SpawnAction::Nothing);
    assert!(v.needs_build());
    let no_indices = MeshBuild::Built { vertex_count: 3, index_count: 0 };
    assert_eq!(v.plan_spawn(no_indices), SpawnAction::Nothing);
    let no_vertices = MeshBuild::Built { vertex_count: 0, index_count: 3 };
    assert_eq!(v.plan_spawn(no_vertices), SpawnAction::Nothing);
    assert!(v.needs_build());
    let built = MeshBuild::Built { vertex_count: 1, index_count: 3 };
    assert_eq!(v.plan_spawn(built), SpawnAction::SpawnMeshes);
}
