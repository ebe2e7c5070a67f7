//! Extraction, dedup and table-rebuild behaviour on concrete scenes.
use raytrace_core::extract::{
    extract_meshes, rebuild_instances, rebuild_material_tables, rebuild_vertex_tables,
};
use raytrace_core::types::{
    ExtractError, ExtractedMesh, Mat4Bits, MaterialAsset, MeshAsset, MaterialStorage, MeshStorage,
    Vec3Bits, Vec4Bits, VertexStorage,
};
use std::collections::HashMap;

fn vec3(x: u32, y: u32, z: u32) -> Vec3Bits {
    Vec3Bits { x, y, z }
}

fn vec4(x: u32, y: u32, z: u32, w: u32) -> Vec4Bits {
    Vec4Bits { x, y, z, w }
}

fn mat4(tag: u32) -> Mat4Bits {
    Mat4Bits {
        x_axis: vec4(tag, 0, 0, 0),
        y_axis: vec4(0, tag, 0, 0),
        z_axis: vec4(0, 0, tag, 0),
        w_axis: vec4(0, 0, 0, tag),
    }
}

fn entity(mesh: u64, material: u64, tag: u32) -> ExtractedMesh {
    ExtractedMesh { transform: mat4(tag), material, mesh }
}

fn mesh_asset(n: usize, indices: Vec<u32>) -> MeshAsset {
    let positions: Vec<Vec3Bits> = (0..n).map(|i| vec3(i as u32, 10, 20)).collect();
    let normals: Vec<Vec3Bits> = (0..n).map(|i| vec3(0, i as u32, 30)).collect();
    MeshAsset { positions: Some(positions), normals: Some(normals), indices: Some(indices) }
}

fn material_asset(tag: u32) -> MaterialAsset {
    MaterialAsset {
        color: vec4(tag, 1, 2, 3),
        emissive: vec4(4, 5, 6, tag),
        roughness: 7,
        metallic: 8,
        specular: 9,
    }
}

#[test]
fn two_meshes_three_instances_end_to_end() {
    // Two unique meshes A and B, three instances: two referencing A + M1,
    // one referencing B + M2.
    let a: u64 = 1;
    let b: u64 = 2;
    let m1: u64 = 10;
    let m2: u64 = 20;
    let entities = vec![entity(a, m1, 100), entity(a, m1, 101), entity(b, m2, 102)];
    let mut mesh_assets = HashMap::new();
    mesh_assets.insert(a, mesh_asset(3, vec![0, 1, 2]));
    mesh_assets.insert(b, mesh_asset(4, vec![0, 1, 2, 2, 3, 0]));
    let mut material_assets = HashMap::new();
    material_assets.insert(m1, material_asset(1));
    material_assets.insert(m2, material_asset(2));

    let vs = rebuild_vertex_tables(&entities, &mesh_assets).unwrap();
    let ms = rebuild_material_tables(&entities, &material_assets).unwrap();
    let inst = rebuild_instances(&entities);

    // Exactly 2 mesh dedup entries, 2 material slots, 3 instance descriptors.
    assert_eq!(vs.mesh_map.len(), 2);
    assert_eq!(ms.material_map.len(), 2);
    assert_eq!(ms.material_vec.len(), 2);
    assert_eq!(inst.meshes.len(), 3);

    // The shared arrays hold each unique mesh once.
    assert_eq!(vs.verticies.len(), 3 + 4);
    assert_eq!(vs.indicies.len(), 3 + 6);

    // Mesh A is first in dedup order: range (0, 3); B follows: (3, 6).
    assert_eq!(*vs.mesh_map.get(&a).unwrap(), (0, 3));
    assert_eq!(*vs.mesh_map.get(&b).unwrap(), (3, 6));

    // B's indices were offset past A's three vertices.
    assert_eq!(&vs.indicies[..], &[0, 1, 2, 3, 4, 5, 5, 6, 3]);

    // Both A-instances resolve to identical range and material slot.
    let sm = raytrace_core::stage::build_shader_meshes(&inst, &vs, &ms).unwrap();
    assert_eq!(sm.len(), 3);
    assert_eq!(sm[0].start_index, sm[1].start_index);
    assert_eq!(sm[0].len_index, sm[1].len_index);
    assert_eq!(sm[0].material, sm[1].material);
    assert_eq!(sm[0].start_index, 0);
    assert_eq!(sm[0].len_index, 3);
    assert_eq!(sm[2].start_index, 3);
    assert_eq!(sm[2].len_index, 6);
    assert_ne!(sm[0].material, sm[2].material);
}

#[test]
fn reextracting_unchanged_scene_is_byte_identical() {
    let entities = vec![entity(1, 10, 7), entity(2, 10, 8)];
    let mut mesh_assets = HashMap::new();
    mesh_assets.insert(1, mesh_asset(2, vec![0, 1, 1]));
    mesh_assets.insert(2, mesh_asset(3, vec![2, 1, 0]));
    let mut material_assets = HashMap::new();
    material_assets.insert(10, material_asset(5));

    let vs1 = rebuild_vertex_tables(&entities, &mesh_assets).unwrap();
    let vs2 = rebuild_vertex_tables(&entities, &mesh_assets).unwrap();
    let ms1 = rebuild_material_tables(&entities, &material_assets).unwrap();
    let ms2 = rebuild_material_tables(&entities, &material_assets).unwrap();

    assert_eq!(
        raytrace_core::layout::serialize_vertices(&vs1.verticies),
        raytrace_core::layout::serialize_vertices(&vs2.verticies)
    );
    assert_eq!(
        raytrace_core::layout::serialize_indices(&vs1.indicies),
        raytrace_core::layout::serialize_indices(&vs2.indicies)
    );
    assert_eq!(
        raytrace_core::layout::serialize_materials(&ms1.material_vec),
        raytrace_core::layout::serialize_materials(&ms2.material_vec)
    );
    assert_eq!(vs1.verticies, vs2.verticies);
    assert_eq!(vs1.indicies, vs2.indicies);
}

#[test]
fn duplicate_identities_are_stored_once() {
    // Five instances all sharing one mesh and one material.
    let entities: Vec<ExtractedMesh> = (0..5).map(|i| entity(9, 3, i)).collect();
    let mut mesh_assets = HashMap::new();
    mesh_assets.insert(9, mesh_asset(4, vec![0, 1, 2]));
    let mut material_assets = HashMap::new();
    material_assets.insert(3, material_asset(1));

    let vs = rebuild_vertex_tables(&entities, &mesh_assets).unwrap();
    let ms = rebuild_material_tables(&entities, &material_assets).unwrap();
    assert_eq!(vs.mesh_map.len(), 1);
    assert_eq!(vs.verticies.len(), 4);
    assert_eq!(vs.indicies.len(), 3);
    assert_eq!(ms.material_vec.len(), 1);
    assert_eq!(*ms.material_map.get(&3).unwrap(), 0);
}

#[test]
fn indices_stay_below_vertex_count() {
    let entities = vec![entity(1, 10, 0), entity(2, 10, 1), entity(3, 10, 2)];
    let mut mesh_assets = HashMap::new();
    mesh_assets.insert(1, mesh_asset(2, vec![0, 1]));
    mesh_assets.insert(2, mesh_asset(5, vec![4, 3, 2, 1, 0]));
    mesh_assets.insert(3, mesh_asset(1, vec![0, 0, 0]));
    let mut material_assets = HashMap::new();
    material_assets.insert(10, material_asset(1));

    let vs = rebuild_vertex_tables(&entities, &mesh_assets).unwrap();
    for (_, &(offset, count)) in vs.mesh_map.iter() {
        for k in offset..offset + count {
            assert!((vs.indicies[k] as usize) < vs.verticies.len());
        }
    }
    for &ix in vs.indicies.iter() {
        assert!((ix as usize) < vs.verticies.len());
    }
}

#[test]
fn empty_scene_builds_empty_tables() {
    let entities: Vec<ExtractedMesh> = vec![];
    let mesh_assets: HashMap<u64, MeshAsset> = HashMap::new();
    let material_assets: HashMap<u64, MaterialAsset> = HashMap::new();
    let vs = rebuild_vertex_tables(&entities, &mesh_assets).unwrap();
    let ms = rebuild_material_tables(&entities, &material_assets).unwrap();
    let inst = rebuild_instances(&entities);
    assert!(vs.mesh_map.is_empty());
    assert!(vs.verticies.is_empty());
    assert!(vs.indicies.is_empty());
    assert!(ms.material_vec.is_empty());
    assert!(inst.meshes.is_empty());
}

#[test]
fn missing_mesh_asset_is_fatal() {
    let entities = vec![entity(1, 10, 0)];
    let mesh_assets: HashMap<u64, MeshAsset> = HashMap::new();
    assert!(matches!(
        rebuild_vertex_tables(&entities, &mesh_assets),
        Err(ExtractError::MeshAssetMissing)
    ));
}

#[test]
fn missing_attributes_are_fatal() {
    let entities = vec![entity(1, 10, 0)];

    let mut no_pos = HashMap::new();
    let mut a = mesh_asset(2, vec![0]);
    a.positions = None;
    no_pos.insert(1, a);
    assert!(matches!(
        rebuild_vertex_tables(&entities, &no_pos),
        Err(ExtractError::MeshPositionsMissing)
    ));

    let mut no_norm = HashMap::new();
    let mut b = mesh_asset(2, vec![0]);
    b.normals = None;
    no_norm.insert(1, b);
    assert!(matches!(
        rebuild_vertex_tables(&entities, &no_norm),
        Err(ExtractError::MeshNormalsMissing)
    ));

    let mut no_idx = HashMap::new();
    let mut c = mesh_asset(2, vec![0]);
    c.indices = None;
    no_idx.insert(1, c);
    assert!(matches!(
        rebuild_vertex_tables(&entities, &no_idx),
        Err(ExtractError::MeshIndicesMissing)
    ));
}

#[test]
fn out_of_range_index_is_fatal() {
    let entities = vec![entity(1, 10, 0)];
    let mut mesh_assets = HashMap::new();
    // Three vertices, but one index addresses slot 3.
    mesh_assets.insert(1, mesh_asset(3, vec![0, 1, 3]));
    assert!(matches!(
        rebuild_vertex_tables(&entities, &mesh_assets),
        Err(ExtractError::IndexOutOfRange)
    ));
}

#[test]
fn paired_attributes_truncate_to_shorter() {
    // Four positions but only two normals: the mesh contributes two paired
    // vertex records, and only indices below two are valid.
    let entities = vec![entity(1, 10, 0)];
    let positions: Vec<Vec3Bits> = (0..4).map(|i| vec3(i, 0, 0)).collect();
    let normals: Vec<Vec3Bits> = (0..2).map(|i| vec3(0, i, 0)).collect();
    let mut mesh_assets = HashMap::new();
    mesh_assets.insert(
        1,
        MeshAsset { positions: Some(positions), normals: Some(normals), indices: Some(vec![0, 1]) },
    );
    let vs = rebuild_vertex_tables(&entities, &mesh_assets).unwrap();
    assert_eq!(vs.verticies.len(), 2);

    let mut too_far = HashMap::new();
    let positions: Vec<Vec3Bits> = (0..4).map(|i| vec3(i, 0, 0)).collect();
    let normals: Vec<Vec3Bits> = (0..2).map(|i| vec3(0, i, 0)).collect();
    too_far.insert(
        1,
        MeshAsset { positions: Some(positions), normals: Some(normals), indices: Some(vec![2]) },
    );
    assert!(matches!(
        rebuild_vertex_tables(&entities, &too_far),
        Err(ExtractError::IndexOutOfRange)
    ));
}

#[test]
fn missing_material_asset_is_fatal() {
    let entities = vec![entity(1, 10, 0)];
    let material_assets: HashMap<u64, MaterialAsset> = HashMap::new();
    assert!(matches!(
        rebuild_material_tables(&entities, &material_assets),
        Err(ExtractError::MaterialAssetMissing)
    ));
}

#[test]
fn absent_change_signals_reuse_stale_tables() {
    let entities = vec![entity(1, 10, 0)];
    let mut mesh_assets = HashMap::new();
    mesh_assets.insert(1, mesh_asset(2, vec![0, 1]));
    let mut material_assets = HashMap::new();
    material_assets.insert(10, material_asset(1));

    let mut vs = VertexStorage::default();
    let mut ms = MeshStorage::default();
    let mut mats = MaterialStorage::default();

    // No signal fired: every rebuild is skipped, tables stay empty.
    extract_meshes(false, false, false, &entities, &mesh_assets, &material_assets, &mut vs,
        &mut ms, &mut mats)
        .unwrap();
    assert!(vs.verticies.is_empty());
    assert!(ms.meshes.is_empty());
    assert!(mats.material_vec.is_empty());

    // All three fired: every table is rebuilt.
    extract_meshes(true, true, true, &entities, &mesh_assets, &material_assets, &mut vs, &mut ms,
        &mut mats)
        .unwrap();
    assert_eq!(vs.verticies.len(), 2);
    assert_eq!(ms.meshes.len(), 1);
    assert_eq!(mats.material_vec.len(), 1);

    // A failing rebuild leaves all tables untouched.
    let bad_assets: HashMap<u64, MeshAsset> = HashMap::new();
    let r = extract_meshes(true, true, true, &entities, &bad_assets, &material_assets, &mut vs,
        &mut ms, &mut mats);
    assert!(matches!(r, Err(ExtractError::MeshAssetMissing)));
    assert_eq!(vs.verticies.len(), 2);
    assert_eq!(ms.meshes.len(), 1);
    assert_eq!(mats.material_vec.len(), 1);
}
