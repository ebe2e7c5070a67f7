//! Counter behaviour, ceiling gating, wire format and whole-frame runs.
use raytrace_core::layout::{serialize_materials, serialize_shader_meshes, serialize_u32,
    serialize_vec3, serialize_vertices};
use raytrace_core::node::{reset_iter, DispatchCall, RayTraceNode, ITER_CEILING, RENDER_HEIGHT,
    RENDER_WIDTH, WORKGROUP_SIZE};
use raytrace_core::pipeline::{run_frame, PipelineContext, SceneSnapshot};
use raytrace_core::types::{
    ExtractError, ExtractedMesh, LightDir, Mat4Bits, MaterialAsset, MeshAsset, ShaderMaterial,
    ShaderMesh, ShaderVertex, TextureIter, Vec3Bits, Vec4Bits,
};
use std::collections::HashMap;

fn vec3(x: u32, y: u32, z: u32) -> Vec3Bits {
    Vec3Bits { x, y, z }
}

fn vec4(x: u32, y: u32, z: u32, w: u32) -> Vec4Bits {
    Vec4Bits { x, y, z, w }
}

fn mat4(tag: u32) -> Mat4Bits {
    Mat4Bits {
        x_axis: vec4(tag, 0, 0, 0),
        y_axis: vec4(0, tag, 0, 0),
        z_axis: vec4(0, 0, tag, 0),
        w_axis: vec4(0, 0, 0, tag),
    }
}

fn small_snapshot() -> SceneSnapshot {
    let entities = vec![
        ExtractedMesh { transform: mat4(1), material: 10, mesh: 1 },
        ExtractedMesh { transform: mat4(2), material: 10, mesh: 1 },
    ];
    let mut mesh_assets = HashMap::new();
    mesh_assets.insert(
        1,
        MeshAsset {
            positions: Some(vec![vec3(1, 2, 3), vec3(4, 5, 6), vec3(7, 8, 9)]),
            normals: Some(vec![vec3(0, 0, 1), vec3(0, 1, 0), vec3(1, 0, 0)]),
            indices: Some(vec![0, 1, 2]),
        },
    );
    let mut material_assets = HashMap::new();
    material_assets.insert(
        10,
        MaterialAsset {
            color: vec4(1, 2, 3, 4),
            emissive: vec4(0, 0, 0, 0),
            roughness: 5,
            metallic: 6,
            specular: 7,
        },
    );
    SceneSnapshot { entities, mesh_assets, material_assets }
}

#[test]
fn counter_counts_up_without_changes() {
    let mut iter = TextureIter(0);
    let mut seen = vec![iter.0];
    for _ in 0..4 {
        reset_iter(&mut iter, false);
        seen.push(iter.0);
    }
    assert_eq!(seen, vec![0, 1, 2, 3, 4]);
}

#[test]
fn counter_resets_on_change_midway() {
    // A transform change on the frame that would have produced 2 resets that
    // frame to 0, then counting resumes.
    let changes = [false, true, false, false];
    let mut iter = TextureIter(0);
    let mut seen = vec![iter.0];
    for &c in changes.iter() {
        reset_iter(&mut iter, c);
        seen.push(iter.0);
    }
    assert_eq!(seen, vec![0, 1, 0, 1, 2]);
}

#[test]
fn dispatch_gated_past_ceiling() {
    let node = RayTraceNode { view: Some(64) };
    assert!(node.run(&TextureIter(ITER_CEILING + 1), true).is_none());
    assert!(node.run(&TextureIter(ITER_CEILING + 7), true).is_none());
    // At or below the ceiling the dispatch covers the image in 32x32 tiles.
    let d = node.run(&TextureIter(ITER_CEILING), true).unwrap();
    assert_eq!(d, DispatchCall { x: 32, y: 24, z: 1, view_offset: 64 });
    assert_eq!(d.x * WORKGROUP_SIZE, RENDER_WIDTH);
    assert_eq!(d.y * WORKGROUP_SIZE, RENDER_HEIGHT);
    // An uncompiled pipeline skips the dispatch but is not an error.
    assert!(node.run(&TextureIter(0), false).is_none());
}

#[test]
fn view_offset_falls_back_to_previous() {
    let mut node = RayTraceNode { view: None };
    node.update(Some(256));
    assert_eq!(node.view, Some(256));
    node.update(None);
    assert_eq!(node.view, Some(256));
    node.update(Some(512));
    assert_eq!(node.view, Some(512));
}

#[test]
fn word_serialization_is_little_endian() {
    assert_eq!(serialize_u32(0x04030201), vec![1, 2, 3, 4]);
    assert_eq!(serialize_u32(0), vec![0, 0, 0, 0]);
    assert_eq!(serialize_u32(u32::MAX), vec![255, 255, 255, 255]);
    assert_eq!(
        serialize_vec3(vec3(1, 0x100, 0x10000)),
        vec![1, 0, 0, 0, 0, 1, 0, 0, 0, 0, 1, 0]
    );
}

#[test]
fn records_are_sixteen_byte_multiples() {
    let v = ShaderVertex { position: vec3(1, 2, 3), p1: 0, normal: vec3(4, 5, 6), p2: 0 };
    let bytes = serialize_vertices(&vec![v]);
    assert_eq!(bytes.len(), 32);
    assert_eq!(bytes.len() % 16, 0);
    assert_eq!(&bytes[0..4], &[1, 0, 0, 0]);
    assert_eq!(&bytes[12..16], &[0, 0, 0, 0]);
    assert_eq!(&bytes[16..20], &[4, 0, 0, 0]);

    let m = ShaderMaterial {
        color: vec4(1, 2, 3, 4),
        emissive: vec4(5, 6, 7, 8),
        roughness: 9,
        metallic: 10,
        specular: 11,
        pad: 0,
    };
    let bytes = serialize_materials(&vec![m, m]);
    assert_eq!(bytes.len(), 96);
    assert_eq!(bytes.len() % 16, 0);

    let d = ShaderMesh { transform: mat4(1), start_index: 0, len_index: 3, material: 0, pad: 0 };
    let bytes = serialize_shader_meshes(&vec![d]);
    assert_eq!(bytes.len(), 80);
    assert_eq!(bytes.len() % 16, 0);
    // The range and slot words sit right after the 64-byte transform.
    assert_eq!(&bytes[64..68], &[0, 0, 0, 0]);
    assert_eq!(&bytes[68..72], &[3, 0, 0, 0]);
}

#[test]
fn first_frame_runs_the_whole_pipeline() {
    let mut ctx = PipelineContext::new();
    let snapshot = small_snapshot();
    let light = LightDir { dir: vec3(1, 2, 3) };
    let out = run_frame(&mut ctx, &snapshot, true, true, true, 77, &light, Some(640), true)
        .unwrap();

    // A change this frame resets the counter to zero.
    assert_eq!(ctx.texture_iter.0, 0);
    // Two instances share the one mesh: one vertex range, two descriptors.
    assert_eq!(ctx.vertex_storage.verticies.len(), 3);
    assert_eq!(ctx.mesh_storage.meshes.len(), 2);
    assert_eq!(ctx.material_storage.material_vec.len(), 1);
    // The staged buffers hold the serialized tables.
    assert_eq!(out.bind_groups.vertex_buffer.data.len(), 3 * 32);
    assert_eq!(out.bind_groups.index_buffer.data.len(), 3 * 4);
    assert_eq!(out.bind_groups.mesh_buffer.data.len(), 2 * 80);
    assert_eq!(out.bind_groups.material_buffer.data.len(), 48);
    assert_eq!(out.bind_groups.image, 77);
    assert_eq!(out.bind_groups.iter_buffer.data, vec![0, 0, 0, 0]);
    assert_eq!(out.bind_groups.num_meshes_buffer.data, vec![2, 0, 0, 0]);
    assert_eq!(out.bind_groups.light_dir_buffer.data.len(), 12);
    assert_eq!(out.bind_groups.seed_buffer.data.len(), 8);
    // The dispatch was recorded at the fetched view offset.
    assert_eq!(
        out.dispatch,
        Some(DispatchCall { x: 32, y: 24, z: 1, view_offset: 640 })
    );
}

#[test]
fn static_scene_reuses_buffers_and_accumulates() {
    let mut ctx = PipelineContext::new();
    let snapshot = small_snapshot();
    let light = LightDir { dir: vec3(0, 0, 1) };
    run_frame(&mut ctx, &snapshot, true, true, true, 1, &light, Some(0), true).unwrap();
    assert_eq!(ctx.texture_iter.0, 0);

    // Five static frames: the counter accumulates 1,2,3,4,5 and the buffers
    // are never replaced.
    let vertex_bytes = ctx.vertex_buffer.as_ref().unwrap().vertex_buffer.data.clone();
    for expect in 1..=5u32 {
        let out = run_frame(&mut ctx, &snapshot, false, false, false, 1, &light, None, true)
            .unwrap();
        assert_eq!(ctx.texture_iter.0, expect);
        assert!(out.dispatch.is_some());
    }
    assert_eq!(
        ctx.vertex_buffer.as_ref().unwrap().vertex_buffer.data,
        vertex_bytes
    );
}

#[test]
fn converged_image_issues_no_dispatch() {
    let mut ctx = PipelineContext::new();
    let snapshot = small_snapshot();
    let light = LightDir { dir: vec3(0, 0, 1) };
    run_frame(&mut ctx, &snapshot, true, true, true, 1, &light, Some(0), true).unwrap();

    // Run static frames until the counter passes the ceiling: from there on
    // not a single dispatch is issued.
    let mut dispatches: u32 = 0;
    for _ in 0..(ITER_CEILING + 40) {
        let out = run_frame(&mut ctx, &snapshot, false, false, false, 1, &light, None, true)
            .unwrap();
        if ctx.texture_iter.0 > ITER_CEILING {
            assert!(out.dispatch.is_none());
        } else {
            assert!(out.dispatch.is_some());
            dispatches += 1;
        }
    }
    assert_eq!(dispatches, ITER_CEILING);
    assert!(ctx.texture_iter.0 > ITER_CEILING);

    // A scene change resets the counter and dispatching resumes.
    let out = run_frame(&mut ctx, &snapshot, false, false, true, 1, &light, None, true).unwrap();
    assert_eq!(ctx.texture_iter.0, 0);
    assert!(out.dispatch.is_some());
}

#[test]
fn stale_instance_references_are_fatal() {
    // Frame one builds everything for mesh 1 / material 10.
    let mut ctx = PipelineContext::new();
    let snapshot = small_snapshot();
    let light = LightDir { dir: vec3(0, 0, 1) };
    run_frame(&mut ctx, &snapshot, true, true, true, 1, &light, Some(0), true).unwrap();

    // The instance list is then rebuilt against tables that were not: the
    // new mesh identity is unknown to the stale dedup table.
    let mut moved = small_snapshot();
    moved.entities[0].mesh = 99;
    let r = run_frame(&mut ctx, &moved, false, false, true, 1, &light, None, true);
    assert!(matches!(r, Err(ExtractError::UnknownMeshId)));
    // The failed frame left the counter untouched.
    assert_eq!(ctx.texture_iter.0, 0);

    // Unknown material identity: mesh tables are rebuilt, the material
    // table stays stale and lacks the new identity.
    let mut recolored = small_snapshot();
    recolored.entities[0].material = 99;
    recolored.mesh_assets = small_snapshot().mesh_assets;
    let r = run_frame(&mut ctx, &recolored, true, false, true, 1, &light, None, true);
    assert!(matches!(r, Err(ExtractError::UnknownMaterialId)));
}
