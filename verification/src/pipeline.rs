//! The per-frame pipeline: extract, stage, advance the accumulation
//! counter, build the binding set, then dispatch or skip.
//!
//! All state the pipeline carries from frame to frame lives in an explicit
//! context value threaded between the stages: the dedup tables, the staged
//! buffers, the accumulation counter and the dispatch node.
use crate::binding::{queue_bind_group, RaytracingBindGroups};
use crate::extract::{
    extract_error, extract_meshes, first_occurrences, indices_of, material_ids, material_map_of,
    materials_of, mesh_ids, mesh_map_of, vertex_tables_error, vertices_of,
};
use crate::layout::{u32_le, vec3_bytes};
use crate::node::{counter_next, DispatchCall, RayTraceNode, ITER_CEILING, RENDER_HEIGHT,
    RENDER_WIDTH, WORKGROUP_SIZE};
use crate::node::reset_iter;
use crate::stage::{
    prepare_meshes, resolve_error, resolved_instances, MaterialBuffer, MeshBuffer, VertexBuffer,
};
use crate::types::{
    ExtractError, ExtractedMesh, LightDir, MaterialAsset, MaterialStorage, MeshAsset, MeshStorage,
    TextureIter, VertexStorage,
};
use std::collections::HashMap;
use vstd::prelude::*;

verus! {

broadcast use vstd::std_specs::hash::group_hash_axioms;

/// The authoritative per-frame scene state: entities with their transform
/// and asset references, and the asset content keyed by identity. It is
/// fully published before the pipeline runs.
pub struct SceneSnapshot {
    pub entities: Vec<ExtractedMesh>,
    pub mesh_assets: HashMap<u64, MeshAsset>,
    pub material_assets: HashMap<u64, MaterialAsset>,
}

/// Everything the pipeline carries across frames: the rebuildable tables,
/// the staged buffers, the accumulation counter and the dispatch node.
pub struct PipelineContext {
    pub vertex_storage: VertexStorage,
    pub mesh_storage: MeshStorage,
    pub material_storage: MaterialStorage,
    pub vertex_buffer: Option<VertexBuffer>,
    pub mesh_buffer: Option<MeshBuffer>,
    pub material_buffer: Option<MaterialBuffer>,
    pub texture_iter: TextureIter,
    pub node: RayTraceNode,
}

impl PipelineContext {
    /// Well-formedness carried from frame to frame: the dedup tables are
    /// internally consistent and the instance count fits the 32-bit uniform.
    pub open spec fn wf(self) -> bool {
        &&& self.vertex_storage.wf()
        &&& self.material_storage.wf()
        &&& self.mesh_storage.meshes@.len() <= u32::MAX
    }

    /// A fresh pipeline: empty tables, no staged buffers, counter at zero,
    /// no view offset seen yet.
    pub fn new() -> (s: Self)
        ensures
            s.wf(),
            s.vertex_storage.mesh_map@ == Map::<u64, (usize, usize)>::empty(),
            s.vertex_storage.verticies@ == Seq::<crate::types::ShaderVertex>::empty(),
            s.vertex_storage.indicies@ == Seq::<u32>::empty(),
            s.mesh_storage.meshes@ == Seq::<ExtractedMesh>::empty(),
            s.material_storage.material_vec@ == Seq::<crate::types::ShaderMaterial>::empty(),
            s.material_storage.material_map@ == Map::<u64, usize>::empty(),
            s.vertex_buffer is None,
            s.mesh_buffer is None,
            s.material_buffer is None,
            s.texture_iter.0 == 0,
            s.node.view is None,
    {
        PipelineContext {
            vertex_storage: Default::default(),
            mesh_storage: Default::default(),
            material_storage: Default::default(),
            vertex_buffer: None,
            mesh_buffer: None,
            material_buffer: None,
            texture_iter: TextureIter(0),
            node: RayTraceNode { view: None },
        }
    }
}

/// What one frame hands back: the assembled binding set and the dispatch
/// that was recorded, or `None` when the dispatch was skipped.
pub struct FrameOutput {
    pub bind_groups: RaytracingBindGroups,
    pub dispatch: Option<DispatchCall>,
}

/// The mesh dedup table in effect after extraction, honouring the change
/// signal: rebuilt from the snapshot or reused from the previous frame.
pub open spec fn post_mesh_map(
    ctx: PipelineContext,
    mesh_events: bool,
    entities: Seq<ExtractedMesh>,
    mesh_assets: Map<u64, MeshAsset>,
) -> Map<u64, (usize, usize)> {
    if mesh_events {
        mesh_map_of(first_occurrences(mesh_ids(entities)), mesh_assets)
    } else {
        ctx.vertex_storage.mesh_map@
    }
}

/// The material dedup table in effect after extraction.
pub open spec fn post_material_map(
    ctx: PipelineContext,
    material_events: bool,
    entities: Seq<ExtractedMesh>,
    material_assets: Map<u64, MaterialAsset>,
) -> Map<u64, usize> {
    if material_events {
        material_map_of(first_occurrences(material_ids(entities)), material_assets)
    } else {
        ctx.material_storage.material_map@
    }
}

/// The instance list in effect after extraction.
pub open spec fn post_instances(
    ctx: PipelineContext,
    meshes_changed: bool,
    entities: Seq<ExtractedMesh>,
) -> Seq<ExtractedMesh> {
    if meshes_changed {
        entities
    } else {
        ctx.mesh_storage.meshes@
    }
}

/// The first fatal failure of one frame: an extraction failure, or an
/// instance that does not resolve against the tables extraction left
/// behind.
pub open spec fn frame_error(
    ctx: PipelineContext,
    mesh_events: bool,
    material_events: bool,
    meshes_changed: bool,
    entities: Seq<ExtractedMesh>,
    mesh_assets: Map<u64, MeshAsset>,
    material_assets: Map<u64, MaterialAsset>,
) -> Option<ExtractError> {
    if extract_error(mesh_events, material_events, entities, mesh_assets, material_assets)
        is Some {
        extract_error(mesh_events, material_events, entities, mesh_assets, material_assets)
    } else if meshes_changed && resolve_error(
        post_instances(ctx, meshes_changed, entities),
        post_mesh_map(ctx, mesh_events, entities, mesh_assets),
        post_material_map(ctx, material_events, entities, material_assets),
    ) is Some {
        resolve_error(
            post_instances(ctx, meshes_changed, entities),
            post_mesh_map(ctx, mesh_events, entities, mesh_assets),
            post_material_map(ctx, material_events, entities, material_assets),
        )
    } else {
        None
    }
}

/// Runs one frame of the pipeline against a fully published snapshot:
/// extraction and staging collapse to no-ops where their change signal is
/// absent, the accumulation counter advances (or resets on any change), the
/// binding set is rebuilt from the current buffers, and a dispatch is
/// recorded unless the counter is past its ceiling or the compute pipeline
/// is not compiled yet.
///
/// A fatal failure aborts the frame: the counter, the node and every buffer
/// are left untouched, and the tables too when extraction itself failed.
#[verifier::rlimit(60)]
pub fn run_frame(
    ctx: &mut PipelineContext,
    snapshot: &SceneSnapshot,
    mesh_events: bool,
    material_events: bool,
    meshes_changed: bool,
    image: u64,
    light_dir: &LightDir,
    view_offset: Option<u32>,
    pipeline_ready: bool,
) -> (r: Result<FrameOutput, ExtractError>)
    requires
        old(ctx).wf(),
        old(ctx).texture_iter.0 < u32::MAX,
        snapshot.entities@.len() <= u32::MAX,
        vertex_tables_error(
            first_occurrences(mesh_ids(snapshot.entities@)),
            snapshot.mesh_assets@,
        ) is None ==> {
            &&& vertices_of(
                first_occurrences(mesh_ids(snapshot.entities@)),
                snapshot.mesh_assets@,
            ).len() <= u32::MAX
            &&& indices_of(
                first_occurrences(mesh_ids(snapshot.entities@)),
                snapshot.mesh_assets@,
            ).len() <= u32::MAX
        },
        mesh_events || old(ctx).vertex_buffer is Some,
        meshes_changed || old(ctx).mesh_buffer is Some,
        material_events || old(ctx).material_buffer is Some,
        view_offset is Some || old(ctx).node.view is Some,
    ensures
        final(ctx).wf(),
        r is Ok <==> frame_error(
            *old(ctx),
            mesh_events,
            material_events,
            meshes_changed,
            snapshot.entities@,
            snapshot.mesh_assets@,
            snapshot.material_assets@,
        ) is None,
        r matches Err(e) ==> {
            &&& Some(e) == frame_error(
                *old(ctx),
                mesh_events,
                material_events,
                meshes_changed,
                snapshot.entities@,
                snapshot.mesh_assets@,
                snapshot.material_assets@,
            )
            &&& final(ctx).texture_iter == old(ctx).texture_iter
            &&& final(ctx).node == old(ctx).node
            &&& final(ctx).vertex_buffer == old(ctx).vertex_buffer
            &&& final(ctx).mesh_buffer == old(ctx).mesh_buffer
            &&& final(ctx).material_buffer == old(ctx).material_buffer
        },
        r is Ok ==> {
            let any_change = mesh_events || material_events || meshes_changed;
            let count = counter_next(old(ctx).texture_iter.0 as nat, any_change);
            let muids = first_occurrences(mesh_ids(snapshot.entities@));
            let tuids = first_occurrences(material_ids(snapshot.entities@));
            let out = r->Ok_0;
            &&& final(ctx).texture_iter.0 == count
            &&& final(ctx).node.view == (if view_offset is Some {
                view_offset
            } else {
                old(ctx).node.view
            })
            &&& if mesh_events {
                &&& final(ctx).vertex_storage.verticies@ == vertices_of(
                    muids,
                    snapshot.mesh_assets@,
                )
                &&& final(ctx).vertex_storage.indicies@ == indices_of(
                    muids,
                    snapshot.mesh_assets@,
                )
                &&& final(ctx).vertex_storage.mesh_map@ == mesh_map_of(
                    muids,
                    snapshot.mesh_assets@,
                )
            } else {
                final(ctx).vertex_storage == old(ctx).vertex_storage
            }
            &&& if material_events {
                &&& final(ctx).material_storage.material_vec@ == materials_of(
                    tuids,
                    snapshot.material_assets@,
                )
                &&& final(ctx).material_storage.material_map@ == material_map_of(
                    tuids,
                    snapshot.material_assets@,
                )
            } else {
                final(ctx).material_storage == old(ctx).material_storage
            }
            &&& if meshes_changed {
                final(ctx).mesh_storage.meshes@ == snapshot.entities@
            } else {
                final(ctx).mesh_storage == old(ctx).mesh_storage
            }
            &&& if mesh_events {
                &&& final(ctx).vertex_buffer is Some
                &&& final(ctx).vertex_buffer->0.vertex_buffer.data@
                    == crate::layout::vertex_array_bytes(final(ctx).vertex_storage.verticies@)
                &&& final(ctx).vertex_buffer->0.index_buffer.data@
                    == crate::layout::index_array_bytes(final(ctx).vertex_storage.indicies@)
            } else {
                final(ctx).vertex_buffer == old(ctx).vertex_buffer
            }
            &&& if meshes_changed {
                &&& final(ctx).mesh_buffer is Some
                &&& final(ctx).mesh_buffer->0.buffer.data@ == crate::layout::mesh_array_bytes(
                    resolved_instances(
                        final(ctx).mesh_storage.meshes@,
                        final(ctx).vertex_storage.mesh_map@,
                        final(ctx).material_storage.material_map@,
                    ),
                )
            } else {
                final(ctx).mesh_buffer == old(ctx).mesh_buffer
            }
            &&& if material_events {
                &&& final(ctx).material_buffer is Some
                &&& final(ctx).material_buffer->0.buffer.data@
                    == crate::layout::material_array_bytes(
                    final(ctx).material_storage.material_vec@,
                )
            } else {
                final(ctx).material_buffer == old(ctx).material_buffer
            }
            &&& final(ctx).vertex_buffer is Some
            &&& final(ctx).mesh_buffer is Some
            &&& final(ctx).material_buffer is Some
            &&& out.bind_groups.image == image
            &&& out.bind_groups.iter_buffer.data@ == u32_le(count as u32)
            &&& out.bind_groups.vertex_buffer.data@ == final(ctx).vertex_buffer->0.vertex_buffer.data@
            &&& out.bind_groups.index_buffer.data@ == final(ctx).vertex_buffer->0.index_buffer.data@
            &&& out.bind_groups.mesh_buffer.data@ == final(ctx).mesh_buffer->0.buffer.data@
            &&& out.bind_groups.num_meshes_buffer.data@ == u32_le(
                final(ctx).mesh_storage.meshes@.len() as u32,
            )
            &&& out.bind_groups.material_buffer.data@ == final(ctx).material_buffer->0.buffer.data@
            &&& out.bind_groups.light_dir_buffer.data@ == vec3_bytes(light_dir.dir)
            &&& out.bind_groups.seed_buffer.data@.len() == 8
            &&& (count > ITER_CEILING ==> out.dispatch is None)
            &&& (count <= ITER_CEILING && !pipeline_ready ==> out.dispatch is None)
            &&& (count <= ITER_CEILING && pipeline_ready ==> out.dispatch == Some(
                DispatchCall {
                    x: RENDER_WIDTH / WORKGROUP_SIZE,
                    y: RENDER_HEIGHT / WORKGROUP_SIZE,
                    z: 1,
                    view_offset: final(ctx).node.view->0,
                },
            ))
        },
{
    if let Err(e) = extract_meshes(
        mesh_events,
        material_events,
        meshes_changed,
        &snapshot.entities,
        &snapshot.mesh_assets,
        &snapshot.material_assets,
        &mut ctx.vertex_storage,
        &mut ctx.mesh_storage,
        &mut ctx.material_storage,
    ) {
        return Err(e);
    }
    if let Err(e) = prepare_meshes(
        mesh_events,
        meshes_changed,
        material_events,
        &ctx.vertex_storage,
        &ctx.mesh_storage,
        &ctx.material_storage,
        &mut ctx.vertex_buffer,
        &mut ctx.mesh_buffer,
        &mut ctx.material_buffer,
    ) {
        return Err(e);
    }
    let any_change = mesh_events || material_events || meshes_changed;
    reset_iter(&mut ctx.texture_iter, any_change);
    // After staging, a buffer is present for every change signal that did
    // not fire (precondition) or that did (it was just staged); the `None`
    // arms below are unreachable, kept only so the function stays total.
    let vertex_buffer = match &ctx.vertex_buffer {
        Some(vb) => vb,
        None => {
            return Err(ExtractError::MeshAssetMissing);
        },
    };
    let mesh_buffer = match &ctx.mesh_buffer {
        Some(mb) => mb,
        None => {
            return Err(ExtractError::MeshAssetMissing);
        },
    };
    let material_buffer = match &ctx.material_buffer {
        Some(mb) => mb,
        None => {
            return Err(ExtractError::MaterialAssetMissing);
        },
    };
    let bind_groups = queue_bind_group(
        image,
        &ctx.texture_iter,
        light_dir,
        vertex_buffer,
        mesh_buffer,
        material_buffer,
        ctx.mesh_storage.meshes.len(),
    );
    ctx.node.update(view_offset);
    let dispatch = ctx.node.run(&ctx.texture_iter, pipeline_ready);
    Ok(FrameOutput { bind_groups, dispatch })
}

} // verus!
