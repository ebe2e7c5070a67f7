//! Buffer staging: resolving instances against the dedup tables and
//! uploading changed tables into fresh GPU-resident buffers.
//!
//! Buffers follow a replace-not-patch discipline: a dirty table gets a brand
//! new buffer holding its serialized bytes, a clean table keeps the buffer of
//! the previous frame untouched.
use crate::layout::{
    index_array_bytes, material_array_bytes, mesh_array_bytes, serialize_indices,
    serialize_materials, serialize_shader_meshes, serialize_vertices, vertex_array_bytes,
};
use crate::types::{
    ExtractError, ExtractedMesh, MaterialStorage, MeshStorage, ShaderMesh, VertexStorage,
};
use vstd::prelude::*;

verus! {

broadcast use vstd::std_specs::hash::group_hash_axioms;

/// A GPU-resident buffer as the pipeline sees it: the bytes it was created
/// with. Created buffers are never patched, only replaced wholesale.
pub struct GpuBuffer {
    pub data: Vec<u8>,
}

impl GpuBuffer {
    /// A second binding onto the same bytes, as handed to a bind group.
    pub fn duplicate(&self) -> (r: GpuBuffer)
        ensures
            r.data@ == self.data@,
    {
        let mut data: Vec<u8> = Vec::new();
        for i in 0..self.data.len()
            invariant
                data@ == self.data@.take(i as int),
        {
            data.push(self.data[i]);
            proof {
                assert(self.data@.take(i + 1) =~= self.data@.take(i as int).push(
                    self.data@[i as int],
                ));
            }
        }
        proof {
            assert(self.data@.take(self.data@.len() as int) =~= self.data@);
        }
        GpuBuffer { data }
    }
}

/// The staged shared vertex and index arrays.
pub struct VertexBuffer {
    pub vertex_buffer: GpuBuffer,
    pub index_buffer: GpuBuffer,
}

/// The staged instance-descriptor array.
pub struct MeshBuffer {
    pub buffer: GpuBuffer,
}

/// The staged flat material array.
pub struct MaterialBuffer {
    pub buffer: GpuBuffer,
}

/// The descriptor written for one instance, resolved against the current
/// dedup tables.
pub open spec fn resolve_instance(
    e: ExtractedMesh,
    mesh_map: Map<u64, (usize, usize)>,
    material_map: Map<u64, usize>,
) -> ShaderMesh {
    ShaderMesh {
        transform: e.transform,
        start_index: mesh_map[e.mesh].0 as u32,
        len_index: mesh_map[e.mesh].1 as u32,
        material: material_map[e.material] as u32,
        pad: 0,
    }
}

/// The first instance whose mesh or material identity is absent from the
/// current dedup tables, reported as the fatal failure it is; `None` when
/// every instance resolves.
pub open spec fn resolve_error(
    instances: Seq<ExtractedMesh>,
    mesh_map: Map<u64, (usize, usize)>,
    material_map: Map<u64, usize>,
) -> Option<ExtractError>
    decreases instances.len(),
{
    if instances.len() == 0 {
        None
    } else {
        let p = resolve_error(instances.drop_last(), mesh_map, material_map);
        if p is Some {
            p
        } else if !mesh_map.contains_key(instances.last().mesh) {
            Some(ExtractError::UnknownMeshId)
        } else if !material_map.contains_key(instances.last().material) {
            Some(ExtractError::UnknownMaterialId)
        } else {
            None
        }
    }
}

/// The flat descriptor list for the whole instance list.
pub open spec fn resolved_instances(
    instances: Seq<ExtractedMesh>,
    mesh_map: Map<u64, (usize, usize)>,
    material_map: Map<u64, usize>,
) -> Seq<ShaderMesh> {
    instances.map_values(|e: ExtractedMesh| resolve_instance(e, mesh_map, material_map))
}

proof fn lemma_resolve_error_propagates(
    instances: Seq<ExtractedMesh>,
    mesh_map: Map<u64, (usize, usize)>,
    material_map: Map<u64, usize>,
    j: int,
)
    requires
        0 <= j < instances.len(),
        resolve_error(instances.take(j), mesh_map, material_map) is None,
        !(mesh_map.contains_key(instances[j].mesh) && material_map.contains_key(
            instances[j].material,
        )),
    ensures
        resolve_error(instances, mesh_map, material_map) == if !mesh_map.contains_key(
            instances[j].mesh,
        ) {
            Some(ExtractError::UnknownMeshId)
        } else {
            Some(ExtractError::UnknownMaterialId)
        },
    decreases instances.len(),
{
    if instances.len() == j + 1 {
        assert(instances.drop_last() =~= instances.take(j));
    } else {
        assert(instances.drop_last().take(j) =~= instances.take(j));
        assert(instances.drop_last()[j] == instances[j]);
        lemma_resolve_error_propagates(instances.drop_last(), mesh_map, material_map, j);
    }
}

/// Walks the instance list and resolves each entity to its mesh's
/// `(offset, count)` range and its material's slot via the current dedup
/// tables.
///
/// Succeeds exactly when every referenced identity has a dedup entry;
/// otherwise the first unknown identity is reported.
#[verifier::loop_isolation(false)]
pub fn build_shader_meshes(
    mesh_storage: &MeshStorage,
    vertex_storage: &VertexStorage,
    material_storage: &MaterialStorage,
) -> (r: Result<Vec<ShaderMesh>, ExtractError>)
    requires
        vertex_storage.wf(),
        material_storage.wf(),
    ensures
        match r {
            Ok(v) => {
                &&& resolve_error(
                    mesh_storage.meshes@,
                    vertex_storage.mesh_map@,
                    material_storage.material_map@,
                ) is None
                &&& v@ == resolved_instances(
                    mesh_storage.meshes@,
                    vertex_storage.mesh_map@,
                    material_storage.material_map@,
                )
            },
            Err(e) => resolve_error(
                mesh_storage.meshes@,
                vertex_storage.mesh_map@,
                material_storage.material_map@,
            ) == Some(e),
        },
{
    let ghost insts = mesh_storage.meshes@;
    let ghost mm = vertex_storage.mesh_map@;
    let ghost tm = material_storage.material_map@;
    let mut out: Vec<ShaderMesh> = Vec::new();
    for j in 0..mesh_storage.meshes.len()
        invariant
            resolve_error(insts.take(j as int), mm, tm) is None,
            out@ == resolved_instances(insts.take(j as int), mm, tm),
    {
        let e = &mesh_storage.meshes[j];
        let range = match vertex_storage.mesh_map.get(&e.mesh) {
            Some(r) => r,
            None => {
                proof {
                    lemma_resolve_error_propagates(insts, mm, tm, j as int);
                }
                return Err(ExtractError::UnknownMeshId);
            },
        };
        let slot = match material_storage.material_map.get(&e.material) {
            Some(s) => s,
            None => {
                proof {
                    lemma_resolve_error_propagates(insts, mm, tm, j as int);
                }
                return Err(ExtractError::UnknownMaterialId);
            },
        };
        out.push(
            ShaderMesh {
                transform: e.transform,
                start_index: range.0 as u32,
                len_index: range.1 as u32,
                material: *slot as u32,
                pad: 0,
            },
        );
        proof {
            assert(insts.take(j + 1).drop_last() =~= insts.take(j as int));
            assert(insts.take(j + 1).last() == insts[j as int]);
            assert(out@ =~= resolved_instances(insts.take(j + 1), mm, tm));
        }
    }
    proof {
        assert(insts.take(insts.len() as int) =~= insts);
    }
    Ok(out)
}

/// Stages the tables whose dirty flag is set this frame: each one is
/// serialized and uploaded into a fresh buffer that replaces the previously
/// held one; clean tables leave their prior buffer untouched — no redundant
/// uploads.
///
/// Succeeds exactly when the instance list, if dirty, resolves against the
/// current dedup tables; on failure no buffer is replaced.
pub fn prepare_meshes(
    vertex_dirty: bool,
    mesh_dirty: bool,
    material_dirty: bool,
    vertex_storage: &VertexStorage,
    mesh_storage: &MeshStorage,
    material_storage: &MaterialStorage,
    vertex_buffer: &mut Option<VertexBuffer>,
    mesh_buffer: &mut Option<MeshBuffer>,
    material_buffer: &mut Option<MaterialBuffer>,
) -> (r: Result<(), ExtractError>)
    requires
        vertex_storage.wf(),
        material_storage.wf(),
    ensures
        r is Ok <==> (!mesh_dirty || resolve_error(
            mesh_storage.meshes@,
            vertex_storage.mesh_map@,
            material_storage.material_map@,
        ) is None),
        r matches Err(e) ==> {
            &&& mesh_dirty
            &&& resolve_error(
                mesh_storage.meshes@,
                vertex_storage.mesh_map@,
                material_storage.material_map@,
            ) == Some(e)
            &&& *final(vertex_buffer) == *old(vertex_buffer)
            &&& *final(mesh_buffer) == *old(mesh_buffer)
            &&& *final(material_buffer) == *old(material_buffer)
        },
        r is Ok ==> {
            &&& if vertex_dirty {
                &&& *final(vertex_buffer) is Some
                &&& (*final(vertex_buffer))->0.vertex_buffer.data@ == vertex_array_bytes(
                    vertex_storage.verticies@,
                )
                &&& (*final(vertex_buffer))->0.index_buffer.data@ == index_array_bytes(
                    vertex_storage.indicies@,
                )
            } else {
                *final(vertex_buffer) == *old(vertex_buffer)
            }
            &&& if mesh_dirty {
                &&& *final(mesh_buffer) is Some
                &&& (*final(mesh_buffer))->0.buffer.data@ == mesh_array_bytes(
                    resolved_instances(
                        mesh_storage.meshes@,
                        vertex_storage.mesh_map@,
                        material_storage.material_map@,
                    ),
                )
            } else {
                *final(mesh_buffer) == *old(mesh_buffer)
            }
            &&& if material_dirty {
                &&& *final(material_buffer) is Some
                &&& (*final(material_buffer))->0.buffer.data@ == material_array_bytes(
                    material_storage.material_vec@,
                )
            } else {
                *final(material_buffer) == *old(material_buffer)
            }
        },
{
    let new_meshes = if mesh_dirty {
        match build_shader_meshes(mesh_storage, vertex_storage, material_storage) {
            Ok(v) => Some(v),
            Err(e) => {
                return Err(e);
            },
        }
    } else {
        None
    };
    if vertex_dirty {
        *vertex_buffer = Some(
            VertexBuffer {
                vertex_buffer: GpuBuffer { data: serialize_vertices(&vertex_storage.verticies) },
                index_buffer: GpuBuffer { data: serialize_indices(&vertex_storage.indicies) },
            },
        );
    }
    if let Some(meshes) = new_meshes {
        *mesh_buffer = Some(MeshBuffer { buffer: GpuBuffer { data: serialize_shader_meshes(&meshes) } });
    }
    if material_dirty {
        *material_buffer = Some(
            MaterialBuffer {
                buffer: GpuBuffer { data: serialize_materials(&material_storage.material_vec) },
            },
        );
    }
    Ok(())
}

} // verus!
