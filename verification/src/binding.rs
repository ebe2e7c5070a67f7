//! Binding-set assembly: each frame, after staging, the fixed set of
//! resource bindings is rebuilt from the current buffer handles, the
//! accumulation counter, the light vector and a fresh random seed.
use crate::layout::{serialize_u32, serialize_vec3, u32_le, vec3_bytes};
use crate::stage::{GpuBuffer, MaterialBuffer, MeshBuffer, VertexBuffer};
use crate::types::{LightDir, TextureIter};
use vstd::prelude::*;

verus! {

/// Relies on rand's `random`, which draws from the thread-local generator:
/// a fresh 32-bit value each call, with nothing promised about it.
#[verifier::external_body]
fn random_u32() -> u32 {
    rand::random()
}

/// Draws the per-frame 2-component random seed and serializes it: eight
/// bytes of fresh randomness for sample jittering, never reused.
pub fn draw_seed() -> (r: Vec<u8>)
    ensures
        r@.len() == 8,
{
    let first = random_u32();
    let second = random_u32();
    let mut seed = serialize_u32(first);
    let mut tail = serialize_u32(second);
    seed.append(&mut tail);
    proof {
        broadcast use crate::layout::lemma_u32_le_len;

        assert(seed@.len() == 8);
    }
    seed
}

/// The fixed binding layout recorded for the compute pass: the output image
/// with the counter uniform, the mesh buffers with the instance count, the
/// material buffer, the light vector and the per-frame seed.
pub struct RaytracingBindGroups {
    pub image: u64,
    pub iter_buffer: GpuBuffer,
    pub vertex_buffer: GpuBuffer,
    pub index_buffer: GpuBuffer,
    pub mesh_buffer: GpuBuffer,
    pub num_meshes_buffer: GpuBuffer,
    pub material_buffer: GpuBuffer,
    pub light_dir_buffer: GpuBuffer,
    pub seed_buffer: GpuBuffer,
}

/// Assembles the binding set from the current buffers: slot contents are
/// exactly the staged bytes, the counter and instance-count uniforms are the
/// current values on the wire, the light vector is re-read, and the seed is
/// eight bytes of fresh randomness.
pub fn queue_bind_group(
    image: u64,
    iter: &TextureIter,
    light_dir: &LightDir,
    vertex_buffer: &VertexBuffer,
    mesh_buffer: &MeshBuffer,
    material_buffer: &MaterialBuffer,
    mesh_count: usize,
) -> (r: RaytracingBindGroups)
    requires
        mesh_count <= u32::MAX,
    ensures
        r.image == image,
        r.iter_buffer.data@ == u32_le(iter.0),
        r.vertex_buffer.data@ == vertex_buffer.vertex_buffer.data@,
        r.index_buffer.data@ == vertex_buffer.index_buffer.data@,
        r.mesh_buffer.data@ == mesh_buffer.buffer.data@,
        r.num_meshes_buffer.data@ == u32_le(mesh_count as u32),
        r.material_buffer.data@ == material_buffer.buffer.data@,
        r.light_dir_buffer.data@ == vec3_bytes(light_dir.dir),
        r.seed_buffer.data@.len() == 8,
{
    RaytracingBindGroups {
        image,
        iter_buffer: GpuBuffer { data: serialize_u32(iter.0) },
        vertex_buffer: vertex_buffer.vertex_buffer.duplicate(),
        index_buffer: vertex_buffer.index_buffer.duplicate(),
        mesh_buffer: mesh_buffer.buffer.duplicate(),
        num_meshes_buffer: GpuBuffer { data: serialize_u32(mesh_count as u32) },
        material_buffer: material_buffer.buffer.duplicate(),
        light_dir_buffer: GpuBuffer { data: serialize_vec3(light_dir.dir) },
        seed_buffer: GpuBuffer { data: draw_seed() },
    }
}

} // verus!
