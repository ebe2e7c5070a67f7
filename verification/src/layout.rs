//! Wire format of the GPU-visible data: every record is laid out
//! little-endian, field by field, and padded so its byte size is a multiple
//! of 16 — the binding contract the compute kernel is compiled against.
use crate::types::{Mat4Bits, ShaderMaterial, ShaderMesh, ShaderVertex, Vec3Bits, Vec4Bits};
use vstd::prelude::*;

verus! {

/// The four little-endian bytes of a 32-bit word.
#[verifier::opaque]
pub open spec fn u32_le(x: u32) -> Seq<u8> {
    seq![
        (x % 0x100) as u8,
        ((x / 0x100) % 0x100) as u8,
        ((x / 0x10000) % 0x100) as u8,
        ((x / 0x1000000) % 0x100) as u8,
    ]
}

/// A 32-bit word is four bytes on the wire.
pub broadcast proof fn lemma_u32_le_len(x: u32)
    ensures
        (#[trigger] u32_le(x)).len() == 4,
{
    reveal(u32_le);
}

pub open spec fn vec3_bytes(v: Vec3Bits) -> Seq<u8> {
    u32_le(v.x) + u32_le(v.y) + u32_le(v.z)
}

pub open spec fn vec4_bytes(v: Vec4Bits) -> Seq<u8> {
    u32_le(v.x) + u32_le(v.y) + u32_le(v.z) + u32_le(v.w)
}

pub open spec fn mat4_bytes(m: Mat4Bits) -> Seq<u8> {
    vec4_bytes(m.x_axis) + vec4_bytes(m.y_axis) + vec4_bytes(m.z_axis) + vec4_bytes(m.w_axis)
}

/// One vertex record: position, pad, normal, pad — 32 bytes.
pub open spec fn vertex_bytes(v: ShaderVertex) -> Seq<u8> {
    vec3_bytes(v.position) + u32_le(v.p1) + vec3_bytes(v.normal) + u32_le(v.p2)
}

/// One material slot: color, emissive, three scalars, pad — 48 bytes.
pub open spec fn material_bytes(m: ShaderMaterial) -> Seq<u8> {
    vec4_bytes(m.color) + vec4_bytes(m.emissive) + u32_le(m.roughness) + u32_le(m.metallic)
        + u32_le(m.specular) + u32_le(m.pad)
}

/// One instance descriptor: transform, range, slot, pad — 80 bytes.
pub open spec fn shader_mesh_bytes(m: ShaderMesh) -> Seq<u8> {
    mat4_bytes(m.transform) + u32_le(m.start_index) + u32_le(m.len_index) + u32_le(m.material)
        + u32_le(m.pad)
}

/// The shared vertex array on the wire: records in array order.
pub open spec fn vertex_array_bytes(s: Seq<ShaderVertex>) -> Seq<u8>
    decreases s.len(),
{
    if s.len() == 0 {
        Seq::empty()
    } else {
        vertex_array_bytes(s.drop_last()) + vertex_bytes(s.last())
    }
}

/// The shared index array on the wire: one 32-bit word per index.
pub open spec fn index_array_bytes(s: Seq<u32>) -> Seq<u8>
    decreases s.len(),
{
    if s.len() == 0 {
        Seq::empty()
    } else {
        index_array_bytes(s.drop_last()) + u32_le(s.last())
    }
}

/// The flat material array on the wire: slots in array order.
pub open spec fn material_array_bytes(s: Seq<ShaderMaterial>) -> Seq<u8>
    decreases s.len(),
{
    if s.len() == 0 {
        Seq::empty()
    } else {
        material_array_bytes(s.drop_last()) + material_bytes(s.last())
    }
}

/// The instance-descriptor array on the wire: descriptors in entity order.
pub open spec fn mesh_array_bytes(s: Seq<ShaderMesh>) -> Seq<u8>
    decreases s.len(),
{
    if s.len() == 0 {
        Seq::empty()
    } else {
        mesh_array_bytes(s.drop_last()) + shader_mesh_bytes(s.last())
    }
}

/// Every record crossing the GPU boundary has a byte size that is a multiple
/// of 16: 32 bytes per vertex, 48 per material slot, 80 per instance
/// descriptor.
pub proof fn lemma_record_sizes(v: ShaderVertex, m: ShaderMaterial, d: ShaderMesh)
    ensures
        vertex_bytes(v).len() == 32,
        material_bytes(m).len() == 48,
        shader_mesh_bytes(d).len() == 80,
        vertex_bytes(v).len() % 16 == 0,
        material_bytes(m).len() % 16 == 0,
        shader_mesh_bytes(d).len() % 16 == 0,
{
    lemma_vertex_size(v);
    lemma_material_size(m);
    lemma_shader_mesh_size(d);
}

proof fn lemma_vertex_size(v: ShaderVertex)
    ensures
        vertex_bytes(v).len() == 32,
{
    broadcast use lemma_u32_le_len;

    let a = vec3_bytes(v.position);
    let b = u32_le(v.p1);
    let c = vec3_bytes(v.normal);
    let d = u32_le(v.p2);
    assert(a.len() == 12);
    assert(c.len() == 12);
    assert((a + b).len() == 16);
    assert((a + b + c).len() == 28);
    assert(vertex_bytes(v) == a + b + c + d);
}

proof fn lemma_material_size(m: ShaderMaterial)
    ensures
        material_bytes(m).len() == 48,
{
    broadcast use lemma_u32_le_len;

    let a = vec4_bytes(m.color);
    let b = vec4_bytes(m.emissive);
    let c = u32_le(m.roughness);
    let d = u32_le(m.metallic);
    let e = u32_le(m.specular);
    let f = u32_le(m.pad);
    assert(a.len() == 16);
    assert(b.len() == 16);
    assert((a + b).len() == 32);
    assert((a + b + c).len() == 36);
    assert((a + b + c + d).len() == 40);
    assert((a + b + c + d + e).len() == 44);
    assert(material_bytes(m) == a + b + c + d + e + f);
}

proof fn lemma_mat4_size(m: Mat4Bits)
    ensures
        mat4_bytes(m).len() == 64,
{
    broadcast use lemma_u32_le_len;

    let a = vec4_bytes(m.x_axis);
    let b = vec4_bytes(m.y_axis);
    let c = vec4_bytes(m.z_axis);
    let d = vec4_bytes(m.w_axis);
    assert(a.len() == 16);
    assert(b.len() == 16);
    assert(c.len() == 16);
    assert(d.len() == 16);
    assert((a + b).len() == 32);
    assert((a + b + c).len() == 48);
    assert(mat4_bytes(m) == a + b + c + d);
}

proof fn lemma_shader_mesh_size(d: ShaderMesh)
    ensures
        shader_mesh_bytes(d).len() == 80,
{
    broadcast use lemma_u32_le_len;

    lemma_mat4_size(d.transform);
    let t = mat4_bytes(d.transform);
    let a = u32_le(d.start_index);
    let b = u32_le(d.len_index);
    let c = u32_le(d.material);
    let p = u32_le(d.pad);
    assert(a.len() == 4);
    assert(b.len() == 4);
    assert(c.len() == 4);
    assert(p.len() == 4);
    assert((t + a).len() == 68);
    assert((t + a + b).len() == 72);
    assert((t + a + b + c).len() == 76);
    assert(shader_mesh_bytes(d) == t + a + b + c + p);
}

/// The vertex array on the wire is 32 bytes per record, 16-byte aligned.
pub proof fn lemma_vertex_array_size(vs: Seq<ShaderVertex>)
    ensures
        vertex_array_bytes(vs).len() == 32 * vs.len(),
        vertex_array_bytes(vs).len() % 16 == 0,
    decreases vs.len(),
{
    if vs.len() > 0 {
        lemma_vertex_array_size(vs.drop_last());
        lemma_vertex_size(vs.last());
    }
}

/// The index array on the wire is 4 bytes per index.
pub proof fn lemma_index_array_size(is: Seq<u32>)
    ensures
        index_array_bytes(is).len() == 4 * is.len(),
    decreases is.len(),
{
    broadcast use lemma_u32_le_len;

    if is.len() > 0 {
        lemma_index_array_size(is.drop_last());
    }
}

/// The material array on the wire is 48 bytes per slot, 16-byte aligned.
pub proof fn lemma_material_array_size(ms: Seq<ShaderMaterial>)
    ensures
        material_array_bytes(ms).len() == 48 * ms.len(),
        material_array_bytes(ms).len() % 16 == 0,
    decreases ms.len(),
{
    if ms.len() > 0 {
        lemma_material_array_size(ms.drop_last());
        lemma_material_size(ms.last());
    }
}

/// The instance-descriptor array on the wire is 80 bytes per descriptor,
/// 16-byte aligned.
pub proof fn lemma_mesh_array_size(ds: Seq<ShaderMesh>)
    ensures
        mesh_array_bytes(ds).len() == 80 * ds.len(),
        mesh_array_bytes(ds).len() % 16 == 0,
    decreases ds.len(),
{
    if ds.len() > 0 {
        lemma_mesh_array_size(ds.drop_last());
        lemma_shader_mesh_size(ds.last());
    }
}

fn push_u32_le(out: &mut Vec<u8>, x: u32)
    ensures
        final(out)@ == old(out)@ + u32_le(x),
{
    out.push((x % 0x100) as u8);
    out.push(((x / 0x100) % 0x100) as u8);
    out.push(((x / 0x10000) % 0x100) as u8);
    out.push(((x / 0x1000000) % 0x100) as u8);
    proof {
        reveal(u32_le);
        assert(out@ =~= old(out)@ + u32_le(x));
    }
}

fn push_vec3(out: &mut Vec<u8>, v: Vec3Bits)
    ensures
        final(out)@ == old(out)@ + vec3_bytes(v),
{
    push_u32_le(out, v.x);
    push_u32_le(out, v.y);
    push_u32_le(out, v.z);
    proof {
        assert(out@ =~= old(out)@ + vec3_bytes(v));
    }
}

fn push_vec4(out: &mut Vec<u8>, v: Vec4Bits)
    ensures
        final(out)@ == old(out)@ + vec4_bytes(v),
{
    push_u32_le(out, v.x);
    push_u32_le(out, v.y);
    push_u32_le(out, v.z);
    push_u32_le(out, v.w);
    proof {
        assert(out@ =~= old(out)@ + vec4_bytes(v));
    }
}

fn push_mat4(out: &mut Vec<u8>, m: Mat4Bits)
    ensures
        final(out)@ == old(out)@ + mat4_bytes(m),
{
    push_vec4(out, m.x_axis);
    push_vec4(out, m.y_axis);
    push_vec4(out, m.z_axis);
    push_vec4(out, m.w_axis);
    proof {
        assert(out@ =~= old(out)@ + mat4_bytes(m));
    }
}


fn push_vertex(out: &mut Vec<u8>, v: ShaderVertex)
    ensures
        final(out)@ == old(out)@ + vertex_bytes(v),
{
    push_vec3(out, v.position);
    push_u32_le(out, v.p1);
    push_vec3(out, v.normal);
    push_u32_le(out, v.p2);
    proof {
        assert(out@ =~= old(out)@ + vertex_bytes(v));
    }
}

fn push_material(out: &mut Vec<u8>, m: ShaderMaterial)
    ensures
        final(out)@ == old(out)@ + material_bytes(m),
{
    push_vec4(out, m.color);
    push_vec4(out, m.emissive);
    push_u32_le(out, m.roughness);
    push_u32_le(out, m.metallic);
    push_u32_le(out, m.specular);
    push_u32_le(out, m.pad);
    proof {
        assert(out@ =~= old(out)@ + material_bytes(m));
    }
}

fn push_shader_mesh(out: &mut Vec<u8>, m: ShaderMesh)
    ensures
        final(out)@ == old(out)@ + shader_mesh_bytes(m),
{
    push_mat4(out, m.transform);
    push_u32_le(out, m.start_index);
    push_u32_le(out, m.len_index);
    push_u32_le(out, m.material);
    push_u32_le(out, m.pad);
    proof {
        assert(out@ =~= old(out)@ + shader_mesh_bytes(m));
    }
}

/// The four little-endian bytes of one 32-bit word, as uploaded for the
/// accumulation counter and the instance-count uniforms.
pub fn serialize_u32(x: u32) -> (r: Vec<u8>)
    ensures
        r@ == u32_le(x),
{
    let mut out: Vec<u8> = Vec::new();
    push_u32_le(&mut out, x);
    proof {
        assert(out@ =~= u32_le(x));
    }
    out
}

/// The light-direction uniform: three words, 12 bytes.
pub fn serialize_vec3(v: Vec3Bits) -> (r: Vec<u8>)
    ensures
        r@ == vec3_bytes(v),
{
    let mut out: Vec<u8> = Vec::new();
    push_vec3(&mut out, v);
    proof {
        assert(out@ =~= vec3_bytes(v));
    }
    out
}

/// The shared vertex array, serialized record by record.
pub fn serialize_vertices(s: &Vec<ShaderVertex>) -> (r: Vec<u8>)
    ensures
        r@ == vertex_array_bytes(s@),
{
    let mut out: Vec<u8> = Vec::new();
    for i in 0..s.len()
        invariant
            out@ == vertex_array_bytes(s@.take(i as int)),
    {
        push_vertex(&mut out, s[i]);
        proof {
            assert(s@.take(i + 1).drop_last() =~= s@.take(i as int));
            assert(s@.take(i + 1).last() == s@[i as int]);
            assert(out@ == vertex_array_bytes(s@.take(i + 1)));
        }
    }
    proof {
        assert(s@.take(s@.len() as int) =~= s@);
    }
    out
}

/// The shared index array, serialized word by word.
pub fn serialize_indices(s: &Vec<u32>) -> (r: Vec<u8>)
    ensures
        r@ == index_array_bytes(s@),
{
    let mut out: Vec<u8> = Vec::new();
    for i in 0..s.len()
        invariant
            out@ == index_array_bytes(s@.take(i as int)),
    {
        push_u32_le(&mut out, s[i]);
        proof {
            assert(s@.take(i + 1).drop_last() =~= s@.take(i as int));
            assert(out@ =~= index_array_bytes(s@.take(i + 1)));
        }
    }
    proof {
        assert(s@.take(s@.len() as int) =~= s@);
    }
    out
}

/// The flat material array, serialized slot by slot.
pub fn serialize_materials(s: &Vec<ShaderMaterial>) -> (r: Vec<u8>)
    ensures
        r@ == material_array_bytes(s@),
{
    let mut out: Vec<u8> = Vec::new();
    for i in 0..s.len()
        invariant
            out@ == material_array_bytes(s@.take(i as int)),
    {
        push_material(&mut out, s[i]);
        proof {
            assert(s@.take(i + 1).drop_last() =~= s@.take(i as int));
            assert(s@.take(i + 1).last() == s@[i as int]);
            assert(out@ == material_array_bytes(s@.take(i + 1)));
        }
    }
    proof {
        assert(s@.take(s@.len() as int) =~= s@);
    }
    out
}

/// The instance-descriptor array, serialized descriptor by descriptor.
pub fn serialize_shader_meshes(s: &Vec<ShaderMesh>) -> (r: Vec<u8>)
    ensures
        r@ == mesh_array_bytes(s@),
{
    let mut out: Vec<u8> = Vec::new();
    for i in 0..s.len()
        invariant
            out@ == mesh_array_bytes(s@.take(i as int)),
    {
        push_shader_mesh(&mut out, s[i]);
        proof {
            assert(s@.take(i + 1).drop_last() =~= s@.take(i as int));
            assert(s@.take(i + 1).last() == s@[i as int]);
            assert(out@ == mesh_array_bytes(s@.take(i + 1)));
        }
    }
    proof {
        assert(s@.take(s@.len() as int) =~= s@);
    }
    out
}

} // verus!
