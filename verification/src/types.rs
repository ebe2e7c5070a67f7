//! Data model of the pipeline: scene entities, mesh and material assets,
//! the GPU-facing record types, and the deduplication tables built from them.
//!
//! GPU-facing scalars are carried as raw 32-bit patterns (`u32`); the host
//! only moves them, so the tables and the byte layout can be stated exactly.
use std::collections::HashMap;
use vstd::prelude::*;

verus! {

broadcast use vstd::std_specs::hash::group_hash_axioms;

/// Three 32-bit scalar lanes of a GPU vector, carried as raw bit patterns.
#[derive(Clone, Copy, PartialEq, Eq, Structural, Debug)]
pub struct Vec3Bits {
    pub x: u32,
    pub y: u32,
    pub z: u32,
}

/// Four 32-bit scalar lanes of a GPU vector, carried as raw bit patterns.
#[derive(Clone, Copy, PartialEq, Eq, Structural, Debug)]
pub struct Vec4Bits {
    pub x: u32,
    pub y: u32,
    pub z: u32,
    pub w: u32,
}

/// A 4x4 transform matrix as four column vectors of raw bit patterns.
#[derive(Clone, Copy, PartialEq, Eq, Structural, Debug)]
pub struct Mat4Bits {
    pub x_axis: Vec4Bits,
    pub y_axis: Vec4Bits,
    pub z_axis: Vec4Bits,
    pub w_axis: Vec4Bits,
}

/// One vertex record of the shared vertex array: position and normal, each
/// padded to a 16-byte-aligned slot (32 bytes per record on the wire).
#[derive(Clone, Copy, PartialEq, Eq, Structural, Debug)]
pub struct ShaderVertex {
    pub position: Vec3Bits,
    pub p1: u32,
    pub normal: Vec3Bits,
    pub p2: u32,
}

/// One slot of the flat material array (48 bytes on the wire).
#[derive(Clone, Copy, PartialEq, Eq, Structural, Debug)]
pub struct ShaderMaterial {
    pub color: Vec4Bits,
    pub emissive: Vec4Bits,
    pub roughness: u32,
    pub metallic: u32,
    pub specular: u32,
    pub pad: u32,
}

/// One per-instance descriptor: transform, the mesh's range in the shared
/// index array, and the material's slot (80 bytes on the wire).
#[derive(Clone, Copy, PartialEq, Eq, Structural, Debug)]
pub struct ShaderMesh {
    pub transform: Mat4Bits,
    pub start_index: u32,
    pub len_index: u32,
    pub material: u32,
    pub pad: u32,
}

/// One scene entity as the extractor sees it: a transform plus the identities
/// of the mesh and the material it references.
#[derive(Clone, Copy, PartialEq, Eq, Structural, Debug)]
pub struct ExtractedMesh {
    pub transform: Mat4Bits,
    pub material: u64,
    pub mesh: u64,
}

/// Mesh content as delivered by the scene collaborator. A ray-traceable mesh
/// needs positions, normals and indices; a `None` field is a fatal asset bug.
#[derive(Clone, Debug)]
pub struct MeshAsset {
    pub positions: Option<Vec<Vec3Bits>>,
    pub normals: Option<Vec<Vec3Bits>>,
    pub indices: Option<Vec<u32>>,
}

/// Material content as delivered by the scene collaborator.
#[derive(Clone, Copy, PartialEq, Eq, Structural, Debug)]
pub struct MaterialAsset {
    pub color: Vec4Bits,
    pub emissive: Vec4Bits,
    pub roughness: u32,
    pub metallic: u32,
    pub specular: u32,
}

/// The directional light vector, re-read every frame.
#[derive(Clone, Copy, PartialEq, Eq, Structural, Debug)]
pub struct LightDir {
    pub dir: Vec3Bits,
}

/// The progressive-accumulation counter: one sample is accumulated per frame,
/// and a scene change resets the count.
#[derive(Clone, Copy, PartialEq, Eq, Structural, Debug)]
pub struct TextureIter(pub u32);

/// The shared vertex/index arrays and the mesh dedup table mapping each mesh
/// identity to its `(index offset, index count)` range.
pub struct VertexStorage {
    pub mesh_map: HashMap<u64, (usize, usize)>,
    pub verticies: Vec<ShaderVertex>,
    pub indicies: Vec<u32>,
}

impl VertexStorage {
    /// Well-formedness: every index addresses an existing vertex slot, every
    /// dedup entry lies inside the index array, and both arrays fit the
    /// 32-bit offsets the GPU records use.
    pub open spec fn wf(self) -> bool {
        &&& self.verticies@.len() <= u32::MAX
        &&& self.indicies@.len() <= u32::MAX
        &&& forall|k: int|
            0 <= k < self.indicies@.len() ==> self.indicies@[k] < self.verticies@.len()
        &&& forall|id: u64| #[trigger]
            self.mesh_map@.contains_key(id) ==> self.mesh_map@[id].0 + self.mesh_map@[id].1
                <= self.indicies@.len()
    }
}

impl Default for VertexStorage {
    fn default() -> (s: Self)
        ensures
            s.mesh_map@ == Map::<u64, (usize, usize)>::empty(),
            s.verticies@ == Seq::<ShaderVertex>::empty(),
            s.indicies@ == Seq::<u32>::empty(),
            s.wf(),
    {
        Self { mesh_map: HashMap::new(), verticies: Vec::new(), indicies: Vec::new() }
    }
}

/// The flat material array and the material dedup table mapping each material
/// identity to its slot.
pub struct MaterialStorage {
    pub material_vec: Vec<ShaderMaterial>,
    pub material_map: HashMap<u64, usize>,
}

impl MaterialStorage {
    /// Well-formedness: every dedup slot addresses an existing material, and
    /// the array fits the 32-bit slot numbers the GPU records use.
    pub open spec fn wf(self) -> bool {
        &&& self.material_vec@.len() <= u32::MAX
        &&& forall|id: u64| #[trigger]
            self.material_map@.contains_key(id) ==> self.material_map@[id]
                < self.material_vec@.len()
    }
}

impl Default for MaterialStorage {
    fn default() -> (s: Self)
        ensures
            s.material_vec@ == Seq::<ShaderMaterial>::empty(),
            s.material_map@ == Map::<u64, usize>::empty(),
            s.wf(),
    {
        Self { material_vec: Vec::new(), material_map: HashMap::new() }
    }
}

/// The flat per-instance list, rebuilt whenever any entity's transform or
/// references change.
pub struct MeshStorage {
    pub meshes: Vec<ExtractedMesh>,
}

impl Default for MeshStorage {
    fn default() -> (s: Self)
        ensures
            s.meshes@ == Seq::<ExtractedMesh>::empty(),
    {
        Self { meshes: Vec::new() }
    }
}

/// A fatal extraction failure: the scene or asset pipeline is corrupt and the
/// frame's pipeline construction is abandoned.
#[derive(Clone, Copy, PartialEq, Eq, Structural, Debug)]
pub enum ExtractError {
    /// An entity references a mesh identity with no asset behind it.
    MeshAssetMissing,
    /// A referenced mesh asset has no position data.
    MeshPositionsMissing,
    /// A referenced mesh asset has no normal data.
    MeshNormalsMissing,
    /// A referenced mesh asset has no index data.
    MeshIndicesMissing,
    /// A mesh index addresses a vertex slot the mesh does not have.
    IndexOutOfRange,
    /// An entity references a material identity with no asset behind it.
    MaterialAssetMissing,
    /// An instance references a mesh identity absent from the dedup table.
    UnknownMeshId,
    /// An instance references a material identity absent from the dedup table.
    UnknownMaterialId,
}

} // verus!
