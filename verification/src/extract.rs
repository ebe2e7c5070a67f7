//! Scene extraction: dedup of mesh and material identities, the shared
//! vertex/index arrays, the flat material array, and the per-instance list.
//!
//! Each rebuild is a pure function of the scene snapshot, stated exactly by
//! the spec-level folds below, so re-extracting an unchanged scene is
//! guaranteed to reproduce the same tables.
use crate::types::{
    ExtractError, ExtractedMesh, MaterialAsset, MaterialStorage, MeshAsset, MeshStorage,
    ShaderMaterial, ShaderVertex, Vec3Bits, VertexStorage,
};
use itertools::Itertools;
use std::collections::HashMap;
use vstd::prelude::*;

verus! {

broadcast use vstd::std_specs::hash::group_hash_axioms;

/// The distinct elements of `s`, in order of first occurrence.
pub open spec fn first_occurrences(s: Seq<u64>) -> Seq<u64>
    decreases s.len(),
{
    if s.len() == 0 {
        Seq::empty()
    } else {
        let p = first_occurrences(s.drop_last());
        if p.contains(s.last()) {
            p
        } else {
            p.push(s.last())
        }
    }
}

pub proof fn lemma_first_occurrences_no_duplicates(s: Seq<u64>)
    ensures
        first_occurrences(s).no_duplicates(),
        forall|x: u64| first_occurrences(s).contains(x) <==> s.contains(x),
        first_occurrences(s).len() <= s.len(),
    decreases s.len(),
{
    if s.len() > 0 {
        lemma_first_occurrences_no_duplicates(s.drop_last());
        let p = first_occurrences(s.drop_last());
        assert forall|x: u64| first_occurrences(s).contains(x) implies s.contains(x) by {
            if p.contains(x) {
                let i = choose|i: int| 0 <= i < p.len() && p[i] == x;
                assert(s.drop_last().contains(x));
                let j = choose|j: int| 0 <= j < s.drop_last().len() && s.drop_last()[j] == x;
                assert(s[j] == x);
            } else {
                assert(x == s.last());
                assert(s[s.len() - 1] == x);
            }
        }
        assert forall|x: u64| s.contains(x) implies first_occurrences(s).contains(x) by {
            let j = choose|j: int| 0 <= j < s.len() && s[j] == x;
            if j < s.len() - 1 {
                assert(s.drop_last()[j] == x);
                assert(s.drop_last().contains(x));
                if !p.contains(s.last()) {
                    assert(first_occurrences(s)[choose|i: int|
                        0 <= i < p.len() && p[i] == x] == x);
                }
            } else {
                if !p.contains(s.last()) {
                    assert(first_occurrences(s).last() == x);
                } else {
                    assert(p.contains(x));
                }
            }
        }
    }
}

/// The mesh identities the entities reference, in entity order.
pub open spec fn mesh_ids(entities: Seq<ExtractedMesh>) -> Seq<u64> {
    entities.map_values(|e: ExtractedMesh| e.mesh)
}

/// The material identities the entities reference, in entity order.
pub open spec fn material_ids(entities: Seq<ExtractedMesh>) -> Seq<u64> {
    entities.map_values(|e: ExtractedMesh| e.material)
}

/// Relies on itertools' `unique` iterator adaptor: it filters out elements
/// already produced, yielding each distinct element once, in order of first
/// occurrence.
#[verifier::external_body]
fn unique_u64s(v: &Vec<u64>) -> (r: Vec<u64>)
    ensures
        r@ == first_occurrences(v@),
{
    v.iter().copied().unique().collect()
}

fn collect_mesh_ids(entities: &Vec<ExtractedMesh>) -> (r: Vec<u64>)
    ensures
        r@ == mesh_ids(entities@),
{
    let mut r: Vec<u64> = Vec::new();
    for i in 0..entities.len()
        invariant
            r@ == mesh_ids(entities@.take(i as int)),
    {
        r.push(entities[i].mesh);
        proof {
            assert(entities@.take(i + 1).drop_last() =~= entities@.take(i as int));
            assert(mesh_ids(entities@.take(i + 1)) =~= mesh_ids(entities@.take(i as int)).push(
                entities@[i as int].mesh,
            ));
        }
    }
    proof {
        assert(entities@.take(entities@.len() as int) =~= entities@);
    }
    r
}

fn collect_material_ids(entities: &Vec<ExtractedMesh>) -> (r: Vec<u64>)
    ensures
        r@ == material_ids(entities@),
{
    let mut r: Vec<u64> = Vec::new();
    for i in 0..entities.len()
        invariant
            r@ == material_ids(entities@.take(i as int)),
    {
        r.push(entities[i].material);
        proof {
            assert(entities@.take(i + 1).drop_last() =~= entities@.take(i as int));
            assert(material_ids(entities@.take(i + 1)) =~= material_ids(
                entities@.take(i as int),
            ).push(entities@[i as int].material));
        }
    }
    proof {
        assert(entities@.take(entities@.len() as int) =~= entities@);
    }
    r
}

/// The material slot written for one material asset.
pub open spec fn shader_material_of(a: MaterialAsset) -> ShaderMaterial {
    ShaderMaterial {
        color: a.color,
        emissive: a.emissive,
        roughness: a.roughness,
        metallic: a.metallic,
        specular: a.specular,
        pad: 0,
    }
}

/// The first fatal failure when looking up the given material identities, in
/// order; `None` when every identity has an asset.
pub open spec fn material_tables_error(ids: Seq<u64>, assets: Map<u64, MaterialAsset>) -> Option<
    ExtractError,
>
    decreases ids.len(),
{
    if ids.len() == 0 {
        None
    } else {
        let p = material_tables_error(ids.drop_last(), assets);
        if p is Some {
            p
        } else if !assets.contains_key(ids.last()) {
            Some(ExtractError::MaterialAssetMissing)
        } else {
            None
        }
    }
}

/// The flat material array built for the given identities, in order.
pub open spec fn materials_of(ids: Seq<u64>, assets: Map<u64, MaterialAsset>) -> Seq<
    ShaderMaterial,
>
    decreases ids.len(),
{
    if ids.len() == 0 {
        Seq::empty()
    } else {
        materials_of(ids.drop_last(), assets).push(shader_material_of(assets[ids.last()]))
    }
}

/// The material dedup table: each identity maps to the slot of its array
/// entry.
pub open spec fn material_map_of(ids: Seq<u64>, assets: Map<u64, MaterialAsset>) -> Map<u64, usize>
    decreases ids.len(),
{
    if ids.len() == 0 {
        Map::empty()
    } else {
        material_map_of(ids.drop_last(), assets).insert(
            ids.last(),
            ids.drop_last().len() as usize,
        )
    }
}

proof fn lemma_material_error_propagates(ids: Seq<u64>, assets: Map<u64, MaterialAsset>, j: int)
    requires
        0 <= j < ids.len(),
        material_tables_error(ids.take(j), assets) is None,
        !assets.contains_key(ids[j]),
    ensures
        material_tables_error(ids, assets) == Some(ExtractError::MaterialAssetMissing),
    decreases ids.len(),
{
    if ids.len() == j + 1 {
        assert(ids.drop_last() =~= ids.take(j));
    } else {
        assert(ids.drop_last().take(j) =~= ids.take(j));
        assert(ids.drop_last()[j] == ids[j]);
        lemma_material_error_propagates(ids.drop_last(), assets, j);
    }
}

/// On a material-content change the full unique-material set is recomputed
/// and the flat material array and its dedup map are rebuilt from scratch.
///
/// Succeeds exactly when every referenced material identity has an asset;
/// otherwise the first missing identity is reported and nothing is built.
pub fn rebuild_material_tables(
    entities: &Vec<ExtractedMesh>,
    material_assets: &HashMap<u64, MaterialAsset>,
) -> (r: Result<MaterialStorage, ExtractError>)
    requires
        entities@.len() <= u32::MAX,
    ensures
        match r {
            Ok(ms) => {
                let uids = first_occurrences(material_ids(entities@));
                &&& material_tables_error(uids, material_assets@) is None
                &&& ms.material_vec@ == materials_of(uids, material_assets@)
                &&& ms.material_map@ == material_map_of(uids, material_assets@)
                &&& ms.wf()
            },
            Err(e) => material_tables_error(
                first_occurrences(material_ids(entities@)),
                material_assets@,
            ) == Some(e),
        },
{
    let ids = collect_material_ids(entities);
    let uids = unique_u64s(&ids);
    proof {
        lemma_first_occurrences_no_duplicates(ids@);
    }
    let ghost guids = uids@;
    let mut material_vec: Vec<ShaderMaterial> = Vec::new();
    let mut material_map: HashMap<u64, usize> = HashMap::new();
    for j in 0..uids.len()
        invariant
            guids == uids@,
            guids == first_occurrences(material_ids(entities@)),
            guids.len() <= u32::MAX,
            material_tables_error(guids.take(j as int), material_assets@) is None,
            material_vec@ == materials_of(guids.take(j as int), material_assets@),
            material_map@ == material_map_of(guids.take(j as int), material_assets@),
            material_vec@.len() == j,
            forall|id: u64| #[trigger]
                material_map@.contains_key(id) ==> material_map@[id] < material_vec@.len(),
    {
        let id = uids[j];
        proof {
            assert(guids.take(j + 1).drop_last() =~= guids.take(j as int));
            assert(guids.take(j + 1).last() == guids[j as int]);
            assert(materials_of(guids.take(j as int), material_assets@).len() == guids.take(
                j as int,
            ).len()) by {
                lemma_materials_of_len(guids.take(j as int), material_assets@);
            }
        }
        match material_assets.get(&id) {
            Some(asset) => {
                material_vec.push(
                    ShaderMaterial {
                        color: asset.color,
                        emissive: asset.emissive,
                        roughness: asset.roughness,
                        metallic: asset.metallic,
                        specular: asset.specular,
                        pad: 0,
                    },
                );
                material_map.insert(id, material_vec.len() - 1);
            },
            None => {
                proof {
                    lemma_material_error_propagates(guids, material_assets@, j as int);
                }
                return Err(ExtractError::MaterialAssetMissing);
            },
        }
    }
    proof {
        assert(guids.take(guids.len() as int) =~= guids);
    }
    Ok(MaterialStorage { material_vec, material_map })
}

pub proof fn lemma_materials_of_len(ids: Seq<u64>, assets: Map<u64, MaterialAsset>)
    ensures
        materials_of(ids, assets).len() == ids.len(),
    decreases ids.len(),
{
    if ids.len() > 0 {
        lemma_materials_of_len(ids.drop_last(), assets);
    }
}

/// The position records of a mesh asset (meaningful when present).
pub open spec fn mesh_positions(a: MeshAsset) -> Seq<Vec3Bits> {
    a.positions->0@
}

/// The normal records of a mesh asset (meaningful when present).
pub open spec fn mesh_normals(a: MeshAsset) -> Seq<Vec3Bits> {
    a.normals->0@
}

/// The index list of a mesh asset (meaningful when present).
pub open spec fn mesh_indices(a: MeshAsset) -> Seq<u32> {
    a.indices->0@
}

/// How many vertex records the mesh contributes: positions and normals are
/// paired up, so the shorter of the two decides.
pub open spec fn mesh_vcount(a: MeshAsset) -> int {
    if mesh_positions(a).len() <= mesh_normals(a).len() {
        mesh_positions(a).len() as int
    } else {
        mesh_normals(a).len() as int
    }
}

/// The vertex records one mesh appends to the shared vertex array.
pub open spec fn mesh_vertices(a: MeshAsset) -> Seq<ShaderVertex> {
    Seq::new(
        mesh_vcount(a) as nat,
        |i: int| ShaderVertex { position: mesh_positions(a)[i], p1: 0, normal: mesh_normals(a)[i], p2: 0 },
    )
}

/// The first fatal failure of one mesh asset: missing asset, missing
/// attribute data, or an index addressing a vertex the mesh does not have.
pub open spec fn mesh_error(assets: Map<u64, MeshAsset>, id: u64) -> Option<ExtractError> {
    if !assets.contains_key(id) {
        Some(ExtractError::MeshAssetMissing)
    } else if assets[id].positions is None {
        Some(ExtractError::MeshPositionsMissing)
    } else if assets[id].normals is None {
        Some(ExtractError::MeshNormalsMissing)
    } else if assets[id].indices is None {
        Some(ExtractError::MeshIndicesMissing)
    } else if exists|k: int|
        0 <= k < mesh_indices(assets[id]).len() && mesh_indices(assets[id])[k] >= mesh_vcount(
            assets[id],
        ) {
        Some(ExtractError::IndexOutOfRange)
    } else {
        None
    }
}

/// The first fatal failure over the given mesh identities, in order; `None`
/// when every mesh is complete and internally consistent.
pub open spec fn vertex_tables_error(ids: Seq<u64>, assets: Map<u64, MeshAsset>) -> Option<
    ExtractError,
>
    decreases ids.len(),
{
    if ids.len() == 0 {
        None
    } else {
        let p = vertex_tables_error(ids.drop_last(), assets);
        if p is Some {
            p
        } else {
            mesh_error(assets, ids.last())
        }
    }
}

/// The shared vertex array: each unique mesh's records, concatenated in
/// dedup order.
pub open spec fn vertices_of(ids: Seq<u64>, assets: Map<u64, MeshAsset>) -> Seq<ShaderVertex>
    decreases ids.len(),
{
    if ids.len() == 0 {
        Seq::empty()
    } else {
        vertices_of(ids.drop_last(), assets) + mesh_vertices(assets[ids.last()])
    }
}

/// A mesh's index list shifted by the vertex slot its records start at.
pub open spec fn adjusted_indices(a: MeshAsset, base: int) -> Seq<u32> {
    mesh_indices(a).map_values(|x: u32| (base + x) as u32)
}

/// The shared index array: each unique mesh's offset-adjusted indices,
/// concatenated in dedup order.
pub open spec fn indices_of(ids: Seq<u64>, assets: Map<u64, MeshAsset>) -> Seq<u32>
    decreases ids.len(),
{
    if ids.len() == 0 {
        Seq::empty()
    } else {
        indices_of(ids.drop_last(), assets) + adjusted_indices(
            assets[ids.last()],
            vertices_of(ids.drop_last(), assets).len() as int,
        )
    }
}

/// The mesh dedup table: each identity maps to its `(index offset, index
/// count)` range in the shared index array.
pub open spec fn mesh_map_of(ids: Seq<u64>, assets: Map<u64, MeshAsset>) -> Map<u64, (usize, usize)>
    decreases ids.len(),
{
    if ids.len() == 0 {
        Map::empty()
    } else {
        mesh_map_of(ids.drop_last(), assets).insert(
            ids.last(),
            (
                indices_of(ids.drop_last(), assets).len() as usize,
                mesh_indices(assets[ids.last()]).len() as usize,
            ),
        )
    }
}

proof fn lemma_vertex_error_propagates(ids: Seq<u64>, assets: Map<u64, MeshAsset>, j: int)
    requires
        0 <= j < ids.len(),
        vertex_tables_error(ids.take(j), assets) is None,
        mesh_error(assets, ids[j]) is Some,
    ensures
        vertex_tables_error(ids, assets) == mesh_error(assets, ids[j]),
    decreases ids.len(),
{
    if ids.len() == j + 1 {
        assert(ids.drop_last() =~= ids.take(j));
    } else {
        assert(ids.drop_last().take(j) =~= ids.take(j));
        assert(ids.drop_last()[j] == ids[j]);
        lemma_vertex_error_propagates(ids.drop_last(), assets, j);
    }
}

/// When every mesh passed validation, each one individually is complete and
/// internally consistent.
pub proof fn lemma_vertex_error_none_all(ids: Seq<u64>, assets: Map<u64, MeshAsset>)
    requires
        vertex_tables_error(ids, assets) is None,
    ensures
        forall|j: int| 0 <= j < ids.len() ==> #[trigger] mesh_error(assets, ids[j]) is None,
    decreases ids.len(),
{
    if ids.len() > 0 {
        lemma_vertex_error_none_all(ids.drop_last(), assets);
        assert forall|j: int| 0 <= j < ids.len() implies #[trigger] mesh_error(
            assets,
            ids[j],
        ) is None by {
            if j < ids.len() - 1 {
                assert(ids.drop_last()[j] == ids[j]);
            }
        }
    }
}

/// The vertex and index arrays grow mesh by mesh, so any dedup prefix is a
/// prefix of the full arrays.
pub proof fn lemma_tables_take_le(ids: Seq<u64>, assets: Map<u64, MeshAsset>, j: int)
    requires
        0 <= j <= ids.len(),
    ensures
        vertices_of(ids.take(j), assets).len() <= vertices_of(ids, assets).len(),
        indices_of(ids.take(j), assets).len() <= indices_of(ids, assets).len(),
    decreases ids.len(),
{
    if j < ids.len() {
        assert(ids.drop_last().take(j) =~= ids.take(j));
        lemma_tables_take_le(ids.drop_last(), assets, j);
    } else {
        assert(ids.take(j) =~= ids);
    }
}

/// Index-range safety: every value of the shared index array addresses a
/// vertex slot strictly below the vertex-array length.
pub proof fn lemma_indices_in_range(ids: Seq<u64>, assets: Map<u64, MeshAsset>)
    requires
        vertex_tables_error(ids, assets) is None,
        vertices_of(ids, assets).len() <= u32::MAX,
    ensures
        forall|k: int|
            0 <= k < indices_of(ids, assets).len() ==> indices_of(ids, assets)[k] < vertices_of(
                ids,
                assets,
            ).len(),
    decreases ids.len(),
{
    if ids.len() > 0 {
        let front = ids.drop_last();
        let a = assets[ids.last()];
        let base = vertices_of(front, assets).len() as int;
        lemma_indices_in_range(front, assets);
        assert forall|k: int| 0 <= k < indices_of(ids, assets).len() implies indices_of(
            ids,
            assets,
        )[k] < vertices_of(ids, assets).len() by {
            let nf = indices_of(front, assets).len();
            if k < nf {
                assert(indices_of(ids, assets)[k] == indices_of(front, assets)[k]);
            } else {
                let x = mesh_indices(a)[k - nf];
                assert(adjusted_indices(a, base)[k - nf] == (base + x) as u32);
                assert(x < mesh_vcount(a));
            }
        }
    }
}

/// Every dedup entry lies inside the shared index array, exactly the
/// referenced identities have entries, and each entry's count is its mesh's
/// index count starting at the offset recorded for it.
pub proof fn lemma_mesh_map_entries(ids: Seq<u64>, assets: Map<u64, MeshAsset>)
    requires
        indices_of(ids, assets).len() <= u32::MAX,
    ensures
        forall|id: u64| #[trigger]
            mesh_map_of(ids, assets).contains_key(id) <==> ids.contains(id),
        forall|id: u64| #[trigger]
            mesh_map_of(ids, assets).contains_key(id) ==> mesh_map_of(ids, assets)[id].0
                + mesh_map_of(ids, assets)[id].1 <= indices_of(ids, assets).len(),
    decreases ids.len(),
{
    if ids.len() > 0 {
        let front = ids.drop_last();
        let a = assets[ids.last()];
        let base = vertices_of(front, assets).len() as int;
        assert(adjusted_indices(a, base).len() == mesh_indices(a).len());
        assert(indices_of(ids, assets).len() == indices_of(front, assets).len() + mesh_indices(
            a,
        ).len());
        lemma_mesh_map_entries(front, assets);
        assert forall|id: u64| #[trigger]
            mesh_map_of(ids, assets).contains_key(id) implies mesh_map_of(ids, assets)[id].0
            + mesh_map_of(ids, assets)[id].1 <= indices_of(ids, assets).len() by {
            if id == ids.last() {
                assert(mesh_map_of(ids, assets)[id] == (
                    indices_of(front, assets).len() as usize,
                    mesh_indices(a).len() as usize,
                ));
            } else {
                assert(mesh_map_of(front, assets).contains_key(id));
                assert(mesh_map_of(ids, assets)[id] == mesh_map_of(front, assets)[id]);
            }
        }
        assert forall|id: u64| #[trigger]
            mesh_map_of(ids, assets).contains_key(id) implies ids.contains(id) by {
            if id == ids.last() {
                assert(ids[ids.len() - 1] == id);
            } else {
                assert(mesh_map_of(front, assets).contains_key(id));
                assert(front.contains(id));
                let i = choose|i: int| 0 <= i < front.len() && front[i] == id;
                assert(ids[i] == id);
            }
        }
        assert forall|id: u64| ids.contains(id) implies mesh_map_of(ids, assets).contains_key(
            id,
        ) by {
            let i = choose|i: int| 0 <= i < ids.len() && ids[i] == id;
            if i < ids.len() - 1 {
                assert(front[i] == id);
                assert(front.contains(id));
                assert(mesh_map_of(front, assets).contains_key(id));
            }
        }
    }
}

#[verifier::loop_isolation(false)]
fn check_mesh(mesh_assets: &HashMap<u64, MeshAsset>, id: u64) -> (r: Option<ExtractError>)
    ensures
        r == mesh_error(mesh_assets@, id),
{
    let asset = match mesh_assets.get(&id) {
        Some(a) => a,
        None => {
            return Some(ExtractError::MeshAssetMissing);
        },
    };
    let positions = match &asset.positions {
        Some(p) => p,
        None => {
            return Some(ExtractError::MeshPositionsMissing);
        },
    };
    let normals = match &asset.normals {
        Some(p) => p,
        None => {
            return Some(ExtractError::MeshNormalsMissing);
        },
    };
    let idx = match &asset.indices {
        Some(p) => p,
        None => {
            return Some(ExtractError::MeshIndicesMissing);
        },
    };
    let n = if positions.len() <= normals.len() {
        positions.len()
    } else {
        normals.len()
    };
    let ghost ga = mesh_assets@[id];
    for k in 0..idx.len()
        invariant
            mesh_assets@.contains_key(id),
            ga == mesh_assets@[id],
            ga.indices is Some,
            idx@ == mesh_indices(ga),
            n as int == mesh_vcount(ga),
            forall|k2: int| 0 <= k2 < k ==> mesh_indices(ga)[k2] < mesh_vcount(ga),
    {
        if idx[k] as usize >= n {
            proof {
                assert(mesh_indices(ga)[k as int] >= mesh_vcount(ga));
            }
            return Some(ExtractError::IndexOutOfRange);
        }
    }
    None
}

/// On a mesh-content change the full unique-mesh set is recomputed and the
/// shared vertex/index arrays and the mesh dedup map are rebuilt from
/// scratch. Each unique mesh appends its paired position/normal records to
/// the shared vertex array and its offset-adjusted indices to the shared
/// index array, and records its `(offset, count)` range under its identity.
///
/// Succeeds exactly when every referenced mesh has an asset with positions,
/// normals and indices, all indices in range; otherwise the first failure is
/// reported and nothing is built.
#[verifier::loop_isolation(false)]
#[verifier::rlimit(80)]
pub fn rebuild_vertex_tables(
    entities: &Vec<ExtractedMesh>,
    mesh_assets: &HashMap<u64, MeshAsset>,
) -> (r: Result<VertexStorage, ExtractError>)
    requires
        vertex_tables_error(first_occurrences(mesh_ids(entities@)), mesh_assets@) is None ==> {
            &&& vertices_of(first_occurrences(mesh_ids(entities@)), mesh_assets@).len()
                <= u32::MAX
            &&& indices_of(first_occurrences(mesh_ids(entities@)), mesh_assets@).len()
                <= u32::MAX
        },
    ensures
        match r {
            Ok(vs) => {
                let uids = first_occurrences(mesh_ids(entities@));
                &&& vertex_tables_error(uids, mesh_assets@) is None
                &&& vs.verticies@ == vertices_of(uids, mesh_assets@)
                &&& vs.indicies@ == indices_of(uids, mesh_assets@)
                &&& vs.mesh_map@ == mesh_map_of(uids, mesh_assets@)
                &&& vs.wf()
            },
            Err(e) => vertex_tables_error(first_occurrences(mesh_ids(entities@)), mesh_assets@)
                == Some(e),
        },
{
    let ids = collect_mesh_ids(entities);
    let uids = unique_u64s(&ids);
    let ghost guids = uids@;
    for j in 0..uids.len()
        invariant
            vertex_tables_error(guids.take(j as int), mesh_assets@) is None,
    {
        if let Some(e) = check_mesh(mesh_assets, uids[j]) {
            proof {
                lemma_vertex_error_propagates(guids, mesh_assets@, j as int);
            }
            return Err(e);
        }
        proof {
            assert(guids.take(j + 1).drop_last() =~= guids.take(j as int));
            assert(guids.take(j + 1).last() == guids[j as int]);
        }
    }
    proof {
        assert(guids.take(guids.len() as int) =~= guids);
        lemma_vertex_error_none_all(guids, mesh_assets@);
    }
    let mut verticies: Vec<ShaderVertex> = Vec::new();
    let mut indicies: Vec<u32> = Vec::new();
    let mut mesh_map: HashMap<u64, (usize, usize)> = HashMap::new();
    for j in 0..uids.len()
        invariant
            verticies@ == vertices_of(guids.take(j as int), mesh_assets@),
            indicies@ == indices_of(guids.take(j as int), mesh_assets@),
            mesh_map@ == mesh_map_of(guids.take(j as int), mesh_assets@),
    {
        let id = uids[j];
        proof {
            assert(mesh_error(mesh_assets@, guids[j as int]) is None);
        }
        let asset = match mesh_assets.get(&id) {
            Some(a) => a,
            None => {
                return Err(ExtractError::MeshAssetMissing);
            },
        };
        let ghost ga = mesh_assets@[id];
        let positions = match &asset.positions {
            Some(p) => p,
            None => {
                return Err(ExtractError::MeshPositionsMissing);
            },
        };
        let normals = match &asset.normals {
            Some(p) => p,
            None => {
                return Err(ExtractError::MeshNormalsMissing);
            },
        };
        let idx = match &asset.indices {
            Some(p) => p,
            None => {
                return Err(ExtractError::MeshIndicesMissing);
            },
        };
        let n = if positions.len() <= normals.len() {
            positions.len()
        } else {
            normals.len()
        };
        proof {
            assert(n as int == mesh_vcount(ga));
            assert(guids.take(j + 1).drop_last() =~= guids.take(j as int));
            assert(guids.take(j + 1).last() == guids[j as int]);
            lemma_tables_take_le(guids, mesh_assets@, j + 1);
        }
        let vertex_base = verticies.len();
        for i in 0..n
            invariant
                verticies@ == vertices_of(guids.take(j as int), mesh_assets@) + mesh_vertices(
                    ga,
                ).take(i as int),
        {
            verticies.push(
                ShaderVertex { position: positions[i], p1: 0, normal: normals[i], p2: 0 },
            );
            proof {
                assert(mesh_vertices(ga).take(i + 1) =~= mesh_vertices(ga).take(i as int).push(
                    mesh_vertices(ga)[i as int],
                ));
            }
        }
        proof {
            assert(mesh_vertices(ga).take(mesh_vcount(ga) as int) =~= mesh_vertices(ga));
            assert(verticies@ == vertices_of(guids.take(j + 1), mesh_assets@));
        }
        let index_first = indicies.len();
        let ghost base = vertices_of(guids.take(j as int), mesh_assets@).len() as int;
        for k in 0..idx.len()
            invariant
                indicies@ == indices_of(guids.take(j as int), mesh_assets@) + adjusted_indices(
                    ga,
                    base,
                ).take(k as int),
        {
            proof {
                assert(mesh_indices(ga)[k as int] < mesh_vcount(ga));
                assert(base + mesh_indices(ga)[k as int] < vertices_of(
                    guids.take(j + 1),
                    mesh_assets@,
                ).len());
            }
            indicies.push(vertex_base as u32 + idx[k]);
            proof {
                assert(adjusted_indices(ga, base)[k as int] == (base + mesh_indices(
                    ga,
                )[k as int]) as u32);
                assert(adjusted_indices(ga, base).take(k + 1) =~= adjusted_indices(
                    ga,
                    base,
                ).take(k as int).push(adjusted_indices(ga, base)[k as int]));
            }
        }
        let index_len = indicies.len() - index_first;
        mesh_map.insert(id, (index_first, index_len));
        proof {
            assert(adjusted_indices(ga, base).take(mesh_indices(ga).len() as int)
                =~= adjusted_indices(ga, base));
            assert(indicies@ == indices_of(guids.take(j + 1), mesh_assets@));
            assert(mesh_map@ == mesh_map_of(guids.take(j + 1), mesh_assets@));
        }
    }
    proof {
        assert(guids.take(guids.len() as int) =~= guids);
        lemma_indices_in_range(guids, mesh_assets@);
        lemma_mesh_map_entries(guids, mesh_assets@);
    }
    Ok(VertexStorage { mesh_map, verticies, indicies })
}

/// On an instance-level change the flat per-instance list is rebuilt by
/// walking all entities.
pub fn rebuild_instances(entities: &Vec<ExtractedMesh>) -> (r: MeshStorage)
    ensures
        r.meshes@ == entities@,
{
    let mut meshes: Vec<ExtractedMesh> = Vec::new();
    for i in 0..entities.len()
        invariant
            meshes@ == entities@.take(i as int),
    {
        meshes.push(entities[i]);
        proof {
            assert(entities@.take(i + 1) =~= entities@.take(i as int).push(entities@[i as int]));
        }
    }
    proof {
        assert(entities@.take(entities@.len() as int) =~= entities@);
    }
    MeshStorage { meshes }
}

/// The first fatal failure of a full extraction pass, honouring which change
/// signals fired: a skipped rebuild can not fail.
pub open spec fn extract_error(
    mesh_events: bool,
    material_events: bool,
    entities: Seq<ExtractedMesh>,
    mesh_assets: Map<u64, MeshAsset>,
    material_assets: Map<u64, MaterialAsset>,
) -> Option<ExtractError> {
    if mesh_events && vertex_tables_error(first_occurrences(mesh_ids(entities)), mesh_assets)
        is Some {
        vertex_tables_error(first_occurrences(mesh_ids(entities)), mesh_assets)
    } else if material_events && material_tables_error(
        first_occurrences(material_ids(entities)),
        material_assets,
    ) is Some {
        material_tables_error(first_occurrences(material_ids(entities)), material_assets)
    } else {
        None
    }
}

/// One extraction pass over the scene snapshot, driven by the three change
/// signals: mesh content changed, material content changed, any instance
/// changed. A signal that did not fire leaves its table untouched (the stale
/// table is reused); a fatal failure leaves every table untouched and aborts
/// the frame's pipeline construction.
pub fn extract_meshes(
    mesh_events: bool,
    material_events: bool,
    meshes_changed: bool,
    entities: &Vec<ExtractedMesh>,
    mesh_assets: &HashMap<u64, MeshAsset>,
    material_assets: &HashMap<u64, MaterialAsset>,
    vertex_storage: &mut VertexStorage,
    mesh_storage: &mut MeshStorage,
    material_storage: &mut MaterialStorage,
) -> (r: Result<(), ExtractError>)
    requires
        entities@.len() <= u32::MAX,
        vertex_tables_error(first_occurrences(mesh_ids(entities@)), mesh_assets@) is None ==> {
            &&& vertices_of(first_occurrences(mesh_ids(entities@)), mesh_assets@).len()
                <= u32::MAX
            &&& indices_of(first_occurrences(mesh_ids(entities@)), mesh_assets@).len()
                <= u32::MAX
        },
    ensures
        r is Ok <==> extract_error(
            mesh_events,
            material_events,
            entities@,
            mesh_assets@,
            material_assets@,
        ) is None,
        r matches Err(e) ==> {
            &&& Some(e) == extract_error(
                mesh_events,
                material_events,
                entities@,
                mesh_assets@,
                material_assets@,
            )
            &&& *final(vertex_storage) == *old(vertex_storage)
            &&& *final(mesh_storage) == *old(mesh_storage)
            &&& *final(material_storage) == *old(material_storage)
        },
        r is Ok ==> {
            let muids = first_occurrences(mesh_ids(entities@));
            let tuids = first_occurrences(material_ids(entities@));
            &&& if mesh_events {
                &&& final(vertex_storage).verticies@ == vertices_of(muids, mesh_assets@)
                &&& final(vertex_storage).indicies@ == indices_of(muids, mesh_assets@)
                &&& final(vertex_storage).mesh_map@ == mesh_map_of(muids, mesh_assets@)
                &&& final(vertex_storage).wf()
            } else {
                *final(vertex_storage) == *old(vertex_storage)
            }
            &&& if material_events {
                &&& final(material_storage).material_vec@ == materials_of(tuids, material_assets@)
                &&& final(material_storage).material_map@ == material_map_of(
                    tuids,
                    material_assets@,
                )
                &&& final(material_storage).wf()
            } else {
                *final(material_storage) == *old(material_storage)
            }
            &&& if meshes_changed {
                final(mesh_storage).meshes@ == entities@
            } else {
                *final(mesh_storage) == *old(mesh_storage)
            }
        },
{
    let new_vertex = if mesh_events {
        match rebuild_vertex_tables(entities, mesh_assets) {
            Ok(v) => Some(v),
            Err(e) => {
                return Err(e);
            },
        }
    } else {
        None
    };
    let new_material = if material_events {
        match rebuild_material_tables(entities, material_assets) {
            Ok(m) => Some(m),
            Err(e) => {
                return Err(e);
            },
        }
    } else {
        None
    };
    if let Some(v) = new_vertex {
        *vertex_storage = v;
    }
    if let Some(m) = new_material {
        *material_storage = m;
    }
    if meshes_changed {
        *mesh_storage = rebuild_instances(entities);
    }
    Ok(())
}

/// Exactly the identities the scene references have dedup entries; being a
/// map, the table holds exactly one range per mesh identity, however many
/// instances share it.
pub proof fn lemma_mesh_map_dom(ids: Seq<u64>, assets: Map<u64, MeshAsset>)
    ensures
        forall|id: u64| #[trigger]
            mesh_map_of(ids, assets).contains_key(id) <==> ids.contains(id),
    decreases ids.len(),
{
    if ids.len() > 0 {
        let front = ids.drop_last();
        lemma_mesh_map_dom(front, assets);
        assert forall|id: u64| #[trigger]
            mesh_map_of(ids, assets).contains_key(id) implies ids.contains(id) by {
            if id == ids.last() {
                assert(ids[ids.len() - 1] == id);
            } else {
                assert(mesh_map_of(front, assets).contains_key(id));
                assert(front.contains(id));
                let i = choose|i: int| 0 <= i < front.len() && front[i] == id;
                assert(ids[i] == id);
            }
        }
        assert forall|id: u64| ids.contains(id) implies mesh_map_of(ids, assets).contains_key(
            id,
        ) by {
            let i = choose|i: int| 0 <= i < ids.len() && ids[i] == id;
            if i < ids.len() - 1 {
                assert(front[i] == id);
                assert(front.contains(id));
                assert(mesh_map_of(front, assets).contains_key(id));
            }
        }
    }
}

/// Exactly the identities the scene references have material slots; being a
/// map, the table holds exactly one slot per material identity, however many
/// instances share it.
pub proof fn lemma_material_map_dom(ids: Seq<u64>, assets: Map<u64, MaterialAsset>)
    ensures
        forall|id: u64| #[trigger]
            material_map_of(ids, assets).contains_key(id) <==> ids.contains(id),
    decreases ids.len(),
{
    if ids.len() > 0 {
        let front = ids.drop_last();
        lemma_material_map_dom(front, assets);
        assert forall|id: u64| #[trigger]
            material_map_of(ids, assets).contains_key(id) implies ids.contains(id) by {
            if id == ids.last() {
                assert(ids[ids.len() - 1] == id);
            } else {
                assert(material_map_of(front, assets).contains_key(id));
                assert(front.contains(id));
                let i = choose|i: int| 0 <= i < front.len() && front[i] == id;
                assert(ids[i] == id);
            }
        }
        assert forall|id: u64| ids.contains(id) implies material_map_of(
            ids,
            assets,
        ).contains_key(id) by {
            let i = choose|i: int| 0 <= i < ids.len() && ids[i] == id;
            if i < ids.len() - 1 {
                assert(front[i] == id);
                assert(front.contains(id));
                assert(material_map_of(front, assets).contains_key(id));
            }
        }
    }
}

/// Dedup correctness: an identity has a dedup entry exactly when some
/// instance references it — one entry and one slot per identity, independent
/// of how many instances share it.
pub proof fn lemma_dedup_correctness(
    entities: Seq<ExtractedMesh>,
    mesh_assets: Map<u64, MeshAsset>,
    material_assets: Map<u64, MaterialAsset>,
)
    ensures
        forall|id: u64| #[trigger]
            mesh_map_of(first_occurrences(mesh_ids(entities)), mesh_assets).contains_key(id)
                <==> exists|i: int| 0 <= i < entities.len() && entities[i].mesh == id,
        forall|id: u64| #[trigger]
            material_map_of(first_occurrences(material_ids(entities)), material_assets)
                .contains_key(id) <==> exists|i: int|
                0 <= i < entities.len() && entities[i].material == id,
{
    lemma_first_occurrences_no_duplicates(mesh_ids(entities));
    lemma_first_occurrences_no_duplicates(material_ids(entities));
    lemma_mesh_map_dom(first_occurrences(mesh_ids(entities)), mesh_assets);
    lemma_material_map_dom(first_occurrences(material_ids(entities)), material_assets);
    assert forall|id: u64| #[trigger]
        mesh_map_of(first_occurrences(mesh_ids(entities)), mesh_assets).contains_key(id) <==> (
    exists|i: int| 0 <= i < entities.len() && entities[i].mesh == id) by {
        if mesh_map_of(first_occurrences(mesh_ids(entities)), mesh_assets).contains_key(id) {
            assert(mesh_ids(entities).contains(id));
            let i = choose|i: int|
                0 <= i < mesh_ids(entities).len() && mesh_ids(entities)[i] == id;
            assert(0 <= i < entities.len() && entities[i].mesh == id);
        }
        if exists|i: int| 0 <= i < entities.len() && entities[i].mesh == id {
            let i = choose|i: int| 0 <= i < entities.len() && entities[i].mesh == id;
            assert(mesh_ids(entities)[i] == id);
            assert(mesh_ids(entities).contains(id));
        }
    }
    assert forall|id: u64| #[trigger]
        material_map_of(first_occurrences(material_ids(entities)), material_assets).contains_key(
        id,
    ) <==> (exists|i: int| 0 <= i < entities.len() && entities[i].material == id) by {
        if material_map_of(first_occurrences(material_ids(entities)), material_assets)
            .contains_key(id) {
            assert(material_ids(entities).contains(id));
            let i = choose|i: int|
                0 <= i < material_ids(entities).len() && material_ids(entities)[i] == id;
            assert(0 <= i < entities.len() && entities[i].material == id);
        }
        if exists|i: int| 0 <= i < entities.len() && entities[i].material == id {
            let i = choose|i: int| 0 <= i < entities.len() && entities[i].material == id;
            assert(material_ids(entities)[i] == id);
            assert(material_ids(entities).contains(id));
        }
    }
}

/// Mesh dedup ranges are laid out monotonically: an identity added later
/// starts exactly where the index array ended before it, so the ranges of
/// two distinct identities never overlap.
pub proof fn lemma_mesh_ranges_disjoint(ids: Seq<u64>, assets: Map<u64, MeshAsset>)
    requires
        indices_of(ids, assets).len() <= u32::MAX,
    ensures
        forall|id1: u64, id2: u64|
            #![trigger mesh_map_of(ids, assets)[id1], mesh_map_of(ids, assets)[id2]]
            mesh_map_of(ids, assets).contains_key(id1) && mesh_map_of(ids, assets).contains_key(
                id2,
            ) && id1 != id2 ==> {
                let r1 = mesh_map_of(ids, assets)[id1];
                let r2 = mesh_map_of(ids, assets)[id2];
                r1.0 + r1.1 <= r2.0 || r2.0 + r2.1 <= r1.0
            },
    decreases ids.len(),
{
    if ids.len() > 0 {
        let front = ids.drop_last();
        let a = assets[ids.last()];
        let base = vertices_of(front, assets).len() as int;
        assert(adjusted_indices(a, base).len() == mesh_indices(a).len());
        assert(indices_of(ids, assets).len() == indices_of(front, assets).len() + mesh_indices(
            a,
        ).len());
        lemma_mesh_ranges_disjoint(front, assets);
        lemma_mesh_map_entries(front, assets);
        assert forall|id1: u64, id2: u64|
            #![trigger mesh_map_of(ids, assets)[id1], mesh_map_of(ids, assets)[id2]]
            mesh_map_of(ids, assets).contains_key(id1) && mesh_map_of(ids, assets).contains_key(
                id2,
            ) && id1 != id2 implies {
            let r1 = mesh_map_of(ids, assets)[id1];
            let r2 = mesh_map_of(ids, assets)[id2];
            r1.0 + r1.1 <= r2.0 || r2.0 + r2.1 <= r1.0
        } by {
            if id1 != ids.last() && id2 != ids.last() {
                assert(mesh_map_of(front, assets).contains_key(id1));
                assert(mesh_map_of(front, assets).contains_key(id2));
                assert(mesh_map_of(ids, assets)[id1] == mesh_map_of(front, assets)[id1]);
                assert(mesh_map_of(ids, assets)[id2] == mesh_map_of(front, assets)[id2]);
            } else if id1 == ids.last() {
                assert(mesh_map_of(front, assets).contains_key(id2));
                assert(mesh_map_of(ids, assets)[id2] == mesh_map_of(front, assets)[id2]);
                assert(mesh_map_of(ids, assets)[id1].0 == indices_of(front, assets).len());
            } else {
                assert(mesh_map_of(front, assets).contains_key(id1));
                assert(mesh_map_of(ids, assets)[id1] == mesh_map_of(front, assets)[id1]);
                assert(mesh_map_of(ids, assets)[id2].0 == indices_of(front, assets).len());
            }
        }
    }
}

/// Material slot assignment is injective over identities that were deduped
/// once: distinct identities hold distinct slots, assigned in increasing
/// order of first occurrence.
pub proof fn lemma_material_slots_injective(ids: Seq<u64>, assets: Map<u64, MaterialAsset>)
    requires
        ids.no_duplicates(),
        ids.len() <= usize::MAX,
    ensures
        forall|id: u64| #[trigger]
            material_map_of(ids, assets).contains_key(id) ==> material_map_of(ids, assets)[id]
                < ids.len(),
        forall|id1: u64, id2: u64|
            #![trigger material_map_of(ids, assets)[id1], material_map_of(ids, assets)[id2]]
            material_map_of(ids, assets).contains_key(id1) && material_map_of(
                ids,
                assets,
            ).contains_key(id2) && id1 != id2 ==> material_map_of(ids, assets)[id1]
                != material_map_of(ids, assets)[id2],
    decreases ids.len(),
{
    if ids.len() > 0 {
        let front = ids.drop_last();
        assert(front.no_duplicates());
        lemma_material_slots_injective(front, assets);
        assert forall|id: u64| #[trigger]
            material_map_of(ids, assets).contains_key(id) implies material_map_of(ids, assets)[id]
            < ids.len() by {
            if id != ids.last() {
                assert(material_map_of(front, assets).contains_key(id));
                assert(material_map_of(ids, assets)[id] == material_map_of(front, assets)[id]);
            }
        }
        assert forall|id1: u64, id2: u64|
            #![trigger material_map_of(ids, assets)[id1], material_map_of(ids, assets)[id2]]
            material_map_of(ids, assets).contains_key(id1) && material_map_of(
                ids,
                assets,
            ).contains_key(id2) && id1 != id2 implies material_map_of(ids, assets)[id1]
            != material_map_of(ids, assets)[id2] by {
            if id1 != ids.last() && id2 != ids.last() {
                assert(material_map_of(front, assets).contains_key(id1));
                assert(material_map_of(front, assets).contains_key(id2));
                assert(material_map_of(ids, assets)[id1] == material_map_of(front, assets)[id1]);
                assert(material_map_of(ids, assets)[id2] == material_map_of(front, assets)[id2]);
            } else if id1 == ids.last() {
                assert(material_map_of(front, assets).contains_key(id2));
                assert(material_map_of(ids, assets)[id2] == material_map_of(front, assets)[id2]);
                assert(material_map_of(ids, assets)[id1] == front.len() as usize);
            } else {
                assert(material_map_of(front, assets).contains_key(id1));
                assert(material_map_of(ids, assets)[id1] == material_map_of(front, assets)[id1]);
                assert(material_map_of(ids, assets)[id2] == front.len() as usize);
            }
        }
    }
}

/// Idempotence of extraction: each rebuilt table is a function of the scene
/// snapshot alone, so re-extracting an unchanged scene twice yields
/// identical vertex, index, material and instance arrays.
pub proof fn lemma_extract_idempotent(
    entities: Seq<ExtractedMesh>,
    mesh_assets: Map<u64, MeshAsset>,
    material_assets: Map<u64, MaterialAsset>,
    first: (Seq<ShaderVertex>, Seq<u32>, Seq<ShaderMaterial>, Seq<ExtractedMesh>),
    second: (Seq<ShaderVertex>, Seq<u32>, Seq<ShaderMaterial>, Seq<ExtractedMesh>),
)
    requires
        first.0 == vertices_of(first_occurrences(mesh_ids(entities)), mesh_assets),
        second.0 == vertices_of(first_occurrences(mesh_ids(entities)), mesh_assets),
        first.1 == indices_of(first_occurrences(mesh_ids(entities)), mesh_assets),
        second.1 == indices_of(first_occurrences(mesh_ids(entities)), mesh_assets),
        first.2 == materials_of(first_occurrences(material_ids(entities)), material_assets),
        second.2 == materials_of(first_occurrences(material_ids(entities)), material_assets),
        first.3 == entities,
        second.3 == entities,
    ensures
        first == second,
{
}

} // verus!
