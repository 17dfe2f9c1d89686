use vstd::prelude::*;

verus! {

/// What the external mesh loader reports for one material before the
/// renderer accepts it: whether the texture the material references
/// could be loaded and decoded.
#[derive(Clone, Copy, PartialEq, Eq, Structural, Debug)]
pub struct MaterialSource {
    /// Whether the material's diffuse texture was found and decoded.
    pub texture_loaded: bool,
}

/// What the external mesh loader reports for one sub-mesh.
#[derive(Clone, Copy, PartialEq, Eq, Structural, Debug)]
pub struct MeshSource {
    /// The material the source data names, if it names one at all.
    pub material_id: Option<usize>,
    /// How many indices the sub-mesh draws.
    pub index_count: u32,
}

/// One sub-mesh of an accepted model.
#[derive(Clone, Copy, PartialEq, Eq, Structural, Debug)]
pub struct MeshSpec {
    /// Index into the model's material list; always in range.
    pub material: usize,
    /// How many indices the sub-mesh draws.
    pub index_count: u32,
}

/// An accepted model: its sub-meshes and how many materials it
/// carries. The GPU buffers and bind groups behind them are owned
/// outside the crate.
#[derive(Clone, PartialEq, Eq, Debug)]
pub struct ModelSpec {
    /// The accepted sub-meshes.
    pub meshes: Vec<MeshSpec>,
    /// How many materials the model holds.
    pub material_count: usize,
}

/// Why a loaded model was rejected.
#[derive(Clone, Copy, PartialEq, Eq, Structural, Debug)]
pub enum LoadError {
    /// The texture referenced by the material at this index could not
    /// be loaded; the whole load fails.
    MissingTexture(usize),
    /// The mesh at this index names a material (after defaulting an
    /// unnamed one to the first) that is not in the material list.
    InvalidMaterial(usize),
}

impl ModelSpec {
    /// Every sub-mesh points at a material the model actually holds.
    pub open spec fn wf(self) -> bool {
        forall|i: int|
            0 <= i < self.meshes@.len() ==> (#[trigger] self.meshes@[i]).material
                < self.material_count
    }
}

/// The material index a mesh source resolves to: the one it names,
/// or the first material when it names none.
pub open spec fn resolved_material(m: MeshSource) -> int {
    match m.material_id {
        Some(id) => id as int,
        None => 0,
    }
}

/// Every material's texture was loaded.
pub open spec fn all_textures_loaded(materials: Seq<MaterialSource>) -> bool {
    forall|i: int| 0 <= i < materials.len() ==> (#[trigger] materials[i]).texture_loaded
}

/// Every mesh resolves to a material that exists.
pub open spec fn all_materials_resolve(meshes: Seq<MeshSource>, n_materials: int) -> bool {
    forall|i: int| 0 <= i < meshes.len() ==> resolved_material(#[trigger] meshes[i]) < n_materials
}

/// The loader's output is acceptable as a whole.
pub open spec fn sources_valid(meshes: Seq<MeshSource>, materials: Seq<MaterialSource>) -> bool {
    all_textures_loaded(materials) && all_materials_resolve(meshes, materials.len() as int)
}

/// The error a rejected loader output is reported with: the first
/// material whose texture is missing or, when every texture loaded,
/// the first mesh whose material reference is out of range.
pub open spec fn rejection_reported(
    meshes: Seq<MeshSource>,
    materials: Seq<MaterialSource>,
    e: LoadError,
) -> bool {
    if !all_textures_loaded(materials) {
        exists|i: int|
            {
                &&& 0 <= i < materials.len()
                &&& e == LoadError::MissingTexture(i as usize)
                &&& !materials[i].texture_loaded
                &&& forall|j: int| 0 <= j < i ==> (#[trigger] materials[j]).texture_loaded
            }
    } else {
        exists|i: int|
            {
                &&& 0 <= i < meshes.len()
                &&& e == LoadError::InvalidMaterial(i as usize)
                &&& resolved_material(meshes[i]) >= materials.len()
                &&& forall|j: int|
                    0 <= j < i ==> resolved_material(#[trigger] meshes[j]) < materials.len()
            }
    }
}

/// The model a valid loader output is accepted as: one sub-mesh per
/// mesh source, each with its resolved material and its index count,
/// and the full material list counted.
pub open spec fn accepted_model(
    meshes: Seq<MeshSource>,
    materials: Seq<MaterialSource>,
    m: ModelSpec,
) -> bool {
    &&& m.meshes@.len() == meshes.len()
    &&& forall|i: int|
        0 <= i < meshes.len() ==> m.meshes@[i] == (MeshSpec {
            material: resolved_material(#[trigger] meshes[i]) as usize,
            index_count: meshes[i].index_count,
        })
    &&& m.material_count == materials.len()
}

/// Accepts or rejects what the external loader produced: the load
/// succeeds if and only if every material's texture was loaded and
/// every mesh's material reference (defaulted to the first material
/// when absent) is in range — otherwise the first offence is
/// reported and nothing of the model is kept.
pub fn validate_model(meshes: &Vec<MeshSource>, materials: &Vec<MaterialSource>) -> (r: Result<
    ModelSpec,
    LoadError,
>)
    ensures
        r is Ok <==> sources_valid(meshes@, materials@),
        r matches Ok(m) ==> accepted_model(meshes@, materials@, m) && m.wf(),
        r matches Err(e) ==> rejection_reported(meshes@, materials@, e),
{
    let n_materials = materials.len();
    let mut i: usize = 0;
    while i < n_materials
        invariant
            i <= n_materials,
            n_materials == materials@.len(),
            forall|j: int| 0 <= j < i ==> (#[trigger] materials@[j]).texture_loaded,
        decreases n_materials - i,
    {
        if !materials[i].texture_loaded {
            proof {
                let w = i as int;
                assert(!all_textures_loaded(materials@));
                assert({
                    &&& 0 <= w < materials@.len()
                    &&& LoadError::MissingTexture(i) == LoadError::MissingTexture(w as usize)
                    &&& !materials@[w].texture_loaded
                    &&& forall|j: int| 0 <= j < w ==> (#[trigger] materials@[j]).texture_loaded
                });
            }
            return Err(LoadError::MissingTexture(i));
        }
        i = i + 1;
    }
    let mut out: Vec<MeshSpec> = Vec::new();
    let mut k: usize = 0;
    while k < meshes.len()
        invariant
            k <= meshes@.len(),
            out@.len() == k,
            n_materials == materials@.len(),
            all_textures_loaded(materials@),
            forall|j: int| 0 <= j < k ==> resolved_material(#[trigger] meshes@[j]) < n_materials,
            forall|j: int|
                0 <= j < k ==> out@[j] == (MeshSpec {
                    material: resolved_material(meshes@[j]) as usize,
                    index_count: meshes@[j].index_count,
                }),
        decreases meshes@.len() - k,
    {
        let id: usize = match meshes[k].material_id {
            Some(id) => id,
            None => 0,
        };
        if id >= n_materials {
            proof {
                let w = k as int;
                assert(all_textures_loaded(materials@));
                assert({
                    &&& 0 <= w < meshes@.len()
                    &&& LoadError::InvalidMaterial(k) == LoadError::InvalidMaterial(w as usize)
                    &&& resolved_material(meshes@[w]) >= materials@.len()
                    &&& forall|j: int|
                        0 <= j < w ==> resolved_material(#[trigger] meshes@[j]) < materials@.len()
                });
            }
            return Err(LoadError::InvalidMaterial(k));
        }
        out.push(MeshSpec { material: id, index_count: meshes[k].index_count });
        k = k + 1;
    }
    Ok(ModelSpec { meshes: out, material_count: n_materials })
}

} // verus!
