//! Draw planning for models: which index range, material and instances each
//! indexed draw of a model uses.

use vstd::prelude::*;

verus! {

/// What a draw needs to know of a mesh: how many indices it has and which
/// of its model's materials it is shaded with.
#[derive(Clone, Copy, PartialEq, Eq, Structural, Debug)]
pub struct MeshInfo {
    pub num_elements: u32,
    pub material: usize,
}

/// One indexed draw: mesh `mesh` with material `material`, indices
/// `0 .. index_count`, instances `instance_start .. instance_end`; the light
/// bind group is set only when `bind_lights` holds.
#[derive(Clone, Copy, PartialEq, Eq, Structural, Debug)]
pub struct DrawCall {
    pub mesh: usize,
    pub material: usize,
    pub index_count: u32,
    pub instance_start: u32,
    pub instance_end: u32,
    pub bind_lights: bool,
}

impl MeshInfo {
    /// The record of a mesh loaded from a model file: all its indices, and
    /// the material the file names, or the first one when it names none.
    pub fn from_indices(indices: &Vec<u32>, material_id: Option<usize>) -> (m: MeshInfo)
        ensures
            m.num_elements == indices@.len() as u32,
            m.material == match material_id {
                Some(id) => id,
                None => 0,
            },
    {
        let material = match material_id {
            Some(id) => id,
            None => 0,
        };
        MeshInfo { num_elements: indices.len() as u32, material }
    }

    /// The record of a generated mesh (plane, cube, sphere): all its
    /// indices, shaded with its model's only material.
    pub fn primitive(indices: &Vec<u32>) -> (m: MeshInfo)
        ensures
            m.num_elements == indices@.len() as u32,
            m.material == 0,
    {
        MeshInfo { num_elements: indices.len() as u32, material: 0 }
    }
}

/// Every mesh of the model names one of its `material_count` materials.
pub open spec fn is_drawable(meshes: Seq<MeshInfo>, material_count: nat) -> bool {
    forall|i: int| 0 <= i < meshes.len() ==> #[trigger] meshes[i].material < material_count
}

/// The draw call for mesh `i` of `meshes` with the given material.
pub open spec fn call_for(
    meshes: Seq<MeshInfo>,
    i: int,
    material: usize,
    instance_start: u32,
    instance_end: u32,
    bind_lights: bool,
) -> DrawCall {
    DrawCall {
        mesh: i as usize,
        material,
        index_count: meshes[i].num_elements,
        instance_start,
        instance_end,
        bind_lights,
    }
}

/// Draws for a whole model, instanced over `instance_start .. instance_end`:
/// one per mesh, in mesh order, each with that mesh's own material.
/// Model shading binds the light group (`bind_lights`); light-marker
/// shading does not.
pub fn plan_model_draw(
    meshes: &Vec<MeshInfo>,
    material_count: usize,
    instance_start: u32,
    instance_end: u32,
    bind_lights: bool,
) -> (calls: Vec<DrawCall>)
    requires
        is_drawable(meshes@, material_count as nat),
    ensures
        calls@.len() == meshes@.len(),
        forall|i: int|
            0 <= i < meshes@.len() ==> #[trigger] calls@[i] == call_for(
                meshes@,
                i,
                meshes@[i].material,
                instance_start,
                instance_end,
                bind_lights,
            ),
        forall|i: int|
            0 <= i < meshes@.len() ==> (#[trigger] calls@[i]).mesh == i && calls@[i].material
                == meshes@[i].material && calls@[i].index_count == meshes@[i].num_elements
                && calls@[i].instance_start == instance_start && calls@[i].instance_end
                == instance_end && calls@[i].bind_lights == bind_lights,
{
    let mut calls: Vec<DrawCall> = Vec::new();
    let mut i: usize = 0;
    while i < meshes.len()
        invariant
            i <= meshes@.len(),
            calls@.len() == i,
            forall|k: int|
                0 <= k < i ==> #[trigger] calls@[k] == call_for(
                    meshes@,
                    k,
                    meshes@[k].material,
                    instance_start,
                    instance_end,
                    bind_lights,
                ),
        decreases meshes@.len() - i,
    {
        let m = meshes[i];
        calls.push(
            DrawCall {
                mesh: i,
                material: m.material,
                index_count: m.num_elements,
                instance_start,
                instance_end,
                bind_lights,
            },
        );
        i = i + 1;
    }
    calls
}

/// Draws for a whole model with every mesh shaded by the one given
/// material, instanced over `instance_start .. instance_end`.
pub fn plan_model_draw_with_material(
    meshes: &Vec<MeshInfo>,
    material: usize,
    instance_start: u32,
    instance_end: u32,
    bind_lights: bool,
) -> (calls: Vec<DrawCall>)
    ensures
        calls@.len() == meshes@.len(),
        forall|i: int|
            0 <= i < meshes@.len() ==> #[trigger] calls@[i] == call_for(
                meshes@,
                i,
                material,
                instance_start,
                instance_end,
                bind_lights,
            ),
        forall|i: int|
            0 <= i < meshes@.len() ==> (#[trigger] calls@[i]).mesh == i && calls@[i].material
                == material && calls@[i].index_count == meshes@[i].num_elements
                && calls@[i].instance_start == instance_start && calls@[i].instance_end
                == instance_end && calls@[i].bind_lights == bind_lights,
{
    let mut calls: Vec<DrawCall> = Vec::new();
    let mut i: usize = 0;
    while i < meshes.len()
        invariant
            i <= meshes@.len(),
            calls@.len() == i,
            forall|k: int|
                0 <= k < i ==> #[trigger] calls@[k] == call_for(
                    meshes@,
                    k,
                    material,
                    instance_start,
                    instance_end,
                    bind_lights,
                ),
        decreases meshes@.len() - i,
    {
        calls.push(
            DrawCall {
                mesh: i,
                material,
                index_count: meshes[i].num_elements,
                instance_start,
                instance_end,
                bind_lights,
            },
        );
        i = i + 1;
    }
    calls
}

/// The draw of a single mesh with a material, over the given instances.
pub fn plan_mesh_draw(
    mesh_index: usize,
    mesh: MeshInfo,
    material: usize,
    instance_start: u32,
    instance_end: u32,
    bind_lights: bool,
) -> (call: DrawCall)
    ensures
        call == (DrawCall {
            mesh: mesh_index,
            material,
            index_count: mesh.num_elements,
            instance_start,
            instance_end,
            bind_lights,
        }),
{
    DrawCall {
        mesh: mesh_index,
        material,
        index_count: mesh.num_elements,
        instance_start,
        instance_end,
        bind_lights,
    }
}

/// A plan for a drawable model only ever names meshes and materials the
/// model has, and draws each mesh exactly once.
pub proof fn lemma_plan_in_bounds(
    meshes: Seq<MeshInfo>,
    material_count: nat,
    calls: Seq<DrawCall>,
    instance_start: u32,
    instance_end: u32,
    bind_lights: bool,
)
    requires
        is_drawable(meshes, material_count),
        meshes.len() <= usize::MAX,
        calls.len() == meshes.len(),
        forall|i: int|
            0 <= i < meshes.len() ==> #[trigger] calls[i] == call_for(
                meshes,
                i,
                meshes[i].material,
                instance_start,
                instance_end,
                bind_lights,
            ),
    ensures
        forall|i: int|
            0 <= i < calls.len() ==> (#[trigger] calls[i]).mesh == i && calls[i].material
                < material_count,
{
    assert forall|i: int| 0 <= i < calls.len() implies (#[trigger] calls[i]).mesh == i
        && calls[i].material < material_count by {
        assert(calls[i] == call_for(
            meshes,
            i,
            meshes[i].material,
            instance_start,
            instance_end,
            bind_lights,
        ));
        assert(meshes[i].material < material_count);
    }
}

/// Every draw of a plan covers exactly the instance range it was asked for
/// and draws all of its mesh's indices, whether or not the light group is
/// bound.
pub proof fn lemma_plan_covers_instances(
    meshes: Seq<MeshInfo>,
    calls: Seq<DrawCall>,
    material: Option<usize>,
    instance_start: u32,
    instance_end: u32,
    bind_lights: bool,
)
    requires
        meshes.len() <= usize::MAX,
        calls.len() == meshes.len(),
        forall|i: int|
            0 <= i < meshes.len() ==> #[trigger] calls[i] == call_for(
                meshes,
                i,
                match material {
                    Some(m) => m,
                    None => meshes[i].material,
                },
                instance_start,
                instance_end,
                bind_lights,
            ),
    ensures
        forall|i: int|
            0 <= i < calls.len() ==> (#[trigger] calls[i]).instance_start == instance_start
                && calls[i].instance_end == instance_end && calls[i].index_count
                == meshes[i].num_elements && calls[i].mesh == i && calls[i].bind_lights
                == bind_lights && calls[i].material == match material {
                Some(m) => m,
                None => meshes[i].material,
            },
{
    assert forall|i: int| 0 <= i < calls.len() implies (#[trigger] calls[i]).instance_start
        == instance_start && calls[i].instance_end == instance_end && calls[i].index_count
        == meshes[i].num_elements && calls[i].mesh == i && calls[i].bind_lights == bind_lights
        && calls[i].material == match material {
        Some(m) => m,
        None => meshes[i].material,
    } by {
        assert(calls[i] == call_for(
            meshes,
            i,
            match material {
                Some(m) => m,
                None => meshes[i].material,
            },
            instance_start,
            instance_end,
            bind_lights,
        ));
    }
}

/// A generated model (one primitive mesh, one material) can always be drawn.
pub proof fn lemma_primitive_model_drawable(mesh: MeshInfo)
    requires
        mesh.material == 0,
    ensures
        is_drawable(seq![mesh], 1),
{
}

} // verus!
