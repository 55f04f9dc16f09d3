//! The renderer pipeline's table of uploaded meshes, one per built-in shape.

use vstd::prelude::*;

use crate::renderer::mesh::{
    MeshData, MeshId, quad_list_indices, spec_cube_vertices, spec_plane_vertices,
};

verus! {

/// A table from every [`MeshId`] to at most one uploaded mesh.
///
/// The mesh type is left open; the renderer stores its GPU-side meshes here.
pub struct MeshTable<M> {
    cube: Option<M>,
    plane: Option<M>,
}

impl<M> View for MeshTable<M> {
    type V = Map<MeshId, M>;

    /// The table as a map from mesh identifiers to meshes.
    closed spec fn view(&self) -> Map<MeshId, M> {
        let with_cube = match self.cube {
            Some(m) => Map::empty().insert(MeshId::Cube, m),
            None => Map::empty(),
        };
        match self.plane {
            Some(m) => with_cube.insert(MeshId::Plane, m),
            None => with_cube,
        }
    }
}

impl<M> MeshTable<M> {
    /// Creates an empty table.
    pub fn new() -> (t: Self)
        ensures
            t@ == Map::<MeshId, M>::empty(),
    {
        let t = MeshTable { cube: None, plane: None };
        assert(t@ =~= Map::<MeshId, M>::empty());
        t
    }

    /// Stores `mesh` under `id`, returning the mesh that was stored there
    /// before, if any.
    pub fn insert(&mut self, id: MeshId, mesh: M) -> (previous: Option<M>)
        ensures
            final(self)@ == old(self)@.insert(id, mesh),
            previous == (if old(self)@.dom().contains(id) {
                Some(old(self)@[id])
            } else {
                None
            }),
    {
        let previous = match id {
            MeshId::Cube => {
                let previous = self.cube.take();
                self.cube = Some(mesh);
                previous
            },
            MeshId::Plane => {
                let previous = self.plane.take();
                self.plane = Some(mesh);
                previous
            },
        };
        assert(self@ =~= old(self)@.insert(id, mesh));
        previous
    }

    /// The mesh stored under `id`, if any.
    pub fn get(&self, id: &MeshId) -> (mesh: Option<&M>)
        ensures
            mesh == (if self@.dom().contains(*id) {
                Some(&self@[*id])
            } else {
                None
            }),
    {
        match id {
            MeshId::Cube => self.cube.as_ref(),
            MeshId::Plane => self.plane.as_ref(),
        }
    }
}

/// A read after a write: once `mesh` is stored under `id`, looking up `id`
/// finds `mesh`, and looking up any other identifier finds what it found
/// before.
pub proof fn lemma_get_after_insert<M>(table: MeshTable<M>, id: MeshId, mesh: M, other: MeshId)
    ensures
        table@.insert(id, mesh).dom().contains(id),
        table@.insert(id, mesh)[id] == mesh,
        other != id ==> (table@.insert(id, mesh).dom().contains(other) == table@.dom().contains(other)
            && table@.insert(id, mesh)[other] == table@[other]),
{
}

/// `data` is the mesh data of the built-in shape `id`.
pub open spec fn is_shape_data(id: MeshId, data: MeshData) -> bool {
    match id {
        MeshId::Cube => {
            &&& data.vertices@ == spec_cube_vertices()
            &&& data.indices@ == quad_list_indices(6)
            &&& data.label@ == "Cube"@
        },
        MeshId::Plane => {
            &&& data.vertices@ == spec_plane_vertices()
            &&& data.indices@ == quad_list_indices(1)
            &&& data.label@ == "Plane"@
        },
    }
}

/// Uploads the mesh data of every built-in shape with `upload` and collects
/// the results in a table, so that every [`MeshId`] has its mesh.
pub fn initialize_mesh_types<M, F: Fn(MeshData) -> M>(upload: F) -> (table: MeshTable<M>)
    requires
        forall|data: MeshData| #[trigger] upload.requires((data,)),
    ensures
        forall|id: MeshId| #[trigger] table@.dom().contains(id),
        exists|data: MeshData|
            is_shape_data(MeshId::Cube, data) && #[trigger] upload.ensures((data,), table@[MeshId::Cube]),
        exists|data: MeshData|
            is_shape_data(MeshId::Plane, data) && #[trigger] upload.ensures(
                (data,),
                table@[MeshId::Plane],
            ),
{
    let mut table = MeshTable::new();
    let cube_data = MeshData::cube();
    let ghost cube_snapshot = cube_data;
    let cube = upload(cube_data);
    assert(upload.ensures((cube_snapshot,), cube));
    table.insert(MeshId::Cube, cube);
    let plane_data = MeshData::plane();
    let ghost plane_snapshot = plane_data;
    let plane = upload(plane_data);
    assert(upload.ensures((plane_snapshot,), plane));
    table.insert(MeshId::Plane, plane);
    assert forall|id: MeshId| #[trigger] table@.dom().contains(id) by {
        match id {
            MeshId::Cube => {},
            MeshId::Plane => {},
        }
    }
    assert(is_shape_data(MeshId::Cube, cube_snapshot));
    assert(upload.ensures((cube_snapshot,), table@[MeshId::Cube]));
    assert(is_shape_data(MeshId::Plane, plane_snapshot));
    assert(upload.ensures((plane_snapshot,), table@[MeshId::Plane]));
    table
}

} // verus!
