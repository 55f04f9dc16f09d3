//! A cube placed in the world, with its transform and material.

use vstd::prelude::*;

use crate::renderer::mesh::MeshId;

verus! {

/// Represents a single cube object with its transform `T` and material `M`.
pub struct CubeObject<T, M> {
    transform: T,
    material: M,
}

impl<T, M> CubeObject<T, M> {
    /// The cube's transform.
    pub closed spec fn spec_transform(self) -> T {
        self.transform
    }

    /// The cube's material.
    pub closed spec fn spec_material(self) -> M {
        self.material
    }

    /// Creates a new cube object with the given starting transform and
    /// material.
    pub fn new(transform: T, material: M) -> (cube: Self)
        ensures
            cube.spec_transform() == transform,
            cube.spec_material() == material,
    {
        CubeObject { transform, material }
    }

    /// Updates this cube's transform.
    pub fn with_transform(&mut self, transform: T)
        ensures
            final(self).spec_transform() == transform,
            final(self).spec_material() == old(self).spec_material(),
    {
        self.transform = transform;
    }

    /// Updates this cube's material.
    pub fn with_material(&mut self, material: M)
        ensures
            final(self).spec_material() == material,
            final(self).spec_transform() == old(self).spec_transform(),
    {
        self.material = material;
    }

    /// Converts this object into the parts that make the final renderer
    /// object: the cube's mesh, its transform and its material.
    pub fn into_object_parts(self) -> (parts: (MeshId, T, M))
        ensures
            parts == (MeshId::Cube, self.spec_transform(), self.spec_material()),
    {
        (MeshId::Cube, self.transform, self.material)
    }
}

} // verus!
