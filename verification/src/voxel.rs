use vstd::prelude::*;
use crate::material::Material;
use crate::quantized::QuantizedFloat;

verus! {

/// The contents of one unit cell of space: what it is made of and how full it
/// is.
#[derive(Debug, Copy, Clone, PartialEq, Eq, Structural)]
pub struct Voxel {
    material: Material,
    occupancy: QuantizedFloat,
}

impl Voxel {
    /// The material of this voxel.
    pub closed spec fn material(self) -> Material {
        self.material
    }

    /// The occupancy code of this voxel.
    pub closed spec fn occupancy(self) -> QuantizedFloat {
        self.occupancy
    }

    /// The voxel made of `m` and filled to `o`.
    pub closed spec fn with_parts(m: Material, o: QuantizedFloat) -> Voxel {
        Voxel { material: m, occupancy: o }
    }

    /// The voxel of empty space: air, occupancy code 0.
    pub open spec fn empty() -> Voxel {
        Self::with_parts(Material::Air, QuantizedFloat { value: 0 })
    }

    /// Reading the parts of a voxel built from `m` and `o` gives back exactly
    /// `m` and `o`.
    pub proof fn lemma_parts_read_back(m: Material, o: QuantizedFloat)
        ensures
            Self::with_parts(m, o).material() == m,
            Self::with_parts(m, o).occupancy() == o,
    {
    }

    /// A voxel is nothing more than its two parts: rebuilding it from what was
    /// read gives the same voxel.
    pub proof fn lemma_voxel_is_its_parts(v: Voxel)
        ensures
            v == Self::with_parts(v.material(), v.occupancy()),
    {
    }

    #[inline]
    pub fn new() -> (v: Self)
        ensures
            v == Self::empty(),
    {
        Voxel { material: Material::Air, occupancy: QuantizedFloat::new(0) }
    }

    pub fn new_with_args(mat: Material, occ: QuantizedFloat) -> (v: Self)
        ensures
            v == Self::with_parts(mat, occ),
    {
        Voxel { material: mat, occupancy: occ }
    }

    /// Replaces both parts at once.
    #[inline]
    pub fn set(&mut self, m: Material, o: QuantizedFloat)
        ensures
            *final(self) == Self::with_parts(m, o),
    {
        self.material = m;
        self.occupancy = o;
    }

    #[inline]
    pub fn set_material(&mut self, m: Material)
        ensures
            *final(self) == Self::with_parts(m, old(self).occupancy()),
    {
        self.material = m;
    }

    #[inline]
    pub fn set_occupancy(&mut self, o: QuantizedFloat)
        ensures
            *final(self) == Self::with_parts(old(self).material(), o),
    {
        self.occupancy = o;
    }

    #[inline]
    pub fn get_material(&self) -> (m: Material)
        ensures
            m == self.material(),
    {
        self.material
    }

    #[inline]
    pub fn get_occupancy(&self) -> (o: QuantizedFloat)
        ensures
            o == self.occupancy(),
    {
        self.occupancy
    }
}

} // verus!
