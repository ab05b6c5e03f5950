use vstd::prelude::*;

verus! {

/// The substance a voxel is made of. `Air` stands for empty space.
#[derive(Debug, Clone, Copy, PartialEq, Eq, Structural)]
pub enum Material {
    Air,
    Grass,
    Snow,
    Water,
    Ice,
    Rock,
}

} // verus!
