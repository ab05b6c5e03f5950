use vstd::prelude::*;

verus! {

/// Why a terrain operation was refused.
#[derive(Debug, Clone, Copy, PartialEq, Eq, Structural)]
pub enum TerrainError {
    /// A voxel index has a component that is not below the chunk's dimension.
    IndexOutOfBounds,
    /// The operation has no defined behaviour yet.
    NotSupported,
}

} // verus!
