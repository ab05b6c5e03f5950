use vstd::prelude::*;

verus! {

/// The position of a voxel inside one chunk.
#[derive(Debug, Copy, Clone, PartialEq, Eq, Hash, Structural)]
pub struct VoxelIndex {
    pub x: u16,
    pub y: u16,
    pub z: u16,
}

impl VoxelIndex {
    #[inline]
    pub fn new(x: u16, y: u16, z: u16) -> (i: Self)
        ensures
            i == (VoxelIndex { x, y, z }),
    {
        VoxelIndex { x, y, z }
    }
}

/// The position of a chunk in the lattice of chunks.
#[derive(Debug, Copy, Clone, PartialEq, Eq, Hash, Structural)]
pub struct ChunkIndex {
    pub x: u16,
    pub y: u16,
    pub z: u16,
}

impl ChunkIndex {
    #[inline]
    pub fn new(x: u16, y: u16, z: u16) -> (i: Self)
        ensures
            i == (ChunkIndex { x, y, z }),
    {
        ChunkIndex { x, y, z }
    }
}

} // verus!
