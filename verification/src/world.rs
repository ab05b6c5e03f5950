use vstd::prelude::*;
use crate::chunk::{in_bounds, Chunk};
use crate::grid::VoxelGrid;
use crate::index::{ChunkIndex, VoxelIndex};
use crate::material::Material;
use crate::quantized::QuantizedFloat;
use crate::voxel::Voxel;

verus! {

/// Edge length of the starting chunk, in voxels.
pub const CHUNK_DIMENSION: u16 = 32;

/// Height of the grass plane inside the starting chunk.
pub const PLANE_HEIGHT: u16 = 16;

/// The chunk index at which the starting chunk is resident.
pub open spec fn origin() -> ChunkIndex {
    ChunkIndex { x: 0, y: 0, z: 0 }
}

/// The voxel that grass planes are made of: grass at the highest occupancy
/// code.
pub open spec fn grass() -> Voxel {
    Voxel::with_parts(Material::Grass, QuantizedFloat { value: 255 })
}

/// The voxel at `idx` in the starting chunk: grass on the plane at
/// `PLANE_HEIGHT`, empty space above and below it.
pub open spec fn plane_voxel(idx: VoxelIndex) -> Voxel {
    if idx.y == PLANE_HEIGHT {
        grass()
    } else {
        Voxel::empty()
    }
}

/// Whether `idx` comes before column `(x, z)` of the plane when the plane is
/// laid column by column, x outermost.
spec fn laid(idx: VoxelIndex, x: int, z: int) -> bool {
    idx.y == PLANE_HEIGHT && (idx.x < x || (idx.x == x && idx.z < z))
}

/// The terrain the world starts with: a single chunk of edge
/// `CHUNK_DIMENSION` at the origin, with a plane of grass through it.
pub fn initialise_terrain() -> (grid: VoxelGrid)
    ensures
        grid.wf(),
        forall|i: ChunkIndex| grid@.contains_key(i) <==> i == origin(),
        grid@[origin()].wf(),
        grid@[origin()].dimension() == CHUNK_DIMENSION,
        forall|idx: VoxelIndex|
            in_bounds(CHUNK_DIMENSION as int, idx) ==> #[trigger] grid@[origin()].voxel_at(idx)
                == plane_voxel(idx),
{
    let mut vg = VoxelGrid::new();
    let mut first_chunk = Chunk::new(CHUNK_DIMENSION);
    let mut outer: u16 = 0;
    while outer < CHUNK_DIMENSION
        invariant
            outer <= CHUNK_DIMENSION,
            first_chunk.wf(),
            first_chunk.dimension() == CHUNK_DIMENSION,
            forall|idx: VoxelIndex|
                in_bounds(CHUNK_DIMENSION as int, idx) ==> #[trigger] first_chunk.voxel_at(idx)
                    == if laid(idx, outer as int, 0) {
                    grass()
                } else {
                    Voxel::empty()
                },
        decreases CHUNK_DIMENSION - outer,
    {
        let mut inner: u16 = 0;
        while inner < CHUNK_DIMENSION
            invariant
                outer < CHUNK_DIMENSION,
                inner <= CHUNK_DIMENSION,
                first_chunk.wf(),
                first_chunk.dimension() == CHUNK_DIMENSION,
                forall|idx: VoxelIndex|
                    in_bounds(CHUNK_DIMENSION as int, idx) ==> #[trigger] first_chunk.voxel_at(idx)
                        == if laid(idx, outer as int, inner as int) {
                        grass()
                    } else {
                        Voxel::empty()
                    },
            decreases CHUNK_DIMENSION - inner,
        {
            first_chunk.set_voxel_at(
                VoxelIndex::new(outer, PLANE_HEIGHT, inner),
                Material::Grass,
                QuantizedFloat::new(255),
            );
            inner = inner + 1;
        }
        outer = outer + 1;
    }
    vg.insert_chunk(&ChunkIndex::new(0, 0, 0), first_chunk);
    vg
}

} // verus!
