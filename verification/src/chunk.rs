use vstd::prelude::*;
use crate::error::TerrainError;
use crate::index::VoxelIndex;
use crate::material::Material;
use crate::quantized::QuantizedFloat;
use crate::voxel::Voxel;

verus! {

/// Number of voxels in a cube whose edge is `dim` voxels long.
pub open spec fn volume(dim: int) -> int {
    dim * dim * dim
}

/// Whether every component of `idx` lies below `dim`.
pub open spec fn in_bounds(dim: int, idx: VoxelIndex) -> bool {
    idx.x < dim && idx.y < dim && idx.z < dim
}

/// Where the voxel at `idx` is stored in a chunk of edge `dim`: row-major,
/// with x varying fastest, then y, then z.
pub open spec fn linear_offset(dim: int, idx: VoxelIndex) -> int {
    idx.x + dim * (idx.y + dim * idx.z)
}

proof fn lemma_offset_steps(d: int, x: int, y: int, z: int)
    by (nonlinear_arith)
    requires
        0 <= x < d,
        0 <= y < d,
        0 <= z < d,
    ensures
        0 <= d * z <= d * d - d,
        0 <= y + d * z < d * d,
        0 <= d * (y + d * z) <= d * d * d - d,
        0 <= x + d * (y + d * z) < d * d * d,
        d * d <= d * d * d,
{
}

/// An in-bounds index is stored inside the chunk's volume.
pub proof fn lemma_offset_in_volume(dim: int, idx: VoxelIndex)
    requires
        in_bounds(dim, idx),
    ensures
        0 <= linear_offset(dim, idx) < volume(dim),
{
    lemma_offset_steps(dim, idx.x as int, idx.y as int, idx.z as int);
}

proof fn lemma_digits_unique(d: int, lo1: int, hi1: int, lo2: int, hi2: int)
    by (nonlinear_arith)
    requires
        0 <= lo1 < d,
        0 <= lo2 < d,
        lo1 + d * hi1 == lo2 + d * hi2,
    ensures
        lo1 == lo2,
        hi1 == hi2,
{
}

/// Two different in-bounds indices are never stored in the same place.
pub proof fn lemma_offset_injective(dim: int, a: VoxelIndex, b: VoxelIndex)
    requires
        in_bounds(dim, a),
        in_bounds(dim, b),
        linear_offset(dim, a) == linear_offset(dim, b),
    ensures
        a == b,
{
    lemma_digits_unique(
        dim,
        a.x as int,
        a.y + dim * a.z,
        b.x as int,
        b.y + dim * b.z,
    );
    lemma_digits_unique(dim, a.y as int, a.z as int, b.y as int, b.z as int);
}

/// A cube of voxels, stored densely.
#[derive(Debug)]
pub struct Chunk {
    voxels: Vec<Voxel>,
    dimension: u16,
}

impl View for Chunk {
    type V = Seq<Voxel>;

    /// The voxels in storage order.
    closed spec fn view(&self) -> Seq<Voxel> {
        self.voxels@
    }
}

impl Clone for Chunk {
    /// A chunk of the same dimension that holds the same voxels.
    fn clone(&self) -> (copy: Self)
        ensures
            copy@ == self@,
            copy.dimension() == self.dimension(),
    {
        Chunk { voxels: self.voxels.clone(), dimension: self.dimension }
    }
}

impl Chunk {
    /// The edge length of the chunk, in voxels.
    pub closed spec fn spec_dimension(&self) -> u16 {
        self.dimension
    }

    /// A chunk holds exactly as many voxels as its volume.
    pub open spec fn wf(&self) -> bool {
        self@.len() == volume(self.dimension() as int)
    }

    /// Whether `idx` names a voxel of this chunk.
    pub open spec fn contains(&self, idx: VoxelIndex) -> bool {
        in_bounds(self.dimension() as int, idx)
    }

    /// The voxel at `idx`.
    pub open spec fn voxel_at(&self, idx: VoxelIndex) -> Voxel {
        self@[linear_offset(self.dimension() as int, idx)]
    }

    /// Writing one voxel into the storage of a well-formed chunk leaves a
    /// well-formed chunk in which the voxel at that index is the one written,
    /// and the voxel at every other index is what it was.
    pub proof fn lemma_update_touches_one_voxel(
        before: Chunk,
        after: Chunk,
        idx: VoxelIndex,
        written: Voxel,
    )
        requires
            before.wf(),
            before.contains(idx),
            after.dimension() == before.dimension(),
            after@ == before@.update(linear_offset(before.dimension() as int, idx), written),
        ensures
            after.wf(),
            after.voxel_at(idx) == written,
            forall|other: VoxelIndex|
                before.contains(other) && other != idx ==> #[trigger] after.voxel_at(other)
                    == before.voxel_at(other),
    {
        let dim = before.dimension() as int;
        lemma_offset_in_volume(dim, idx);
        assert forall|other: VoxelIndex| before.contains(other) && other != idx implies #[trigger]
            after.voxel_at(other) == before.voxel_at(other) by {
            lemma_offset_in_volume(dim, other);
            if linear_offset(dim, other) == linear_offset(dim, idx) {
                lemma_offset_injective(dim, other, idx);
            }
        }
    }

    /// A chunk of edge `dim` in which every voxel is empty space.
    #[inline]
    pub fn new(dim: u16) -> (c: Chunk)
        requires
            volume(dim as int) <= usize::MAX,
        ensures
            c.wf(),
            c.dimension() == dim,
            c@ == Seq::new(volume(dim as int) as nat, |i: int| Voxel::empty()),
            forall|idx: VoxelIndex| c.contains(idx) ==> #[trigger] c.voxel_at(idx) == Voxel::empty(),
    {
        let d: usize = dim as usize;
        proof {
            assert(d * d <= d * d * d) by (nonlinear_arith)
                requires
                    0 <= d,
            ;
        }
        let count: usize = d * d * d;
        let mut voxels: Vec<Voxel> = Vec::with_capacity(count);
        let mut filled: usize = 0;
        while filled < count
            invariant
                filled <= count,
                voxels@.len() == filled,
                forall|i: int| 0 <= i < filled ==> voxels@[i] == Voxel::empty(),
            decreases count - filled,
        {
            voxels.push(Voxel::new());
            filled = filled + 1;
        }
        let c = Chunk { voxels, dimension: dim };
        proof {
            assert forall|idx: VoxelIndex| c.contains(idx) implies #[trigger] c.voxel_at(idx)
                == Voxel::empty() by {
                lemma_offset_in_volume(dim as int, idx);
            }
        }
        c
    }

    #[inline]
    #[verifier::when_used_as_spec(spec_dimension)]
    pub fn dimension(&self) -> (d: u16)
        ensures
            d == self.dimension(),
    {
        self.dimension
    }

    /// Where the voxel at `i`, which must lie inside the chunk, is stored.
    #[inline]
    pub fn one_dim_coord(&self, i: VoxelIndex) -> (offset: usize)
        requires
            self.wf(),
            self.contains(i),
        ensures
            offset == linear_offset(self.dimension() as int, i),
            offset < self@.len(),
    {
        let d: usize = self.dimension as usize;
        proof {
            lemma_offset_steps(d as int, i.x as int, i.y as int, i.z as int);
            assert(d * d * d == self.voxels.len() <= usize::MAX);
        }
        i.x as usize + d * (i.y as usize + d * (i.z as usize))
    }

    /// Reads the voxel at `idx`, which must lie inside the chunk.
    #[inline]
    pub fn get_voxel_at(&self, idx: VoxelIndex) -> (v: Voxel)
        requires
            self.wf(),
            self.contains(idx),
        ensures
            v == self.voxel_at(idx),
    {
        self.voxels[self.one_dim_coord(idx)]
    }

    /// Replaces the voxel at `idx`, which must lie inside the chunk, with one
    /// made of `m` and filled to `o`. No other voxel changes.
    #[inline]
    pub fn set_voxel_at(&mut self, idx: VoxelIndex, m: Material, o: QuantizedFloat)
        requires
            old(self).wf(),
            old(self).contains(idx),
        ensures
            final(self).wf(),
            final(self).dimension() == old(self).dimension(),
            final(self)@ == old(self)@.update(
                linear_offset(old(self).dimension() as int, idx),
                Voxel::with_parts(m, o),
            ),
            final(self).voxel_at(idx) == Voxel::with_parts(m, o),
            forall|other: VoxelIndex|
                old(self).contains(other) && other != idx ==> #[trigger] final(self).voxel_at(
                    other,
                ) == old(self).voxel_at(other),
    {
        let v = {
            let mut temp = self.get_voxel_at(idx);
            temp.set(m, o);
            temp
        };
        let i = self.one_dim_coord(idx);
        self.voxels.set(i, v);
        proof {
            Self::lemma_update_touches_one_voxel(*old(self), *self, idx, v);
        }
    }

    /// Reads the voxel at `idx`, or refuses an index outside the chunk.
    pub fn try_get_voxel_at(&self, idx: VoxelIndex) -> (r: Result<Voxel, TerrainError>)
        requires
            self.wf(),
        ensures
            self.contains(idx) ==> r == Ok::<Voxel, TerrainError>(self.voxel_at(idx)),
            !self.contains(idx) ==> r == Err::<Voxel, TerrainError>(
                TerrainError::IndexOutOfBounds,
            ),
    {
        if idx.x < self.dimension && idx.y < self.dimension && idx.z < self.dimension {
            Ok(self.get_voxel_at(idx))
        } else {
            Err(TerrainError::IndexOutOfBounds)
        }
    }

    /// Replaces the voxel at `idx` as `set_voxel_at` does, or refuses an index
    /// outside the chunk and leaves the chunk as it was.
    pub fn try_set_voxel_at(&mut self, idx: VoxelIndex, m: Material, o: QuantizedFloat) -> (r:
        Result<(), TerrainError>)
        requires
            old(self).wf(),
        ensures
            final(self).wf(),
            final(self).dimension() == old(self).dimension(),
            old(self).contains(idx) ==> r == Ok::<(), TerrainError>(()) && final(self)@ == old(
                self,
            )@.update(
                linear_offset(old(self).dimension() as int, idx),
                Voxel::with_parts(m, o),
            ),
            !old(self).contains(idx) ==> r == Err::<(), TerrainError>(
                TerrainError::IndexOutOfBounds,
            ) && final(self)@ == old(self)@,
    {
        if idx.x < self.dimension && idx.y < self.dimension && idx.z < self.dimension {
            self.set_voxel_at(idx, m, o);
            Ok(())
        } else {
            Err(TerrainError::IndexOutOfBounds)
        }
    }
}

} // verus!
