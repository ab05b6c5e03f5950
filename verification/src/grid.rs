use std::collections::HashMap;
use vstd::prelude::*;
use crate::chunk::Chunk;
use crate::error::TerrainError;
use crate::index::ChunkIndex;

verus! {

broadcast use vstd::std_specs::hash::group_hash_axioms;

/// The storage key of a chunk index: its components as base-65536 digits.
spec fn key_of(i: ChunkIndex) -> u64 {
    (i.x + 65536 * (i.y + 65536 * i.z)) as u64
}

/// The chunk index whose storage key is `k`.
spec fn index_of(k: u64) -> ChunkIndex {
    ChunkIndex {
        x: (k % 65536) as u16,
        y: ((k / 65536) % 65536) as u16,
        z: ((k / 65536) / 65536) as u16,
    }
}

/// Whether `k` is the storage key of some chunk index.
spec fn is_key(k: u64) -> bool {
    k < 0x1_0000_0000_0000
}

proof fn lemma_key_round_trip(i: ChunkIndex)
    ensures
        is_key(key_of(i)),
        index_of(key_of(i)) == i,
{
}

proof fn lemma_index_round_trip(k: u64)
    requires
        is_key(k),
    ensures
        key_of(index_of(k)) == k,
{
}

proof fn lemma_key_injective(a: ChunkIndex, b: ChunkIndex)
    requires
        key_of(a) == key_of(b),
    ensures
        a == b,
{
    lemma_key_round_trip(a);
    lemma_key_round_trip(b);
}

fn packed(i: &ChunkIndex) -> (k: u64)
    ensures
        k == key_of(*i),
{
    let x: u64 = i.x as u64;
    let y: u64 = i.y as u64;
    let z: u64 = i.z as u64;
    x + 65536 * (y + 65536 * z)
}

/// The index next to `idx` in one of the six axis directions, numbered
/// `+x, -x, +y, -y, +z, -z` from 0. There is none where the step would leave
/// the lattice, and none for any other slot number.
pub open spec fn neighbor_index(idx: ChunkIndex, slot: int) -> Option<ChunkIndex> {
    if slot == 0 && idx.x < u16::MAX {
        Some(ChunkIndex { x: (idx.x + 1) as u16, y: idx.y, z: idx.z })
    } else if slot == 1 && idx.x > 0 {
        Some(ChunkIndex { x: (idx.x - 1) as u16, y: idx.y, z: idx.z })
    } else if slot == 2 && idx.y < u16::MAX {
        Some(ChunkIndex { x: idx.x, y: (idx.y + 1) as u16, z: idx.z })
    } else if slot == 3 && idx.y > 0 {
        Some(ChunkIndex { x: idx.x, y: (idx.y - 1) as u16, z: idx.z })
    } else if slot == 4 && idx.z < u16::MAX {
        Some(ChunkIndex { x: idx.x, y: idx.y, z: (idx.z + 1) as u16 })
    } else if slot == 5 && idx.z > 0 {
        Some(ChunkIndex { x: idx.x, y: idx.y, z: (idx.z - 1) as u16 })
    } else {
        None
    }
}

fn step(idx: &ChunkIndex, slot: usize) -> (next: Option<ChunkIndex>)
    ensures
        next == neighbor_index(*idx, slot as int),
{
    if slot == 0 && idx.x < u16::MAX {
        Some(ChunkIndex::new(idx.x + 1, idx.y, idx.z))
    } else if slot == 1 && idx.x > 0 {
        Some(ChunkIndex::new(idx.x - 1, idx.y, idx.z))
    } else if slot == 2 && idx.y < u16::MAX {
        Some(ChunkIndex::new(idx.x, idx.y + 1, idx.z))
    } else if slot == 3 && idx.y > 0 {
        Some(ChunkIndex::new(idx.x, idx.y - 1, idx.z))
    } else if slot == 4 && idx.z < u16::MAX {
        Some(ChunkIndex::new(idx.x, idx.y, idx.z + 1))
    } else if slot == 5 && idx.z > 0 {
        Some(ChunkIndex::new(idx.x, idx.y, idx.z - 1))
    } else {
        None
    }
}

/// The loaded terrain: a sparse set of chunks, at most one per chunk index.
/// Space in which no chunk is resident counts as air, yet a chunk that is not
/// resident is told apart from a resident chunk full of air.
#[derive(Debug)]
pub struct VoxelGrid {
    chunks: HashMap<u64, Chunk>,
}

impl View for VoxelGrid {
    type V = Map<ChunkIndex, Chunk>;

    /// The resident chunks by their index.
    closed spec fn view(&self) -> Map<ChunkIndex, Chunk> {
        Map::new(
            |i: ChunkIndex| self.chunks@.contains_key(key_of(i)),
            |i: ChunkIndex| self.chunks@[key_of(i)],
        )
    }
}

impl Clone for VoxelGrid {
    /// A grid in which the same chunks are resident.
    fn clone(&self) -> (copy: Self)
        ensures
            copy@ == self@,
            self.wf() ==> copy.wf(),
    {
        VoxelGrid { chunks: self.chunks.clone() }
    }
}

impl VoxelGrid {
    /// Every stored key belongs to a chunk index, and every resident chunk is
    /// well formed.
    pub closed spec fn wf(&self) -> bool {
        &&& forall|k: u64| #[trigger] self.chunks@.contains_key(k) ==> is_key(k)
        &&& forall|k: u64| #[trigger] self.chunks@.contains_key(k) ==> self.chunks@[k].wf()
    }

    /// Whether no chunk is resident.
    pub open spec fn spec_is_empty(&self) -> bool {
        forall|i: ChunkIndex| !self@.contains_key(i)
    }

    /// The chunk in slot `slot` around `idx`: the resident chunk at
    /// `neighbor_index(idx, slot)`, if that index exists and holds one.
    pub open spec fn neighbor(&self, idx: ChunkIndex, slot: int) -> Option<&Chunk> {
        match neighbor_index(idx, slot) {
            Some(next) => self.resident(next),
            None => None,
        }
    }

    /// The resident chunk at `idx`, if there is one.
    pub open spec fn resident(&self, idx: ChunkIndex) -> Option<&Chunk> {
        if self@.contains_key(idx) {
            Some(&self@[idx])
        } else {
            None
        }
    }

    /// Every resident chunk of a well-formed grid is well formed.
    pub proof fn lemma_resident_chunk_wf(&self, idx: ChunkIndex)
        requires
            self.wf(),
            self@.contains_key(idx),
        ensures
            self@[idx].wf(),
    {
    }

    /// A grid without chunks is empty; with one chunk inserted it is not; and
    /// with that index deleted again it is empty once more.
    pub proof fn lemma_insert_then_delete(
        fresh: VoxelGrid,
        loaded: VoxelGrid,
        cleared: VoxelGrid,
        idx: ChunkIndex,
        chunk: Chunk,
    )
        requires
            fresh@ == Map::<ChunkIndex, Chunk>::empty(),
            loaded@ == fresh@.insert(idx, chunk),
            cleared@ == loaded@.remove(idx),
        ensures
            fresh.is_empty(),
            !loaded.is_empty(),
            cleared.is_empty(),
    {
        assert(loaded@.contains_key(idx));
    }

    /// Deleting an index at which no chunk is resident changes nothing: the
    /// grid is as empty as before, and every resident chunk stays what it was.
    pub proof fn lemma_delete_absent(before: VoxelGrid, after: VoxelGrid, idx: ChunkIndex)
        requires
            !before@.contains_key(idx),
            after@ == before@.remove(idx),
        ensures
            after@ == before@,
            after.is_empty() == before.is_empty(),
            forall|i: ChunkIndex| after.resident(i) == before.resident(i),
    {
    }

    /// Inserting twice at one index leaves what the second insertion alone
    /// would have left: one chunk at that index, the later one.
    pub proof fn lemma_last_insert_wins(
        before: VoxelGrid,
        once: VoxelGrid,
        twice: VoxelGrid,
        idx: ChunkIndex,
        first: Chunk,
        second: Chunk,
    )
        requires
            once@ == before@.insert(idx, first),
            twice@ == once@.insert(idx, second),
        ensures
            twice@ == before@.insert(idx, second),
            twice.resident(idx) == Some(&second),
    {
    }

    /// Where the chunk at `idx` is the only resident one, all six slots
    /// around `idx` are vacant.
    pub proof fn lemma_lone_chunk_has_no_neighbors(grid: VoxelGrid, idx: ChunkIndex)
        requires
            forall|i: ChunkIndex| grid@.contains_key(i) <==> i == idx,
        ensures
            forall|slot: int| 0 <= slot < 6 ==> grid.neighbor(idx, slot) is None,
    {
    }

    /// Where the only resident chunks are the one at `idx` and the one a step
    /// along +x from it, the slot for +x around `idx` holds that second
    /// chunk, and the other five slots are vacant.
    pub proof fn lemma_only_positive_x_neighbor(grid: VoxelGrid, idx: ChunkIndex)
        requires
            idx.x < u16::MAX,
            forall|i: ChunkIndex|
                grid@.contains_key(i) <==> (i == idx || i == ChunkIndex {
                    x: (idx.x + 1) as u16,
                    y: idx.y,
                    z: idx.z,
                }),
        ensures
            grid.neighbor(idx, 0) == Some(
                &grid@[ChunkIndex { x: (idx.x + 1) as u16, y: idx.y, z: idx.z }],
            ),
            forall|slot: int| 1 <= slot < 6 ==> grid.neighbor(idx, slot) is None,
    {
    }

    /// Construct empty voxel grid.
    pub fn new() -> (g: Self)
        ensures
            g.wf(),
            g@ == Map::<ChunkIndex, Chunk>::empty(),
    {
        VoxelGrid { chunks: HashMap::new() }
    }

    /// Has no defined behaviour yet: always refuses, and leaves the grid as it
    /// was.
    pub fn fill(&mut self, _chunk: ChunkIndex) -> (r: Result<(), TerrainError>)
        ensures
            r == Err::<(), TerrainError>(TerrainError::NotSupported),
            *final(self) == *old(self),
    {
        Err(TerrainError::NotSupported)
    }

    /// Makes `chunk` the resident chunk at `idx`. A chunk that was resident
    /// there before is dropped: the last write wins.
    pub fn insert_chunk(&mut self, idx: &ChunkIndex, chunk: Chunk)
        requires
            old(self).wf(),
            chunk.wf(),
        ensures
            final(self).wf(),
            final(self)@ == old(self)@.insert(*idx, chunk),
    {
        let key = packed(idx);
        self.chunks.insert(key, chunk);
        proof {
            assert forall|i: ChunkIndex| key_of(i) == key implies i == *idx by {
                lemma_key_injective(i, *idx);
            }
            assert(self@ =~= old(self)@.insert(*idx, chunk));
        }
    }

    /// Removes the resident chunk at `idx`, if there is one. Where there is
    /// none, nothing changes.
    pub fn delete_chunk(&mut self, idx: &ChunkIndex)
        requires
            old(self).wf(),
        ensures
            final(self).wf(),
            final(self)@ == old(self)@.remove(*idx),
            !old(self)@.contains_key(*idx) ==> final(self)@ == old(self)@,
    {
        let key = packed(idx);
        self.chunks.remove(&key);
        proof {
            assert forall|i: ChunkIndex| key_of(i) == key implies i == *idx by {
                lemma_key_injective(i, *idx);
            }
            assert(self@ =~= old(self)@.remove(*idx));
        }
    }

    fn chunk_at(&self, at: Option<ChunkIndex>) -> (found: Option<&Chunk>)
        requires
            self.wf(),
        ensures
            found == match at {
                Some(idx) => self.resident(idx),
                None => None,
            },
            found matches Some(c) ==> c.wf(),
    {
        match at {
            Some(idx) => {
                let key = packed(&idx);
                self.chunks.get(&key)
            },
            None => None,
        }
    }

    /// The chunks around `idx`, in the order `+x, -x, +y, -y, +z, -z`. A slot
    /// is `None` where no chunk is resident at the adjacent index, and where
    /// there is no adjacent index because a component of `idx` is already at
    /// the edge of the lattice (0 or 65535): components neither wrap nor clamp.
    pub fn neighbors(&self, idx: &ChunkIndex) -> (around: [Option<&Chunk>; 6])
        requires
            self.wf(),
        ensures
            forall|slot: int|
                0 <= slot < 6 ==> #[trigger] around@[slot] == self.neighbor(*idx, slot),
            forall|slot: int|
                0 <= slot < 6 && (#[trigger] around@[slot]).is_some() ==> around@[slot].unwrap().wf(),
    {
        [
            self.chunk_at(step(idx, 0)),
            self.chunk_at(step(idx, 1)),
            self.chunk_at(step(idx, 2)),
            self.chunk_at(step(idx, 3)),
            self.chunk_at(step(idx, 4)),
            self.chunk_at(step(idx, 5)),
        ]
    }

    /// Whether no chunk is resident.
    #[verifier::when_used_as_spec(spec_is_empty)]
    pub fn is_empty(&self) -> (empty: bool)
        requires
            self.wf(),
        ensures
            empty == self.is_empty(),
    {
        let empty = self.chunks.is_empty();
        proof {
            if !empty {
                let k = choose|k: u64| self.chunks@.dom().contains(k);
                lemma_index_round_trip(k);
                assert(self@.contains_key(index_of(k)));
            }
        }
        empty
    }
}

} // verus!
