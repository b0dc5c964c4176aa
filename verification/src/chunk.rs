//! Chunks: dense cubic grids of block ids at a grid position.

use crate::geometry::V3;
use vstd::prelude::*;

verus! {

/// Block id of the empty voxel: no geometry, skipped by the assembler.
pub const AIR: u16 = 0;

/// Edge length of a standard chunk, in voxels.
pub const CHUNK_EDGE: usize = 32;

/// Largest magnitude of a chunk-space grid coordinate.
pub const CHUNK_POS_MAX: i64 = 0x100_0000;

/// A chunk-space grid coordinate; also the marker that identifies a live
/// chunk's drawable in the scene.
#[derive(Clone, Copy, PartialEq, Eq, Structural, Debug, Hash)]
pub struct GridPos {
    pub x: i64,
    pub y: i64,
    pub z: i64,
}

impl View for GridPos {
    type V = V3;

    open spec fn view(&self) -> V3 {
        V3 { x: self.x as int, y: self.y as int, z: self.z as int }
    }
}

impl GridPos {
    /// Every coordinate has magnitude at most `CHUNK_POS_MAX`.
    pub open spec fn wf(&self) -> bool {
        &&& -CHUNK_POS_MAX <= self.x <= CHUNK_POS_MAX
        &&& -CHUNK_POS_MAX <= self.y <= CHUNK_POS_MAX
        &&& -CHUNK_POS_MAX <= self.z <= CHUNK_POS_MAX
    }

    pub fn new(x: i64, y: i64, z: i64) -> (r: GridPos)
        ensures
            r == (GridPos { x, y, z }),
    {
        GridPos { x, y, z }
    }
}

/// Local voxel coordinates of the voxel at `index`, under the fixed
/// convention `index = x + y * edge + z * edge * edge`.
pub open spec fn spec_local_pos(edge: int, index: int) -> V3 {
    V3 {
        x: index % edge,
        y: (index / edge) % edge,
        z: (index / (edge * edge)) % edge,
    }
}

/// A dense cubic grid of block ids with a chunk-space position.
pub struct Chunk {
    pub block_ids: Vec<u16>,
    pub position: GridPos,
    pub edge: usize,
}

impl Chunk {
    /// The grid is exactly `edge` cubed, the edge is between 1 and
    /// `CHUNK_EDGE`, and the position is within the grid-coordinate range.
    pub open spec fn wf(&self) -> bool {
        &&& 1 <= self.edge <= CHUNK_EDGE
        &&& self.block_ids@.len() == self.edge * self.edge * self.edge
        &&& self.position.wf()
    }

    /// Number of voxels in the chunk.
    pub open spec fn spec_volume(&self) -> int {
        self.edge * self.edge * self.edge
    }

    /// An all-`AIR` chunk of the standard edge length at `position`.
    pub fn new(position: GridPos) -> (r: Chunk)
        requires
            position.wf(),
        ensures
            r.wf(),
            r.edge == CHUNK_EDGE,
            r.position == position,
            r.block_ids@.len() == r.spec_volume(),
            forall|i: int| 0 <= i < r.block_ids@.len() ==> r.block_ids@[i] == AIR,
    {
        Chunk::new_with_edge(position, CHUNK_EDGE)
    }

    /// An all-`AIR` chunk of the given edge length at `position`.
    pub fn new_with_edge(position: GridPos, edge: usize) -> (r: Chunk)
        requires
            position.wf(),
            1 <= edge <= CHUNK_EDGE,
        ensures
            r.wf(),
            r.edge == edge,
            r.position == position,
            r.block_ids@.len() == r.spec_volume(),
            forall|i: int| 0 <= i < r.block_ids@.len() ==> r.block_ids@[i] == AIR,
    {
        let volume = chunk_volume(edge);
        let mut block_ids: Vec<u16> = Vec::new();
        let mut i: usize = 0;
        while i < volume
            invariant
                i <= volume,
                block_ids@.len() == i,
                forall|k: int| 0 <= k < i ==> block_ids@[k] == AIR,
            decreases volume - i,
        {
            block_ids.push(AIR);
            i = i + 1;
        }
        Chunk { block_ids, position, edge }
    }

    /// The block id at `index`, or `None` when `index` is out of range.
    pub fn get(&self, index: usize) -> (r: Option<u16>)
        ensures
            index < self.block_ids@.len() ==> r == Some(self.block_ids@[index as int]),
            index >= self.block_ids@.len() ==> r is None,
    {
        if index < self.block_ids.len() {
            Some(self.block_ids[index])
        } else {
            None
        }
    }

    /// Store `block_id` at `index`; a no-op when `index` is out of range.
    pub fn set(&mut self, block_id: u16, index: usize)
        ensures
            index < old(self).block_ids@.len() ==> final(self).block_ids@ == old(
                self,
            ).block_ids@.update(index as int, block_id),
            index >= old(self).block_ids@.len() ==> final(self).block_ids@ == old(
                self,
            ).block_ids@,
            final(self).position == old(self).position,
            final(self).edge == old(self).edge,
    {
        if index < self.block_ids.len() {
            self.block_ids.set(index, block_id);
        }
    }

    /// Set every voxel of the grid to `block_id`.
    pub fn fill_chunk(&mut self, block_id: u16)
        ensures
            final(self).block_ids@.len() == old(self).block_ids@.len(),
            forall|i: int|
                0 <= i < final(self).block_ids@.len() ==> final(self).block_ids@[i] == block_id,
            final(self).position == old(self).position,
            final(self).edge == old(self).edge,
    {
        let n = self.block_ids.len();
        let mut i: usize = 0;
        while i < n
            invariant
                i <= n,
                self.block_ids@.len() == n,
                forall|k: int| 0 <= k < i ==> self.block_ids@[k] == block_id,
                self.position == old(self).position,
                self.edge == old(self).edge,
            decreases n - i,
        {
            self.block_ids.set(i, block_id);
            i = i + 1;
        }
    }

    /// Local voxel coordinates of the voxel at `index`, under the fixed
    /// convention `index = x + y * edge + z * edge * edge`.
    pub fn position_from_index(&self, index: usize) -> (r: GridPos)
        requires
            self.wf(),
        ensures
            r@ == spec_local_pos(self.edge as int, index as int),
            0 <= r.x < self.edge,
            0 <= r.y < self.edge,
            0 <= r.z < self.edge,
    {
        let edge = self.edge;
        proof {
            assert(1 <= edge * edge <= CHUNK_EDGE * CHUNK_EDGE) by (nonlinear_arith)
                requires
                    1 <= edge <= CHUNK_EDGE,
            ;
        }
        let x = index % edge;
        let y = (index / edge) % edge;
        let z = (index / (edge * edge)) % edge;
        GridPos { x: x as i64, y: y as i64, z: z as i64 }
    }

    /// Number of voxels in the chunk.
    pub fn volume(&self) -> (r: usize)
        requires
            self.wf(),
        ensures
            r == self.spec_volume(),
            r == self.block_ids@.len(),
            r <= CHUNK_EDGE * CHUNK_EDGE * CHUNK_EDGE,
    {
        chunk_volume(self.edge)
    }
}

/// `edge` cubed, the voxel count of a chunk with that edge length.
pub fn chunk_volume(edge: usize) -> (r: usize)
    requires
        1 <= edge <= CHUNK_EDGE,
    ensures
        r == edge * edge * edge,
        r <= CHUNK_EDGE * CHUNK_EDGE * CHUNK_EDGE,
{
    proof {
        assert(1 <= edge * edge <= CHUNK_EDGE * CHUNK_EDGE && edge * edge * edge <= CHUNK_EDGE
            * CHUNK_EDGE * CHUNK_EDGE) by (nonlinear_arith)
            requires
                1 <= edge <= CHUNK_EDGE,
        ;
    }
    edge * edge * edge
}

} // verus!
