//! Fixed-size cubic voxel storage: a flat array of `CHUNK_SIZE^3` blocks
//! in chunk-local coordinates, with air-returning out-of-bounds reads and
//! no-op out-of-bounds writes, plus terrain generation from a column
//! height map.
use vstd::prelude::*;

use crate::block::Block;
use crate::coords::Vec3i;
use crate::CHUNK_SIZE;
use crate::VERTICAL_CHUNK_LAYERS;

verus! {

/// Number of blocks stored in one chunk.
pub const CHUNK_VOLUME: usize = 4096;

/// Whether a local coordinate lies inside chunk bounds on all three axes.
pub open spec fn spec_in_bounds(local: Vec3i) -> bool {
    &&& 0 <= local.x < CHUNK_SIZE
    &&& 0 <= local.y < CHUNK_SIZE
    &&& 0 <= local.z < CHUNK_SIZE
}

/// Flat storage index of an in-bounds local coordinate.
pub open spec fn spec_cell_index(local: Vec3i) -> int {
    local.x + local.y * CHUNK_SIZE + local.z * CHUNK_SIZE * CHUNK_SIZE
}

/// The block read at a local coordinate: the stored cell when in bounds,
/// air otherwise.
pub open spec fn spec_get(cells: Seq<Block>, local: Vec3i) -> Block {
    if spec_in_bounds(local) {
        cells[spec_cell_index(local)]
    } else {
        Block::spec_air()
    }
}

/// The cells after a write at a local coordinate: updated when in bounds,
/// unchanged otherwise.
pub open spec fn spec_set(cells: Seq<Block>, local: Vec3i, block: Block) -> Seq<Block> {
    if spec_in_bounds(local) {
        cells.update(spec_cell_index(local), block)
    } else {
        cells
    }
}

/// The terrain block of one cell, from its world Y coordinate and its
/// column's terrain height: air above the height, grassed dirt exactly at
/// the height, dirt below it.
pub open spec fn spec_terrain_block(world_y: int, height: int) -> Block {
    if world_y > height {
        Block::spec_air()
    } else if world_y == height {
        Block { kind: crate::block::BlockKind::DirtWithGrass, front: crate::block::Facing::PosZ }
    } else {
        Block { kind: crate::block::BlockKind::Dirt, front: crate::block::Facing::PosZ }
    }
}

/// Flat cell indices decode back to their unique in-bounds coordinates.
proof fn lemma_cell_index_decode(local: Vec3i)
    requires
        spec_in_bounds(local),
    ensures
        0 <= spec_cell_index(local) < CHUNK_VOLUME,
        spec_cell_index(local) % 16 == local.x,
        (spec_cell_index(local) / 16) % 16 == local.y,
        spec_cell_index(local) / 256 == local.z,
{
    let n = spec_cell_index(local);
    vstd::arithmetic::div_mod::lemma_fundamental_div_mod_converse(
        n,
        16,
        local.y + local.z * 16,
        local.x as int,
    );
    vstd::arithmetic::div_mod::lemma_fundamental_div_mod_converse(
        local.y + local.z * 16,
        16,
        local.z as int,
        local.y as int,
    );
    vstd::arithmetic::div_mod::lemma_fundamental_div_mod_converse(
        n,
        256,
        local.z as int,
        local.x + local.y * 16,
    );
}

/// Pure voxel storage for one chunk.
pub struct Chunk {
    /// Flat storage for `CHUNK_SIZE^3` blocks in local chunk coordinates.
    blocks: Vec<Block>,
}

impl View for Chunk {
    type V = Seq<Block>;

    closed spec fn view(&self) -> Seq<Block> {
        self.blocks@
    }
}

impl Chunk {
    /// Well-formedness: the flat storage holds exactly one block per cell.
    pub open spec fn wf(self) -> bool {
        self@.len() == CHUNK_VOLUME
    }

    /// Create an empty chunk filled with air blocks.
    pub fn new_empty() -> (r: Chunk)
        ensures
            r.wf(),
            forall|i: int| 0 <= i < CHUNK_VOLUME ==> r@[i] == Block::spec_air(),
    {
        let mut blocks: Vec<Block> = Vec::new();
        let mut n: usize = 0;
        while n < CHUNK_VOLUME
            invariant
                n <= CHUNK_VOLUME,
                blocks@.len() == n,
                forall|i: int| 0 <= i < n ==> blocks@[i] == Block::spec_air(),
            decreases CHUNK_VOLUME - n,
        {
            blocks.push(Block::air());
            n = n + 1;
        }
        Chunk { blocks }
    }

    /// Generate terrain blocks for one chunk from a height map of its
    /// `CHUNK_SIZE^2` columns, indexed `z * CHUNK_SIZE + x`: each column
    /// holds dirt up to its height, a grassed dirt block at the height,
    /// and air above it.
    pub fn new_terrain(coord: Vec3i, heights: &Vec<i32>) -> (r: Chunk)
        requires
            heights@.len() == CHUNK_SIZE * CHUNK_SIZE,
            i32::MIN <= coord.y * CHUNK_SIZE,
            coord.y * CHUNK_SIZE + CHUNK_SIZE <= i32::MAX,
        ensures
            r.wf(),
            forall|local: Vec3i| #[trigger] spec_in_bounds(local) ==> spec_get(r@, local)
                == spec_terrain_block(
                coord.y * CHUNK_SIZE + local.y,
                heights@[local.z * CHUNK_SIZE + local.x] as int,
            ),
    {
        let base_y: i32 = coord.y * 16;
        let mut blocks: Vec<Block> = Vec::new();
        let mut n: usize = 0;
        while n < CHUNK_VOLUME
            invariant
                n <= CHUNK_VOLUME,
                blocks@.len() == n,
                heights@.len() == CHUNK_SIZE * CHUNK_SIZE,
                base_y == coord.y * CHUNK_SIZE,
                i32::MIN <= coord.y * CHUNK_SIZE,
                coord.y * CHUNK_SIZE + CHUNK_SIZE <= i32::MAX,
                forall|m: int| 0 <= m < n ==> blocks@[m] == spec_terrain_block(
                    coord.y * CHUNK_SIZE + (m / 16) % 16,
                    heights@[(m / 256) * 16 + m % 16] as int,
                ),
            decreases CHUNK_VOLUME - n,
        {
            let x: usize = n % 16;
            let y: usize = (n / 16) % 16;
            let z: usize = n / 256;
            let height: i32 = heights[z * 16 + x];
            let world_y: i32 = base_y + (y as i32);
            let block = if world_y > height {
                Block::air()
            } else if world_y == height {
                Block::dirt_with_grass()
            } else {
                Block::dirt()
            };
            blocks.push(block);
            n = n + 1;
        }
        let chunk = Chunk { blocks };
        proof {
            assert forall|local: Vec3i| #[trigger] spec_in_bounds(local) implies spec_get(
                chunk@,
                local,
            ) == spec_terrain_block(
                coord.y * CHUNK_SIZE + local.y,
                heights@[local.z * CHUNK_SIZE + local.x] as int,
            ) by {
                lemma_cell_index_decode(local);
            }
        }
        chunk
    }

    /// Build a terrain chunk for valid vertical layers, otherwise return
    /// an empty chunk.
    pub fn new_streaming(coord: Vec3i, heights: &Vec<i32>) -> (r: Chunk)
        requires
            heights@.len() == CHUNK_SIZE * CHUNK_SIZE,
            i32::MIN <= coord.y * CHUNK_SIZE,
            coord.y * CHUNK_SIZE + CHUNK_SIZE <= i32::MAX,
        ensures
            r.wf(),
            (0 <= coord.y < VERTICAL_CHUNK_LAYERS) ==> forall|local: Vec3i|
                #[trigger] spec_in_bounds(local) ==> spec_get(r@, local) == spec_terrain_block(
                    coord.y * CHUNK_SIZE + local.y,
                    heights@[local.z * CHUNK_SIZE + local.x] as int,
                ),
            !(0 <= coord.y < VERTICAL_CHUNK_LAYERS) ==> forall|i: int|
                0 <= i < CHUNK_VOLUME ==> r@[i] == Block::spec_air(),
    {
        if 0 <= coord.y && coord.y < VERTICAL_CHUNK_LAYERS {
            Chunk::new_terrain(coord, heights)
        } else {
            Chunk::new_empty()
        }
    }

    /// Return `true` if local coordinates are inside chunk bounds.
    pub fn in_bounds(local: Vec3i) -> (r: bool)
        ensures
            r == spec_in_bounds(local),
    {
        0 <= local.x && local.x < CHUNK_SIZE && 0 <= local.y && local.y < CHUNK_SIZE && 0 <= local.z
            && local.z < CHUNK_SIZE
    }

    /// Flat storage index of an in-bounds local coordinate.
    fn index(local: Vec3i) -> (r: usize)
        requires
            spec_in_bounds(local),
        ensures
            r == spec_cell_index(local),
            r < CHUNK_VOLUME,
    {
        (local.x + local.y * CHUNK_SIZE + local.z * CHUNK_SIZE * CHUNK_SIZE) as usize
    }

    /// Read a block at local coordinates (returns air when out of bounds).
    pub fn get_block(&self, local: Vec3i) -> (r: Block)
        requires
            self.wf(),
        ensures
            r == spec_get(self@, local),
    {
        if !Chunk::in_bounds(local) {
            return Block::air();
        }
        self.blocks[Chunk::index(local)]
    }

    /// Write a block at local coordinates (ignores out-of-bounds writes).
    pub fn set_block(&mut self, local: Vec3i, block: Block)
        requires
            old(self).wf(),
        ensures
            final(self).wf(),
            final(self)@ == spec_set(old(self)@, local, block),
    {
        if !Chunk::in_bounds(local) {
            return ;
        }
        let index = Chunk::index(local);
        self.blocks.set(index, block);
    }
}

/// Reading a cell immediately after writing it returns the written block
/// for any in-bounds local coordinate, and a write at an out-of-bounds
/// local coordinate leaves the chunk contents unchanged.
pub proof fn lemma_set_then_get(cells: Seq<Block>, local: Vec3i, block: Block)
    requires
        cells.len() == CHUNK_VOLUME,
    ensures
        spec_in_bounds(local) ==> spec_get(spec_set(cells, local, block), local) == block,
        !spec_in_bounds(local) ==> spec_set(cells, local, block) == cells,
{
    if spec_in_bounds(local) {
        lemma_cell_index_decode(local);
    }
}

} // verus!
