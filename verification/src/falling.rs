//! Gravity rules for unsupported blocks: the falling-candidate
//! classification, the dedup propagation queue of positions whose
//! support must be re-checked, atomic detachment of a candidate into a
//! transient falling entity, and resettlement on landing.
use vstd::prelude::*;

use crate::block::Block;
use crate::coords::Vec3i;
use crate::seq_facts::{coords_contain, distinct_seq, lemma_distinct_push, lemma_push_contains};
use crate::world::WorldState;

verus! {

/// Transient state of a block detached from the voxel store and
/// simulated as a falling entity.
pub struct FallingBlock {
    /// Block state carried by the falling entity.
    pub block: Block,
}

impl FallingBlock {
    /// Build falling-block state carrying the detached block.
    pub fn new(block: Block) -> (r: FallingBlock)
        ensures
            r.block == block,
    {
        FallingBlock { block }
    }
}

/// Whether a block at a world position should detach and become a
/// falling entity: it is solid, its definition marks it unstable, the
/// cell directly below is inside the world floor, and that cell is not
/// solid.
pub open spec fn spec_should_start_falling(world: WorldState, world_pos: Vec3i, block: Block)
    -> bool {
    &&& block.spec_is_solid()
    &&& !block.spec_is_stable()
    &&& world_pos.y - 1 >= 0
    &&& !world.spec_is_solid_at(Vec3i { x: world_pos.x, y: (world_pos.y - 1) as i32, z: world_pos.z })
}

/// Return whether a block at `world_pos` should detach and become a
/// falling entity.
pub fn should_start_falling(world: &WorldState, world_pos: Vec3i, block: Block) -> (r: bool)
    requires
        world.wf(),
        world_pos.y > i32::MIN,
    ensures
        r == spec_should_start_falling(*world, world_pos, block),
{
    if !block.is_solid() || block.is_stable() {
        return false;
    }
    // Unstable blocks (sand-like): only check support below.
    let below = Vec3i { x: world_pos.x, y: world_pos.y - 1, z: world_pos.z };
    below.y >= 0 && !world.is_solid_at_world_pos(below)
}

/// A Sand-kind block with a non-solid cell directly beneath it is a
/// falling candidate, while a Dirt-kind or grassed-dirt block in the
/// same configuration is not, and air never falls.
pub proof fn lemma_falling_candidate_kinds(world: WorldState, world_pos: Vec3i, front:
    crate::block::Facing)
    requires
        world_pos.y >= 1,
        !world.spec_is_solid_at(
            Vec3i { x: world_pos.x, y: (world_pos.y - 1) as i32, z: world_pos.z },
        ),
    ensures
        spec_should_start_falling(
            world,
            world_pos,
            Block { kind: crate::block::BlockKind::Sand, front },
        ),
        !spec_should_start_falling(
            world,
            world_pos,
            Block { kind: crate::block::BlockKind::Dirt, front },
        ),
        !spec_should_start_falling(
            world,
            world_pos,
            Block { kind: crate::block::BlockKind::DirtWithGrass, front },
        ),
        !spec_should_start_falling(
            world,
            world_pos,
            Block { kind: crate::block::BlockKind::Air, front },
        ),
{
}

/// The positions whose support a change at `pos` can affect: the
/// position itself, its four horizontal neighbors, and the cell above
/// (never the cell below, which the change cannot unsupport).
pub open spec fn spec_support_neighborhood(pos: Vec3i, p: Vec3i) -> bool {
    ||| p == pos
    ||| p == (Vec3i { x: (pos.x + 1) as i32, y: pos.y, z: pos.z })
    ||| p == (Vec3i { x: (pos.x - 1) as i32, y: pos.y, z: pos.z })
    ||| p == (Vec3i { x: pos.x, y: (pos.y + 1) as i32, z: pos.z })
    ||| p == (Vec3i { x: pos.x, y: pos.y, z: (pos.z + 1) as i32 })
    ||| p == (Vec3i { x: pos.x, y: pos.y, z: (pos.z - 1) as i32 })
}

/// The queue contents after support propagation from `pos`: exactly the
/// old members plus the support neighborhood of `pos`.
pub open spec fn spec_enqueued_with_neighbors(pre: Seq<Vec3i>, post: Seq<Vec3i>, pos: Vec3i)
    -> bool {
    forall|p: Vec3i| post.contains(p) == (pre.contains(p) || spec_support_neighborhood(pos, p))
}

/// Dedup queue of world positions that need falling-support
/// re-evaluation, in FIFO order.
pub struct FallingPropagationQueue {
    /// Pending positions to process, each at most once.
    pub pending: Vec<Vec3i>,
}

impl FallingPropagationQueue {
    /// Well-formedness: no position is queued twice.
    pub open spec fn wf(self) -> bool {
        distinct_seq(self.pending@)
    }

    /// Build an empty propagation queue.
    pub fn new() -> (r: FallingPropagationQueue)
        ensures
            r.wf(),
            r.pending@ == Seq::<Vec3i>::empty(),
    {
        FallingPropagationQueue { pending: Vec::new() }
    }

    /// Enqueue one world block position for propagation, unless it is
    /// already queued.
    pub fn enqueue(&mut self, pos: Vec3i)
        requires
            old(self).wf(),
        ensures
            final(self).wf(),
            forall|p: Vec3i| final(self).pending@.contains(p) == (old(self).pending@.contains(p)
                || p == pos),
            final(self).pending@ == (if old(self).pending@.contains(pos) {
                old(self).pending@
            } else {
                old(self).pending@.push(pos)
            }),
    {
        if !coords_contain(&self.pending, pos) {
            proof {
                lemma_push_contains(self.pending@, pos);
                lemma_distinct_push(self.pending@, pos);
            }
            self.pending.push(pos);
        }
    }

    /// Enqueue one world position and its affected neighbors for support
    /// propagation: the position itself, its four horizontal neighbors,
    /// and the cell above. Downward propagation is skipped, since
    /// removing support below a cell cannot affect a cell further below.
    pub fn enqueue_with_neighbors(&mut self, pos: Vec3i)
        requires
            old(self).wf(),
            i32::MIN < pos.x < i32::MAX,
            pos.y < i32::MAX,
            i32::MIN < pos.z < i32::MAX,
        ensures
            final(self).wf(),
            spec_enqueued_with_neighbors(old(self).pending@, final(self).pending@, pos),
    {
        self.enqueue(pos);
        self.enqueue(Vec3i { x: pos.x + 1, y: pos.y, z: pos.z });
        self.enqueue(Vec3i { x: pos.x - 1, y: pos.y, z: pos.z });
        self.enqueue(Vec3i { x: pos.x, y: pos.y + 1, z: pos.z });
        self.enqueue(Vec3i { x: pos.x, y: pos.y, z: pos.z + 1 });
        self.enqueue(Vec3i { x: pos.x, y: pos.y, z: pos.z - 1 });
        proof {
            assert forall|p: Vec3i| self.pending@.contains(p) == (old(self).pending@.contains(p)
                || spec_support_neighborhood(pos, p)) by {}
        }
    }

    /// Pop one pending position from the front of the queue.
    pub fn pop(&mut self) -> (r: Option<Vec3i>)
        requires
            old(self).wf(),
        ensures
            final(self).wf(),
            old(self).pending@.len() == 0 ==> r is None && *final(self) == *old(self),
            old(self).pending@.len() > 0 ==> r == Some(old(self).pending@[0])
                && final(self).pending@ == old(self).pending@.skip(1),
    {
        if self.pending.len() == 0 {
            return None;
        }
        let pos = self.pending.remove(0);
        proof {
            crate::seq_facts::lemma_distinct_remove(old(self).pending@, 0);
            assert(old(self).pending@.remove(0) =~= old(self).pending@.skip(1));
        }
        Some(pos)
    }
}

/// Detach the block at a world position into a falling entity when it is
/// a falling candidate: the source cell is set to air atomically with
/// the creation of the returned entity, so the position is never both
/// solid in its chunk and represented by a falling entity; the former
/// neighbors are re-queued for support checks, since removing the block
/// may destabilize them.
pub fn detach_falling_block(
    world: &mut WorldState,
    queue: &mut FallingPropagationQueue,
    world_pos: Vec3i,
) -> (r: Option<FallingBlock>)
    requires
        old(world).wf(),
        old(queue).wf(),
        i32::MIN < world_pos.x < i32::MAX,
        i32::MIN < world_pos.y,
        world_pos.y < i32::MAX,
        i32::MIN < world_pos.z < i32::MAX,
    ensures
        final(world).wf(),
        final(queue).wf(),
        r is Some <==> (old(world).spec_get_block_world(world_pos) is Some
            && spec_should_start_falling(
            *old(world),
            world_pos,
            old(world).spec_get_block_world(world_pos)->0,
        )),
        r is Some ==> {
            &&& r->0.block == old(world).spec_get_block_world(world_pos)->0
            &&& final(world).spec_get_block_world(world_pos) == Some(Block::spec_air())
            &&& !final(world).spec_is_solid_at(world_pos)
            &&& spec_enqueued_with_neighbors(
                old(queue).pending@,
                final(queue).pending@,
                world_pos,
            )
        },
        r is None ==> *final(world) == *old(world) && *final(queue) == *old(queue),
        final(world).loaded_coords() == old(world).loaded_coords(),
        final(world).needed@ == old(world).needed@,
        final(world).pending@ == old(world).pending@,
        final(world).in_flight@ == old(world).in_flight@,
        forall|c: Vec3i| c != crate::coords::spec_chunk_of(world_pos) && old(world).is_loaded(c)
            ==> final(world).cells_at(c) == old(world).cells_at(c),
{
    let block = match world.get_block_world(world_pos) {
        Some(b) => b,
        None => {
            return None;
        },
    };
    if !should_start_falling(world, world_pos, block) {
        return None;
    }
    let touched = world.set_block_world_loaded(world_pos, Block::air());
    proof {
        crate::chunk::lemma_set_then_get(
            old(world).cells_at(crate::coords::spec_chunk_of(world_pos)),
            crate::coords::spec_local_of(world_pos),
            Block::spec_air(),
        );
    }
    // Block removal may destabilize surrounding neighbors.
    queue.enqueue_with_neighbors(world_pos);
    Some(FallingBlock::new(block))
}

/// A world position is either resident in its chunk's voxel array or
/// represented by a falling entity, never both: detachment writes air
/// into the source cell in the same step that creates the entity, and a
/// cell that reads air is never reported solid.
pub proof fn lemma_detached_position_not_solid(world: WorldState, world_pos: Vec3i)
    requires
        world.spec_get_block_world(world_pos) == Some(Block::spec_air()),
    ensures
        !world.spec_is_solid_at(world_pos),
{
}

/// Whether a falling block whose cell below is `below` has landed: the
/// cell is inside the world floor and solid.
pub open spec fn spec_should_settle(world: WorldState, below: Vec3i) -> bool {
    below.y >= 0 && world.spec_is_solid_at(below)
}

/// Return whether a falling block probing the cell `below` its footprint
/// should settle into the cell above it.
pub fn should_settle(world: &WorldState, below: Vec3i) -> (r: bool)
    requires
        world.wf(),
    ensures
        r == spec_should_settle(*world, below),
{
    below.y >= 0 && world.is_solid_at_world_pos(below)
}

} // verus!
