//! The world store and streaming scheduler: the loaded-chunk table, the
//! desired streaming window, the pending build queue and the in-flight
//! build set, with the invariant that a chunk coordinate is in at most
//! one of {loaded, pending, in-flight} at a time.
use vstd::prelude::*;

use crate::block::Block;
use crate::chunk::{spec_get, spec_set, Chunk};
use crate::coords::{spec_chunk_of, spec_local_of, world_to_chunk_local, Vec3i};
use crate::seq_facts::{coords_contain, distinct_seq, lemma_add_contains, lemma_distinct_push,
    lemma_distinct_remove, lemma_filter_props, lemma_filter_push, lemma_push_contains};
use crate::CHUNK_SIZE;
use crate::LOADS_PER_FRAME;
use crate::MAX_IN_FLIGHT;
use crate::VERTICAL_CHUNK_LAYERS;
use crate::VIEW_DISTANCE;

verus! {

/// Runtime payload of one loaded chunk: its voxels and the opaque render
/// handles (mesh and scene entity ids) assigned by the caller.
pub struct ChunkData {
    /// Voxel payload for this loaded chunk.
    pub chunk: Chunk,
    /// Opaque mesh handle id for the current chunk mesh.
    pub mesh: u64,
    /// Opaque scene entity id that renders this chunk.
    pub entity: u64,
}

impl ChunkData {
    /// Build runtime chunk data from a voxel payload and handle ids.
    pub fn new(chunk: Chunk, mesh: u64, entity: u64) -> (r: ChunkData)
        ensures
            r.chunk == chunk,
            r.mesh == mesh,
            r.entity == entity,
    {
        ChunkData { chunk, mesh, entity }
    }
}

/// One loaded chunk bound to its chunk-grid coordinate.
pub struct LoadedChunk {
    /// Chunk-grid coordinate of this entry.
    pub coord: Vec3i,
    /// Runtime payload of this entry.
    pub data: ChunkData,
}

/// Result payload of one background chunk build.
pub struct ChunkBuildOutput {
    /// Chunk coordinate produced by the build.
    pub coord: Vec3i,
    /// Generated chunk voxel data.
    pub chunk: Chunk,
    /// Generated mesh payload for this chunk.
    pub mesh_data: crate::mesh::MeshData,
}

impl ChunkBuildOutput {
    /// Build a chunk-build result payload.
    pub fn new(coord: Vec3i, chunk: Chunk, mesh_data: crate::mesh::MeshData) -> (r:
        ChunkBuildOutput)
        ensures
            r.coord == coord,
            r.chunk == chunk,
            r.mesh_data == mesh_data,
    {
        ChunkBuildOutput { coord, chunk, mesh_data }
    }
}

/// World runtime state used by chunk streaming and interaction: the
/// loaded-chunk table, the desired window, the pending queue, and the
/// in-flight build set.
pub struct WorldState {
    /// Loaded chunks currently present in the world.
    pub chunks: Vec<LoadedChunk>,
    /// Opaque shared material handle id used by chunk render entities.
    pub material: u64,
    /// Chunk-space center around the viewpoint for streaming.
    pub center: Vec3i,
    /// Desired chunk set for the current streaming window.
    pub needed: Vec<Vec3i>,
    /// Chunks queued (in FIFO order) to start background generation.
    pub pending: Vec<Vec3i>,
    /// Coordinates of background chunk builds currently running.
    pub in_flight: Vec<Vec3i>,
}

impl WorldState {
    /// Coordinates of the loaded chunks, in table order.
    pub open spec fn loaded_coords(self) -> Seq<Vec3i> {
        self.chunks@.map_values(|lc: LoadedChunk| lc.coord)
    }

    /// Whether a chunk coordinate is currently loaded.
    pub open spec fn is_loaded(self, coord: Vec3i) -> bool {
        self.loaded_coords().contains(coord)
    }

    /// The desired streaming window, as a sequence without repeats.
    pub open spec fn needed_set(self) -> Seq<Vec3i> {
        self.needed@
    }

    /// The pending build queue, in FIFO order.
    pub open spec fn pending_queue(self) -> Seq<Vec3i> {
        self.pending@
    }

    /// The in-flight build set, as a sequence without repeats.
    pub open spec fn in_flight_set(self) -> Seq<Vec3i> {
        self.in_flight@
    }

    /// Table index of a loaded chunk coordinate.
    pub open spec fn loaded_index_of(self, coord: Vec3i) -> int {
        self.loaded_coords().index_of(coord)
    }

    /// Cell contents of the loaded chunk at a coordinate (meaningful only
    /// when that coordinate is loaded).
    pub open spec fn cells_at(self, coord: Vec3i) -> Seq<Block> {
        self.chunks@[self.loaded_index_of(coord)].data.chunk@
    }

    /// Well-formedness: no coordinate appears twice in any of the three
    /// collections, no coordinate is in more than one of
    /// {loaded, pending, in-flight}, and every loaded chunk has a
    /// full voxel array.
    pub open spec fn wf(self) -> bool {
        &&& distinct_seq(self.loaded_coords())
        &&& distinct_seq(self.needed@)
        &&& distinct_seq(self.pending@)
        &&& distinct_seq(self.in_flight@)
        &&& forall|c: Vec3i| self.is_loaded(c) ==> !self.pending@.contains(c)
        &&& forall|c: Vec3i| self.is_loaded(c) ==> !self.in_flight@.contains(c)
        &&& forall|c: Vec3i| self.pending@.contains(c) ==> !self.in_flight@.contains(c)
        &&& forall|i: int| 0 <= i < self.chunks@.len() ==> (#[trigger] self.chunks@[i]).data.chunk.wf()
    }

    /// The block stored at a world coordinate: the cell of the containing
    /// loaded chunk, or `None` when that chunk is not loaded.
    pub open spec fn spec_get_block_world(self, world_pos: Vec3i) -> Option<Block> {
        if self.is_loaded(spec_chunk_of(world_pos)) {
            Some(spec_get(self.cells_at(spec_chunk_of(world_pos)), spec_local_of(world_pos)))
        } else {
            None
        }
    }

    /// Whether a world coordinate holds a solid block; an unloaded chunk
    /// is conservatively treated as non-solid.
    pub open spec fn spec_is_solid_at(self, world_pos: Vec3i) -> bool {
        match self.spec_get_block_world(world_pos) {
            Some(b) => b.spec_is_solid(),
            None => false,
        }
    }

    /// Construct an empty world state with a shared material handle id.
    pub fn new(material: u64) -> (r: WorldState)
        ensures
            r.wf(),
            r.loaded_coords() == Seq::<Vec3i>::empty(),
            r.needed_set() == Seq::<Vec3i>::empty(),
            r.pending_queue() == Seq::<Vec3i>::empty(),
            r.in_flight_set() == Seq::<Vec3i>::empty(),
            r.material == material,
            r.center == (Vec3i { x: i32::MIN, y: i32::MIN, z: i32::MIN }),
    {
        let r = WorldState {
            chunks: Vec::new(),
            material,
            center: Vec3i { x: i32::MIN, y: i32::MIN, z: i32::MIN },
            needed: Vec::new(),
            pending: Vec::new(),
            in_flight: Vec::new(),
        };
        proof {
            assert(r.loaded_coords() =~= Seq::<Vec3i>::empty());
        }
        r
    }

    /// Find the table index of a loaded chunk coordinate.
    fn find_loaded(&self, coord: Vec3i) -> (r: Option<usize>)
        ensures
            match r {
                Some(i) => {
                    &&& i < self.chunks@.len()
                    &&& self.chunks@[i as int].coord == coord
                    &&& self.is_loaded(coord)
                },
                None => !self.is_loaded(coord),
            },
    {
        let mut i: usize = 0;
        while i < self.chunks.len()
            invariant
                i <= self.chunks@.len(),
                forall|j: int| 0 <= j < i ==> (#[trigger] self.chunks@[j]).coord != coord,
            decreases self.chunks@.len() - i,
        {
            if self.chunks[i].coord.x == coord.x && self.chunks[i].coord.y == coord.y
                && self.chunks[i].coord.z == coord.z {
                proof {
                    assert(self.loaded_coords()[i as int] == coord);
                }
                return Some(i);
            }
            i = i + 1;
        }
        proof {
            assert forall|k: int| 0 <= k < self.loaded_coords().len() implies self.loaded_coords()[k]
                != coord by {
                assert(self.chunks@[k].coord != coord);
            }
        }
        None
    }

    /// Read the block at a world-space block coordinate; `None` when the
    /// containing chunk is not currently loaded.
    pub fn get_block_world(&self, world_pos: Vec3i) -> (r: Option<Block>)
        requires
            self.wf(),
        ensures
            r == self.spec_get_block_world(world_pos),
    {
        let (chunk_coord, local) = world_to_chunk_local(world_pos);
        match self.find_loaded(chunk_coord) {
            Some(i) => {
                proof {
                    lemma_distinct_index_of(self.loaded_coords(), i as int, chunk_coord);
                }
                Some(self.chunks[i].data.chunk.get_block(local))
            },
            None => None,
        }
    }

    /// Set the block at a world-space coordinate if the containing chunk
    /// is loaded; returns the containing chunk coordinate when the write
    /// happened.
    pub fn set_block_world_loaded(&mut self, world_pos: Vec3i, block: Block) -> (r: Option<Vec3i>)
        requires
            old(self).wf(),
        ensures
            final(self).wf(),
            r == (if old(self).is_loaded(spec_chunk_of(world_pos)) {
                Some(spec_chunk_of(world_pos))
            } else {
                Option::<Vec3i>::None
            }),
            final(self).loaded_coords() == old(self).loaded_coords(),
            final(self).needed_set() == old(self).needed_set(),
            final(self).pending_queue() == old(self).pending_queue(),
            final(self).in_flight_set() == old(self).in_flight_set(),
            final(self).material == old(self).material,
            final(self).center == old(self).center,
            r is Some ==> final(self).cells_at(spec_chunk_of(world_pos)) == spec_set(
                old(self).cells_at(spec_chunk_of(world_pos)),
                spec_local_of(world_pos),
                block,
            ),
            forall|c: Vec3i| c != spec_chunk_of(world_pos) && old(self).is_loaded(c)
                ==> final(self).cells_at(c) == old(self).cells_at(c),
            r is None ==> *final(self) == *old(self),
    {
        let (chunk_coord, local) = world_to_chunk_local(world_pos);
        match self.find_loaded(chunk_coord) {
            Some(i) => {
                proof {
                    lemma_distinct_index_of(self.loaded_coords(), i as int, chunk_coord);
                }
                let entry = &mut self.chunks[i];
                entry.data.chunk.set_block(local, block);
                proof {
                    assert(final(self).loaded_coords() =~= old(self).loaded_coords());
                    assert forall|j: int| 0 <= j < final(self).chunks@.len() implies (#[trigger]
                        final(self).chunks@[j]).data.chunk.wf() by {
                        if j != i as int {
                            assert(final(self).chunks@[j] == old(self).chunks@[j]);
                        }
                    }
                    assert forall|c: Vec3i| final(self).is_loaded(c) implies {
                        &&& !final(self).pending@.contains(c)
                        &&& !final(self).in_flight@.contains(c)
                    } by {
                        assert(old(self).is_loaded(c));
                    }
                    assert forall|c: Vec3i| c != chunk_coord && old(self).is_loaded(c) implies
                        final(self).cells_at(c) == old(self).cells_at(c) by {
                        let k = old(self).loaded_coords().index_of(c);
                        lemma_index_of_contains(old(self).loaded_coords(), c);
                        assert(final(self).loaded_coords()[k] == c);
                        lemma_distinct_index_of(final(self).loaded_coords(), k, c);
                    }
                    lemma_distinct_index_of(final(self).loaded_coords(), i as int, chunk_coord);
                }
                Some(chunk_coord)
            },
            None => None,
        }
    }

    /// Return `true` when the world-space block coordinate holds a solid
    /// block (unloaded chunks read as non-solid).
    pub fn is_solid_at_world_pos(&self, pos: Vec3i) -> (r: bool)
        requires
            self.wf(),
        ensures
            r == self.spec_is_solid_at(pos),
    {
        match self.get_block_world(pos) {
            Some(block) => block.is_solid(),
            None => false,
        }
    }

    /// Whether a chunk coordinate lies inside the streaming window around
    /// a center: a horizontal square of radius `VIEW_DISTANCE` crossed
    /// with `VERTICAL_CHUNK_LAYERS` vertical layers starting at the
    /// center's layer.
    pub open spec fn spec_in_window(center: Vec3i, c: Vec3i) -> bool {
        &&& center.x - VIEW_DISTANCE <= c.x < center.x + VIEW_DISTANCE
        &&& center.y <= c.y < center.y + VERTICAL_CHUNK_LAYERS
        &&& center.z - VIEW_DISTANCE <= c.z < center.z + VIEW_DISTANCE
    }

    /// Position of a window coordinate in the deterministic build order
    /// of the needed set (Z slowest, then X, then Y).
    pub open spec fn spec_window_rank(center: Vec3i, c: Vec3i) -> int {
        ((c.z - center.z + VIEW_DISTANCE) * (2 * VIEW_DISTANCE) + (c.x - center.x + VIEW_DISTANCE))
            * VERTICAL_CHUNK_LAYERS + (c.y - center.y)
    }

    /// The streaming window translates with its center: shifting the
    /// center and a coordinate by the same offset preserves window
    /// membership, so moving the viewpoint by one chunk changes the
    /// needed set by exactly the entered and exited boundary slabs.
    pub proof fn lemma_window_translation(center: Vec3i, shifted: Vec3i, c: Vec3i, cs: Vec3i)
        requires
            cs.x - shifted.x == c.x - center.x,
            cs.y - shifted.y == c.y - center.y,
            cs.z - shifted.z == c.z - center.z,
        ensures
            WorldState::spec_in_window(shifted, cs) == WorldState::spec_in_window(center, c),
    {
    }

    /// Build the desired chunk set inside the configured streaming
    /// window: exactly the coordinates of a `2 * VIEW_DISTANCE` square
    /// around the center on X/Z, crossed with the vertical layer band.
    pub fn build_needed_chunk_set(center: Vec3i) -> (r: Vec<Vec3i>)
        requires
            i32::MIN <= center.x - VIEW_DISTANCE,
            center.x + VIEW_DISTANCE <= i32::MAX,
            i32::MIN <= center.z - VIEW_DISTANCE,
            center.z + VIEW_DISTANCE <= i32::MAX,
            center.y + VERTICAL_CHUNK_LAYERS <= i32::MAX,
        ensures
            distinct_seq(r@),
            forall|c: Vec3i| r@.contains(c) == WorldState::spec_in_window(center, c),
    {
        let mut r: Vec<Vec3i> = Vec::new();
        let mut k: usize = 0;
        proof {
            assert forall|c: Vec3i| r@.contains(c) == (WorldState::spec_in_window(center, c)
                && WorldState::spec_window_rank(center, c) < 0) by {
                if r@.contains(c) {
                    let j = choose|j: int| 0 <= j < r@.len() && r@[j] == c;
                }
                if WorldState::spec_in_window(center, c) {
                    assert(WorldState::spec_window_rank(center, c) >= 0);
                }
            }
        }
        while k < WINDOW_SLOTS
            invariant
                k <= WINDOW_SLOTS,
                i32::MIN <= center.x - VIEW_DISTANCE,
                center.x + VIEW_DISTANCE <= i32::MAX,
                i32::MIN <= center.z - VIEW_DISTANCE,
                center.z + VIEW_DISTANCE <= i32::MAX,
                center.y + VERTICAL_CHUNK_LAYERS <= i32::MAX,
                distinct_seq(r@),
                window_prefix(center, r@, k as int),
            decreases WINDOW_SLOTS - k,
        {
            let layers: usize = VERTICAL_CHUNK_LAYERS as usize;
            let span: usize = (2 * VIEW_DISTANCE) as usize;
            let dy: i32 = (k % layers) as i32;
            let q: usize = k / layers;
            let dx: i32 = (q % span) as i32 - VIEW_DISTANCE;
            let dz: i32 = (q / span) as i32 - VIEW_DISTANCE;
            let nc = Vec3i { x: center.x + dx, y: center.y + dy, z: center.z + dz };
            proof {
                let ki = k as int;
                let qi = q as int;
                assert(qi == ki / 2 && dy as int == ki % 2);
                assert(qi / 16 < 16);
                assert(WorldState::spec_in_window(center, nc));
                assert(WorldState::spec_window_rank(center, nc) == ki) by {
                    vstd::arithmetic::div_mod::lemma_fundamental_div_mod(ki, 2);
                    vstd::arithmetic::div_mod::lemma_fundamental_div_mod(qi, 16);
                };
                assert(!r@.contains(nc));
                assert forall|c: Vec3i| (WorldState::spec_in_window(center, c)
                    && WorldState::spec_window_rank(center, c) == ki) implies c == nc by {
                    let ey = c.y - center.y;
                    let ex = c.x - center.x + VIEW_DISTANCE;
                    let ez = c.z - center.z + VIEW_DISTANCE;
                    vstd::arithmetic::div_mod::lemma_fundamental_div_mod_converse(
                        ki,
                        2,
                        ez * 16 + ex,
                        ey,
                    );
                    vstd::arithmetic::div_mod::lemma_fundamental_div_mod_converse(
                        ez * 16 + ex,
                        16,
                        ez,
                        ex,
                    );
                }
                assert(distinct_seq(r@.push(nc))) by {
                    assert forall|i: int, j: int| 0 <= i < j < r@.push(nc).len() implies r@.push(
                        nc,
                    )[i] != r@.push(nc)[j] by {
                        if j < r@.len() {
                            assert(r@.push(nc)[i] == r@[i] && r@.push(nc)[j] == r@[j]);
                        } else {
                            assert(r@.push(nc)[j] == nc);
                            assert(r@.push(nc)[i] == r@[i]);
                            assert(r@.contains(r@[i]));
                        }
                    }
                }
            }
            let ghost pre_r = r@;
            r.push(nc);
            proof {
                let ki = k as int;
                lemma_push_contains(pre_r, nc);
                assert(window_prefix(center, r@, ki + 1)) by {
                    assert forall|c: Vec3i| r@.contains(c) == (WorldState::spec_in_window(
                        center,
                        c,
                    ) && WorldState::spec_window_rank(center, c) < ki + 1) by {
                        assert(r@.contains(c) == (pre_r.contains(c) || c == nc));
                        assert(window_prefix(center, pre_r, ki));
                        assert(pre_r.contains(c) == (WorldState::spec_in_window(center, c)
                            && WorldState::spec_window_rank(center, c) < ki));
                        if WorldState::spec_in_window(center, c) && WorldState::spec_window_rank(
                            center,
                            c,
                        ) == ki {
                            assert(c == nc);
                        }
                    }
                }
            }
            k = k + 1;
        }
        proof {
            assert forall|c: Vec3i| r@.contains(c) == WorldState::spec_in_window(center, c) by {
                assert(r@.contains(c) == (WorldState::spec_in_window(center, c)
                    && WorldState::spec_window_rank(center, c) < WINDOW_SLOTS));
                if WorldState::spec_in_window(center, c) {
                    assert(WorldState::spec_window_rank(center, c) < WINDOW_SLOTS);
                }
            }
        }
        r
    }

    /// Replace the desired set and drop pending or in-flight entries that
    /// are no longer desired, keeping their relative order.
    pub fn sync_needed_set(&mut self, needed: Vec<Vec3i>)
        requires
            old(self).wf(),
            distinct_seq(needed@),
        ensures
            final(self).wf(),
            final(self).needed@ == needed@,
            final(self).pending@ == old(self).pending@.filter(keep_in(needed@)),
            final(self).in_flight@ == old(self).in_flight@.filter(keep_in(needed@)),
            final(self).chunks@ == old(self).chunks@,
            final(self).material == old(self).material,
            final(self).center == old(self).center,
    {
        let kept_pending = filter_contained(&self.pending, &needed);
        let kept_in_flight = filter_contained(&self.in_flight, &needed);
        proof {
            lemma_filter_props(self.pending@, keep_in(needed@));
            lemma_filter_props(self.in_flight@, keep_in(needed@));
        }
        self.needed = needed;
        self.pending = kept_pending;
        self.in_flight = kept_in_flight;
        proof {
            assert forall|c: Vec3i| self.is_loaded(c) implies {
                &&& !self.pending@.contains(c)
                &&& !self.in_flight@.contains(c)
            } by {
                assert(old(self).is_loaded(c));
            }
            assert forall|c: Vec3i| self.pending@.contains(c) implies !self.in_flight@.contains(
                c,
            ) by {
                assert(old(self).pending@.contains(c));
            }
        }
    }

    /// Return `true` if the chunk is already loaded, pending, or building.
    fn is_chunk_scheduled_or_loaded(&self, coord: Vec3i) -> (r: bool)
        ensures
            r == (self.is_loaded(coord) || self.pending@.contains(coord)
                || self.in_flight@.contains(coord)),
    {
        if self.find_loaded(coord).is_some() {
            return true;
        }
        if coords_contain(&self.pending, coord) {
            return true;
        }
        coords_contain(&self.in_flight, coord)
    }

    /// Enqueue every desired coordinate that is not already loaded,
    /// pending or in flight, at the back of the build queue, in desired-
    /// set order.
    pub fn enqueue_needed_chunks(&mut self)
        requires
            old(self).wf(),
        ensures
            final(self).wf(),
            final(self).pending@ == old(self).pending@ + old(self).needed@.filter(
                unscheduled_in(*old(self)),
            ),
            final(self).needed@ == old(self).needed@,
            final(self).in_flight@ == old(self).in_flight@,
            final(self).chunks@ == old(self).chunks@,
            final(self).material == old(self).material,
            final(self).center == old(self).center,
    {
        let ghost pred = unscheduled_in(*old(self));
        let mut i: usize = 0;
        while i < self.needed.len()
            invariant
                i <= self.needed@.len(),
                self.needed@ == old(self).needed@,
                self.in_flight@ == old(self).in_flight@,
                self.chunks@ == old(self).chunks@,
                self.material == old(self).material,
                self.center == old(self).center,
                self.pending@ == old(self).pending@ + old(self).needed@.take(i as int).filter(
                    pred,
                ),
                pred == unscheduled_in(*old(self)),
                old(self).wf(),
                self.wf(),
            decreases self.needed@.len() - i,
        {
            let coord = self.needed[i];
            let ghost prefix = old(self).needed@.take(i as int);
            let ghost appended = prefix.filter(pred);
            proof {
                lemma_filter_props(prefix, pred);
                lemma_add_contains(old(self).pending@, appended);
                assert(!appended.contains(coord)) by {
                    if appended.contains(coord) {
                        assert(prefix.contains(coord));
                        let j = choose|j: int| 0 <= j < prefix.len() && prefix[j] == coord;
                        assert(old(self).needed@[j] == old(self).needed@[i as int]);
                    }
                }
                assert(self.pending@.contains(coord) == old(self).pending@.contains(coord));
                assert(old(self).needed@.take(i + 1) =~= prefix.push(coord));
                lemma_filter_push(prefix, coord, pred);
            }
            if !self.is_chunk_scheduled_or_loaded(coord) {
                let ghost pre = *self;
                let ghost pre_pending = self.pending@;
                proof {
                    assert(pred(coord));
                    assert(!pre_pending.contains(coord));
                    lemma_push_contains(pre_pending, coord);
                    lemma_distinct_push(pre_pending, coord);
                    assert(old(self).pending@ + appended.push(coord) =~= pre_pending.push(coord));
                }
                self.pending.push(coord);
                proof {
                    lemma_add_contains(old(self).pending@, appended.push(coord));
                    lemma_push_contains(appended, coord);
                    assert forall|c: Vec3i| self.is_loaded(c) implies !self.pending@.contains(
                        c,
                    ) by {
                        assert(pre.is_loaded(c));
                        assert(old(self).is_loaded(c));
                        assert(!old(self).pending@.contains(c));
                        assert(!appended.contains(c));
                        assert(!pre_pending.contains(c));
                        assert(self.pending@.contains(c) == (pre_pending.contains(c) || c
                            == coord));
                        assert(c != coord);
                    }
                    assert forall|c: Vec3i| self.pending@.contains(c) implies
                        !self.in_flight@.contains(c) by {
                        assert(self.pending@.contains(c) == (pre_pending.contains(c) || c
                            == coord));
                        if pre_pending.contains(c) {
                            assert(old(self).pending@.contains(c) || appended.contains(c));
                            if appended.contains(c) {
                                assert(pred(c));
                            }
                        } else {
                            assert(pred(coord));
                        }
                        assert(self.in_flight@ == old(self).in_flight@);
                    }
                }
            } else {
                proof {
                    assert(!pred(coord));
                }
            }
            proof {
                assert(distinct_seq(self.loaded_coords()));
                assert(distinct_seq(self.needed@));
                assert(distinct_seq(self.pending@));
                assert(distinct_seq(self.in_flight@));
                assert(forall|c: Vec3i| self.is_loaded(c) ==> !self.pending@.contains(c));
                assert forall|c: Vec3i| self.is_loaded(c) implies !self.in_flight@.contains(
                    c,
                ) by {
                    assert(old(self).is_loaded(c));
                    assert(self.in_flight@ == old(self).in_flight@);
                }
                assert(forall|c: Vec3i| self.pending@.contains(c) ==> !self.in_flight@.contains(
                    c,
                ));
                assert(forall|j: int| 0 <= j < self.chunks@.len() ==> (#[trigger]
                    self.chunks@[j]).data.chunk.wf());
            }
            i = i + 1;
        }
        proof {
            assert(old(self).needed@.take(old(self).needed@.len() as int) =~= old(self).needed@);
        }
    }

    /// Whether a chunk Y coordinate belongs to the streamed vertical band.
    pub open spec fn spec_is_streaming_layer(c: Vec3i) -> bool {
        0 <= c.y < VERTICAL_CHUNK_LAYERS
    }

    /// Collect the loaded chunks inside the streamed vertical band that
    /// are no longer desired and should be unloaded.
    pub fn collect_unneeded_loaded_chunks(&self) -> (r: Vec<Vec3i>)
        requires
            self.wf(),
        ensures
            r@ == self.loaded_coords().filter(evictable_given(self.needed@)),
            distinct_seq(r@),
            forall|c: Vec3i| r@.contains(c) == (self.is_loaded(c)
                && WorldState::spec_is_streaming_layer(c) && !self.needed@.contains(c)),
    {
        let ghost pred = evictable_given(self.needed@);
        let mut r: Vec<Vec3i> = Vec::new();
        let mut i: usize = 0;
        while i < self.chunks.len()
            invariant
                i <= self.chunks@.len(),
                self.wf(),
                pred == evictable_given(self.needed@),
                r@ == self.loaded_coords().take(i as int).filter(pred),
            decreases self.chunks@.len() - i,
        {
            let coord = self.chunks[i].coord;
            proof {
                assert(self.loaded_coords()[i as int] == coord);
                assert(self.loaded_coords().take(i + 1) =~= self.loaded_coords().take(
                    i as int,
                ).push(coord));
                lemma_filter_push(self.loaded_coords().take(i as int), coord, pred);
            }
            let in_band = 0 <= coord.y && coord.y < VERTICAL_CHUNK_LAYERS;
            if in_band && !coords_contain(&self.needed, coord) {
                r.push(coord);
            } else {
                proof {
                    assert(!pred(coord));
                }
            }
            i = i + 1;
        }
        proof {
            assert(self.loaded_coords().take(self.loaded_coords().len() as int)
                =~= self.loaded_coords());
            lemma_filter_props(self.loaded_coords(), pred);
        }
        r
    }

    /// Unload one chunk, returning the mesh and entity handle ids of the
    /// removed entry so the caller can despawn them; `None` when the
    /// coordinate was not loaded.
    pub fn unload_chunk(&mut self, coord: Vec3i) -> (r: Option<(u64, u64)>)
        requires
            old(self).wf(),
        ensures
            final(self).wf(),
            r is None ==> !old(self).is_loaded(coord) && *final(self) == *old(self),
            r is Some ==> {
                &&& old(self).is_loaded(coord)
                &&& (r->0).0 == old(self).chunks@[old(self).loaded_index_of(coord)].data.mesh
                &&& (r->0).1 == old(self).chunks@[old(self).loaded_index_of(coord)].data.entity
            },
            forall|c: Vec3i| final(self).is_loaded(c) == (old(self).is_loaded(c) && c != coord),
            forall|c: Vec3i| c != coord && old(self).is_loaded(c) ==> final(self).chunks@[final(self).loaded_index_of(c)] == old(self).chunks@[old(self).loaded_index_of(c)],
            forall|c: Vec3i| c != coord && old(self).is_loaded(c) ==> final(self).cells_at(c)
                == old(self).cells_at(c),
            final(self).needed@ == old(self).needed@,
            final(self).pending@ == old(self).pending@,
            final(self).in_flight@ == old(self).in_flight@,
            final(self).material == old(self).material,
            final(self).center == old(self).center,
    {
        match self.find_loaded(coord) {
            Some(i) => {
                proof {
                    lemma_distinct_index_of(old(self).loaded_coords(), i as int, coord);
                }
                let entry = self.chunks.remove(i);
                proof {
                    let oldc = old(self).loaded_coords();
                    assert(final(self).loaded_coords() =~= oldc.remove(i as int));
                    lemma_distinct_remove(oldc, i as int);
                    assert forall|c: Vec3i| c != coord && old(self).is_loaded(c) implies final(self).chunks@[final(self).loaded_index_of(c)] == old(self).chunks@[old(self).loaded_index_of(c)] && final(self).cells_at(c) == old(self).cells_at(c) by {
                        let k = oldc.index_of(c);
                        lemma_index_of_contains(oldc, c);
                        oldc.remove_ensures(i as int);
                        old(self).chunks@.remove_ensures(i as int);
                        if k < i as int {
                            assert(final(self).loaded_coords()[k] == c);
                            lemma_distinct_index_of(final(self).loaded_coords(), k, c);
                            assert(final(self).chunks@[k] == old(self).chunks@[k]);
                        } else {
                            assert(oldc[k] == c && oldc[i as int] == coord);
                            assert(k > i as int);
                            assert(final(self).loaded_coords()[k - 1] == c);
                            lemma_distinct_index_of(final(self).loaded_coords(), k - 1, c);
                            assert(final(self).chunks@[k - 1] == old(self).chunks@[k]);
                        }
                    }
                    assert forall|j: int| 0 <= j < final(self).chunks@.len() implies (#[trigger]
                        final(self).chunks@[j]).data.chunk.wf() by {
                        old(self).chunks@.remove_ensures(i as int);
                        if j < i as int {
                            assert(final(self).chunks@[j] == old(self).chunks@[j]);
                        } else {
                            assert(final(self).chunks@[j] == old(self).chunks@[j + 1]);
                        }
                    }
                    assert forall|c: Vec3i| final(self).is_loaded(c) implies {
                        &&& !final(self).pending@.contains(c)
                        &&& !final(self).in_flight@.contains(c)
                    } by {
                        assert(old(self).is_loaded(c));
                    }
                }
                Some((entry.data.mesh, entry.data.entity))
            },
            None => None,
        }
    }

    /// Drop one coordinate from the pending queue if it is queued.
    fn remove_pending(&mut self, coord: Vec3i)
        requires
            old(self).wf(),
        ensures
            final(self).wf(),
            forall|c: Vec3i| final(self).pending@.contains(c) == (old(self).pending@.contains(c)
                && c != coord),
            final(self).needed@ == old(self).needed@,
            final(self).in_flight@ == old(self).in_flight@,
            final(self).chunks@ == old(self).chunks@,
            final(self).material == old(self).material,
            final(self).center == old(self).center,
    {
        let mut i: usize = 0;
        while i < self.pending.len()
            invariant
                old(self).wf(),
                *self == *old(self),
                i <= self.pending@.len(),
                forall|j: int| 0 <= j < i ==> self.pending@[j] != coord,
            decreases self.pending@.len() - i,
        {
            if self.pending[i].x == coord.x && self.pending[i].y == coord.y && self.pending[i].z
                == coord.z {
                proof {
                    assert(self.pending@[i as int] == coord);
                    lemma_distinct_remove(self.pending@, i as int);
                }
                self.pending.remove(i);
                proof {
                    assert forall|c: Vec3i| self.is_loaded(c) implies {
                        &&& !self.pending@.contains(c)
                        &&& !self.in_flight@.contains(c)
                    } by {
                        assert(old(self).is_loaded(c));
                        assert(self.pending@.contains(c) ==> old(self).pending@.contains(c));
                    }
                    assert forall|c: Vec3i| self.pending@.contains(c) implies
                        !self.in_flight@.contains(c) by {
                        assert(old(self).pending@.contains(c));
                    }
                }
                return ;
            }
            i = i + 1;
        }
        proof {
            assert(!self.pending@.contains(coord));
        }
    }

    /// Ensure a chunk exists at the given coordinate: a no-op when it is
    /// already loaded, otherwise the supplied chunk is inserted with the
    /// caller's render handle ids, leaving the pending queue and the
    /// in-flight set without that coordinate so it stays in exactly one
    /// of the three collections.
    pub fn ensure_chunk(&mut self, coord: Vec3i, chunk: Chunk, mesh: u64, entity: u64)
        requires
            old(self).wf(),
            chunk.wf(),
        ensures
            final(self).wf(),
            final(self).is_loaded(coord),
            old(self).is_loaded(coord) ==> *final(self) == *old(self),
            !old(self).is_loaded(coord) ==> {
                &&& final(self).cells_at(coord) == chunk@
                &&& forall|c: Vec3i| final(self).is_loaded(c) == (old(self).is_loaded(c) || c
                    == coord)
                &&& forall|c: Vec3i| c != coord && old(self).is_loaded(c) ==> final(self).cells_at(
                    c,
                ) == old(self).cells_at(c)
                &&& forall|c: Vec3i| final(self).pending@.contains(c) == (old(self).pending@.contains(c) && c != coord)
                &&& forall|c: Vec3i| final(self).in_flight@.contains(c) == (old(self).in_flight@.contains(c) && c != coord)
            },
            final(self).needed@ == old(self).needed@,
            final(self).material == old(self).material,
            final(self).center == old(self).center,
    {
        if self.find_loaded(coord).is_some() {
            return ;
        }
        self.remove_pending(coord);
        self.finish_build(coord);
        self.insert_loaded_chunk(coord, chunk, mesh, entity);
    }

    /// Settle one falling block into the voxel world at its landing
    /// coordinate, returning the touched chunk coordinate when the
    /// landing chunk is loaded (the caller ensures it beforehand).
    pub fn settle_falling_block(&mut self, landing_block: Vec3i, block: Block) -> (r: Option<
        Vec3i,
    >)
        requires
            old(self).wf(),
        ensures
            final(self).wf(),
            r == (if old(self).is_loaded(spec_chunk_of(landing_block)) {
                Some(spec_chunk_of(landing_block))
            } else {
                Option::<Vec3i>::None
            }),
            r is Some ==> final(self).cells_at(spec_chunk_of(landing_block)) == spec_set(
                old(self).cells_at(spec_chunk_of(landing_block)),
                spec_local_of(landing_block),
                block,
            ),
            r is Some ==> final(self).spec_get_block_world(landing_block) == Some(block),
            r is None ==> *final(self) == *old(self),
            final(self).loaded_coords() == old(self).loaded_coords(),
            forall|c: Vec3i| c != spec_chunk_of(landing_block) && old(self).is_loaded(c)
                ==> final(self).cells_at(c) == old(self).cells_at(c),
            final(self).needed@ == old(self).needed@,
            final(self).pending@ == old(self).pending@,
            final(self).in_flight@ == old(self).in_flight@,
            final(self).material == old(self).material,
            final(self).center == old(self).center,
    {
        let r = self.set_block_world_loaded(landing_block, block);
        proof {
            if r is Some {
                crate::chunk::lemma_set_then_get(
                    old(self).cells_at(spec_chunk_of(landing_block)),
                    spec_local_of(landing_block),
                    block,
                );
                lemma_index_of_contains(old(self).loaded_coords(), spec_chunk_of(landing_block));
            }
        }
        r
    }

    /// Run one eviction pass: unload every loaded chunk inside the
    /// streamed vertical band that is no longer desired, and return the
    /// evicted coordinates with their mesh and entity handle ids so the
    /// caller can despawn them. Afterwards no loaded chunk in the band
    /// lies outside the desired set.
    pub fn evict_unneeded_chunks(&mut self) -> (r: Vec<(Vec3i, u64, u64)>)
        requires
            old(self).wf(),
        ensures
            final(self).wf(),
            forall|c: Vec3i| final(self).is_loaded(c) == (old(self).is_loaded(c) && !(
            WorldState::spec_is_streaming_layer(c) && !old(self).needed@.contains(c))),
            forall|c: Vec3i| final(self).is_loaded(c) ==> final(self).cells_at(c) == old(self).cells_at(c),
            evicted_coords(r@) == old(self).loaded_coords().filter(
                evictable_given(old(self).needed@),
            ),
            forall|i: int| 0 <= i < r@.len() ==> old(self).is_loaded((#[trigger] r@[i]).0)
                && WorldState::spec_is_streaming_layer(r@[i].0) && !old(self).needed@.contains(
                r@[i].0,
            ),
            forall|i: int| 0 <= i < r@.len() ==> (#[trigger] r@[i]).1 == old(self).chunks@[old(
                self,
            ).loaded_index_of(r@[i].0)].data.mesh && r@[i].2 == old(self).chunks@[old(
                self,
            ).loaded_index_of(r@[i].0)].data.entity,
            final(self).needed@ == old(self).needed@,
            final(self).pending@ == old(self).pending@,
            final(self).in_flight@ == old(self).in_flight@,
            final(self).material == old(self).material,
            final(self).center == old(self).center,
    {
        let to_remove = self.collect_unneeded_loaded_chunks();
        let mut r: Vec<(Vec3i, u64, u64)> = Vec::new();
        let mut i: usize = 0;
        while i < to_remove.len()
            invariant
                old(self).wf(),
                self.wf(),
                i <= to_remove@.len(),
                distinct_seq(to_remove@),
                forall|c: Vec3i| (#[trigger] to_remove@.contains(c)) == (old(self).is_loaded(c)
                    && WorldState::spec_is_streaming_layer(c) && !old(self).needed@.contains(c)),
                forall|c: Vec3i| (#[trigger] self.is_loaded(c)) == (old(self).is_loaded(c)
                    && !to_remove@.take(i as int).contains(c)),
                forall|c: Vec3i| self.is_loaded(c) ==> self.chunks@[self.loaded_index_of(c)]
                    == old(self).chunks@[old(self).loaded_index_of(c)] && self.cells_at(c) == old(
                    self,
                ).cells_at(c),
                r@.len() == i,
                forall|j: int| 0 <= j < i ==> (#[trigger] r@[j]).0 == to_remove@[j] && r@[j].1
                    == old(self).chunks@[old(self).loaded_index_of(r@[j].0)].data.mesh && r@[j].2
                    == old(self).chunks@[old(self).loaded_index_of(r@[j].0)].data.entity,
                self.needed@ == old(self).needed@,
                self.pending@ == old(self).pending@,
                self.in_flight@ == old(self).in_flight@,
                self.material == old(self).material,
                self.center == old(self).center,
            decreases to_remove@.len() - i,
        {
            let coord = to_remove[i];
            let ghost pre = *self;
            proof {
                assert(to_remove@.contains(coord)) by {
                    assert(to_remove@[i as int] == coord);
                }
                assert(!to_remove@.take(i as int).contains(coord)) by {
                    if to_remove@.take(i as int).contains(coord) {
                        let j = choose|j: int| 0 <= j < i && to_remove@.take(i as int)[j] == coord;
                        assert(to_remove@[j] == to_remove@[i as int]);
                    }
                }
                assert(old(self).is_loaded(coord));
                assert(self.is_loaded(coord));
                assert(pre.is_loaded(coord));
            }
            match self.unload_chunk(coord) {
                Some((mesh, entity)) => {
                    proof {
                        assert(pre.chunks@[pre.loaded_index_of(coord)] == old(self).chunks@[old(
                            self,
                        ).loaded_index_of(coord)]);
                    }
                    r.push((coord, mesh, entity));
                },
                None => {
                    proof {
                        assert(false);
                    }
                },
            }
            proof {
                assert forall|c: Vec3i| self.is_loaded(c) == (old(self).is_loaded(c)
                    && !to_remove@.take(i + 1).contains(c)) by {
                    assert(self.is_loaded(c) == (pre.is_loaded(c) && c != coord));
                    assert(to_remove@.take(i + 1) =~= to_remove@.take(i as int).push(coord));
                    lemma_push_contains(to_remove@.take(i as int), coord);
                }
                assert forall|c: Vec3i| self.is_loaded(c) implies self.chunks@[self.loaded_index_of(
                    c,
                )] == old(self).chunks@[old(self).loaded_index_of(c)] && self.cells_at(c) == old(
                    self,
                ).cells_at(c) by {
                    assert(pre.is_loaded(c) && c != coord);
                    assert(self.chunks@[self.loaded_index_of(c)] == pre.chunks@[pre.loaded_index_of(
                        c,
                    )]);
                }
            }
            i = i + 1;
        }
        proof {
            assert(to_remove@.take(to_remove@.len() as int) =~= to_remove@);
            assert(evicted_coords(r@) =~= to_remove@);
        }
        r
    }

    /// Move up to `LOADS_PER_FRAME` coordinates from the front of the
    /// pending queue into the in-flight set, bounded by `MAX_IN_FLIGHT`
    /// simultaneous builds, and return them in queue order for the caller
    /// to start as background builds.
    pub fn start_chunk_builds(&mut self) -> (r: Vec<Vec3i>)
        requires
            old(self).wf(),
        ensures
            final(self).wf(),
            r@.len() == spec_builds_to_start(
                old(self).pending@.len() as int,
                old(self).in_flight@.len() as int,
            ),
            r@ == old(self).pending@.take(r@.len() as int),
            final(self).pending@ == old(self).pending@.skip(r@.len() as int),
            final(self).in_flight@ == old(self).in_flight@ + r@,
            final(self).needed@ == old(self).needed@,
            final(self).chunks@ == old(self).chunks@,
            final(self).material == old(self).material,
            final(self).center == old(self).center,
    {
        let mut r: Vec<Vec3i> = Vec::new();
        let mut started: usize = 0;
        proof {
            assert(old(self).pending@.take(0) =~= r@);
            assert(old(self).pending@.skip(0) =~= old(self).pending@);
            assert(old(self).in_flight@ + r@ =~= old(self).in_flight@);
        }
        while started < LOADS_PER_FRAME && self.in_flight.len() < MAX_IN_FLIGHT
            && self.pending.len() > 0
            invariant
                old(self).wf(),
                self.wf(),
                started == r@.len(),
                started <= LOADS_PER_FRAME,
                started == 0 || (old(self).in_flight@.len() + started <= MAX_IN_FLIGHT && started
                    <= old(self).pending@.len()),
                r@ == old(self).pending@.take(started as int),
                self.pending@ == old(self).pending@.skip(started as int),
                self.in_flight@ == old(self).in_flight@ + r@,
                self.in_flight@.len() == old(self).in_flight@.len() + started,
                self.needed@ == old(self).needed@,
                self.chunks@ == old(self).chunks@,
                self.material == old(self).material,
                self.center == old(self).center,
            decreases self.pending@.len(),
        {
            let ghost pre = *self;
            let coord = self.pending.remove(0);
            let ghost mid_pending = self.pending@;
            proof {
                assert(pre.pending@[0] == old(self).pending@[started as int]);
                assert(pre.pending@.contains(coord)) by {
                    assert(pre.pending@[0] == coord);
                }
                lemma_distinct_remove(pre.pending@, 0);
                assert(mid_pending =~= old(self).pending@.skip(started + 1));
                assert(!pre.in_flight@.contains(coord));
                lemma_push_contains(pre.in_flight@, coord);
                lemma_distinct_push(pre.in_flight@, coord);
                assert(old(self).pending@.take(started + 1) =~= old(self).pending@.take(
                    started as int,
                ).push(coord));
                assert(old(self).in_flight@ + r@.push(coord) =~= pre.in_flight@.push(coord));
            }
            self.in_flight.push(coord);
            r.push(coord);
            proof {
                assert forall|c: Vec3i| self.is_loaded(c) implies {
                    &&& !self.pending@.contains(c)
                    &&& !self.in_flight@.contains(c)
                } by {
                    assert(pre.is_loaded(c));
                    assert(self.pending@.contains(c) ==> pre.pending@.contains(c));
                    assert(self.in_flight@.contains(c) == (pre.in_flight@.contains(c) || c
                        == coord));
                }
                assert forall|c: Vec3i| self.pending@.contains(c) implies
                    !self.in_flight@.contains(c) by {
                    assert(pre.pending@.contains(c) && c != coord);
                    assert(self.in_flight@.contains(c) == (pre.in_flight@.contains(c) || c
                        == coord));
                }
            }
            started = started + 1;
        }
        proof {
            let p_len = old(self).pending@.len() as int;
            let f_len = old(self).in_flight@.len() as int;
            let k = started as int;
            if k == LOADS_PER_FRAME {
                assert(f_len + k <= MAX_IN_FLIGHT && k <= p_len);
            } else if self.in_flight@.len() >= MAX_IN_FLIGHT {
                assert(f_len + k == self.in_flight@.len());
            } else {
                assert(self.pending@.len() == 0);
                assert(p_len == k);
            }
            assert(k == spec_builds_to_start(p_len, f_len));
        }
        r
    }

    /// Return `true` if a finished chunk build is still desired by the
    /// current window; undesired results are discarded, never inserted.
    pub fn should_accept_finished_chunk(&self, coord: Vec3i) -> (r: bool)
        ensures
            r == self.needed@.contains(coord),
    {
        coords_contain(&self.needed, coord)
    }

    /// Mark one background build as finished by dropping its coordinate
    /// from the in-flight set (a no-op when it was already dropped).
    pub fn finish_build(&mut self, coord: Vec3i)
        requires
            old(self).wf(),
        ensures
            final(self).wf(),
            final(self).in_flight@ == (if old(self).in_flight@.contains(coord) {
                old(self).in_flight@.remove(old(self).in_flight@.index_of(coord))
            } else {
                old(self).in_flight@
            }),
            forall|c: Vec3i| final(self).in_flight@.contains(c) == (old(self).in_flight@.contains(
                c,
            ) && c != coord),
            final(self).needed@ == old(self).needed@,
            final(self).pending@ == old(self).pending@,
            final(self).chunks@ == old(self).chunks@,
            final(self).material == old(self).material,
            final(self).center == old(self).center,
    {
        let mut i: usize = 0;
        while i < self.in_flight.len()
            invariant
                old(self).wf(),
                *self == *old(self),
                i <= self.in_flight@.len(),
                forall|j: int| 0 <= j < i ==> self.in_flight@[j] != coord,
            decreases self.in_flight@.len() - i,
        {
            if self.in_flight[i].x == coord.x && self.in_flight[i].y == coord.y
                && self.in_flight[i].z == coord.z {
                proof {
                    assert(self.in_flight@[i as int] == coord);
                    lemma_distinct_index_of(self.in_flight@, i as int, coord);
                    lemma_distinct_remove(self.in_flight@, i as int);
                }
                self.in_flight.remove(i);
                proof {
                    assert forall|c: Vec3i| self.is_loaded(c) implies {
                        &&& !self.pending@.contains(c)
                        &&& !self.in_flight@.contains(c)
                    } by {
                        assert(old(self).is_loaded(c));
                        assert(self.in_flight@.contains(c) ==> old(self).in_flight@.contains(c));
                    }
                }
                return ;
            }
            i = i + 1;
        }
        proof {
            assert(!self.in_flight@.contains(coord));
        }
    }

    /// Spawn-side insertion of one built chunk: bind the voxels and the
    /// caller's render handle ids as a loaded chunk.
    pub fn insert_loaded_chunk(&mut self, coord: Vec3i, chunk: Chunk, mesh: u64, entity: u64)
        requires
            old(self).wf(),
            chunk.wf(),
            !old(self).is_loaded(coord),
            !old(self).pending@.contains(coord),
            !old(self).in_flight@.contains(coord),
        ensures
            final(self).wf(),
            final(self).chunks@ == old(self).chunks@.push(
                LoadedChunk { coord, data: ChunkData { chunk, mesh, entity } },
            ),
            forall|c: Vec3i| final(self).is_loaded(c) == (old(self).is_loaded(c) || c == coord),
            final(self).cells_at(coord) == chunk@,
            forall|c: Vec3i| c != coord && old(self).is_loaded(c) ==> final(self).cells_at(c)
                == old(self).cells_at(c),
            final(self).needed@ == old(self).needed@,
            final(self).pending@ == old(self).pending@,
            final(self).in_flight@ == old(self).in_flight@,
            final(self).material == old(self).material,
            final(self).center == old(self).center,
    {
        let entry = LoadedChunk { coord, data: ChunkData { chunk, mesh, entity } };
        self.chunks.push(entry);
        proof {
            let oldc = old(self).loaded_coords();
            assert(final(self).loaded_coords() =~= oldc.push(coord));
            lemma_push_contains(oldc, coord);
            assert(distinct_seq(final(self).loaded_coords())) by {
                assert forall|p: int, q: int| 0 <= p < q < oldc.push(coord).len() implies
                    oldc.push(coord)[p] != oldc.push(coord)[q] by {
                    if q < oldc.len() {
                        assert(oldc.push(coord)[p] == oldc[p] && oldc.push(coord)[q] == oldc[q]);
                    } else {
                        assert(oldc.push(coord)[q] == coord);
                        assert(oldc.push(coord)[p] == oldc[p]);
                        assert(oldc.contains(oldc[p]));
                    }
                }
            }
            assert(final(self).loaded_coords()[oldc.len() as int] == coord);
            lemma_distinct_index_of(final(self).loaded_coords(), oldc.len() as int, coord);
            assert(final(self).chunks@[oldc.len() as int].data.chunk == chunk);
            assert forall|c: Vec3i| c != coord && old(self).is_loaded(c) implies final(self).cells_at(c) == old(self).cells_at(c) by {
                let k = oldc.index_of(c);
                lemma_index_of_contains(oldc, c);
                assert(final(self).loaded_coords()[k] == c);
                lemma_distinct_index_of(final(self).loaded_coords(), k, c);
                assert(final(self).chunks@[k] == old(self).chunks@[k]);
            }
            assert forall|j: int| 0 <= j < final(self).chunks@.len() implies (#[trigger] final(self).chunks@[j]).data.chunk.wf() by {
                if j < old(self).chunks@.len() {
                    assert(final(self).chunks@[j] == old(self).chunks@[j]);
                }
            }
            assert forall|c: Vec3i| final(self).is_loaded(c) implies {
                &&& !final(self).pending@.contains(c)
                &&& !final(self).in_flight@.contains(c)
            } by {
                if c != coord {
                    assert(old(self).is_loaded(c));
                }
            }
        }
    }
}


impl WorldState {
    /// The raymarch outcome over a prefix of sample cells, carrying the
    /// last empty cell seen so far: the first solid cell becomes the hit
    /// and scanning stops; every non-solid (or unloaded) cell becomes the
    /// new last-empty cell.
    pub open spec fn spec_raymarch_from(
        self,
        samples: Seq<Vec3i>,
        k: int,
        last_empty: Option<Vec3i>,
    ) -> (Option<Vec3i>, Option<Vec3i>)
        decreases samples.len() - k,
    {
        if k < 0 || k >= samples.len() {
            (None, last_empty)
        } else if self.spec_is_solid_at(samples[k]) {
            (Some(samples[k]), last_empty)
        } else {
            self.spec_raymarch_from(samples, k + 1, Some(samples[k]))
        }
    }

    /// Walk the given sample cells in order and return
    /// `(first_solid_hit, last_empty_before_stopping)`: cells of unloaded
    /// chunks are treated as empty, the walk stops at the first solid
    /// cell, and every earlier cell is recorded as last-empty.
    pub fn raymarch_hit_and_last_empty(&self, samples: &Vec<Vec3i>) -> (r: (
        Option<Vec3i>,
        Option<Vec3i>,
    ))
        requires
            self.wf(),
        ensures
            r == self.spec_raymarch_from(samples@, 0, None::<Vec3i>),
    {
        let mut last_empty: Option<Vec3i> = None;
        let mut k: usize = 0;
        while k < samples.len()
            invariant
                self.wf(),
                k <= samples@.len(),
                self.spec_raymarch_from(samples@, 0, None::<Vec3i>) == self.spec_raymarch_from(
                    samples@,
                    k as int,
                    last_empty,
                ),
            decreases samples@.len() - k,
        {
            let cell = samples[k];
            if self.is_solid_at_world_pos(cell) {
                return (Some(cell), last_empty);
            }
            last_empty = Some(cell);
            k = k + 1;
        }
        (None, last_empty)
    }

    /// Whether any cell of an inclusive world-coordinate box is solid.
    pub open spec fn spec_box_has_solid(self, min_block: Vec3i, max_block: Vec3i) -> bool {
        exists|p: Vec3i|
            {
                &&& min_block.x <= p.x <= max_block.x
                &&& min_block.y <= p.y <= max_block.y
                &&& min_block.z <= p.z <= max_block.z
                &&& self.spec_is_solid_at(p)
            }
    }

    /// Check whether any block in the inclusive box of world coordinates
    /// `[min_block, max_block]` is solid (the box of an AABB, after the
    /// caller converts its world-space corners to block coordinates).
    pub fn intersects_solid(&self, min_block: Vec3i, max_block: Vec3i) -> (r: bool)
        requires
            self.wf(),
        ensures
            r == self.spec_box_has_solid(min_block, max_block),
    {
        let mut z: i64 = min_block.z as i64;
        while z <= max_block.z as i64
            invariant
                self.wf(),
                min_block.z as int <= z,
                forall|p: Vec3i| {
                    &&& min_block.x <= p.x <= max_block.x
                    &&& min_block.y <= p.y <= max_block.y
                    &&& min_block.z <= p.z < z
                } ==> !self.spec_is_solid_at(p),
            decreases max_block.z as int - z + 1,
        {
            let mut y: i64 = min_block.y as i64;
            while y <= max_block.y as i64
                invariant
                    self.wf(),
                    min_block.z as int <= z <= max_block.z as int,
                    min_block.y as int <= y,
                    forall|p: Vec3i| {
                        &&& min_block.x <= p.x <= max_block.x
                        &&& min_block.y <= p.y <= max_block.y
                        &&& min_block.z <= p.z < z
                    } ==> !self.spec_is_solid_at(p),
                    forall|p: Vec3i| {
                        &&& min_block.x <= p.x <= max_block.x
                        &&& min_block.y <= p.y < y
                        &&& p.z == z
                    } ==> !self.spec_is_solid_at(p),
                decreases max_block.y as int - y + 1,
            {
                let mut x: i64 = min_block.x as i64;
                while x <= max_block.x as i64
                    invariant
                        self.wf(),
                        min_block.z as int <= z <= max_block.z as int,
                        min_block.y as int <= y <= max_block.y as int,
                        min_block.x as int <= x,
                        forall|p: Vec3i| {
                            &&& min_block.x <= p.x <= max_block.x
                            &&& min_block.y <= p.y <= max_block.y
                            &&& min_block.z <= p.z < z
                        } ==> !self.spec_is_solid_at(p),
                        forall|p: Vec3i| {
                            &&& min_block.x <= p.x <= max_block.x
                            &&& min_block.y <= p.y < y
                            &&& p.z == z
                        } ==> !self.spec_is_solid_at(p),
                        forall|p: Vec3i| {
                            &&& min_block.x <= p.x < x
                            &&& p.y == y
                            &&& p.z == z
                        } ==> !self.spec_is_solid_at(p),
                    decreases max_block.x as int - x + 1,
                {
                    let cell = Vec3i { x: x as i32, y: y as i32, z: z as i32 };
                    if self.is_solid_at_world_pos(cell) {
                        return true;
                    }
                    x = x + 1;
                }
                y = y + 1;
            }
            z = z + 1;
        }
        false
    }

    /// Check whether any of the given probe cells under the player's
    /// footprint is solid, for the crouch edge guard.
    pub fn has_ground_support(&self, probes: &Vec<Vec3i>) -> (r: bool)
        requires
            self.wf(),
        ensures
            r == exists|i: int| 0 <= i < probes@.len() && self.spec_is_solid_at(probes@[i]),
    {
        let mut i: usize = 0;
        while i < probes.len()
            invariant
                self.wf(),
                i <= probes@.len(),
                forall|j: int| 0 <= j < i ==> !self.spec_is_solid_at(probes@[j]),
            decreases probes@.len() - i,
        {
            if self.is_solid_at_world_pos(probes[i]) {
                return true;
            }
            i = i + 1;
        }
        false
    }

    /// Whether a break at a world coordinate takes effect: the containing
    /// chunk is loaded and the cell holds an interactable block.
    pub open spec fn spec_can_break(self, target_world: Vec3i) -> bool {
        match self.spec_get_block_world(target_world) {
            Some(b) => b.spec_is_interactable(),
            None => false,
        }
    }

    /// Break one block at a world position: when its chunk is loaded and
    /// the block is interactable, write air into the cell and return the
    /// containing chunk coordinate so the caller can rebuild its mesh;
    /// otherwise change nothing.
    pub fn break_block(&mut self, target_world: Vec3i) -> (r: Option<Vec3i>)
        requires
            old(self).wf(),
        ensures
            final(self).wf(),
            r == (if old(self).spec_can_break(target_world) {
                Some(spec_chunk_of(target_world))
            } else {
                Option::<Vec3i>::None
            }),
            r is Some ==> final(self).cells_at(spec_chunk_of(target_world)) == spec_set(
                old(self).cells_at(spec_chunk_of(target_world)),
                spec_local_of(target_world),
                Block::spec_air(),
            ),
            r is Some ==> final(self).spec_get_block_world(target_world) == Some(
                Block::spec_air(),
            ),
            forall|c: Vec3i| c != spec_chunk_of(target_world) && old(self).is_loaded(c)
                ==> final(self).cells_at(c) == old(self).cells_at(c),
            r is None ==> *final(self) == *old(self),
            final(self).loaded_coords() == old(self).loaded_coords(),
            final(self).needed@ == old(self).needed@,
            final(self).pending@ == old(self).pending@,
            final(self).in_flight@ == old(self).in_flight@,
            final(self).material == old(self).material,
            final(self).center == old(self).center,
    {
        let target_block = match self.get_block_world(target_world) {
            Some(b) => b,
            None => {
                return None;
            },
        };
        if !target_block.is_interactable() {
            return None;
        }
        let r = self.set_block_world_loaded(target_world, Block::air());
        proof {
            crate::chunk::lemma_set_then_get(
                old(self).cells_at(spec_chunk_of(target_world)),
                spec_local_of(target_world),
                Block::spec_air(),
            );
            lemma_index_of_contains(old(self).loaded_coords(), spec_chunk_of(target_world));
        }
        r
    }

    /// Place one block at a world position unless the placement volume
    /// overlaps the player: the block's front is snapped away from the
    /// given camera-forward direction (so the visible front faces the
    /// viewer), and the write lands only in a loaded chunk, whose
    /// coordinate is returned for remeshing.
    pub fn place_block(
        &mut self,
        target_world: Vec3i,
        block: Block,
        forward_x: i64,
        forward_y: i64,
        forward_z: i64,
        overlaps_player: bool,
    ) -> (r: Option<Vec3i>)
        requires
            old(self).wf(),
            forward_x > i64::MIN,
            forward_y > i64::MIN,
            forward_z > i64::MIN,
        ensures
            final(self).wf(),
            overlaps_player ==> r is None && *final(self) == *old(self),
            !overlaps_player ==> r == (if old(self).is_loaded(spec_chunk_of(target_world)) {
                Some(spec_chunk_of(target_world))
            } else {
                Option::<Vec3i>::None
            }),
            r is Some ==> final(self).cells_at(spec_chunk_of(target_world)) == spec_set(
                old(self).cells_at(spec_chunk_of(target_world)),
                spec_local_of(target_world),
                block.spec_with_front_from_direction(
                    -(forward_x as int),
                    -(forward_y as int),
                    -(forward_z as int),
                ),
            ),
            forall|c: Vec3i| c != spec_chunk_of(target_world) && old(self).is_loaded(c)
                ==> final(self).cells_at(c) == old(self).cells_at(c),
            r is None ==> *final(self) == *old(self),
            final(self).loaded_coords() == old(self).loaded_coords(),
            final(self).needed@ == old(self).needed@,
            final(self).pending@ == old(self).pending@,
            final(self).in_flight@ == old(self).in_flight@,
            final(self).material == old(self).material,
            final(self).center == old(self).center,
    {
        if overlaps_player {
            return None;
        }
        // Use the full 3D look direction, negated, so the visible front
        // of the placed block faces the viewer.
        let block_to_place = block.with_front_from_direction(-forward_x, -forward_y, -forward_z);
        self.set_block_world_loaded(target_world, block_to_place)
    }
}

/// After one scheduling step, the desired set is fully covered: every
/// coordinate of the window that `enqueue_needed_chunks` ran against is
/// loaded, pending or in flight afterwards (and, by well-formedness, in
/// exactly one of the three).
pub proof fn lemma_enqueue_covers_needed(pre: WorldState, post: WorldState)
    requires
        post.pending@ == pre.pending@ + pre.needed@.filter(unscheduled_in(pre)),
        post.chunks@ == pre.chunks@,
        post.in_flight@ == pre.in_flight@,
    ensures
        forall|c: Vec3i| pre.needed@.contains(c) ==> post.is_loaded(c) || post.pending@.contains(
            c,
        ) || post.in_flight@.contains(c),
{
    let pred = unscheduled_in(pre);
    lemma_filter_props(pre.needed@, pred);
    lemma_add_contains(pre.pending@, pre.needed@.filter(pred));
    assert forall|c: Vec3i| pre.needed@.contains(c) implies post.is_loaded(c)
        || post.pending@.contains(c) || post.in_flight@.contains(c) by {
        if !pre.is_loaded(c) && !pre.pending@.contains(c) && !pre.in_flight@.contains(c) {
            assert(pred(c));
            assert(pre.needed@.filter(pred).contains(c));
        } else if pre.is_loaded(c) {
            assert(post.is_loaded(c));
        }
    }
}

/// The raymarch finds the first solid cell: a hit is a solid sample, a
/// miss means every sampled cell (from the scan start) is empty, and the
/// reported last-empty cell is never solid.
pub proof fn lemma_raymarch_finds_first_solid(
    world: WorldState,
    samples: Seq<Vec3i>,
    k: int,
    last_empty: Option<Vec3i>,
)
    requires
        0 <= k <= samples.len(),
        last_empty is Some ==> !world.spec_is_solid_at(last_empty->0),
    ensures
        ({
            let r = world.spec_raymarch_from(samples, k, last_empty);
            &&& r.0 is Some ==> world.spec_is_solid_at(r.0->0) && exists|i: int|
                k <= i < samples.len() && samples[i] == r.0->0 && forall|j: int| k <= j < i
                    ==> !world.spec_is_solid_at(#[trigger] samples[j])
            &&& r.0 is None ==> forall|j: int| k <= j < samples.len()
                ==> !world.spec_is_solid_at(#[trigger] samples[j])
            &&& r.1 is Some ==> !world.spec_is_solid_at(r.1->0)
        }),
    decreases samples.len() - k,
{
    if k < samples.len() {
        if world.spec_is_solid_at(samples[k]) {
            let r = world.spec_raymarch_from(samples, k, last_empty);
            assert(r.0 == Some(samples[k]));
            assert(samples[k] == r.0->0 && forall|j: int| k <= j < k
                ==> !world.spec_is_solid_at(#[trigger] samples[j]));
        } else {
            lemma_raymarch_finds_first_solid(world, samples, k + 1, Some(samples[k]));
            let r = world.spec_raymarch_from(samples, k, last_empty);
            if r.0 is Some {
                let i = choose|i: int|
                    k + 1 <= i < samples.len() && samples[i] == r.0->0 && forall|j: int|
                        k + 1 <= j < i ==> !world.spec_is_solid_at(#[trigger] samples[j]);
                assert(k <= i < samples.len() && samples[i] == r.0->0 && forall|j: int|
                    k <= j < i ==> !world.spec_is_solid_at(#[trigger] samples[j]));
            }
        }
    }
}

/// In a repeat-free sequence, a position holding a value is the value's
/// `index_of` position.
pub proof fn lemma_distinct_index_of(s: Seq<Vec3i>, i: int, c: Vec3i)
    requires
        distinct_seq(s),
        0 <= i < s.len(),
        s[i] == c,
    ensures
        s.contains(c),
        s.index_of(c) == i,
{
    assert(s.contains(c));
    let j = s.index_of(c);
    assert(s[j] == c);
    if i < j {
        assert(s[i] != s[j]);
    } else if j < i {
        assert(s[j] != s[i]);
    }
}

/// A contained value is found at its `index_of` position.
pub proof fn lemma_index_of_contains(s: Seq<Vec3i>, c: Vec3i)
    requires
        s.contains(c),
    ensures
        0 <= s.index_of(c) < s.len(),
        s[s.index_of(c)] == c,
{
}

/// Number of coordinates in one streaming window.
pub const WINDOW_SLOTS: usize = 512;

/// The coordinates gathered after walking the first `k` window slots:
/// exactly the window members ranked below `k`.
pub open spec fn window_prefix(center: Vec3i, r: Seq<Vec3i>, k: int) -> bool {
    forall|c: Vec3i| r.contains(c) == (WorldState::spec_in_window(center, c)
        && WorldState::spec_window_rank(center, c) < k)
}

/// Membership in a given coordinate set, as a filter predicate.
pub open spec fn keep_in(keep: Seq<Vec3i>) -> spec_fn(Vec3i) -> bool {
    |c: Vec3i| keep.contains(c)
}

/// Coordinates not yet known to a world state (neither loaded nor
/// pending nor in flight), as a filter predicate.
pub open spec fn unscheduled_in(w: WorldState) -> spec_fn(Vec3i) -> bool {
    |c: Vec3i| !w.is_loaded(c) && !w.pending@.contains(c) && !w.in_flight@.contains(c)
}

/// The coordinates of an eviction report, in eviction order.
pub open spec fn evicted_coords(r: Seq<(Vec3i, u64, u64)>) -> Seq<Vec3i> {
    r.map_values(|t: (Vec3i, u64, u64)| t.0)
}

/// Loaded coordinates due for eviction given a desired set: inside the
/// streamed vertical band but no longer desired.
pub open spec fn evictable_given(needed: Seq<Vec3i>) -> spec_fn(Vec3i) -> bool {
    |c: Vec3i| WorldState::spec_is_streaming_layer(c) && !needed.contains(c)
}

/// Number of builds one scheduling tick may start: bounded by the
/// per-tick limit, the free in-flight capacity, and the queue length.
pub open spec fn spec_builds_to_start(pending_len: int, in_flight_len: int) -> int {
    let cap = if MAX_IN_FLIGHT - in_flight_len >= 0 {
        MAX_IN_FLIGHT - in_flight_len
    } else {
        0
    };
    let per_tick = if (LOADS_PER_FRAME as int) <= cap {
        LOADS_PER_FRAME as int
    } else {
        cap
    };
    if per_tick <= pending_len {
        per_tick
    } else {
        pending_len
    }
}

/// Keep only the coordinates contained in `keep`, preserving order.
fn filter_contained(v: &Vec<Vec3i>, keep: &Vec<Vec3i>) -> (r: Vec<Vec3i>)
    ensures
        r@ == v@.filter(keep_in(keep@)),
{
    let ghost pred = keep_in(keep@);
    let mut r: Vec<Vec3i> = Vec::new();
    let mut i: usize = 0;
    while i < v.len()
        invariant
            i <= v@.len(),
            pred == keep_in(keep@),
            r@ == v@.take(i as int).filter(pred),
        decreases v@.len() - i,
    {
        let c = v[i];
        proof {
            assert(v@.take(i + 1) =~= v@.take(i as int).push(c));
            lemma_filter_push(v@.take(i as int), c, pred);
        }
        if coords_contain(keep, c) {
            r.push(c);
        } else {
            proof {
                assert(!pred(c));
            }
        }
        i = i + 1;
    }
    proof {
        assert(v@.take(v@.len() as int) =~= v@);
    }
    r
}

} // verus!
