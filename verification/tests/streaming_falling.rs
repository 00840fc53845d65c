use voxel_world::block::Block;
use voxel_world::chunk::Chunk;
use voxel_world::coords::Vec3i;
use voxel_world::falling::{detach_falling_block, should_settle, should_start_falling,
    FallingBlock, FallingPropagationQueue};
use voxel_world::world::WorldState;
use voxel_world::{LOADS_PER_FRAME, MAX_IN_FLIGHT, VERTICAL_CHUNK_LAYERS, VIEW_DISTANCE};

/// Moving the viewpoint by exactly one chunk-width changes the needed set
/// by exactly the ring of newly entered and exited coordinates.
#[test]
fn needed_set_shifts_by_one_ring() {
    let before = WorldState::build_needed_chunk_set(Vec3i::new(0, 0, 0));
    let after = WorldState::build_needed_chunk_set(Vec3i::new(1, 0, 0));
    let expected =
        (2 * VIEW_DISTANCE) as usize * (2 * VIEW_DISTANCE) as usize * VERTICAL_CHUNK_LAYERS
            as usize;
    assert_eq!(before.len(), expected);
    assert_eq!(after.len(), expected);

    let exited: Vec<Vec3i> = before.iter().copied().filter(|c| !after.contains(c)).collect();
    let entered: Vec<Vec3i> = after.iter().copied().filter(|c| !before.contains(c)).collect();
    let ring = (2 * VIEW_DISTANCE) as usize * VERTICAL_CHUNK_LAYERS as usize;
    assert_eq!(exited.len(), ring);
    assert_eq!(entered.len(), ring);
    // The exited column is the far -X edge of the old window; the entered
    // one is the new +X edge.
    for c in exited {
        assert_eq!(c.x, -VIEW_DISTANCE);
    }
    for c in entered {
        assert_eq!(c.x, VIEW_DISTANCE);
    }
}

/// After syncing the window and running the eviction pass, no chunk in
/// the streamed band outside the new needed set remains loaded.
#[test]
fn eviction_unloads_chunks_outside_window() {
    let mut world = WorldState::new(0);
    let inside = Vec3i::new(0, 0, 0);
    let outside = Vec3i::new(VIEW_DISTANCE + 3, 0, 0);
    let above_band = Vec3i::new(VIEW_DISTANCE + 3, VERTICAL_CHUNK_LAYERS, 0);
    world.insert_loaded_chunk(inside, Chunk::new_empty(), 1, 1);
    world.insert_loaded_chunk(outside, Chunk::new_empty(), 2, 2);
    world.insert_loaded_chunk(above_band, Chunk::new_empty(), 3, 3);

    let needed = WorldState::build_needed_chunk_set(Vec3i::new(0, 0, 0));
    world.sync_needed_set(needed);
    let evicted = world.evict_unneeded_chunks();

    assert_eq!(evicted.len(), 1);
    assert_eq!(evicted[0], (outside, 2, 2));
    assert!(world.get_block_world(Vec3i::new(0, 0, 0)).is_some());
    assert!(world.get_block_world(Vec3i::new((VIEW_DISTANCE + 3) * 16, 0, 0)).is_none());
    // Chunks outside the streamed vertical band are never auto-evicted.
    assert!(
        world.get_block_world(Vec3i::new((VIEW_DISTANCE + 3) * 16, VERTICAL_CHUNK_LAYERS * 16, 0))
            .is_some()
    );
}

/// The scheduler enqueues exactly the needed coordinates that are not
/// already loaded, and starts builds bounded per tick and by the
/// in-flight cap.
#[test]
fn build_scheduling_respects_bounds() {
    let mut world = WorldState::new(0);
    let loaded = Vec3i::new(0, 0, 0);
    world.insert_loaded_chunk(loaded, Chunk::new_empty(), 0, 0);
    let needed = WorldState::build_needed_chunk_set(Vec3i::new(0, 0, 0));
    let needed_len = needed.len();
    world.sync_needed_set(needed);
    world.enqueue_needed_chunks();
    assert_eq!(world.pending.len(), needed_len - 1);

    let mut started_total = 0;
    loop {
        let started = world.start_chunk_builds();
        if started.is_empty() {
            break;
        }
        assert!(started.len() <= LOADS_PER_FRAME);
        started_total += started.len();
    }
    // The in-flight cap stops further starts.
    assert_eq!(started_total, MAX_IN_FLIGHT);
    assert_eq!(world.in_flight.len(), MAX_IN_FLIGHT);

    // Finishing one build frees capacity for exactly one more start.
    let done = world.in_flight[0];
    world.finish_build(done);
    assert!(world.should_accept_finished_chunk(done));
    world.insert_loaded_chunk(done, Chunk::new_empty(), 0, 0);
    let started = world.start_chunk_builds();
    assert_eq!(started.len(), 1);
}

/// A result whose coordinate left the window is discarded, never
/// inserted: the needed set is the final authority.
#[test]
fn finished_build_outside_window_is_discarded() {
    let mut world = WorldState::new(0);
    let needed = WorldState::build_needed_chunk_set(Vec3i::new(0, 0, 0));
    world.sync_needed_set(needed);
    let far = Vec3i::new(100, 0, 0);
    assert!(!world.should_accept_finished_chunk(far));
    assert!(world.should_accept_finished_chunk(Vec3i::new(0, 0, 0)));
}

/// A Sand-kind block with an air cell directly beneath it is a falling
/// candidate; a Dirt-kind block in the same configuration is not.
#[test]
fn sand_falls_dirt_does_not() {
    let mut world = WorldState::new(0);
    let mut chunk = Chunk::new_empty();
    chunk.set_block(Vec3i::new(4, 6, 4), Block::sand());
    world.insert_loaded_chunk(Vec3i::new(0, 0, 0), chunk, 0, 0);

    let pos = Vec3i::new(4, 6, 4);
    assert!(should_start_falling(&world, pos, Block::sand()));
    assert!(!should_start_falling(&world, pos, Block::dirt()));
    assert!(!should_start_falling(&world, pos, Block::dirt_with_grass()));
    assert!(!should_start_falling(&world, pos, Block::air()));
}

/// A supported sand block does not fall, and a sand block at the world
/// floor never detaches.
#[test]
fn supported_or_floor_sand_stays() {
    let mut world = WorldState::new(0);
    let mut chunk = Chunk::new_empty();
    chunk.set_block(Vec3i::new(4, 6, 4), Block::sand());
    chunk.set_block(Vec3i::new(4, 5, 4), Block::dirt());
    chunk.set_block(Vec3i::new(9, 0, 9), Block::sand());
    world.insert_loaded_chunk(Vec3i::new(0, 0, 0), chunk, 0, 0);

    assert!(!should_start_falling(&world, Vec3i::new(4, 6, 4), Block::sand()));
    assert!(!should_start_falling(&world, Vec3i::new(9, 0, 9), Block::sand()));
}

/// A freshly detached falling entity's source cell reads as air
/// immediately, so the position is never both solid-in-chunk and falling.
#[test]
fn detach_clears_source_cell() {
    let mut world = WorldState::new(0);
    let mut queue = FallingPropagationQueue::new();
    let mut chunk = Chunk::new_empty();
    let pos = Vec3i::new(4, 6, 4);
    chunk.set_block(pos, Block::sand());
    world.insert_loaded_chunk(Vec3i::new(0, 0, 0), chunk, 0, 0);

    let entity = detach_falling_block(&mut world, &mut queue, pos);
    assert!(entity.is_some());
    assert_eq!(entity.unwrap().block, Block::sand());
    assert_eq!(world.get_block_world(pos), Some(Block::air()));
    assert!(!world.is_solid_at_world_pos(pos));
    // Detachment re-queues the position and its five non-downward
    // neighbors for support checks.
    assert_eq!(queue.pending.len(), 6);
    assert!(queue.pending.contains(&pos));
    assert!(queue.pending.contains(&Vec3i::new(5, 6, 4)));
    assert!(queue.pending.contains(&Vec3i::new(3, 6, 4)));
    assert!(queue.pending.contains(&Vec3i::new(4, 7, 4)));
    assert!(queue.pending.contains(&Vec3i::new(4, 6, 5)));
    assert!(queue.pending.contains(&Vec3i::new(4, 6, 3)));
    assert!(!queue.pending.contains(&Vec3i::new(4, 5, 4)));
    // Detaching a stable block does nothing, to the queue either.
    let nothing = detach_falling_block(&mut world, &mut queue, Vec3i::new(1, 6, 1));
    assert!(nothing.is_none());
    assert_eq!(queue.pending.len(), 6);
}

/// The propagation queue deduplicates, pops in FIFO order, and spreads to
/// the four horizontal neighbors and the cell above, never downward.
#[test]
fn propagation_queue_dedup_and_neighbors() {
    let mut queue = FallingPropagationQueue::new();
    let pos = Vec3i::new(10, 10, 10);
    queue.enqueue(pos);
    queue.enqueue(pos);
    assert_eq!(queue.pending.len(), 1);

    queue.enqueue_with_neighbors(pos);
    assert_eq!(queue.pending.len(), 6);
    assert!(queue.pending.contains(&Vec3i::new(11, 10, 10)));
    assert!(queue.pending.contains(&Vec3i::new(9, 10, 10)));
    assert!(queue.pending.contains(&Vec3i::new(10, 11, 10)));
    assert!(queue.pending.contains(&Vec3i::new(10, 10, 11)));
    assert!(queue.pending.contains(&Vec3i::new(10, 10, 9)));
    assert!(!queue.pending.contains(&Vec3i::new(10, 9, 10)));

    assert_eq!(queue.pop(), Some(pos));
    assert_eq!(queue.pop(), Some(Vec3i::new(11, 10, 10)));
    let mut drained = 0;
    while queue.pop().is_some() {
        drained += 1;
    }
    assert_eq!(drained, 4);
    assert_eq!(queue.pop(), None);
}

/// A falling block settles exactly when the probed cell below is inside
/// the world floor and solid; settling writes its block into the landing
/// cell.
#[test]
fn falling_block_settles_on_solid_ground() {
    let mut world = WorldState::new(0);
    let mut chunk = Chunk::new_empty();
    chunk.set_block(Vec3i::new(4, 2, 4), Block::dirt());
    world.insert_loaded_chunk(Vec3i::new(0, 0, 0), chunk, 0, 0);

    assert!(should_settle(&world, Vec3i::new(4, 2, 4)));
    assert!(!should_settle(&world, Vec3i::new(4, 3, 4)));
    assert!(!should_settle(&world, Vec3i::new(4, -1, 4)));

    let falling = FallingBlock::new(Block::sand());
    let landing = Vec3i::new(4, 3, 4);
    let touched = world.settle_falling_block(landing, falling.block);
    assert_eq!(touched, Some(Vec3i::new(0, 0, 0)));
    assert_eq!(world.get_block_world(landing), Some(Block::sand()));
}

/// Ensuring a chunk inserts the supplied voxels only when the coordinate
/// is missing, and pulls the coordinate out of the build queues.
#[test]
fn ensure_chunk_inserts_once_and_dequeues() {
    let mut world = WorldState::new(0);
    let coord = Vec3i::new(2, 0, 2);
    world.pending.push(coord);

    let mut generated = Chunk::new_empty();
    generated.set_block(Vec3i::new(0, 0, 0), Block::dirt());
    world.ensure_chunk(coord, generated, 7, 8);
    assert!(world.is_solid_at_world_pos(Vec3i::new(32, 0, 32)));
    assert!(!world.pending.contains(&coord));

    // A second call with different voxels is a no-op.
    let mut other = Chunk::new_empty();
    other.set_block(Vec3i::new(0, 0, 0), Block::sand());
    world.ensure_chunk(coord, other, 9, 10);
    assert_eq!(world.get_block_world(Vec3i::new(32, 0, 32)), Some(Block::dirt()));
}
