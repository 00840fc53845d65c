use voxel_world::block::{Block, Facing};
use voxel_world::chunk::Chunk;
use voxel_world::coords::Vec3i;
use voxel_world::interaction::{is_face_neighbor, InteractionCooldown, SelectedBlock};
use voxel_world::mesh::build_chunk_mesh_data;
use voxel_world::world::WorldState;

/// Block edge length in world units, used when converting sample points.
const BLOCK_SIZE: f32 = 1.0;

/// Convert a world-space position to its integer block coordinate.
fn world_coord_from_position(x: f32, y: f32, z: f32) -> Vec3i {
    Vec3i::new(
        (x / BLOCK_SIZE).floor() as i32,
        (y / BLOCK_SIZE).floor() as i32,
        (z / BLOCK_SIZE).floor() as i32,
    )
}

/// Sample cells along a ray at the fixed raymarch step, up to the fixed
/// maximum reach of ten block lengths.
fn ray_samples(origin: [f32; 3], direction: [f32; 3]) -> Vec<Vec3i> {
    let step = 0.1_f32;
    let max_distance = 10.0_f32 * BLOCK_SIZE;
    let steps = (max_distance / step) as i32;
    let mut samples = Vec::new();
    for i in 0..steps {
        let t = i as f32 * step;
        samples.push(world_coord_from_position(
            origin[0] + direction[0] * t,
            origin[1] + direction[1] * t,
            origin[2] + direction[2] * t,
        ));
    }
    samples
}

/// Verify raymarch reports first solid hit and last empty block before that hit.
#[test]
fn raymarch_reports_hit_and_last_empty() {
    let mut world = WorldState::new(0);
    let mut chunk = Chunk::new_empty();
    chunk.set_block(Vec3i::new(3, 0, 0), Block::dirt());
    world.insert_loaded_chunk(Vec3i::new(0, 0, 0), chunk, 0, 0);

    let samples = ray_samples([0.5, 0.5, 0.5], [1.0, 0.0, 0.0]);
    let (hit, last_empty) = world.raymarch_hit_and_last_empty(&samples);

    assert_eq!(hit, Some(Vec3i::new(3, 0, 0)));
    assert_eq!(last_empty, Some(Vec3i::new(2, 0, 0)));
}

/// A ray through empty loaded space reports no hit and the last sampled
/// cell as last-empty.
#[test]
fn raymarch_without_solid_reports_no_hit() {
    let mut world = WorldState::new(0);
    world.insert_loaded_chunk(Vec3i::new(0, 0, 0), Chunk::new_empty(), 0, 0);
    let samples = ray_samples([0.5, 0.5, 0.5], [1.0, 0.0, 0.0]);
    let (hit, last_empty) = world.raymarch_hit_and_last_empty(&samples);
    assert_eq!(hit, None);
    assert_eq!(last_empty, Some(*samples.last().unwrap()));
}

/// Verify landing write-back updates loaded chunk voxel and reports touched chunk.
#[test]
fn set_block_world_loaded_writes_into_loaded_chunk() {
    let mut state = WorldState::new(0);
    let chunk_coord = Vec3i::new(0, 0, 0);
    state.insert_loaded_chunk(chunk_coord, Chunk::new_empty(), 0, 0);

    let landing_block = Vec3i::new(1, 2, 3);
    let touched = state.set_block_world_loaded(landing_block, Block::dirt());
    assert_eq!(touched, Some(chunk_coord));
    assert!(matches!(state.get_block_world(landing_block), Some(block) if block == Block::dirt()));
}

/// Writes into unloaded chunks report no touched chunk and change nothing.
#[test]
fn set_block_world_loaded_ignores_unloaded_chunks() {
    let mut state = WorldState::new(0);
    let touched = state.set_block_world_loaded(Vec3i::new(1, 2, 3), Block::dirt());
    assert_eq!(touched, None);
    assert_eq!(state.get_block_world(Vec3i::new(1, 2, 3)), None);
    assert!(!state.is_solid_at_world_pos(Vec3i::new(1, 2, 3)));
}

/// Breaking an interactable block sets its cell to air, and the owning
/// chunk's triangle count never grows (it strictly shrinks for an
/// exposed block).
#[test]
fn break_block_sets_air_and_shrinks_mesh() {
    let mut world = WorldState::new(0);
    let mut chunk = Chunk::new_empty();
    chunk.set_block(Vec3i::new(3, 0, 0), Block::dirt());
    chunk.set_block(Vec3i::new(4, 0, 0), Block::dirt());
    world.insert_loaded_chunk(Vec3i::new(0, 0, 0), chunk, 0, 0);

    let triangles_before = build_chunk_mesh_data(&world.chunks[0].data.chunk).indices.len() / 3;
    let touched = world.break_block(Vec3i::new(3, 0, 0));
    assert_eq!(touched, Some(Vec3i::new(0, 0, 0)));
    assert_eq!(world.get_block_world(Vec3i::new(3, 0, 0)), Some(Block::air()));
    let triangles_after = build_chunk_mesh_data(&world.chunks[0].data.chunk).indices.len() / 3;
    assert!(triangles_after <= triangles_before);
    assert!(triangles_after < triangles_before);
}

/// Breaking fails without mutation when the chunk is unloaded or the
/// block is not interactable (air).
#[test]
fn break_block_rejects_unloaded_and_air() {
    let mut world = WorldState::new(0);
    assert_eq!(world.break_block(Vec3i::new(3, 0, 0)), None);
    world.insert_loaded_chunk(Vec3i::new(0, 0, 0), Chunk::new_empty(), 0, 0);
    assert_eq!(world.break_block(Vec3i::new(3, 0, 0)), None);
    assert_eq!(world.get_block_world(Vec3i::new(3, 0, 0)), Some(Block::air()));
}

/// Attempting to place inside the player's own collider volume is
/// rejected: the store is unchanged and no chunk is touched.
#[test]
fn place_inside_player_collider_is_rejected() {
    let mut world = WorldState::new(0);
    world.insert_loaded_chunk(Vec3i::new(0, 0, 0), Chunk::new_empty(), 0, 0);
    let target = Vec3i::new(2, 2, 2);

    // The caller's AABB overlap test found an overlap.
    let touched = world.place_block(target, Block::sand(), 0, 0, 1, true);
    assert_eq!(touched, None);
    assert_eq!(world.get_block_world(target), Some(Block::air()));

    // The same placement away from the player succeeds.
    let touched = world.place_block(target, Block::sand(), 0, 0, 1, false);
    assert_eq!(touched, Some(Vec3i::new(0, 0, 0)));
    assert!(world.is_solid_at_world_pos(target));
}

/// The placed block's front derives from the negated camera forward, so
/// its visible front faces the viewer.
#[test]
fn place_orients_front_toward_viewer() {
    let mut world = WorldState::new(0);
    world.insert_loaded_chunk(Vec3i::new(0, 0, 0), Chunk::new_empty(), 0, 0);
    let target = Vec3i::new(2, 2, 2);
    // Camera looks toward +X; the front must point back at -X... negated
    // forward is (-1, 0, 0).
    world.place_block(target, Block::dirt(), 1, 0, 0, false);
    assert_eq!(world.get_block_world(target), Some(Block::dirt_facing(Facing::NegX)));
}

/// The AABB box query finds a solid cell inside the box and nothing in
/// an empty region.
#[test]
fn intersects_solid_box_query() {
    let mut world = WorldState::new(0);
    let mut chunk = Chunk::new_empty();
    chunk.set_block(Vec3i::new(5, 5, 5), Block::dirt());
    world.insert_loaded_chunk(Vec3i::new(0, 0, 0), chunk, 0, 0);
    assert!(world.intersects_solid(Vec3i::new(4, 4, 4), Vec3i::new(6, 6, 6)));
    assert!(!world.intersects_solid(Vec3i::new(0, 0, 0), Vec3i::new(4, 4, 4)));
    assert!(world.intersects_solid(Vec3i::new(5, 5, 5), Vec3i::new(5, 5, 5)));
}

/// The ground-support probe reports support exactly when one probe cell
/// is solid.
#[test]
fn ground_support_probes() {
    let mut world = WorldState::new(0);
    let mut chunk = Chunk::new_empty();
    chunk.set_block(Vec3i::new(2, 1, 2), Block::dirt());
    world.insert_loaded_chunk(Vec3i::new(0, 0, 0), chunk, 0, 0);
    let supported = vec![Vec3i::new(1, 1, 1), Vec3i::new(2, 1, 2)];
    let unsupported = vec![Vec3i::new(1, 1, 1), Vec3i::new(3, 1, 3)];
    assert!(world.has_ground_support(&supported));
    assert!(!world.has_ground_support(&unsupported));
}

/// Placement targets must be face-adjacent to the hit cell.
#[test]
fn face_neighbor_is_manhattan_distance_one() {
    let center = Vec3i::new(4, 5, 6);
    assert!(is_face_neighbor(center, Vec3i::new(5, 5, 6)));
    assert!(is_face_neighbor(center, Vec3i::new(4, 4, 6)));
    assert!(!is_face_neighbor(center, Vec3i::new(5, 6, 6)));
    assert!(!is_face_neighbor(center, center));
    assert!(!is_face_neighbor(center, Vec3i::new(6, 5, 6)));
}

/// The cooldown gate requires both the button and an elapsed interval,
/// and starts out ready.
#[test]
fn interaction_cooldown_gating() {
    let mut cooldown = InteractionCooldown::new();
    assert!(cooldown.can_break(true, 0));
    assert!(!cooldown.can_break(false, 0));
    cooldown.mark_break(0);
    assert!(!cooldown.can_break(true, 100));
    assert!(cooldown.can_break(true, 200));
    // The two actions are gated independently.
    assert!(cooldown.can_place(true, 100));
    cooldown.mark_place(100);
    assert!(!cooldown.can_place(true, 250));
    assert!(cooldown.can_place(true, 300));
}

/// Hotkey slots select grassed dirt, dirt and sand; other slots keep the
/// current selection.
#[test]
fn selection_hotkeys() {
    let mut selected = SelectedBlock::new(Block::dirt_with_grass());
    assert!(selected.apply_hotkey(2));
    assert_eq!(selected.current, Block::dirt());
    assert!(selected.apply_hotkey(3));
    assert_eq!(selected.current, Block::sand());
    assert!(selected.apply_hotkey(1));
    assert_eq!(selected.current, Block::dirt_with_grass());
    assert!(!selected.apply_hotkey(7));
    assert_eq!(selected.current, Block::dirt_with_grass());
}
