use voxel_world::block::Block;
use voxel_world::chunk::Chunk;
use voxel_world::coords::{world_to_chunk_local, Vec3i};
use voxel_world::mesh::{build_chunk_mesh_data, build_single_block_mesh_data, UvVertex};
use voxel_world::CHUNK_SIZE;

/// World-to-chunk mapping recombines to the original coordinate, also for
/// negative world coordinates.
#[test]
fn world_chunk_local_roundtrip_including_negatives() {
    let cases = [
        Vec3i::new(0, 0, 0),
        Vec3i::new(15, 15, 15),
        Vec3i::new(16, 16, 16),
        Vec3i::new(-1, -1, -1),
        Vec3i::new(-16, -17, -33),
        Vec3i::new(123456, -654321, 31),
    ];
    for p in cases {
        let (chunk, local) = world_to_chunk_local(p);
        assert!(0 <= local.x && local.x < CHUNK_SIZE);
        assert!(0 <= local.y && local.y < CHUNK_SIZE);
        assert!(0 <= local.z && local.z < CHUNK_SIZE);
        assert_eq!(chunk.x * CHUNK_SIZE + local.x, p.x);
        assert_eq!(chunk.y * CHUNK_SIZE + local.y, p.y);
        assert_eq!(chunk.z * CHUNK_SIZE + local.z, p.z);
    }
    let (chunk, local) = world_to_chunk_local(Vec3i::new(-1, -1, -1));
    assert_eq!(chunk, Vec3i::new(-1, -1, -1));
    assert_eq!(local, Vec3i::new(15, 15, 15));
}

/// Reading after an in-bounds write returns the written block; an
/// out-of-bounds write is a no-op and an out-of-bounds read returns air.
#[test]
fn chunk_get_after_set_and_out_of_bounds_behavior() {
    let mut chunk = Chunk::new_empty();
    let local = Vec3i::new(3, 7, 11);
    chunk.set_block(local, Block::sand());
    assert_eq!(chunk.get_block(local), Block::sand());
    assert_eq!(chunk.get_block(Vec3i::new(3, 7, 12)), Block::air());

    // Out-of-bounds write changes nothing; out-of-bounds read is air.
    chunk.set_block(Vec3i::new(16, 0, 0), Block::dirt());
    chunk.set_block(Vec3i::new(0, -1, 0), Block::dirt());
    assert_eq!(chunk.get_block(Vec3i::new(16, 0, 0)), Block::air());
    assert_eq!(chunk.get_block(Vec3i::new(0, -1, 0)), Block::air());
    assert_eq!(chunk.get_block(local), Block::sand());
    assert!(!Chunk::in_bounds(Vec3i::new(16, 0, 0)));
    assert!(Chunk::in_bounds(Vec3i::new(15, 15, 15)));
}

/// Terrain generation fills each column with dirt up to its height, a
/// grassed dirt block at the height, and air above it.
#[test]
fn terrain_columns_follow_heights() {
    let mut heights: Vec<i32> = Vec::new();
    for i in 0..256 {
        heights.push((i % 5) as i32);
    }
    let chunk = Chunk::new_terrain(Vec3i::new(0, 0, 0), &heights);
    for z in 0..4 {
        for x in 0..4 {
            let h = heights[(z * 16 + x) as usize];
            for y in 0..16 {
                let got = chunk.get_block(Vec3i::new(x, y, z));
                if y > h {
                    assert_eq!(got, Block::air());
                } else if y == h {
                    assert_eq!(got, Block::dirt_with_grass());
                } else {
                    assert_eq!(got, Block::dirt());
                }
            }
        }
    }
}

/// Streaming generation produces terrain inside the vertical band and an
/// empty chunk outside it.
#[test]
fn streaming_chunks_outside_band_are_empty() {
    let heights: Vec<i32> = vec![3; 256];
    let in_band = Chunk::new_streaming(Vec3i::new(0, 0, 0), &heights);
    assert_eq!(in_band.get_block(Vec3i::new(0, 0, 0)), Block::dirt());
    let above_band = Chunk::new_streaming(Vec3i::new(0, 5, 0), &heights);
    for y in 0..16 {
        assert_eq!(above_band.get_block(Vec3i::new(0, y, 0)), Block::air());
    }
}

/// An empty chunk produces no geometry.
#[test]
fn mesh_of_empty_chunk_is_empty() {
    let chunk = Chunk::new_empty();
    let mesh = build_chunk_mesh_data(&chunk);
    assert_eq!(mesh.positions.len(), 0);
    assert_eq!(mesh.normals.len(), 0);
    assert_eq!(mesh.uvs.len(), 0);
    assert_eq!(mesh.indices.len(), 0);
}

/// A lone block emits all six faces; two adjacent blocks cull the two
/// touching faces, leaving ten.
#[test]
fn mesh_culls_faces_between_adjacent_blocks() {
    let mut chunk = Chunk::new_empty();
    chunk.set_block(Vec3i::new(5, 5, 5), Block::dirt());
    let lone = build_chunk_mesh_data(&chunk);
    assert_eq!(lone.positions.len(), 24);
    assert_eq!(lone.indices.len(), 36);

    chunk.set_block(Vec3i::new(6, 5, 5), Block::dirt());
    let pair = build_chunk_mesh_data(&chunk);
    assert_eq!(pair.positions.len(), 40);
    assert_eq!(pair.indices.len(), 60);
}

/// Faces at the chunk boundary are always drawn (the neighbor cell reads
/// as air), the known seam simplification.
#[test]
fn mesh_draws_boundary_faces() {
    let mut chunk = Chunk::new_empty();
    chunk.set_block(Vec3i::new(0, 0, 0), Block::dirt());
    let mesh = build_chunk_mesh_data(&chunk);
    assert_eq!(mesh.indices.len(), 36);
}

/// The single-block preview mesh always holds six quads with the quad
/// index pattern (0, 1, 2), (0, 2, 3).
#[test]
fn single_block_mesh_shape_and_indices() {
    let mesh = build_single_block_mesh_data(Block::dirt());
    assert_eq!(mesh.positions.len(), 24);
    assert_eq!(mesh.normals.len(), 24);
    assert_eq!(mesh.uvs.len(), 24);
    assert_eq!(mesh.indices.len(), 36);
    let expected: Vec<u32> = vec![0, 1, 2, 0, 2, 3];
    for q in 0..6 {
        for j in 0..6 {
            assert_eq!(mesh.indices[q * 6 + j], 4 * (q as u32) + expected[j]);
        }
    }
    // Face order is +X, -X, +Y, -Y, +Z, -Z; the +X face of the unit cube
    // spans the x == 1 plane.
    for j in 0..4 {
        assert_eq!(mesh.positions[j].x, 1);
        assert_eq!(mesh.normals[j], Vec3i::new(1, 0, 0));
    }
}

/// Grass-top tiles use plain V, grass-side tiles use flipped V, and the
/// U coordinates step through the owning tile column.
#[test]
fn mesh_uvs_select_tiles_and_flip() {
    let mesh = build_single_block_mesh_data(Block::dirt_with_grass());
    // Face 2 is +Y: GrassTop, tile 1, no flip.
    let top_uvs = &mesh.uvs[8..12];
    assert_eq!(top_uvs[0], UvVertex { u_num: 1, v_num: 0 });
    assert_eq!(top_uvs[1], UvVertex { u_num: 1, v_num: 1 });
    assert_eq!(top_uvs[2], UvVertex { u_num: 2, v_num: 1 });
    assert_eq!(top_uvs[3], UvVertex { u_num: 2, v_num: 0 });
    // Face 0 is +X: GrassSide, tile 0, V flipped.
    let side_uvs = &mesh.uvs[0..4];
    assert_eq!(side_uvs[0], UvVertex { u_num: 0, v_num: 1 });
    assert_eq!(side_uvs[1], UvVertex { u_num: 0, v_num: 0 });
    assert_eq!(side_uvs[2], UvVertex { u_num: 1, v_num: 0 });
    assert_eq!(side_uvs[3], UvVertex { u_num: 1, v_num: 1 });
}
