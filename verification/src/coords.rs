//! Integer 3-vectors for world block coordinates, chunk-local coordinates
//! and chunk-grid coordinates, and the floored-division mapping between
//! world space and (chunk, local) space.
use vstd::prelude::*;

use crate::CHUNK_SIZE;

verus! {

/// Integer 3-vector used for world block coordinates, chunk coordinates
/// and chunk-local coordinates.
#[derive(Clone, Copy, Debug, PartialEq, Eq, Structural, Hash)]
pub struct Vec3i {
    /// X component.
    pub x: i32,
    /// Y component.
    pub y: i32,
    /// Z component.
    pub z: i32,
}

impl Vec3i {
    /// Build a vector from its three components.
    pub fn new(x: i32, y: i32, z: i32) -> (r: Vec3i)
        ensures
            r == (Vec3i { x, y, z }),
    {
        Vec3i { x, y, z }
    }
}

/// Chunk-grid coordinate containing a world block coordinate, by floored
/// division of each component by the chunk side.
pub open spec fn spec_chunk_of(p: Vec3i) -> Vec3i {
    Vec3i {
        x: (p.x as int / CHUNK_SIZE as int) as i32,
        y: (p.y as int / CHUNK_SIZE as int) as i32,
        z: (p.z as int / CHUNK_SIZE as int) as i32,
    }
}

/// Chunk-local coordinate of a world block coordinate, by the Euclidean
/// remainder of each component by the chunk side.
pub open spec fn spec_local_of(p: Vec3i) -> Vec3i {
    Vec3i {
        x: (p.x as int % CHUNK_SIZE as int) as i32,
        y: (p.y as int % CHUNK_SIZE as int) as i32,
        z: (p.z as int % CHUNK_SIZE as int) as i32,
    }
}

/// Convert a world block coordinate to `(chunk, local)` coordinates via
/// Euclidean (floored) division by the chunk side, so that negative world
/// coordinates map correctly.
///
/// The returned pair is the unique one with each local component in
/// `[0, CHUNK_SIZE)` and `chunk * CHUNK_SIZE + local == world` per axis.
pub fn world_to_chunk_local(world_pos: Vec3i) -> (r: (Vec3i, Vec3i))
    ensures
        r.0.x == world_pos.x as int / CHUNK_SIZE as int,
        r.0.y == world_pos.y as int / CHUNK_SIZE as int,
        r.0.z == world_pos.z as int / CHUNK_SIZE as int,
        0 <= r.1.x < CHUNK_SIZE,
        0 <= r.1.y < CHUNK_SIZE,
        0 <= r.1.z < CHUNK_SIZE,
        r.0.x * CHUNK_SIZE + r.1.x == world_pos.x,
        r.0.y * CHUNK_SIZE + r.1.y == world_pos.y,
        r.0.z * CHUNK_SIZE + r.1.z == world_pos.z,
        r.0 == spec_chunk_of(world_pos),
        r.1 == spec_local_of(world_pos),
{
    let chunk = Vec3i {
        x: div_euclid_chunk(world_pos.x),
        y: div_euclid_chunk(world_pos.y),
        z: div_euclid_chunk(world_pos.z),
    };
    let local = Vec3i {
        x: rem_euclid_chunk(world_pos.x),
        y: rem_euclid_chunk(world_pos.y),
        z: rem_euclid_chunk(world_pos.z),
    };
    (chunk, local)
}

/// Euclidean quotient of one coordinate by the chunk side.
fn div_euclid_chunk(a: i32) -> (r: i32)
    ensures
        r == a as int / CHUNK_SIZE as int,
{
    match a.checked_div_euclid(CHUNK_SIZE) {
        Some(q) => q,
        None => 0,
    }
}

/// Euclidean remainder of one coordinate by the chunk side.
fn rem_euclid_chunk(a: i32) -> (r: i32)
    ensures
        r == a as int % CHUNK_SIZE as int,
        0 <= r < CHUNK_SIZE,
{
    match a.checked_rem_euclid(CHUNK_SIZE) {
        Some(m) => m,
        None => 0,
    }
}

/// The world-to-chunk mapping is a bijection: recombining the chunk and
/// local coordinates returned by `world_to_chunk_local` restores the world
/// coordinate, including for negative coordinates, and no other in-bounds
/// pair recombines to the same world coordinate.
pub proof fn lemma_world_chunk_local_bijection(chunk: int, local: int, world: int)
    requires
        0 <= local < CHUNK_SIZE,
        chunk * CHUNK_SIZE + local == world,
    ensures
        chunk == world / CHUNK_SIZE as int,
        local == world % CHUNK_SIZE as int,
{
    vstd::arithmetic::div_mod::lemma_fundamental_div_mod_converse(
        world,
        CHUNK_SIZE as int,
        chunk,
        local,
    );
}

} // verus!
