//! A chunked voxel world core: block and chunk storage, deterministic
//! coordinate mapping, face-culling mesh generation, chunk streaming
//! around a moving viewpoint, ray-based block interaction, and
//! gravity-driven falling-block rules.
use vstd::prelude::*;

pub mod atlas_image;
pub mod block;
pub mod block_defs;
pub mod chunk;
pub mod coords;
pub mod falling;
pub mod interaction;
pub mod material_catalog;
pub mod mesh;
pub mod seq_facts;
pub mod world;

verus! {

/// Side length of a cubic chunk, in blocks.
pub const CHUNK_SIZE: i32 = 16;

/// Number of vertically streamed chunk layers, starting at layer 0.
pub const VERTICAL_CHUNK_LAYERS: i32 = 2;

/// Horizontal streaming radius around the viewpoint, in chunks.
pub const VIEW_DISTANCE: i32 = 8;

/// Upper bound on background chunk builds started per scheduling tick.
pub const LOADS_PER_FRAME: usize = 2;

/// Upper bound on simultaneously in-flight background chunk builds.
pub const MAX_IN_FLIGHT: usize = 8;

} // verus!
